//! Dispatch of host-side device commands.  Every command is accepted;
//! the work each one stands for is carried out by the owning layer.
use vstd::prelude::*;

use crate::models::DeviceCommand;

verus! {

pub struct CommandExecutor;

impl CommandExecutor {
    /// Accepts any command; none of the variants can fail here.
    pub fn execute(command: DeviceCommand) -> (r: Result<(), ()>)
        ensures
            r is Ok,
    {
        match command {
            DeviceCommand::Configure(_config) => Ok(()),
            DeviceCommand::StartCollection => Ok(()),
            DeviceCommand::StopCollection => Ok(()),
            DeviceCommand::Query => Ok(()),
            DeviceCommand::Disconnect => Ok(()),
        }
    }
}

} // verus!
