//! Client handle for the optional live-streaming sink.  The network
//! plumbing lives outside; here only the settings are held.
use vstd::prelude::*;

use crate::models::StreamingConfig;

verus! {

pub struct RerunClient {
    pub config: StreamingConfig,
}

impl RerunClient {
    pub fn new(config: StreamingConfig) -> (r: Self)
        ensures
            r.config == config,
    {
        RerunClient { config }
    }
}

} // verus!
