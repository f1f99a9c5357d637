//! Host-side configuration: the serial link and the collection
//! defaults.  Reading and writing the on-disk form is the embedding
//! program's concern.
use vstd::prelude::*;

verus! {

#[derive(Debug, Clone)]
pub struct SerialConfig {
    pub port: String,
    pub baud_rate: u32,
}

#[derive(Debug, Clone)]
pub struct CollectionConfig {
    pub default_channel: u8,
    pub default_duration: u32,
}

#[derive(Debug, Clone)]
pub struct Config {
    pub serial: SerialConfig,
    pub collection: CollectionConfig,
}

impl Default for Config {
    /// The defaults used when no configuration file exists.
    fn default() -> (r: Self)
        ensures
            r.serial.port@ == "/dev/ttyUSB0"@,
            r.serial.baud_rate == 115200,
            r.collection.default_channel == 6,
            r.collection.default_duration == 60,
    {
        Config {
            serial: SerialConfig { port: "/dev/ttyUSB0".to_string(), baud_rate: 115200 },
            collection: CollectionConfig { default_channel: 6, default_duration: 60 },
        }
    }
}

} // verus!
