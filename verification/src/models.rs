//! Host-side models: the device link settings, the commands the host
//! can issue, and the streaming sink settings.
use vstd::prelude::*;

verus! {

/// Settings for one device link.
#[derive(Debug, Clone)]
pub struct DeviceConfig {
    pub port: String,
    pub baud_rate: u32,
    pub channel: u8,
    pub bandwidth: u16,
    pub collection_interval_ms: u64,
}

impl Default for DeviceConfig {
    fn default() -> (r: Self)
        ensures
            r.port@ == "/dev/ttyUSB0"@,
            r.baud_rate == 115200,
            r.channel == 6,
            r.bandwidth == 20,
            r.collection_interval_ms == 100,
    {
        DeviceConfig {
            port: "/dev/ttyUSB0".to_string(),
            baud_rate: 115200,
            channel: 6,
            bandwidth: 20,
            collection_interval_ms: 100,
        }
    }
}

/// One command the host issues to the device.
#[derive(Debug, Clone)]
pub enum DeviceCommand {
    Configure(DeviceConfig),
    StartCollection,
    StopCollection,
    Query,
    Disconnect,
}

/// How buffered measurements are streamed out, when streaming is on.
#[derive(Debug, Clone)]
pub enum StreamFormat {
    Rrd,
    Json,
}

/// Settings for the streaming sink.
#[derive(Debug, Clone)]
pub struct StreamingConfig {
    pub enabled: bool,
    pub server_url: String,
    pub format: StreamFormat,
}

impl Default for StreamingConfig {
    fn default() -> (r: Self)
        ensures
            !r.enabled,
            r.server_url@ == "http://localhost:9090"@,
            r.format is Json,
    {
        StreamingConfig {
            enabled: false,
            server_url: "http://localhost:9090".to_string(),
            format: StreamFormat::Json,
        }
    }
}

} // verus!
