use esp_csi_tui_rs::buffer::TelemetryBuffer;
use esp_csi_tui_rs::parser::CSIParser;
use esp_csi_tui_rs::transport::{
    classify_line, frame_command, LineClass, MonitorState, StreamAssembler,
};

#[test]
fn frame_appends_crlf() {
    assert_eq!(frame_command("start --duration=60"), "start --duration=60\r\n");
}

#[test]
fn assembler_joins_fragmented_chunks() {
    let mut assembler = StreamAssembler::new();
    assembler.feed("rssi: -6");
    assembler.feed("1\nchannel: 6\n\nnext");
    let blocks = assembler.drain_blocks();
    assert_eq!(blocks.len(), 1);
    let text: String = blocks[0].iter().collect();
    assert_eq!(text, "rssi: -61\nchannel: 6");
    // The partial tail stays buffered for the next poll.
    assembler.feed(" line\n\n");
    let blocks = assembler.drain_blocks();
    assert_eq!(blocks.len(), 1);
    let text: String = blocks[0].iter().collect();
    assert_eq!(text, "next line");
}

#[test]
fn classify_device_lines() {
    assert!(matches!(classify_line("   "), LineClass::Skip));
    assert!(matches!(classify_line(">>> prompt"), LineClass::Skip));
    assert!(matches!(classify_line("WiFi Configuration Set"), LineClass::WifiConfigured));
    assert!(matches!(classify_line("... WiFi Connected ..."), LineClass::WifiConnected));
    assert!(matches!(classify_line("mac: AA:BB:CC:DD:EE:FF"), LineClass::CsiData));
    assert!(matches!(classify_line("CSI frame 7"), LineClass::CsiData));
    assert!(matches!(classify_line("Collection stopped"), LineClass::CollectionStopped));
    assert!(matches!(classify_line("hello world"), LineClass::Other));
}

fn full_block() -> String {
    [
        "mac: AA:BB:CC:DD:EE:FF",
        "rssi: -61",
        "rate: 11",
        "noise floor: 161",
        "channel: 6",
        "timestamp: 100",
        "sig len: 100",
        "rx state: 0",
        "secondary channel: 0",
        "sgi: 0",
        "ant: 0",
        "ampdu cnt: 0",
        "sig_mode: 1",
        "mcs: 7",
        "cwb: 0",
        "smoothing: 1",
        "not sounding: 1",
        "aggregation: 1",
        "stbc: 1",
        "fec coding: 0",
        "data length: 384",
        "csi raw data:",
        "[0,1,2,3]",
    ]
    .join("\n")
}

#[test]
fn end_to_end_two_block_stream() {
    // Feed the transport a two-block text: one full block, then noise.
    let stream = format!("{}\n\n<noise line>\n\n", full_block());
    let mut assembler = StreamAssembler::new();
    assembler.feed(&stream);
    let blocks = assembler.drain_blocks();
    assert_eq!(blocks.len(), 2);

    let parser = CSIParser::new();
    let mut buf = TelemetryBuffer::new(16);
    for b in &blocks {
        let text: String = b.iter().collect();
        if let Some(p) = parser.parse_packet(&text) {
            buf.push(p);
        }
    }
    assert_eq!(buf.len(), 1);
    let p = buf.latest().unwrap();
    assert_eq!(p.mac, "AA:BB:CC:DD:EE:FF");
    assert_eq!(p.subcarrier_count(), 2);
    let amps = p.amplitude_squared();
    let amplitude0 = (amps[0] as f64).sqrt();
    assert!((amplitude0 - 1.0).abs() < 1e-12);
}

#[test]
fn monitor_folds_device_lines() {
    let mut m = MonitorState::new(3);
    assert_eq!(m.last_command, "None");
    m.note_sent("start --duration=60");
    assert_eq!(m.last_command, "start --duration=60");
    m.capturing = true;

    m.ingest_line("   ");
    m.ingest_line(">>> prompt");
    m.ingest_line("WiFi Connected");
    assert!(m.connected);
    assert_eq!(m.status, "WiFi Connected");
    m.ingest_line("mac: AA:BB:CC:DD:EE:FF");
    m.ingest_line("  mac: 11:22:33:44:55:66  ");
    assert!(m.collecting);
    assert_eq!(m.packets_received, 2);
    assert_eq!(m.latest_data.as_deref(), Some("mac: 11:22:33:44:55:66"));
    assert_eq!(m.captured, vec!["mac: AA:BB:CC:DD:EE:FF", "mac: 11:22:33:44:55:66"]);
    m.ingest_line("Collection stopped");
    assert!(!m.capturing);
    m.ingest_line("mac: AA:BB:CC:DD:EE:FF");
    assert_eq!(m.captured.len(), 2);
    assert_eq!(m.packets_received, 3);
    // The output log keeps only the last three lines.
    assert_eq!(
        m.output_log,
        vec!["mac: 11:22:33:44:55:66", "Collection stopped", "mac: AA:BB:CC:DD:EE:FF"]
    );
    assert_eq!(m.status_line(), "Status: WiFi Connected | Collecting: Yes | Packets: 3");
}
