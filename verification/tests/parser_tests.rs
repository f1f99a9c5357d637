use esp_csi_tui_rs::packet::CSIPacket;
use esp_csi_tui_rs::parser::{CSIParser, CSIProcessor};
use esp_csi_tui_rs::render::render_block;

fn sample_block() -> String {
    [
        "mac: 40:E1:E4:1F:81:C6",
        "rssi: -61",
        "rate: 11",
        "noise floor: 161",
        "channel: 11",
        "timestamp: 3195366537",
        "sig len: 100",
        "rx state: 0",
        "secondary channel: 0",
        "sgi: 0",
        "ant: 0",
        "ampdu cnt: 0",
        "sig_mode: 1",
        "mcs: 7",
        "cwb: 0",
        "smoothing: 1",
        "not sounding: 1",
        "aggregation: 1",
        "stbc: 1",
        "fec coding: 0",
        "sig_len: 100",
        "data length: 384",
        "csi raw data:",
        "[-14, 5, -14, 6, -14, 7]",
    ]
    .join("\n")
}

#[test]
fn test_parse_packet() {
    let sample_output = format!("\n{}\n", sample_block());

    let parser = CSIParser::new();
    let packet = parser.parse_packet(&sample_output);

    assert!(packet.is_some());
    let pkt = packet.unwrap();
    assert_eq!(pkt.mac, "40:E1:E4:1F:81:C6");
    assert_eq!(pkt.rssi, -61);
    assert_eq!(pkt.channel, 11);
}

#[test]
fn test_process_single_packet() {
    let sample = [
        "mac: 40:E1:E4:1F:81:C6",
        "rssi: -61",
        "channel: 11",
        "timestamp: 1000000",
        "rate: 11",
        "noise floor: 161",
        "sig len: 100",
        "rx state: 0",
        "secondary channel: 0",
        "sgi: 0",
        "ant: 0",
        "ampdu cnt: 0",
        "sig_mode: 1",
        "mcs: 7",
        "cwb: 0",
        "smoothing: 1",
        "not sounding: 1",
        "aggregation: 1",
        "stbc: 1",
        "fec coding: 0",
        "data length: 384",
        "csi raw data:",
        "[-14, 5, -14, 6, -14, 7]",
    ]
    .join("\n");

    let processor = CSIProcessor::new();
    let packets = processor.process_output(&sample);

    assert_eq!(packets.len(), 1);
    assert_eq!(packets[0].mac, "40:E1:E4:1F:81:C6");
}

#[test]
fn parse_full_metadata_fields() {
    let parser = CSIParser::new();
    let pkt = parser.parse_packet(&sample_block()).unwrap();
    assert_eq!(pkt.timestamp, 3195366537);
    assert_eq!(pkt.rate, 11);
    assert_eq!(pkt.noise_floor, 161);
    assert_eq!(pkt.sig_len, 100);
    assert_eq!(pkt.rx_state, 0);
    assert_eq!(pkt.secondary_channel, 0);
    assert_eq!(pkt.sgi, 0);
    assert_eq!(pkt.ant, 0);
    assert_eq!(pkt.ampdu_cnt, 0);
    assert_eq!(pkt.sig_mode, 1);
    assert_eq!(pkt.mcs, 7);
    assert_eq!(pkt.cwb, 0);
    assert_eq!(pkt.smoothing, 1);
    assert_eq!(pkt.not_sounding, 1);
    assert_eq!(pkt.aggregation, 1);
    assert_eq!(pkt.stbc, 1);
    assert_eq!(pkt.fec_coding, 0);
    assert_eq!(pkt.data_length, 384);
    assert_eq!(pkt.csi_data, vec![-14, 5, -14, 6, -14, 7]);
    assert_eq!(pkt.subcarrier_count(), 3);
}

#[test]
fn parse_tolerates_arbitrary_text() {
    let parser = CSIParser::new();
    assert!(parser.parse_packet("").is_none());
    assert!(parser.parse_packet("mac:").is_none());
    assert!(parser.parse_packet("rssi: -61").is_none());
    assert!(parser.parse_packet("random noise\nwith: colons\n[brackets").is_none());
    assert!(parser.parse_packet("mac: zz\nrssi: notanumber").is_none());
    let truncated = sample_block().replace("[-14, 5, -14, 6, -14, 7]", "[-14, 5,");
    assert!(parser.parse_packet(&truncated).is_some());
    let empty_array = sample_block().replace("[-14, 5, -14, 6, -14, 7]", "[]");
    assert!(parser.parse_packet(&empty_array).is_none());
}

#[test]
fn odd_length_array_drops_the_block() {
    // Samples come in I/Q pairs: an odd count is a parse anomaly and
    // the block yields no packet.
    let parser = CSIParser::new();
    let odd = sample_block().replace("[-14, 5, -14, 6, -14, 7]", "[-14, 5, -14]");
    assert!(parser.parse_packet(&odd).is_none());
    let single = sample_block().replace("[-14, 5, -14, 6, -14, 7]", "[-14]");
    assert!(parser.parse_packet(&single).is_none());
}

#[test]
fn parse_missing_field_yields_none() {
    let parser = CSIParser::new();
    let without_rssi = sample_block().replace("rssi: -61\n", "");
    assert!(parser.parse_packet(&without_rssi).is_none());
}

#[test]
fn parse_rejects_out_of_range_values() {
    let parser = CSIParser::new();
    let bad_channel = sample_block().replace("channel: 11", "channel: 300");
    assert!(parser.parse_packet(&bad_channel).is_none());
    let bad_rssi = sample_block().replace("rssi: -61", "rssi: -9999999999999");
    assert!(parser.parse_packet(&bad_rssi).is_none());
}

#[test]
fn parse_uses_first_matching_line() {
    let parser = CSIParser::new();
    let duplicated = sample_block().replace("rssi: -61", "rssi: -61\nrssi: -99");
    let pkt = parser.parse_packet(&duplicated).unwrap();
    assert_eq!(pkt.rssi, -61);
}

#[test]
fn csi_array_skips_unreadable_entries() {
    let parser = CSIParser::new();
    let noisy = sample_block().replace("[-14, 5, -14, 6, -14, 7]", "[-14, x, 6]");
    let pkt = parser.parse_packet(&noisy).unwrap();
    assert_eq!(pkt.csi_data, vec![-14, 6]);
}

#[test]
fn malformed_block_tolerance() {
    let good = sample_block();
    let bad = good.replace("rssi: -61\n", "");
    let stream = format!("{}\n\n{}\n", good, bad);
    let processor = CSIProcessor::new();
    let packets = processor.process_output(&stream);
    assert_eq!(packets.len(), 1);
    assert_eq!(packets[0].rssi, -61);
}

#[test]
fn render_then_parse_round_trip() {
    let original = CSIPacket {
        mac: "40:E1:E4:1F:81:C6".to_string(),
        rssi: -61,
        channel: 11,
        timestamp: 3195366537,
        rate: 11,
        noise_floor: 161,
        sig_len: 100,
        rx_state: 0,
        secondary_channel: 0,
        sgi: 0,
        ant: 0,
        ampdu_cnt: 0,
        sig_mode: 1,
        mcs: 7,
        cwb: 0,
        smoothing: 1,
        not_sounding: 1,
        aggregation: 1,
        stbc: 1,
        fec_coding: 0,
        data_length: 384,
        csi_data: vec![-14, 5, -14, 6, -14, 7],
    };
    let text = render_block(&original);
    let parsed = CSIParser::new().parse_packet(&text).unwrap();
    assert_eq!(parsed.mac, original.mac);
    assert_eq!(parsed.rssi, original.rssi);
    assert_eq!(parsed.channel, original.channel);
    assert_eq!(parsed.timestamp, original.timestamp);
    assert_eq!(parsed.rate, original.rate);
    assert_eq!(parsed.noise_floor, original.noise_floor);
    assert_eq!(parsed.sig_len, original.sig_len);
    assert_eq!(parsed.rx_state, original.rx_state);
    assert_eq!(parsed.secondary_channel, original.secondary_channel);
    assert_eq!(parsed.sgi, original.sgi);
    assert_eq!(parsed.ant, original.ant);
    assert_eq!(parsed.ampdu_cnt, original.ampdu_cnt);
    assert_eq!(parsed.sig_mode, original.sig_mode);
    assert_eq!(parsed.mcs, original.mcs);
    assert_eq!(parsed.cwb, original.cwb);
    assert_eq!(parsed.smoothing, original.smoothing);
    assert_eq!(parsed.not_sounding, original.not_sounding);
    assert_eq!(parsed.aggregation, original.aggregation);
    assert_eq!(parsed.stbc, original.stbc);
    assert_eq!(parsed.fec_coding, original.fec_coding);
    assert_eq!(parsed.data_length, original.data_length);
    assert_eq!(parsed.csi_data, original.csi_data);
}

#[test]
fn render_then_parse_round_trip_zero_lead() {
    let original = CSIPacket {
        mac: "aa:bb:cc:dd:ee:ff".to_string(),
        rssi: 0,
        channel: 1,
        timestamp: 0,
        rate: 0,
        noise_floor: -96,
        sig_len: 0,
        rx_state: 255,
        secondary_channel: 2,
        sgi: 1,
        ant: 1,
        ampdu_cnt: 9,
        sig_mode: 3,
        mcs: 0,
        cwb: 1,
        smoothing: 0,
        not_sounding: 0,
        aggregation: 0,
        stbc: 0,
        fec_coding: 1,
        data_length: 65535,
        csi_data: vec![0, 1, 2, 3],
    };
    let text = render_block(&original);
    let parsed = CSIParser::new().parse_packet(&text).unwrap();
    assert_eq!(parsed.csi_data, original.csi_data);
    assert_eq!(parsed.mac, original.mac);
    assert_eq!(parsed.data_length, original.data_length);
}
