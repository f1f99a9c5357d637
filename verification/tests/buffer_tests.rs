use esp_csi_tui_rs::buffer::{summary_stats, DataProcessor, TelemetryBuffer};
use esp_csi_tui_rs::packet::CSIPacket;

fn packet_with(rssi: i32, timestamp: u64, csi: Vec<i32>) -> CSIPacket {
    CSIPacket {
        mac: "00:11:22:33:44:55".to_string(),
        rssi,
        channel: 6,
        timestamp,
        rate: 11,
        noise_floor: 161,
        sig_len: 100,
        rx_state: 0,
        secondary_channel: 0,
        sgi: 0,
        ant: 0,
        ampdu_cnt: 0,
        sig_mode: 1,
        mcs: 7,
        cwb: 0,
        smoothing: 1,
        not_sounding: 1,
        aggregation: 1,
        stbc: 1,
        fec_coding: 0,
        data_length: 384,
        csi_data: csi,
    }
}

#[test]
fn buffer_bound_keeps_last_pushes_in_order() {
    let mut buf = TelemetryBuffer::new(3);
    for i in 0..5u64 {
        buf.push(packet_with(-50 - i as i32, i, vec![0, 1]));
    }
    let snap = buf.snapshot();
    assert_eq!(snap.len(), 3);
    assert_eq!(snap[0].timestamp, 2);
    assert_eq!(snap[1].timestamp, 3);
    assert_eq!(snap[2].timestamp, 4);
    assert_eq!(buf.latest().unwrap().timestamp, 4);
}

#[test]
fn buffer_below_capacity_keeps_everything() {
    let mut buf = TelemetryBuffer::new(10);
    buf.push(packet_with(-40, 1, vec![0, 1]));
    buf.push(packet_with(-41, 2, vec![0, 1]));
    assert_eq!(buf.len(), 2);
    assert_eq!(buf.snapshot()[0].timestamp, 1);
}

#[test]
fn summary_matches_linear_scan() {
    let packets = vec![
        packet_with(-50, 1, vec![0, 1]),
        packet_with(-61, 2, vec![0, 1]),
        packet_with(-45, 3, vec![0, 1]),
    ];
    let s = summary_stats(&packets);
    assert_eq!(s.count, 3);
    assert_eq!(s.rssi_min, -61);
    assert_eq!(s.rssi_max, -45);
    assert_eq!(s.rssi_sum, -156);
    let mean = s.rssi_sum as f64 / s.count as f64;
    assert!((mean + 52.0).abs() < 1e-9);
}

#[test]
fn summary_of_empty_window() {
    let packets: Vec<CSIPacket> = Vec::new();
    let s = summary_stats(&packets);
    assert_eq!(s.count, 0);
    assert_eq!(s.rssi_min, 0);
    assert_eq!(s.rssi_max, 0);
    assert_eq!(s.rssi_sum, 0);
}

#[test]
fn amplitude_and_phase_of_three_four() {
    let p = packet_with(-50, 1, vec![3, 4]);
    let amps = p.amplitude_squared();
    assert_eq!(amps, vec![25]);
    let amplitude = (amps[0] as f64).sqrt();
    assert!((amplitude - 5.0).abs() < 1e-12);
    let phase = (p.csi_data[1] as f64).atan2(p.csi_data[0] as f64);
    assert!((phase - 0.9273).abs() < 1e-4);
}

#[test]
fn amplitude_squared_pairs_and_odd_tail() {
    let p = packet_with(-50, 1, vec![1, 2, 3, 4, 5]);
    assert_eq!(p.amplitude_squared(), vec![5, 25, 25]);
    assert_eq!(p.subcarrier_count(), 2);
}

#[test]
fn data_processor_projections() {
    let packets = vec![packet_with(-50, 1, vec![0, 1]), packet_with(-51, 2, vec![3, 4])];
    assert_eq!(DataProcessor::magnitude_sq_spectrum(&packets), vec![25]);
    let heat = DataProcessor::heatmap_sq_data(&packets);
    assert_eq!(heat, vec![vec![1], vec![25]]);
    let stats = DataProcessor::statistics(&packets);
    assert_eq!(stats.rssi_min, -51);
    let empty: Vec<CSIPacket> = Vec::new();
    assert!(DataProcessor::magnitude_sq_spectrum(&empty).is_empty());
}
