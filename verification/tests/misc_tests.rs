use esp_csi_tui_rs::charts::{ChartBuilder, ChartConfig, ChartType, PlotRenderer, PlotType};
use esp_csi_tui_rs::commands::CommandExecutor;
use esp_csi_tui_rs::config::Config;
use esp_csi_tui_rs::export::{CSIRecord, CSVExporter};
use esp_csi_tui_rs::models::{DeviceCommand, DeviceConfig, StreamFormat, StreamingConfig};
use esp_csi_tui_rs::packet::CSIPacket;
use esp_csi_tui_rs::plots::{isqrt, ASCIIPlotter};
use esp_csi_tui_rs::streaming::RerunClient;

#[test]
fn test_default_config() {
    let config = Config::default();
    assert_eq!(config.serial.port, "/dev/ttyUSB0");
    assert_eq!(config.serial.baud_rate, 115200);
    assert_eq!(config.collection.default_channel, 6);
}

#[test]
fn test_plotter_creation() {
    let plotter = ASCIIPlotter::new(80, 20);
    assert_eq!(plotter.width, 80);
    assert_eq!(plotter.height, 20);
}

fn sample_packet() -> CSIPacket {
    CSIPacket {
        mac: "00:11:22:33:44:55".to_string(),
        rssi: -50,
        channel: 6,
        timestamp: 1000000,
        rate: 65,
        noise_floor: 161,
        sig_len: 100,
        rx_state: 0,
        secondary_channel: 0,
        sgi: 0,
        ant: 0,
        ampdu_cnt: 0,
        sig_mode: 1,
        mcs: 7,
        cwb: 0,
        smoothing: 1,
        not_sounding: 1,
        aggregation: 1,
        stbc: 1,
        fec_coding: 0,
        data_length: 384,
        csi_data: vec![10, 5, 20, 8, 15, 12],
    }
}

#[test]
fn test_record_conversion() {
    let packet = sample_packet();

    let record = CSIRecord::from_packet(&packet);
    assert_eq!(record.mac_address, "00:11:22:33:44:55");
    assert_eq!(record.rssi_dbm, -50);
    assert_eq!(record.channel, 6);
}

#[test]
fn record_peak_is_largest_squared_amplitude() {
    let record = CSIRecord::from_packet(&sample_packet());
    // Pairs (10,5), (20,8), (15,12): squares 125, 464, 369.
    assert_eq!(record.amplitude_peak_sq, 464);
    assert_eq!(record.subcarrier_count, 3);
}

#[test]
fn export_renders_header_and_rows() {
    let packets = vec![sample_packet()];
    let text = CSVExporter::export_packets(&packets);
    let mut lines = text.lines();
    assert_eq!(
        lines.next().unwrap(),
        "timestamp_us,mac_address,rssi_dbm,channel,rate_mbps,signal_length,subcarrier_count,amplitude_peak_sq"
    );
    assert_eq!(lines.next().unwrap(), "1000000,00:11:22:33:44:55,-50,6,65,100,3,464");
    assert!(lines.next().is_none());
}

#[test]
fn export_with_metadata_prepends_comments() {
    let packets = vec![sample_packet()];
    let metadata = vec![("Export Time".to_string(), "today".to_string())];
    let text = CSVExporter::export_with_metadata(&packets, &metadata);
    let mut lines = text.lines();
    assert_eq!(lines.next().unwrap(), "# Export Time: today");
    assert_eq!(lines.next().unwrap(), "");
    assert!(lines.next().unwrap().starts_with("timestamp_us,"));
}

#[test]
fn isqrt_exact_and_floor() {
    assert_eq!(isqrt(0), 0);
    assert_eq!(isqrt(1), 1);
    assert_eq!(isqrt(24), 4);
    assert_eq!(isqrt(25), 5);
    assert_eq!(isqrt(26), 5);
    assert_eq!(isqrt(u64::MAX), 4294967295);
}

#[test]
fn chart_configs_per_type() {
    let c = ChartBuilder::create_config(ChartType::MagnitudeSpectrum);
    assert_eq!(c.title, "CSI Magnitude Spectrum");
    assert_eq!(c.y_label, "Magnitude (dB)");
    let c = ChartBuilder::create_config(ChartType::PhaseSpectrum);
    assert_eq!(c.y_label, "Phase (radians)");
    let c = ChartBuilder::create_config(ChartType::TimeSeries);
    assert_eq!(c.title, "RSSI Over Time");
    let d = ChartConfig::default();
    assert_eq!(d.title, "CSI Data");
    assert!(d.show_grid && d.auto_scale);
}

#[test]
fn plot_renderer_labels() {
    let r = PlotRenderer::new(PlotType::Heatmap);
    let packets: Vec<CSIPacket> = Vec::new();
    assert_eq!(r.render_data(&packets), "Heatmap View");
}

#[test]
fn command_executor_accepts_all() {
    assert!(CommandExecutor::execute(DeviceCommand::StartCollection).is_ok());
    assert!(CommandExecutor::execute(DeviceCommand::StopCollection).is_ok());
    assert!(CommandExecutor::execute(DeviceCommand::Query).is_ok());
    assert!(CommandExecutor::execute(DeviceCommand::Disconnect).is_ok());
    assert!(CommandExecutor::execute(DeviceCommand::Configure(DeviceConfig::default())).is_ok());
}

#[test]
fn streaming_defaults() {
    let cfg = StreamingConfig::default();
    assert!(!cfg.enabled);
    assert_eq!(cfg.server_url, "http://localhost:9090");
    assert!(matches!(cfg.format, StreamFormat::Json));
    let client = RerunClient::new(cfg);
    assert!(!client.config.enabled);
}

#[test]
fn device_config_defaults() {
    let cfg = DeviceConfig::default();
    assert_eq!(cfg.port, "/dev/ttyUSB0");
    assert_eq!(cfg.baud_rate, 115200);
    assert_eq!(cfg.channel, 6);
    assert_eq!(cfg.bandwidth, 20);
    assert_eq!(cfg.collection_interval_ms, 100);
}
