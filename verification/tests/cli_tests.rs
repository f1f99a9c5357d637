use esp_csi_tui_rs::cli::{
    reset_config, set_csi, set_traffic, set_wifi, show_config, start_command, stop_command,
};
use esp_csi_tui_rs::session::{SessionCommand, UserConfig, WiFiMode};

#[test]
fn set_traffic_updates_frequency() {
    let mut cfg = UserConfig::new();
    let out = set_traffic(&mut cfg, Some("10"));
    assert_eq!(cfg.trigger_freq, 10);
    assert_eq!(out, vec!["Updated Traffic Configuration:", "Traffic Frequency: 10Hz"]);
}

#[test]
fn set_traffic_rejects_garbage() {
    let mut cfg = UserConfig::new();
    cfg.trigger_freq = 5;
    let out = set_traffic(&mut cfg, Some("fast"));
    assert_eq!(cfg.trigger_freq, 5);
    assert_eq!(out[0], "Invalid Frequency");
    assert_eq!(out[2], "Traffic Frequency: 5Hz");
}

#[test]
fn set_traffic_zero_disables() {
    let mut cfg = UserConfig::new();
    cfg.trigger_freq = 9;
    set_traffic(&mut cfg, Some("0"));
    assert_eq!(cfg.trigger_freq, 0);
}

#[test]
fn set_csi_disables_selected_features() {
    let mut cfg = UserConfig::new();
    let out = set_csi(&mut cfg, true, false, false, true);
    assert!(!cfg.csi_config.lltf_enabled);
    assert!(cfg.csi_config.htltf_enabled);
    assert!(cfg.csi_config.stbc_htltf2_enabled);
    assert!(!cfg.csi_config.ltf_merge_enabled);
    assert!(cfg.csi_config.channel_filter_enabled);
    assert_eq!(out[0], "Updated CSI Configuration:");
}

#[test]
fn set_wifi_mode_and_channel() {
    let mut cfg = UserConfig::new();
    let out = set_wifi(
        &mut cfg,
        Some("ap"),
        Some("5"),
        true,
        Some("my_network"),
        Some("secret_pw"),
        None,
        None,
        Some("6"),
    );
    assert!(matches!(cfg.op_mode, WiFiMode::AccessPoint));
    assert_eq!(cfg.max_connections, 5);
    assert_eq!(cfg.channel, 6);
    assert!(cfg.ssid_hidden);
    assert_eq!(cfg.ap_ssid.as_str(), "my network");
    assert_eq!(cfg.ap_password.as_str(), "secret pw");
    assert!(out.contains(&"Updated WiFi Configuration:".to_string()));
    assert!(out.contains(&"WiFi Operation Mode: AccessPoint".to_string()));
}

#[test]
fn set_wifi_invalid_mode_reports_text() {
    let mut cfg = UserConfig::new();
    let out = set_wifi(&mut cfg, Some("mesh"), None, false, None, None, None, None, None);
    assert!(matches!(cfg.op_mode, WiFiMode::Sniffer));
    assert_eq!(out[0], "Invalid WiFi Mode");
}

#[test]
fn set_wifi_rejects_overlong_credential() {
    let mut cfg = UserConfig::new();
    let long = "a".repeat(33);
    let out = set_wifi(&mut cfg, None, None, false, Some(&long), None, None, None, None);
    assert_eq!(cfg.ap_ssid.as_str(), "");
    assert!(out.contains(&"Invalid AP SSID".to_string()));
    let exactly32 = "b".repeat(32);
    set_wifi(&mut cfg, None, None, false, Some(&exactly32), None, None, None, None);
    assert_eq!(cfg.ap_ssid.as_str(), exactly32);
}

#[test]
fn set_wifi_station_credentials() {
    let mut cfg = UserConfig::new();
    set_wifi(
        &mut cfg,
        Some("station"),
        None,
        false,
        None,
        None,
        Some("home_wifi"),
        Some("pass_word"),
        None,
    );
    assert!(matches!(cfg.op_mode, WiFiMode::Station));
    assert_eq!(cfg.sta_ssid.as_str(), "home wifi");
    assert_eq!(cfg.sta_password.as_str(), "pass word");
}

#[test]
fn start_command_parses_duration() {
    let (cmd, out) = start_command(Some("120"));
    assert!(matches!(cmd, Some(SessionCommand::Start(Some(120)))));
    assert!(out.is_empty());
    let (cmd, out) = start_command(None);
    assert!(matches!(cmd, Some(SessionCommand::Start(None))));
    assert!(out.is_empty());
    let (cmd, out) = start_command(Some("soon"));
    assert!(cmd.is_none());
    assert_eq!(out, vec!["Invalid Duration"]);
    assert!(matches!(stop_command(), SessionCommand::Stop));
}

#[test]
fn reset_restores_defaults() {
    let mut cfg = UserConfig::new();
    cfg.trigger_freq = 44;
    cfg.channel = 9;
    let out = reset_config(&mut cfg);
    assert_eq!(cfg.trigger_freq, 0);
    assert_eq!(cfg.channel, 1);
    assert_eq!(out, vec!["Configuration Reset to Default Values"]);
}

#[test]
fn show_config_reports_all_sections() {
    let cfg = UserConfig::new();
    let out = show_config(&cfg);
    assert_eq!(out[0], "Traffic Settings:");
    assert_eq!(out[1], "Traffic Frequency: 0Hz");
    assert_eq!(out[2], "CSI Settings:");
    assert_eq!(
        out[3],
        "CSI Feature Flags: LLTF: true, HTLTF: true, STBC HTLTF: true, LTF Merge: true, Channel Filter: true"
    );
    assert_eq!(out[4], "WiFi Settings:");
    assert_eq!(out[5], "WiFi Operation Mode: Sniffer");
    assert_eq!(out[6], "WiFi Channel: 1");
    assert_eq!(out[7], "Station WiFi Settings:");
    assert_eq!(out[8], "SSID: '', Password: ''");
    assert_eq!(out[9], "Access Point WiFi Settings:");
    assert_eq!(out[10], "SSID: '', Password: '', SSID Hidden: false, Max Connections: 1");
}

#[test]
fn set_wifi_reports_every_fault_in_order() {
    let mut cfg = UserConfig::new();
    let long = "x".repeat(40);
    let out = set_wifi(
        &mut cfg,
        Some("mesh"),
        Some("many"),
        false,
        Some(&long),
        None,
        None,
        None,
        Some("999"),
    );
    assert_eq!(out[0], "Invalid WiFi Mode");
    assert_eq!(out[1], "Invalid Max Connections");
    assert_eq!(out[2], "Invalid Max Connections");
    assert_eq!(out[3], "Invalid AP SSID");
    assert_eq!(out[4], "Updated WiFi Configuration:");
    assert!(matches!(cfg.op_mode, WiFiMode::Sniffer));
    assert_eq!(cfg.max_connections, 1);
    assert_eq!(cfg.channel, 1);
}
