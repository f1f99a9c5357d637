use esp_csi_tui_rs::session::{
    collector_kind_for, collector_setup, derive_op_modes, reconfigure_actions, should_report,
    traffic_enabled, ApOperationMode, CollectionSession, CollectorKind, CollectorSetup,
    CollectorUpdate, SessionCommand, SessionState, StaOperationMode, StartSignal, UserConfig,
    WiFiMode,
};
use esp_csi_tui_rs::cli::set_wifi;

#[test]
fn session_bounded_run_expires() {
    let mut s = CollectionSession::new();
    assert!(matches!(s.state, SessionState::Idle));
    s.start(0, Some(2));
    assert!(matches!(s.state, SessionState::Running));
    assert!(!s.poll(0));
    assert!(matches!(s.state, SessionState::Running));
    assert!(!s.poll(1999));
    assert!(matches!(s.state, SessionState::Running));
    assert!(s.poll(2000));
    assert!(matches!(s.state, SessionState::Idle));
}

#[test]
fn session_unbounded_until_stop() {
    let mut s = CollectionSession::new();
    s.start(5, None);
    assert!(!s.poll(u64::MAX));
    assert!(matches!(s.state, SessionState::Running));
    s.stop();
    assert!(matches!(s.state, SessionState::Idle));
}

#[test]
fn stop_overwrites_start() {
    let mut sig = StartSignal::new();
    sig.signal(SessionCommand::Start(Some(60)));
    sig.signal(SessionCommand::Stop);
    assert!(matches!(sig.take(), Some(SessionCommand::Stop)));
    assert!(sig.take().is_none());
}

#[test]
fn latest_start_wins() {
    let mut sig = StartSignal::new();
    sig.signal(SessionCommand::Start(Some(1)));
    sig.signal(SessionCommand::Start(Some(9)));
    assert!(matches!(sig.take(), Some(SessionCommand::Start(Some(9)))));
}

#[test]
fn traffic_mode_follows_frequency() {
    let mut cfg = UserConfig::new();
    assert!(!traffic_enabled(&cfg));
    let (sta, ap) = derive_op_modes(&cfg);
    assert!(matches!(sta, StaOperationMode::Monitor));
    assert!(matches!(ap, ApOperationMode::Monitor));
    cfg.trigger_freq = 10;
    assert!(traffic_enabled(&cfg));
    let (sta, ap) = derive_op_modes(&cfg);
    assert!(matches!(sta, StaOperationMode::Trigger(10)));
    assert!(matches!(ap, ApOperationMode::Trigger(10)));
}

#[test]
fn report_rule_per_mode() {
    assert!(should_report(&WiFiMode::Sniffer, false));
    assert!(should_report(&WiFiMode::Sniffer, true));
    assert!(!should_report(&WiFiMode::AccessPoint, false));
    assert!(should_report(&WiFiMode::AccessPoint, true));
    assert!(!should_report(&WiFiMode::Station, false));
    assert!(should_report(&WiFiMode::Station, true));
    assert!(!should_report(&WiFiMode::AccessPointStation, false));
}

#[test]
fn collector_variant_matches_mode() {
    assert!(matches!(collector_kind_for(&WiFiMode::Sniffer), CollectorKind::Sniffer));
    assert!(matches!(collector_kind_for(&WiFiMode::Station), CollectorKind::Station));
    assert!(matches!(collector_kind_for(&WiFiMode::AccessPoint), CollectorKind::AccessPoint));
    assert!(matches!(
        collector_kind_for(&WiFiMode::AccessPointStation),
        CollectorKind::AccessPointStation
    ));
}

#[test]
fn reconfigure_plan_per_mode() {
    let mut cfg = UserConfig::new();
    let plan = reconfigure_actions(&cfg);
    assert_eq!(plan.len(), 1);
    assert!(matches!(plan[0], CollectorUpdate::CsiConfig(_)));

    cfg.op_mode = WiFiMode::Station;
    cfg.trigger_freq = 7;
    let plan = reconfigure_actions(&cfg);
    assert_eq!(plan.len(), 3);
    assert!(matches!(plan[0], CollectorUpdate::StaConfig { .. }));
    assert!(matches!(plan[1], CollectorUpdate::CsiConfig(_)));
    assert!(matches!(plan[2], CollectorUpdate::StaOpMode(StaOperationMode::Trigger(7))));

    cfg.op_mode = WiFiMode::AccessPoint;
    cfg.trigger_freq = 0;
    let plan = reconfigure_actions(&cfg);
    assert_eq!(plan.len(), 2);
    assert!(matches!(plan[0], CollectorUpdate::ApConfig { .. }));
    assert!(matches!(plan[1], CollectorUpdate::ApOpMode(ApOperationMode::Monitor)));

    cfg.op_mode = WiFiMode::AccessPointStation;
    let plan = reconfigure_actions(&cfg);
    assert_eq!(plan.len(), 3);
}

#[test]
fn default_config_values() {
    let cfg = UserConfig::new();
    assert!(matches!(cfg.op_mode, WiFiMode::Sniffer));
    assert_eq!(cfg.trigger_freq, 0);
    assert_eq!(cfg.max_connections, 1);
    assert_eq!(cfg.channel, 1);
    assert!(!cfg.ssid_hidden);
    assert!(cfg.csi_config.lltf_enabled);
    assert_eq!(cfg.ap_ssid.as_str(), "");
    let copy = cfg.duplicate();
    assert_eq!(copy.channel, 1);
    assert_eq!(copy.sta_ssid.as_str(), "");
}

#[test]
fn collector_setup_builds_from_configuration() {
    let mut cfg = UserConfig::new();
    assert!(matches!(collector_setup(&cfg), CollectorSetup::Sniffer { .. }));

    set_wifi(
        &mut cfg,
        Some("ap"),
        Some("5"),
        false,
        Some("net_a"),
        Some("pw_a"),
        None,
        None,
        Some("9"),
    );
    cfg.trigger_freq = 10;
    match collector_setup(&cfg) {
        CollectorSetup::AccessPoint { ssid, password, max_connections, op_mode } => {
            assert_eq!(ssid, "net a");
            assert_eq!(password, "pw a");
            assert_eq!(max_connections, 5);
            assert!(matches!(op_mode, ApOperationMode::Trigger(10)));
        }
        other => panic!("wrong variant: {:?}", other),
    }

    cfg.op_mode = WiFiMode::AccessPointStation;
    match collector_setup(&cfg) {
        CollectorSetup::AccessPointStation { ap_ssid, channel, op_mode, .. } => {
            assert_eq!(ap_ssid, "net a");
            assert_eq!(channel, 9);
            assert!(matches!(op_mode, ApOperationMode::Trigger(10)));
        }
        other => panic!("wrong variant: {:?}", other),
    }

    cfg.op_mode = WiFiMode::Station;
    cfg.trigger_freq = 0;
    match collector_setup(&cfg) {
        CollectorSetup::Station { ssid, csi_config, op_mode, .. } => {
            assert_eq!(ssid, "");
            assert!(csi_config.lltf_enabled);
            assert!(matches!(op_mode, StaOperationMode::Monitor));
        }
        other => panic!("wrong variant: {:?}", other),
    }
}
