//! Device command handling: each configuration verb edits the shared
//! configuration and answers in plain text.  A value that does not
//! parse, an unknown mode, or an over-long credential is reported as
//! text and leaves the prior value unchanged.
use vstd::prelude::*;

use vstd::utf8::is_ascii_chars;

use crate::session::{
    hstr_chars, hstr_new, hstr_push_str, CsiFeatureConfig, SessionCommand, UserConfig, WiFiMode,
};
use crate::text::{chars_of, fmt_nat_spec, fmt_u64, parse_uint_max, parse_uint_spec};

verus! {

// ---------------------------------------------------------------------------
// Small rendering helpers
// ---------------------------------------------------------------------------

pub open spec fn bool_chars(b: bool) -> Seq<char> {
    if b {
        "true"@
    } else {
        "false"@
    }
}

fn bool_str(b: bool) -> (r: &'static str)
    ensures
        r@ == bool_chars(b),
{
    if b {
        "true"
    } else {
        "false"
    }
}

pub open spec fn mode_chars(m: WiFiMode) -> Seq<char> {
    match m {
        WiFiMode::AccessPoint => "AccessPoint"@,
        WiFiMode::AccessPointStation => "AccessPointStation"@,
        WiFiMode::Station => "Station"@,
        WiFiMode::Sniffer => "Sniffer"@,
    }
}

fn mode_str(m: &WiFiMode) -> (r: &'static str)
    ensures
        r@ == mode_chars(*m),
{
    match m {
        WiFiMode::AccessPoint => "AccessPoint",
        WiFiMode::AccessPointStation => "AccessPointStation",
        WiFiMode::Station => "Station",
        WiFiMode::Sniffer => "Sniffer",
    }
}

fn concat3(a: &str, b: &str, c: &str) -> (r: String)
    ensures
        r@ == a@ + b@ + c@,
{
    let mut r = String::from_str(a);
    r.append(b);
    r.append(c);
    r
}

fn concat5(a: &str, b: &str, c: &str, d: &str, e: &str) -> (r: String)
    ensures
        r@ == a@ + b@ + c@ + d@ + e@,
{
    let mut r = String::from_str(a);
    r.append(b);
    r.append(c);
    r.append(d);
    r.append(e);
    r
}

// ---------------------------------------------------------------------------
// Configuration reports
// ---------------------------------------------------------------------------

/// The traffic section of a configuration report.
pub open spec fn traffic_report_spec(cfg: UserConfig) -> Seq<Seq<char>> {
    seq!["Traffic Frequency: "@ + fmt_nat_spec(cfg.trigger_freq as int) + "Hz"@]
}

pub fn traffic_report(cfg: &UserConfig) -> (r: Vec<String>)
    ensures
        r@.len() == traffic_report_spec(*cfg).len(),
        forall|i: int| 0 <= i < r@.len() ==> r@[i]@ == traffic_report_spec(*cfg)[i],
{
    let f = fmt_u64(cfg.trigger_freq);
    let mut r: Vec<String> = Vec::new();
    r.push(concat3("Traffic Frequency: ", f.as_str(), "Hz"));
    r
}

/// The CSI feature section of a configuration report.
pub open spec fn csi_report_spec(cfg: UserConfig) -> Seq<Seq<char>> {
    seq![
        "CSI Feature Flags: LLTF: "@ + bool_chars(cfg.csi_config.lltf_enabled) + ", HTLTF: "@
            + bool_chars(cfg.csi_config.htltf_enabled) + ", STBC HTLTF: "@ + bool_chars(
            cfg.csi_config.stbc_htltf2_enabled,
        ) + ", LTF Merge: "@ + bool_chars(cfg.csi_config.ltf_merge_enabled) + ", Channel Filter: "@
            + bool_chars(cfg.csi_config.channel_filter_enabled),
    ]
}

pub fn csi_report(cfg: &UserConfig) -> (r: Vec<String>)
    ensures
        r@.len() == csi_report_spec(*cfg).len(),
        forall|i: int| 0 <= i < r@.len() ==> r@[i]@ == csi_report_spec(*cfg)[i],
{
    let mut line = String::from_str("CSI Feature Flags: LLTF: ");
    line.append(bool_str(cfg.csi_config.lltf_enabled));
    line.append(", HTLTF: ");
    line.append(bool_str(cfg.csi_config.htltf_enabled));
    line.append(", STBC HTLTF: ");
    line.append(bool_str(cfg.csi_config.stbc_htltf2_enabled));
    line.append(", LTF Merge: ");
    line.append(bool_str(cfg.csi_config.ltf_merge_enabled));
    line.append(", Channel Filter: ");
    line.append(bool_str(cfg.csi_config.channel_filter_enabled));
    let mut r: Vec<String> = Vec::new();
    r.push(line);
    r
}

/// The WiFi section of a configuration report.
pub open spec fn wifi_report_spec(cfg: UserConfig) -> Seq<Seq<char>> {
    seq![
        "WiFi Operation Mode: "@ + mode_chars(cfg.op_mode),
        "WiFi Channel: "@ + fmt_nat_spec(cfg.channel as int),
        "Station WiFi Settings:"@,
        "SSID: '"@ + hstr_chars(&cfg.sta_ssid) + "', Password: '"@ + hstr_chars(&cfg.sta_password)
            + "'"@,
        "Access Point WiFi Settings:"@,
        "SSID: '"@ + hstr_chars(&cfg.ap_ssid) + "', Password: '"@ + hstr_chars(&cfg.ap_password)
            + "', SSID Hidden: "@ + bool_chars(cfg.ssid_hidden) + ", Max Connections: "@
            + fmt_nat_spec(cfg.max_connections as int),
    ]
}

pub fn wifi_report(cfg: &UserConfig) -> (r: Vec<String>)
    ensures
        r@.len() == wifi_report_spec(*cfg).len(),
        forall|i: int| 0 <= i < r@.len() ==> r@[i]@ == wifi_report_spec(*cfg)[i],
{
    let mut r: Vec<String> = Vec::new();
    r.push(concat3("WiFi Operation Mode: ", mode_str(&cfg.op_mode), ""));
    let ch = fmt_u64(cfg.channel as u64);
    r.push(concat3("WiFi Channel: ", ch.as_str(), ""));
    r.push(String::from_str("Station WiFi Settings:"));
    r.push(
        concat5(
            "SSID: '",
            crate::session::hstr_as_str(&cfg.sta_ssid),
            "', Password: '",
            crate::session::hstr_as_str(&cfg.sta_password),
            "'",
        ),
    );
    r.push(String::from_str("Access Point WiFi Settings:"));
    let mc = fmt_u64(cfg.max_connections as u64);
    let mut ap = String::from_str("SSID: '");
    ap.append(crate::session::hstr_as_str(&cfg.ap_ssid));
    ap.append("', Password: '");
    ap.append(crate::session::hstr_as_str(&cfg.ap_password));
    ap.append("', SSID Hidden: ");
    ap.append(bool_str(cfg.ssid_hidden));
    ap.append(", Max Connections: ");
    ap.append(mc.as_str());
    r.push(ap);
    proof {
        reveal_strlit("");
        assert(r@[0]@ =~= wifi_report_spec(*cfg)[0]);
        assert(r@[1]@ =~= wifi_report_spec(*cfg)[1]);
        assert(r@[3]@ =~= wifi_report_spec(*cfg)[3]);
        assert(r@[5]@ =~= wifi_report_spec(*cfg)[5]);
    }
    r
}

/// The whole configuration report, as `show-config` answers it.
pub open spec fn config_report_spec(cfg: UserConfig) -> Seq<Seq<char>> {
    seq!["Traffic Settings:"@] + traffic_report_spec(cfg) + seq!["CSI Settings:"@]
        + csi_report_spec(cfg) + seq!["WiFi Settings:"@] + wifi_report_spec(cfg)
}

/// Answers `show-config`: every configured value, in the order the
/// device prints them.
pub fn show_config(cfg: &UserConfig) -> (r: Vec<String>)
    ensures
        r@.len() == config_report_spec(*cfg).len(),
        forall|i: int| 0 <= i < r@.len() ==> r@[i]@ == config_report_spec(*cfg)[i],
{
    let mut r: Vec<String> = Vec::new();
    r.push(String::from_str("Traffic Settings:"));
    let mut t = traffic_report(cfg);
    r.append(&mut t);
    r.push(String::from_str("CSI Settings:"));
    let mut c = csi_report(cfg);
    r.append(&mut c);
    r.push(String::from_str("WiFi Settings:"));
    let mut w = wifi_report(cfg);
    r.append(&mut w);
    proof {
        assert(forall|i: int|
            0 <= i < r@.len() ==> r@[i]@ == #[trigger] config_report_spec(*cfg)[i]);
    }
    r
}

// ---------------------------------------------------------------------------
// Configuration verbs
// ---------------------------------------------------------------------------

/// Applies `set-traffic`: a parsable `--frequency-hz` value replaces
/// the trigger frequency (zero disables traffic generation); anything
/// else is answered `Invalid Frequency` and changes nothing.  The
/// answer ends with the traffic section of the report.
pub fn set_traffic(cfg: &mut UserConfig, frequency_hz: Option<&str>) -> (r: Vec<String>)
    ensures
        ({
            let parsed = match frequency_hz {
                Some(a) => parse_uint_spec(a@),
                None => None,
            };
            &&& final(cfg).trigger_freq == (match parsed {
                Some(n) => if 0 <= n <= u64::MAX {
                    n as u64
                } else {
                    old(cfg).trigger_freq
                },
                None => old(cfg).trigger_freq,
            })
            &&& final(cfg).op_mode == old(cfg).op_mode
            &&& final(cfg).csi_config == old(cfg).csi_config
            &&& final(cfg).max_connections == old(cfg).max_connections
            &&& final(cfg).channel == old(cfg).channel
            &&& final(cfg).ssid_hidden == old(cfg).ssid_hidden
            &&& hstr_chars(&final(cfg).ap_ssid) == hstr_chars(&old(cfg).ap_ssid)
            &&& hstr_chars(&final(cfg).ap_password) == hstr_chars(&old(cfg).ap_password)
            &&& hstr_chars(&final(cfg).sta_ssid) == hstr_chars(&old(cfg).sta_ssid)
            &&& hstr_chars(&final(cfg).sta_password) == hstr_chars(&old(cfg).sta_password)
            &&& r@.len() >= 1 && ({
                let errs: Seq<Seq<char>> = if frequency_hz is Some && (match parsed {
                    Some(n) => !(0 <= n <= u64::MAX),
                    None => true,
                }) {
                    seq!["Invalid Frequency"@]
                } else {
                    Seq::empty()
                };
                r@.len() == errs.len() + 2 && (forall|i: int|
                    0 <= i < errs.len() ==> r@[i]@ == errs[i]) && r@[errs.len() as int]@
                    == "Updated Traffic Configuration:"@ && r@[errs.len() as int + 1]@
                    == traffic_report_spec(*final(cfg))[0]
            })
        }),
{
    let mut r: Vec<String> = Vec::new();
    match frequency_hz {
        Some(a) => {
            let v = chars_of(a);
            match parse_uint_max(&v, u64::MAX) {
                Some(n) => {
                    cfg.trigger_freq = n;
                },
                None => {
                    r.push(String::from_str("Invalid Frequency"));
                },
            }
        },
        None => {},
    }
    r.push(String::from_str("Updated Traffic Configuration:"));
    let mut t = traffic_report(cfg);
    r.append(&mut t);
    r
}

/// Applies `set-csi`: each given flag disables one acquisition
/// feature; absent flags leave their feature as it was.  The answer is
/// the CSI section of the report.
pub fn set_csi(
    cfg: &mut UserConfig,
    disable_lltf: bool,
    disable_htltf: bool,
    disable_stbc_htltf: bool,
    disable_ltf_merge: bool,
) -> (r: Vec<String>)
    ensures
        final(cfg).csi_config == (CsiFeatureConfig {
            lltf_enabled: old(cfg).csi_config.lltf_enabled && !disable_lltf,
            htltf_enabled: old(cfg).csi_config.htltf_enabled && !disable_htltf,
            stbc_htltf2_enabled: old(cfg).csi_config.stbc_htltf2_enabled && !disable_stbc_htltf,
            ltf_merge_enabled: old(cfg).csi_config.ltf_merge_enabled && !disable_ltf_merge,
            channel_filter_enabled: old(cfg).csi_config.channel_filter_enabled,
        }),
        final(cfg).op_mode == old(cfg).op_mode,
        final(cfg).trigger_freq == old(cfg).trigger_freq,
        final(cfg).max_connections == old(cfg).max_connections,
        final(cfg).channel == old(cfg).channel,
        final(cfg).ssid_hidden == old(cfg).ssid_hidden,
        hstr_chars(&final(cfg).ap_ssid) == hstr_chars(&old(cfg).ap_ssid),
        hstr_chars(&final(cfg).ap_password) == hstr_chars(&old(cfg).ap_password),
        hstr_chars(&final(cfg).sta_ssid) == hstr_chars(&old(cfg).sta_ssid),
        hstr_chars(&final(cfg).sta_password) == hstr_chars(&old(cfg).sta_password),
        r@.len() == 2,
        r@[0]@ == "Updated CSI Configuration:"@,
        r@[1]@ == csi_report_spec(*final(cfg))[0],
{
    if disable_lltf {
        cfg.csi_config.lltf_enabled = false;
    }
    if disable_htltf {
        cfg.csi_config.htltf_enabled = false;
    }
    if disable_stbc_htltf {
        cfg.csi_config.stbc_htltf2_enabled = false;
    }
    if disable_ltf_merge {
        cfg.csi_config.ltf_merge_enabled = false;
    }
    let mut r: Vec<String> = Vec::new();
    r.push(String::from_str("Updated CSI Configuration:"));
    let mut c = csi_report(cfg);
    r.append(&mut c);
    r
}

/// Applies `start` and `stop`: a parsable `--duration` starts a run
/// bounded by that many seconds, an absent duration starts an
/// unbounded run, and `stop` asks the running collection to end.
/// An unparsable duration is answered `Invalid Duration` and sends
/// no command at all.
pub fn start_command(duration: Option<&str>) -> (r: (Option<SessionCommand>, Vec<String>))
    ensures
        ({
            match duration {
                None => r.0 == Some(SessionCommand::Start(None::<u64>)) && r.1@.len() == 0,
                Some(a) => match parse_uint_spec(a@) {
                    Some(n) => if 0 <= n <= u64::MAX {
                        r.0 == Some(SessionCommand::Start(Some(n as u64))) && r.1@.len() == 0
                    } else {
                        r.0 is None && r.1@.len() == 1 && r.1@[0]@ == "Invalid Duration"@
                    },
                    None => r.0 is None && r.1@.len() == 1 && r.1@[0]@ == "Invalid Duration"@,
                },
            }
        }),
{
    match duration {
        None => (Some(SessionCommand::Start(None)), Vec::new()),
        Some(a) => {
            let v = chars_of(a);
            match parse_uint_max(&v, u64::MAX) {
                Some(n) => (Some(SessionCommand::Start(Some(n))), Vec::new()),
                None => {
                    let mut r: Vec<String> = Vec::new();
                    r.push(String::from_str("Invalid Duration"));
                    (None, r)
                },
            }
        },
    }
}

/// The `stop` verb.
pub fn stop_command() -> (r: SessionCommand)
    ensures
        r == SessionCommand::Stop,
{
    SessionCommand::Stop
}

/// Applies `reset-config`: every setting returns to its boot default.
pub fn reset_config(cfg: &mut UserConfig) -> (r: Vec<String>)
    ensures
        final(cfg).op_mode is Sniffer,
        final(cfg).trigger_freq == 0,
        hstr_chars(&final(cfg).ap_ssid) == Seq::<char>::empty(),
        hstr_chars(&final(cfg).ap_password) == Seq::<char>::empty(),
        hstr_chars(&final(cfg).sta_ssid) == Seq::<char>::empty(),
        hstr_chars(&final(cfg).sta_password) == Seq::<char>::empty(),
        final(cfg).csi_config.lltf_enabled,
        final(cfg).csi_config.htltf_enabled,
        final(cfg).csi_config.stbc_htltf2_enabled,
        final(cfg).csi_config.ltf_merge_enabled,
        final(cfg).csi_config.channel_filter_enabled,
        final(cfg).max_connections == 1,
        final(cfg).channel == 1,
        !final(cfg).ssid_hidden,
        final(cfg).wf(),
        r@.len() == 1,
        r@[0]@ == "Configuration Reset to Default Values"@,
{
    *cfg = UserConfig::new();
    let mut r: Vec<String> = Vec::new();
    r.push(String::from_str("Configuration Reset to Default Values"));
    r
}


// ---------------------------------------------------------------------------
// set-wifi
// ---------------------------------------------------------------------------

/// Relies on str::replace with a one-character pattern: every
/// underscore becomes a space and all other characters stay.
#[verifier::external_body]
fn replace_underscores(s: &str) -> (r: String)
    ensures
        r@ == s@.map_values(|c: char| if c == '_' { ' ' } else { c }),
{
    s.replace("_", " ")
}

/// A credential argument after underscore replacement.
pub open spec fn cred_chars(s: Seq<char>) -> Seq<char> {
    s.map_values(|c: char| if c == '_' { ' ' } else { c })
}

/// A credential is storable when it is ASCII and fits the 32-byte
/// capacity of the device-side string.
pub open spec fn cred_ok(s: Seq<char>) -> bool {
    is_ascii_chars(cred_chars(s)) && cred_chars(s).len() <= 32
}

/// Stores a credential argument: underscores become spaces, and the
/// result must be ASCII and fit 32 bytes, else nothing changes.
fn store_cred(field: &mut heapless::String<32>, arg: &str) -> (ok: bool)
    requires
        is_ascii_chars(hstr_chars(old(field))),
    ensures
        ok == cred_ok(arg@),
        ok ==> hstr_chars(final(field)) == cred_chars(arg@),
        !ok ==> hstr_chars(final(field)) == hstr_chars(old(field)),
        is_ascii_chars(hstr_chars(final(field))),
{
    let replaced = replace_underscores(arg);
    let rs = replaced.as_str();
    if !rs.is_ascii() {
        return false;
    }
    let n = rs.unicode_len();
    if n > 32 {
        return false;
    }
    let mut fresh = hstr_new();
    let pushed = hstr_push_str(&mut fresh, rs);
    proof {
        assert(Seq::<char>::empty() + rs@ =~= rs@);
    }
    *field = fresh;
    true
}

/// A given numeric option that does not read as a value in range.
pub open spec fn uint_arg_bad(a: Option<&str>, max: int) -> bool {
    match a {
        Some(t) => match parse_uint_spec(t@) {
            Some(n) => !(0 <= n <= max),
            None => true,
        },
        None => false,
    }
}

/// A given mode option that names none of the four roles.
pub open spec fn mode_arg_bad(m: Option<&str>) -> bool {
    match m {
        Some(t) => !(t@ == "ap"@ || t@ == "station"@ || t@ == "sniffer"@ || t@ == "ap-station"@),
        None => false,
    }
}

/// A given credential option that cannot be stored.
pub open spec fn cred_arg_bad(a: Option<&str>) -> bool {
    match a {
        Some(t) => !cred_ok(t@),
        None => false,
    }
}

/// The diagnostic lines of the role, limit and channel options, in
/// application order.  A bad channel is answered with the
/// connection-limit text, as the device firmware answers it.
pub open spec fn set_wifi_mode_errors(
    mode: Option<&str>,
    max_connections: Option<&str>,
    set_channel: Option<&str>,
) -> Seq<Seq<char>> {
    (if mode_arg_bad(mode) {
        seq!["Invalid WiFi Mode"@]
    } else {
        Seq::empty()
    }) + (if uint_arg_bad(max_connections, 65535) {
        seq!["Invalid Max Connections"@]
    } else {
        Seq::empty()
    }) + (if uint_arg_bad(set_channel, 255) {
        seq!["Invalid Max Connections"@]
    } else {
        Seq::empty()
    })
}

/// The diagnostic lines of the credential options, in application
/// order.
pub open spec fn set_wifi_cred_errors(
    ap_ssid: Option<&str>,
    ap_password: Option<&str>,
    sta_ssid: Option<&str>,
    sta_password: Option<&str>,
) -> Seq<Seq<char>> {
    (if cred_arg_bad(ap_ssid) {
        seq!["Invalid AP SSID"@]
    } else {
        Seq::empty()
    }) + (if cred_arg_bad(ap_password) {
        seq!["Invalid AP Password"@]
    } else {
        Seq::empty()
    }) + (if cred_arg_bad(sta_ssid) {
        seq!["Invalid Station SSID"@]
    } else {
        Seq::empty()
    }) + (if cred_arg_bad(sta_password) {
        seq!["Invalid Station Password"@]
    } else {
        Seq::empty()
    })
}

/// The diagnostic lines `set-wifi` answers, in the order the options
/// are applied.
pub open spec fn set_wifi_errors(
    mode: Option<&str>,
    max_connections: Option<&str>,
    ap_ssid: Option<&str>,
    ap_password: Option<&str>,
    sta_ssid: Option<&str>,
    sta_password: Option<&str>,
    set_channel: Option<&str>,
) -> Seq<Seq<char>> {
    set_wifi_mode_errors(mode, max_connections, set_channel) + set_wifi_cred_errors(
        ap_ssid,
        ap_password,
        sta_ssid,
        sta_password,
    )
}

/// The role, limit, channel and visibility applications of
/// `set-wifi`, with exactly their diagnostic lines.
#[verifier::rlimit(100)]
#[verifier::spinoff_prover]
fn apply_wifi_mode_options(
    cfg: &mut UserConfig,
    mode: Option<&str>,
    max_connections: Option<&str>,
    hide_ssid: bool,
    set_channel: Option<&str>,
) -> (r: Vec<String>)
    ensures
        final(cfg).op_mode == (match mode {
            Some(m) => if m@ == "ap"@ {
                WiFiMode::AccessPoint
            } else if m@ == "station"@ {
                WiFiMode::Station
            } else if m@ == "sniffer"@ {
                WiFiMode::Sniffer
            } else if m@ == "ap-station"@ {
                WiFiMode::AccessPointStation
            } else {
                old(cfg).op_mode
            },
            None => old(cfg).op_mode,
        }),
        final(cfg).max_connections == (match max_connections {
            Some(a) => match parse_uint_spec(a@) {
                Some(n) => if 0 <= n <= 65535 {
                    n as u16
                } else {
                    old(cfg).max_connections
                },
                None => old(cfg).max_connections,
            },
            None => old(cfg).max_connections,
        }),
        final(cfg).channel == (match set_channel {
            Some(a) => match parse_uint_spec(a@) {
                Some(n) => if 0 <= n <= 255 {
                    n as u8
                } else {
                    old(cfg).channel
                },
                None => old(cfg).channel,
            },
            None => old(cfg).channel,
        }),
        final(cfg).ssid_hidden == (old(cfg).ssid_hidden || hide_ssid),
        final(cfg).ap_ssid == old(cfg).ap_ssid,
        final(cfg).ap_password == old(cfg).ap_password,
        final(cfg).sta_ssid == old(cfg).sta_ssid,
        final(cfg).sta_password == old(cfg).sta_password,
        final(cfg).trigger_freq == old(cfg).trigger_freq,
        final(cfg).csi_config == old(cfg).csi_config,
        r@.len() == set_wifi_mode_errors(mode, max_connections, set_channel).len(),
        forall|i: int|
            0 <= i < r@.len() ==> r@[i]@ == set_wifi_mode_errors(
                mode,
                max_connections,
                set_channel,
            )[i],
{
    let mut r: Vec<String> = Vec::new();
    let ghost e_mode: Seq<Seq<char>> = if mode_arg_bad(mode) {
        seq!["Invalid WiFi Mode"@]
    } else {
        Seq::empty()
    };
    match mode {
        Some(m) => {
            let mv = chars_of(m);
            if crate::text::str_eq_chars("ap", &mv) {
                cfg.op_mode = WiFiMode::AccessPoint;
            } else if crate::text::str_eq_chars("station", &mv) {
                cfg.op_mode = WiFiMode::Station;
            } else if crate::text::str_eq_chars("sniffer", &mv) {
                cfg.op_mode = WiFiMode::Sniffer;
            } else if crate::text::str_eq_chars("ap-station", &mv) {
                cfg.op_mode = WiFiMode::AccessPointStation;
            } else {
                r.push(String::from_str("Invalid WiFi Mode"));
            }
        },
        None => {},
    }
    proof {
        assert(r@.len() == e_mode.len());
        assert(forall|i: int| 0 <= i < e_mode.len() ==> r@[i]@ == e_mode[i]);
    }
    let ghost e_conn = e_mode + (if uint_arg_bad(max_connections, 65535) {
        seq!["Invalid Max Connections"@]
    } else {
        Seq::<Seq<char>>::empty()
    });
    match max_connections {
        Some(a) => {
            let v = chars_of(a);
            match parse_uint_max(&v, 65535) {
                Some(n) => {
                    cfg.max_connections = n as u16;
                },
                None => {
                    r.push(String::from_str("Invalid Max Connections"));
                },
            }
        },
        None => {},
    }
    proof {
        assert(r@.len() == e_conn.len());
        assert(forall|i: int| 0 <= i < e_conn.len() ==> r@[i]@ == e_conn[i]);
    }
    let ghost e_chan = e_conn + (if uint_arg_bad(set_channel, 255) {
        seq!["Invalid Max Connections"@]
    } else {
        Seq::<Seq<char>>::empty()
    });
    match set_channel {
        Some(a) => {
            let v = chars_of(a);
            match parse_uint_max(&v, 255) {
                Some(n) => {
                    cfg.channel = n as u8;
                },
                None => {
                    // The device firmware answers a bad channel with the
                    // connection-limit text.
                    r.push(String::from_str("Invalid Max Connections"));
                },
            }
        },
        None => {},
    }
    proof {
        assert(r@.len() == e_chan.len());
        assert(forall|i: int| 0 <= i < e_chan.len() ==> r@[i]@ == e_chan[i]);
    }
    if hide_ssid {
        cfg.ssid_hidden = true;
    }
    proof {
        assert(e_chan =~= set_wifi_mode_errors(mode, max_connections, set_channel));
    }
    r
}

/// The credential applications of `set-wifi`, with exactly their
/// diagnostic lines.
#[verifier::rlimit(100)]
#[verifier::spinoff_prover]
fn apply_wifi_credentials(
    cfg: &mut UserConfig,
    ap_ssid: Option<&str>,
    ap_password: Option<&str>,
    sta_ssid: Option<&str>,
    sta_password: Option<&str>,
) -> (r: Vec<String>)
    requires
        old(cfg).wf(),
    ensures
        final(cfg).wf(),
        hstr_chars(&final(cfg).ap_ssid) == (match ap_ssid {
            Some(a) => if cred_ok(a@) {
                cred_chars(a@)
            } else {
                hstr_chars(&old(cfg).ap_ssid)
            },
            None => hstr_chars(&old(cfg).ap_ssid),
        }),
        hstr_chars(&final(cfg).ap_password) == (match ap_password {
            Some(a) => if cred_ok(a@) {
                cred_chars(a@)
            } else {
                hstr_chars(&old(cfg).ap_password)
            },
            None => hstr_chars(&old(cfg).ap_password),
        }),
        hstr_chars(&final(cfg).sta_ssid) == (match sta_ssid {
            Some(a) => if cred_ok(a@) {
                cred_chars(a@)
            } else {
                hstr_chars(&old(cfg).sta_ssid)
            },
            None => hstr_chars(&old(cfg).sta_ssid),
        }),
        hstr_chars(&final(cfg).sta_password) == (match sta_password {
            Some(a) => if cred_ok(a@) {
                cred_chars(a@)
            } else {
                hstr_chars(&old(cfg).sta_password)
            },
            None => hstr_chars(&old(cfg).sta_password),
        }),
        final(cfg).op_mode == old(cfg).op_mode,
        final(cfg).max_connections == old(cfg).max_connections,
        final(cfg).channel == old(cfg).channel,
        final(cfg).ssid_hidden == old(cfg).ssid_hidden,
        final(cfg).trigger_freq == old(cfg).trigger_freq,
        final(cfg).csi_config == old(cfg).csi_config,
        r@.len() == set_wifi_cred_errors(ap_ssid, ap_password, sta_ssid, sta_password).len(),
        forall|i: int|
            0 <= i < r@.len() ==> r@[i]@ == set_wifi_cred_errors(
                ap_ssid,
                ap_password,
                sta_ssid,
                sta_password,
            )[i],
{
    let mut r: Vec<String> = Vec::new();
    let ghost e_apssid: Seq<Seq<char>> = if cred_arg_bad(ap_ssid) {
        seq!["Invalid AP SSID"@]
    } else {
        Seq::empty()
    };
    match ap_ssid {
        Some(a) => {
            if !store_cred(&mut cfg.ap_ssid, a) {
                r.push(String::from_str("Invalid AP SSID"));
            }
        },
        None => {},
    }
    proof {
        assert(r@.len() == e_apssid.len());
        assert(forall|i: int| 0 <= i < e_apssid.len() ==> r@[i]@ == e_apssid[i]);
    }
    let ghost e_appw = e_apssid + (if cred_arg_bad(ap_password) {
        seq!["Invalid AP Password"@]
    } else {
        Seq::<Seq<char>>::empty()
    });
    match ap_password {
        Some(a) => {
            if !store_cred(&mut cfg.ap_password, a) {
                r.push(String::from_str("Invalid AP Password"));
            }
        },
        None => {},
    }
    proof {
        assert(r@.len() == e_appw.len());
        assert(forall|i: int| 0 <= i < e_appw.len() ==> r@[i]@ == e_appw[i]);
    }
    let ghost e_stassid = e_appw + (if cred_arg_bad(sta_ssid) {
        seq!["Invalid Station SSID"@]
    } else {
        Seq::<Seq<char>>::empty()
    });
    match sta_ssid {
        Some(a) => {
            if !store_cred(&mut cfg.sta_ssid, a) {
                r.push(String::from_str("Invalid Station SSID"));
            }
        },
        None => {},
    }
    proof {
        assert(r@.len() == e_stassid.len());
        assert(forall|i: int| 0 <= i < e_stassid.len() ==> r@[i]@ == e_stassid[i]);
    }
    let ghost e_all = e_stassid + (if cred_arg_bad(sta_password) {
        seq!["Invalid Station Password"@]
    } else {
        Seq::<Seq<char>>::empty()
    });
    match sta_password {
        Some(a) => {
            if !store_cred(&mut cfg.sta_password, a) {
                r.push(String::from_str("Invalid Station Password"));
            }
        },
        None => {},
    }
    proof {
        assert(r@.len() == e_all.len());
        assert(forall|i: int| 0 <= i < e_all.len() ==> r@[i]@ == e_all[i]);
    }
    r
}

/// Applies `set-wifi`: each given option edits its setting — the
/// operation mode by name, the AP connection limit, the channel, SSID
/// visibility, and the four credential strings with underscores read
/// as spaces.  A bad mode name, an unparsable number, or a credential
/// that is not ASCII or does not fit 32 bytes is reported as text and
/// leaves that setting unchanged.  The answer is exactly the
/// diagnostic lines, then the WiFi section of the report.
#[verifier::rlimit(100)]
#[verifier::spinoff_prover]
pub fn set_wifi(
    cfg: &mut UserConfig,
    mode: Option<&str>,
    max_connections: Option<&str>,
    hide_ssid: bool,
    ap_ssid: Option<&str>,
    ap_password: Option<&str>,
    sta_ssid: Option<&str>,
    sta_password: Option<&str>,
    set_channel: Option<&str>,
) -> (r: Vec<String>)
    requires
        old(cfg).wf(),
    ensures
        final(cfg).wf(),
        final(cfg).op_mode == (match mode {
            Some(m) => if m@ == "ap"@ {
                WiFiMode::AccessPoint
            } else if m@ == "station"@ {
                WiFiMode::Station
            } else if m@ == "sniffer"@ {
                WiFiMode::Sniffer
            } else if m@ == "ap-station"@ {
                WiFiMode::AccessPointStation
            } else {
                old(cfg).op_mode
            },
            None => old(cfg).op_mode,
        }),
        final(cfg).max_connections == (match max_connections {
            Some(a) => match parse_uint_spec(a@) {
                Some(n) => if 0 <= n <= 65535 {
                    n as u16
                } else {
                    old(cfg).max_connections
                },
                None => old(cfg).max_connections,
            },
            None => old(cfg).max_connections,
        }),
        final(cfg).channel == (match set_channel {
            Some(a) => match parse_uint_spec(a@) {
                Some(n) => if 0 <= n <= 255 {
                    n as u8
                } else {
                    old(cfg).channel
                },
                None => old(cfg).channel,
            },
            None => old(cfg).channel,
        }),
        final(cfg).ssid_hidden == (old(cfg).ssid_hidden || hide_ssid),
        hstr_chars(&final(cfg).ap_ssid) == (match ap_ssid {
            Some(a) => if cred_ok(a@) {
                cred_chars(a@)
            } else {
                hstr_chars(&old(cfg).ap_ssid)
            },
            None => hstr_chars(&old(cfg).ap_ssid),
        }),
        hstr_chars(&final(cfg).ap_password) == (match ap_password {
            Some(a) => if cred_ok(a@) {
                cred_chars(a@)
            } else {
                hstr_chars(&old(cfg).ap_password)
            },
            None => hstr_chars(&old(cfg).ap_password),
        }),
        hstr_chars(&final(cfg).sta_ssid) == (match sta_ssid {
            Some(a) => if cred_ok(a@) {
                cred_chars(a@)
            } else {
                hstr_chars(&old(cfg).sta_ssid)
            },
            None => hstr_chars(&old(cfg).sta_ssid),
        }),
        hstr_chars(&final(cfg).sta_password) == (match sta_password {
            Some(a) => if cred_ok(a@) {
                cred_chars(a@)
            } else {
                hstr_chars(&old(cfg).sta_password)
            },
            None => hstr_chars(&old(cfg).sta_password),
        }),
        final(cfg).trigger_freq == old(cfg).trigger_freq,
        final(cfg).csi_config == old(cfg).csi_config,
        ({
            let errs = set_wifi_errors(
                mode,
                max_connections,
                ap_ssid,
                ap_password,
                sta_ssid,
                sta_password,
                set_channel,
            );
            let report = wifi_report_spec(*final(cfg));
            &&& r@.len() == errs.len() + 1 + report.len()
            &&& (forall|i: int| 0 <= i < errs.len() ==> r@[i]@ == errs[i])
            &&& r@[errs.len() as int]@ == "Updated WiFi Configuration:"@
            &&& (forall|i: int|
                0 <= i < report.len() ==> r@[errs.len() + 1 + i]@ == report[i])
        }),
{
    let mut r = apply_wifi_mode_options(cfg, mode, max_connections, hide_ssid, set_channel);
    let mut creds = apply_wifi_credentials(cfg, ap_ssid, ap_password, sta_ssid, sta_password);
    let ghost r1 = r@;
    let ghost c1 = creds@;
    r.append(&mut creds);
    proof {
        let e1 = set_wifi_mode_errors(mode, max_connections, set_channel);
        let e2 = set_wifi_cred_errors(ap_ssid, ap_password, sta_ssid, sta_password);
        let errs = set_wifi_errors(
            mode,
            max_connections,
            ap_ssid,
            ap_password,
            sta_ssid,
            sta_password,
            set_channel,
        );
        assert(errs == e1 + e2);
        assert(r@ == r1 + c1);
        assert(r@.len() == errs.len());
        assert forall|i: int| 0 <= i < errs.len() implies r@[i]@ == errs[i] by {
            if i < e1.len() {
                assert(r@[i] == r1[i]);
                assert(r1[i]@ == e1[i]);
                assert(errs[i] == e1[i]);
            } else {
                assert(r@[i] == c1[i - r1.len()]);
                assert(c1[i - e1.len()]@ == e2[i - e1.len()]);
                assert(errs[i] == e2[i - e1.len()]);
            }
        }
    }
    r.push(String::from_str("Updated WiFi Configuration:"));
    let mut w = wifi_report(cfg);
    r.append(&mut w);
    r
}

} // verus!
