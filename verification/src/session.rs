//! Device-side collection session: the shared configuration, the
//! single-slot start/stop signal, the session state machine with its
//! duration-bounded running window, and the pure decisions the
//! collection loop takes — which collector variant to build, whether a
//! packet is reported, and which updates a reconfiguration applies.
use vstd::prelude::*;

use vstd::utf8::is_ascii_chars;

verus! {

// ---------------------------------------------------------------------------
// Fixed-capacity credential strings
// ---------------------------------------------------------------------------

#[verifier::external_type_specification]
#[verifier::external_body]
pub struct ExHeaplessString<const N: usize>(heapless::String<N>);

/// The characters a fixed-capacity credential string holds.
pub uninterp spec fn hstr_chars(s: &heapless::String<32>) -> Seq<char>;

/// Relies on heapless::String::new: a freshly made string is empty.
#[verifier::external_body]
pub fn hstr_new() -> (r: heapless::String<32>)
    ensures
        hstr_chars(&r) == Seq::<char>::empty(),
{
    heapless::String::new()
}

/// Relies on heapless::String::push_str, which appends when the added
/// bytes still fit the fixed capacity and otherwise leaves the string
/// unchanged and errs.  Byte and character counts agree because both
/// sides are ASCII.
#[verifier::external_body]
pub fn hstr_push_str(h: &mut heapless::String<32>, s: &str) -> (ok: bool)
    requires
        is_ascii_chars(s@),
        is_ascii_chars(hstr_chars(old(h))),
    ensures
        ok == (hstr_chars(old(h)).len() + s@.len() <= 32),
        ok ==> hstr_chars(final(h)) == hstr_chars(old(h)) + s@,
        !ok ==> hstr_chars(final(h)) == hstr_chars(old(h)),
{
    h.push_str(s).is_ok()
}

/// Relies on heapless::String::as_str: a view of the stored text.
#[verifier::external_body]
pub fn hstr_as_str(h: &heapless::String<32>) -> (r: &str)
    ensures
        r@ == hstr_chars(h),
{
    h.as_str()
}

/// Relies on heapless::String's Clone, which copies the stored bytes.
#[verifier::external_body]
pub fn hstr_clone(h: &heapless::String<32>) -> (r: heapless::String<32>)
    ensures
        hstr_chars(&r) == hstr_chars(h),
{
    h.clone()
}

// ---------------------------------------------------------------------------
// Configuration
// ---------------------------------------------------------------------------

/// The WiFi role the device collects in.  Switching roles tears the
/// radio collector down; it is never hot-swapped.
#[derive(Debug, Clone)]
pub enum WiFiMode {
    AccessPoint,
    AccessPointStation,
    Station,
    Sniffer,
}

/// Per-family CSI acquisition toggles.
#[derive(Debug, Clone, Copy, PartialEq, Eq, Structural)]
pub struct CsiFeatureConfig {
    pub lltf_enabled: bool,
    pub htltf_enabled: bool,
    pub stbc_htltf2_enabled: bool,
    pub ltf_merge_enabled: bool,
    pub channel_filter_enabled: bool,
}

impl Default for CsiFeatureConfig {
    /// All acquisition features start enabled.
    fn default() -> (r: Self)
        ensures
            r.lltf_enabled && r.htltf_enabled && r.stbc_htltf2_enabled && r.ltf_merge_enabled
                && r.channel_filter_enabled,
    {
        CsiFeatureConfig {
            lltf_enabled: true,
            htltf_enabled: true,
            stbc_htltf2_enabled: true,
            ltf_merge_enabled: true,
            channel_filter_enabled: true,
        }
    }
}

/// The shared device configuration both tasks read and edit under a
/// mutual-exclusion primitive owned by the embedding program.
#[derive(Debug)]
pub struct UserConfig {
    pub op_mode: WiFiMode,
    pub trigger_freq: u64,
    pub ap_ssid: heapless::String<32>,
    pub ap_password: heapless::String<32>,
    pub sta_ssid: heapless::String<32>,
    pub sta_password: heapless::String<32>,
    pub csi_config: CsiFeatureConfig,
    pub max_connections: u16,
    pub channel: u8,
    pub ssid_hidden: bool,
}

impl UserConfig {
    /// Credential strings stay ASCII and within capacity.
    pub open spec fn wf(&self) -> bool {
        &&& is_ascii_chars(hstr_chars(&self.ap_ssid))
        &&& is_ascii_chars(hstr_chars(&self.ap_password))
        &&& is_ascii_chars(hstr_chars(&self.sta_ssid))
        &&& is_ascii_chars(hstr_chars(&self.sta_password))
    }

    /// The defaults the device boots with: passive sniffer, no traffic
    /// generation, empty credentials, channel one.
    pub fn new() -> (r: Self)
        ensures
            r.op_mode is Sniffer,
            r.trigger_freq == 0,
            hstr_chars(&r.ap_ssid) == Seq::<char>::empty(),
            hstr_chars(&r.ap_password) == Seq::<char>::empty(),
            hstr_chars(&r.sta_ssid) == Seq::<char>::empty(),
            hstr_chars(&r.sta_password) == Seq::<char>::empty(),
            r.csi_config.lltf_enabled && r.csi_config.htltf_enabled
                && r.csi_config.stbc_htltf2_enabled && r.csi_config.ltf_merge_enabled
                && r.csi_config.channel_filter_enabled,
            r.max_connections == 1,
            r.channel == 1,
            !r.ssid_hidden,
            r.wf(),
    {
        UserConfig {
            op_mode: WiFiMode::Sniffer,
            trigger_freq: 0,
            ap_ssid: hstr_new(),
            ap_password: hstr_new(),
            sta_ssid: hstr_new(),
            sta_password: hstr_new(),
            csi_config: CsiFeatureConfig::default(),
            max_connections: 1,
            channel: 1,
            ssid_hidden: false,
        }
    }

    /// A copy whose credential strings hold the same characters.
    pub fn duplicate(&self) -> (r: Self)
        ensures
            r.op_mode == self.op_mode,
            r.trigger_freq == self.trigger_freq,
            hstr_chars(&r.ap_ssid) == hstr_chars(&self.ap_ssid),
            hstr_chars(&r.ap_password) == hstr_chars(&self.ap_password),
            hstr_chars(&r.sta_ssid) == hstr_chars(&self.sta_ssid),
            hstr_chars(&r.sta_password) == hstr_chars(&self.sta_password),
            r.csi_config == self.csi_config,
            r.max_connections == self.max_connections,
            r.channel == self.channel,
            r.ssid_hidden == self.ssid_hidden,
            self.wf() ==> r.wf(),
    {
        UserConfig {
            op_mode: match self.op_mode {
                WiFiMode::AccessPoint => WiFiMode::AccessPoint,
                WiFiMode::AccessPointStation => WiFiMode::AccessPointStation,
                WiFiMode::Station => WiFiMode::Station,
                WiFiMode::Sniffer => WiFiMode::Sniffer,
            },
            trigger_freq: self.trigger_freq,
            ap_ssid: hstr_clone(&self.ap_ssid),
            ap_password: hstr_clone(&self.ap_password),
            sta_ssid: hstr_clone(&self.sta_ssid),
            sta_password: hstr_clone(&self.sta_password),
            csi_config: self.csi_config,
            max_connections: self.max_connections,
            channel: self.channel,
            ssid_hidden: self.ssid_hidden,
        }
    }
}

// ---------------------------------------------------------------------------
// Loop decisions
// ---------------------------------------------------------------------------

/// Traffic generation is on exactly when a nonzero trigger frequency is
/// configured; the traffic sub-mode is never set independently.
pub fn traffic_enabled(cfg: &UserConfig) -> (r: bool)
    ensures
        r == (cfg.trigger_freq != 0),
{
    cfg.trigger_freq != 0
}

/// Station-side operation sub-mode.
#[derive(Debug, Clone, Copy, PartialEq, Eq, Structural)]
pub enum StaOperationMode {
    Monitor,
    Trigger(u32),
}

/// Access-point-side operation sub-mode.
#[derive(Debug, Clone, Copy, PartialEq, Eq, Structural)]
pub enum ApOperationMode {
    Monitor,
    Trigger(u32),
}

/// Derives both sub-modes from the configured trigger frequency: a
/// nonzero frequency triggers at that rate, zero monitors passively.
/// The frequency is carried in 32 bits as the radio interface takes it.
pub fn derive_op_modes(cfg: &UserConfig) -> (r: (StaOperationMode, ApOperationMode))
    ensures
        cfg.trigger_freq != 0 ==> r.0 == StaOperationMode::Trigger(cfg.trigger_freq as u32)
            && r.1 == ApOperationMode::Trigger(cfg.trigger_freq as u32),
        cfg.trigger_freq == 0 ==> r.0 == StaOperationMode::Monitor && r.1
            == ApOperationMode::Monitor,
{
    if cfg.trigger_freq != 0 {
        #[verifier::truncate]
        let f = cfg.trigger_freq as u32;
        (StaOperationMode::Trigger(f), ApOperationMode::Trigger(f))
    } else {
        (StaOperationMode::Monitor, ApOperationMode::Monitor)
    }
}

/// Whether the running loop reports an observed packet: a sniffer
/// always does; any other role only while it generates trigger
/// traffic it can correlate against.
pub fn should_report(mode: &WiFiMode, traffic_en: bool) -> (r: bool)
    ensures
        r == (mode is Sniffer || traffic_en),
{
    match mode {
        WiFiMode::Sniffer => true,
        _ => traffic_en,
    }
}

/// Which radio collector variant a role needs; exactly one is live at
/// a time, and a role change rebuilds it from scratch.
#[derive(Debug, Clone, Copy, PartialEq, Eq, Structural)]
pub enum CollectorKind {
    AccessPoint,
    AccessPointStation,
    Station,
    Sniffer,
}

pub fn collector_kind_for(mode: &WiFiMode) -> (r: CollectorKind)
    ensures
        mode is AccessPoint <==> r is AccessPoint,
        mode is AccessPointStation <==> r is AccessPointStation,
        mode is Station <==> r is Station,
        mode is Sniffer <==> r is Sniffer,
{
    match mode {
        WiFiMode::AccessPoint => CollectorKind::AccessPoint,
        WiFiMode::AccessPointStation => CollectorKind::AccessPointStation,
        WiFiMode::Station => CollectorKind::Station,
        WiFiMode::Sniffer => CollectorKind::Sniffer,
    }
}


/// Everything the first start hands the newly built collector: the
/// variant matching the configured role, and the credentials,
/// connection limit, channel, features and sub-mode that variant is
/// constructed from.  The channel is part of the construction only in
/// the combined role, as the radio interface takes it.
#[derive(Debug)]
pub enum CollectorSetup {
    AccessPoint { ssid: String, password: String, max_connections: u16, op_mode: ApOperationMode },
    AccessPointStation {
        ap_ssid: String,
        ap_password: String,
        max_connections: u16,
        channel: u8,
        sta_ssid: String,
        sta_password: String,
        op_mode: ApOperationMode,
    },
    Station {
        ssid: String,
        password: String,
        csi_config: CsiFeatureConfig,
        op_mode: StaOperationMode,
    },
    Sniffer { csi_config: CsiFeatureConfig },
}

/// What the collection task builds when a start is consumed under
/// configuration `cfg`: exactly one collector, of the variant `cfg`'s
/// role names, constructed from `cfg`'s credentials, limit, channel
/// and features, with the sub-mode derived from the trigger frequency.
pub fn collector_setup(cfg: &UserConfig) -> (r: CollectorSetup)
    ensures
        ({
            let (sta_mode, ap_mode) = if cfg.trigger_freq != 0 {
                (
                    StaOperationMode::Trigger(cfg.trigger_freq as u32),
                    ApOperationMode::Trigger(cfg.trigger_freq as u32),
                )
            } else {
                (StaOperationMode::Monitor, ApOperationMode::Monitor)
            };
            match cfg.op_mode {
                WiFiMode::AccessPoint => r matches CollectorSetup::AccessPoint {
                    ssid,
                    password,
                    max_connections,
                    op_mode,
                } && ssid@ == hstr_chars(&cfg.ap_ssid) && password@ == hstr_chars(&cfg.ap_password)
                    && max_connections == cfg.max_connections && op_mode == ap_mode,
                WiFiMode::AccessPointStation => r matches CollectorSetup::AccessPointStation {
                    ap_ssid,
                    ap_password,
                    max_connections,
                    channel,
                    sta_ssid,
                    sta_password,
                    op_mode,
                } && ap_ssid@ == hstr_chars(&cfg.ap_ssid) && ap_password@ == hstr_chars(
                    &cfg.ap_password,
                ) && max_connections == cfg.max_connections && channel == cfg.channel && sta_ssid@
                    == hstr_chars(&cfg.sta_ssid) && sta_password@ == hstr_chars(&cfg.sta_password)
                    && op_mode == ap_mode,
                WiFiMode::Station => r matches CollectorSetup::Station {
                    ssid,
                    password,
                    csi_config,
                    op_mode,
                } && ssid@ == hstr_chars(&cfg.sta_ssid) && password@ == hstr_chars(
                    &cfg.sta_password,
                ) && csi_config == cfg.csi_config && op_mode == sta_mode,
                WiFiMode::Sniffer => r matches CollectorSetup::Sniffer { csi_config } && csi_config
                    == cfg.csi_config,
            }
        }),
{
    let (sta_mode, ap_mode) = derive_op_modes(cfg);
    match cfg.op_mode {
        WiFiMode::AccessPoint => CollectorSetup::AccessPoint {
            ssid: String::from_str(hstr_as_str(&cfg.ap_ssid)),
            password: String::from_str(hstr_as_str(&cfg.ap_password)),
            max_connections: cfg.max_connections,
            op_mode: ap_mode,
        },
        WiFiMode::AccessPointStation => CollectorSetup::AccessPointStation {
            ap_ssid: String::from_str(hstr_as_str(&cfg.ap_ssid)),
            ap_password: String::from_str(hstr_as_str(&cfg.ap_password)),
            max_connections: cfg.max_connections,
            channel: cfg.channel,
            sta_ssid: String::from_str(hstr_as_str(&cfg.sta_ssid)),
            sta_password: String::from_str(hstr_as_str(&cfg.sta_password)),
            op_mode: ap_mode,
        },
        WiFiMode::Station => CollectorSetup::Station {
            ssid: String::from_str(hstr_as_str(&cfg.sta_ssid)),
            password: String::from_str(hstr_as_str(&cfg.sta_password)),
            csi_config: cfg.csi_config,
            op_mode: sta_mode,
        },
        WiFiMode::Sniffer => CollectorSetup::Sniffer { csi_config: cfg.csi_config },
    }
}

/// One hot update the reconfiguration step applies to the live
/// collector.  The WiFi role itself is never among them.
#[derive(Debug)]
pub enum CollectorUpdate {
    ApConfig { ssid: String, password: String, max_connections: u16 },
    StaConfig { ssid: String, password: String },
    ApOpMode(ApOperationMode),
    StaOpMode(StaOperationMode),
    CsiConfig(CsiFeatureConfig),
}

/// The updates applied when a stopped run restarts under an edited
/// configuration, in order: credentials and features the live variant
/// exposes, then its operation sub-mode.  Changing `op_mode` itself is
/// not expressible here — that takes a full collector rebuild.
pub fn reconfigure_actions(cfg: &UserConfig) -> (r: Vec<CollectorUpdate>)
    ensures
        ({
            let (sta_mode, ap_mode) = if cfg.trigger_freq != 0 {
                (
                    StaOperationMode::Trigger(cfg.trigger_freq as u32),
                    ApOperationMode::Trigger(cfg.trigger_freq as u32),
                )
            } else {
                (StaOperationMode::Monitor, ApOperationMode::Monitor)
            };
            match cfg.op_mode {
                WiFiMode::AccessPoint => {
                    &&& r@.len() == 2
                    &&& r@[0] matches CollectorUpdate::ApConfig { ssid, password, max_connections }
                        && ssid@ == hstr_chars(&cfg.ap_ssid) && password@ == hstr_chars(
                        &cfg.ap_password,
                    ) && max_connections == cfg.max_connections
                    &&& r@[1] == CollectorUpdate::ApOpMode(ap_mode)
                },
                WiFiMode::AccessPointStation => {
                    &&& r@.len() == 3
                    &&& r@[0] matches CollectorUpdate::ApConfig { ssid, password, max_connections }
                        && ssid@ == hstr_chars(&cfg.ap_ssid) && password@ == hstr_chars(
                        &cfg.ap_password,
                    ) && max_connections == cfg.max_connections
                    &&& r@[1] matches CollectorUpdate::StaConfig { ssid, password } && ssid@
                        == hstr_chars(&cfg.sta_ssid) && password@ == hstr_chars(&cfg.sta_password)
                    &&& r@[2] == CollectorUpdate::ApOpMode(ap_mode)
                },
                WiFiMode::Station => {
                    &&& r@.len() == 3
                    &&& r@[0] matches CollectorUpdate::StaConfig { ssid, password } && ssid@
                        == hstr_chars(&cfg.sta_ssid) && password@ == hstr_chars(&cfg.sta_password)
                    &&& r@[1] == CollectorUpdate::CsiConfig(cfg.csi_config)
                    &&& r@[2] == CollectorUpdate::StaOpMode(sta_mode)
                },
                WiFiMode::Sniffer => {
                    &&& r@.len() == 1
                    &&& r@[0] == CollectorUpdate::CsiConfig(cfg.csi_config)
                },
            }
        }),
{
    let mut r: Vec<CollectorUpdate> = Vec::new();
    let (sta_mode, ap_mode) = derive_op_modes(cfg);
    match cfg.op_mode {
        WiFiMode::AccessPoint => {
            r.push(
                CollectorUpdate::ApConfig {
                    ssid: String::from_str(hstr_as_str(&cfg.ap_ssid)),
                    password: String::from_str(hstr_as_str(&cfg.ap_password)),
                    max_connections: cfg.max_connections,
                },
            );
            r.push(CollectorUpdate::ApOpMode(ap_mode));
        },
        WiFiMode::AccessPointStation => {
            r.push(
                CollectorUpdate::ApConfig {
                    ssid: String::from_str(hstr_as_str(&cfg.ap_ssid)),
                    password: String::from_str(hstr_as_str(&cfg.ap_password)),
                    max_connections: cfg.max_connections,
                },
            );
            r.push(
                CollectorUpdate::StaConfig {
                    ssid: String::from_str(hstr_as_str(&cfg.sta_ssid)),
                    password: String::from_str(hstr_as_str(&cfg.sta_password)),
                },
            );
            r.push(CollectorUpdate::ApOpMode(ap_mode));
        },
        WiFiMode::Station => {
            r.push(
                CollectorUpdate::StaConfig {
                    ssid: String::from_str(hstr_as_str(&cfg.sta_ssid)),
                    password: String::from_str(hstr_as_str(&cfg.sta_password)),
                },
            );
            r.push(CollectorUpdate::CsiConfig(cfg.csi_config));
            r.push(CollectorUpdate::StaOpMode(sta_mode));
        },
        WiFiMode::Sniffer => {
            r.push(CollectorUpdate::CsiConfig(cfg.csi_config));
        },
    }
    r
}

// ---------------------------------------------------------------------------
// Start/stop signal
// ---------------------------------------------------------------------------

/// What the command task asks of the collection task: start a run,
/// bounded by a duration in seconds when one is given, or stop the
/// run in progress.
#[derive(Debug, Clone, Copy, PartialEq, Eq, Structural)]
pub enum SessionCommand {
    Start(Option<u64>),
    Stop,
}

/// One-element overwritable mailbox carrying start and stop commands
/// from the command task to the collection task.  Writing always
/// overwrites: the latest command wins and commands never queue.
pub struct StartSignal {
    slot: Option<SessionCommand>,
}

impl StartSignal {
    /// The pending command, if one has been signalled and not taken.
    pub closed spec fn pending(&self) -> Option<SessionCommand> {
        self.slot
    }

    pub fn new() -> (r: Self)
        ensures
            r.pending() is None,
    {
        StartSignal { slot: None }
    }

    /// Stores `cmd`, discarding any command not yet consumed: rapid
    /// start/stop toggling coalesces to the latest command alone.
    pub fn signal(&mut self, cmd: SessionCommand)
        ensures
            final(self).pending() == Some(cmd),
    {
        self.slot = Some(cmd);
    }

    /// Takes the pending command, leaving the slot empty.
    pub fn take(&mut self) -> (r: Option<SessionCommand>)
        ensures
            r == old(self).pending(),
            final(self).pending() is None,
    {
        let r = self.slot;
        self.slot = None;
        r
    }
}

/// Stop overwrite: whatever start command is pending, signalling stop
/// replaces it outright, so at most the stop remains — two commands
/// never queue as two separate runs.
pub proof fn lemma_stop_overwrites(before: StartSignal, after: StartSignal, d: Option<u64>)
    requires
        before.pending() == Some(SessionCommand::Start(d)),
        after.pending() == Some(SessionCommand::Stop),
    ensures
        after.pending() != Some(SessionCommand::Start(d)),
        after.pending() == Some(SessionCommand::Stop),
{
}

// ---------------------------------------------------------------------------
// Session state machine
// ---------------------------------------------------------------------------

/// Collection either sits idle or runs toward an optional deadline.
#[derive(Debug, Clone, Copy, PartialEq, Eq, Structural)]
pub enum SessionState {
    Idle,
    Running,
}

/// The collection task's state: idle until started, then running until
/// an explicit stop or until the deadline passes, whichever is first.
/// Time is carried in by the caller as milliseconds.
pub struct CollectionSession {
    pub state: SessionState,
    pub deadline_ms: Option<u64>,
}

/// The state after a start at `now_ms` with an optional bound of
/// `duration_s` seconds: running, the deadline saturating at the
/// clock's range.
pub open spec fn start_spec(now_ms: u64, duration_s: Option<u64>) -> CollectionSession {
    CollectionSession {
        state: SessionState::Running,
        deadline_ms: match duration_s {
            Some(d) => Some(sat_add_u64(now_ms as int, sat_mul_1000(d as int) as int)),
            None => None,
        },
    }
}

pub open spec fn sat_mul_1000(d: int) -> u64 {
    if d * 1000 > u64::MAX {
        u64::MAX
    } else {
        (d * 1000) as u64
    }
}

pub open spec fn sat_add_u64(a: int, b: int) -> u64 {
    if a + b > u64::MAX {
        u64::MAX
    } else {
        (a + b) as u64
    }
}

/// The state after one poll at `now_ms`: a running session whose
/// deadline has passed returns to idle and reports expiry; any other
/// poll changes nothing.
pub open spec fn poll_spec(s: CollectionSession, now_ms: u64) -> (CollectionSession, bool) {
    if s.state is Running && s.deadline_ms is Some && s.deadline_ms->Some_0 <= now_ms {
        (CollectionSession { state: SessionState::Idle, deadline_ms: None }, true)
    } else {
        (s, false)
    }
}

impl CollectionSession {
    pub fn new() -> (r: Self)
        ensures
            r.state is Idle,
            r.deadline_ms is None,
    {
        CollectionSession { state: SessionState::Idle, deadline_ms: None }
    }

    /// Enters Running immediately.  A duration bounds the run by a
    /// deadline; no duration runs unbounded until an explicit stop.
    pub fn start(&mut self, now_ms: u64, duration_s: Option<u64>)
        ensures
            *final(self) == start_spec(now_ms, duration_s),
    {
        let deadline_ms = match duration_s {
            Some(d) => {
                let span = match d.checked_mul(1000) {
                    Some(x) => x,
                    None => u64::MAX,
                };
                proof {
                    assert(span == sat_mul_1000(d as int));
                }
                let dl = match now_ms.checked_add(span) {
                    Some(x) => x,
                    None => u64::MAX,
                };
                proof {
                    assert(dl == sat_add_u64(now_ms as int, span as int));
                }
                Some(dl)
            },
            None => None,
        };
        self.state = SessionState::Running;
        self.deadline_ms = deadline_ms;
    }

    /// One cooperative cancellation check at an iteration boundary.
    /// Expiry of the deadline is the expected end of a bounded run,
    /// not an error.
    pub fn poll(&mut self, now_ms: u64) -> (expired: bool)
        ensures
            *final(self) == poll_spec(*old(self), now_ms).0,
            expired == poll_spec(*old(self), now_ms).1,
    {
        let is_running = match self.state {
            SessionState::Running => true,
            SessionState::Idle => false,
        };
        if is_running {
            let expired = match self.deadline_ms {
                Some(t) => t <= now_ms,
                None => false,
            };
            if expired {
                self.state = SessionState::Idle;
                self.deadline_ms = None;
                return true;
            }
        }
        false
    }

    /// An explicit stop: the same teardown path as deadline expiry.
    pub fn stop(&mut self)
        ensures
            final(self).state is Idle,
            final(self).deadline_ms is None,
    {
        self.state = SessionState::Idle;
        self.deadline_ms = None;
    }
}

/// A bounded run: starting with a duration enters Running at once;
/// a poll strictly before the deadline stays Running; the first poll
/// at or past the deadline returns to Idle and reports expiry.
pub proof fn lemma_bounded_run(now: u64, d: u64, early: u64, late: u64)
    requires
        d * 1000 <= u64::MAX,
        now + d * 1000 <= u64::MAX,
        early < now + d * 1000,
        late >= now + d * 1000,
    ensures
        start_spec(now, Some(d)).state is Running,
        poll_spec(start_spec(now, Some(d)), early).0.state is Running,
        poll_spec(start_spec(now, Some(d)), early).1 == false,
        poll_spec(start_spec(now, Some(d)), late).0.state is Idle,
        poll_spec(start_spec(now, Some(d)), late).1 == true,
{
    assert(sat_mul_1000(d as int) == d * 1000);
    assert(sat_add_u64(now as int, (d * 1000) as int) == now + d * 1000);
}

/// An unbounded run never expires on its own: only an explicit stop
/// ends it.
pub proof fn lemma_unbounded_run(now: u64, t: u64)
    ensures
        start_spec(now, None).state is Running,
        poll_spec(start_spec(now, None), t).0.state is Running,
        poll_spec(start_spec(now, None), t).1 == false,
{
}

} // verus!
