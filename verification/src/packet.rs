//! The parsed observation type: per-packet radio metadata plus raw
//! interleaved I/Q samples, with an exact mathematical view and the
//! integer projections derived from it.
use vstd::prelude::*;

verus! {

/// Mathematical model of a packet: unbounded integers and sequences.
#[verifier::ext_equal]
pub ghost struct CSIPacketV {
    pub mac: Seq<char>,
    pub rssi: int,
    pub channel: int,
    pub timestamp: int,
    pub rate: int,
    pub noise_floor: int,
    pub sig_len: int,
    pub rx_state: int,
    pub secondary_channel: int,
    pub sgi: int,
    pub ant: int,
    pub ampdu_cnt: int,
    pub sig_mode: int,
    pub mcs: int,
    pub cwb: int,
    pub smoothing: int,
    pub not_sounding: int,
    pub aggregation: int,
    pub stbc: int,
    pub fec_coding: int,
    pub data_length: int,
    pub csi_data: Seq<int>,
}

/// One parsed CSI observation from the device: either every mandatory
/// field was present and well formed, or no packet was produced at all.
#[derive(Debug, Clone)]
pub struct CSIPacket {
    pub mac: String,
    pub rssi: i32,
    pub channel: u8,
    pub timestamp: u64,
    pub rate: u8,
    pub noise_floor: i32,
    pub sig_len: u16,
    pub rx_state: u8,
    pub secondary_channel: u8,
    pub sgi: u8,
    pub ant: u8,
    pub ampdu_cnt: u8,
    pub sig_mode: u8,
    pub mcs: u8,
    pub cwb: u8,
    pub smoothing: u8,
    pub not_sounding: u8,
    pub aggregation: u8,
    pub stbc: u8,
    pub fec_coding: u8,
    pub data_length: u16,
    /// Raw CSI samples, interleaved as I0, Q0, I1, Q1, ...
    pub csi_data: Vec<i32>,
}

impl View for CSIPacket {
    type V = CSIPacketV;

    open spec fn view(&self) -> CSIPacketV {
        CSIPacketV {
            mac: self.mac@,
            rssi: self.rssi as int,
            channel: self.channel as int,
            timestamp: self.timestamp as int,
            rate: self.rate as int,
            noise_floor: self.noise_floor as int,
            sig_len: self.sig_len as int,
            rx_state: self.rx_state as int,
            secondary_channel: self.secondary_channel as int,
            sgi: self.sgi as int,
            ant: self.ant as int,
            ampdu_cnt: self.ampdu_cnt as int,
            sig_mode: self.sig_mode as int,
            cwb: self.cwb as int,
            mcs: self.mcs as int,
            smoothing: self.smoothing as int,
            not_sounding: self.not_sounding as int,
            aggregation: self.aggregation as int,
            stbc: self.stbc as int,
            fec_coding: self.fec_coding as int,
            data_length: self.data_length as int,
            csi_data: self.csi_data@.map_values(|x: i32| x as int),
        }
    }
}

/// Number of I/Q pairs that the amplitude and phase projections yield:
/// one per full or trailing half pair.
pub open spec fn pair_count(n: int) -> int {
    (n + 1) / 2
}

/// The in-phase sample of pair `k`.
pub open spec fn pair_i(d: Seq<int>, k: int) -> int {
    d[2 * k]
}

/// The quadrature sample of pair `k`, zero when the sequence ends early.
pub open spec fn pair_q(d: Seq<int>, k: int) -> int {
    if 2 * k + 1 < d.len() {
        d[2 * k + 1]
    } else {
        0
    }
}

/// Squared amplitude of pair `k`.
pub open spec fn amp_sq_at(d: Seq<int>, k: int) -> int {
    pair_i(d, k) * pair_i(d, k) + pair_q(d, k) * pair_q(d, k)
}

impl CSIPacket {
    /// Number of subcarriers carried by this packet: one I/Q pair each.
    pub fn subcarrier_count(&self) -> (n: usize)
        ensures
            n == self@.csi_data.len() / 2,
    {
        proof {
            assert(self.csi_data@.map_values(|x: i32| x as int).len() == self.csi_data@.len());
        }
        self.csi_data.len() / 2
    }

    /// Squared amplitude per subcarrier: `I*I + Q*Q` for each interleaved
    /// pair, a trailing lone `I` paired with a zero `Q`.  The amplitude
    /// itself is the square root of each entry.
    pub fn amplitude_squared(&self) -> (r: Vec<u64>)
        ensures
            r@.len() == pair_count(self@.csi_data.len() as int),
            forall|k: int| 0 <= k < r@.len() ==> r@[k] == amp_sq_at(self@.csi_data, k),
    {
        let ghost d = self@.csi_data;
        let mut r: Vec<u64> = Vec::new();
        let mut j: usize = 0;
        while j < self.csi_data.len()
            invariant
                d == self@.csi_data,
                d.len() == self.csi_data@.len(),
                forall|m: int| 0 <= m < d.len() ==> d[m] == self.csi_data@[m] as int,
                j % 2 == 0 || j == d.len(),
                j <= self.csi_data.len(),
                r@.len() == (j + 1) / 2,
                forall|k: int| 0 <= k < r@.len() ==> r@[k] == amp_sq_at(d, k),
            decreases self.csi_data.len() - j,
        {
            let a = self.csi_data[j];
            let b: i32 = if j + 1 < self.csi_data.len() {
                self.csi_data[j + 1]
            } else {
                0
            };
            proof {
                assert((a as int) * (a as int) <= 0x4000_0000_0000_0000 && (a as int) * (a as int)
                    >= 0) by (nonlinear_arith)
                    requires
                        -0x8000_0000 <= a as int <= 0x7fff_ffff,
                ;
                assert((b as int) * (b as int) <= 0x4000_0000_0000_0000 && (b as int) * (b as int)
                    >= 0) by (nonlinear_arith)
                    requires
                        -0x8000_0000 <= b as int <= 0x7fff_ffff,
                ;
            }
            let aa: u64 = ((a as i64) * (a as i64)) as u64;
            let bb: u64 = ((b as i64) * (b as i64)) as u64;
            let s: u64 = aa + bb;
            proof {
                let k = j as int / 2;
                assert(2 * k == j as int);
                assert(pair_i(d, k) == a as int);
                assert(pair_q(d, k) == b as int);
                assert(s as int == amp_sq_at(d, k)) by (nonlinear_arith)
                    requires
                        s as int == (a as int) * (a as int) + (b as int) * (b as int),
                        pair_i(d, k) == a as int,
                        pair_q(d, k) == b as int,
                        amp_sq_at(d, k) == pair_i(d, k) * pair_i(d, k) + pair_q(d, k) * pair_q(
                            d,
                            k,
                        ),
                ;
            }
            r.push(s);
            if j + 1 < self.csi_data.len() {
                j = j + 2;
            } else {
                j = j + 1;
            }
        }
        proof {
            assert(r@.len() == pair_count(d.len() as int));
        }
        r
    }
}

/// Running statistics over a collection period.
#[derive(Debug, Clone)]
pub struct CollectionStats {
    pub packets_received: u64,
    pub rssi_min: i32,
    pub rssi_max: i32,
    pub rssi_avg: i32,
    pub start_time: u64,
}

impl Default for CollectionStats {
    fn default() -> (r: Self)
        ensures
            r.packets_received == 0,
            r.rssi_min == 0,
            r.rssi_max == 0,
            r.rssi_avg == 0,
            r.start_time == 0,
    {
        CollectionStats { packets_received: 0, rssi_min: 0, rssi_max: 0, rssi_avg: 0, start_time: 0 }
    }
}

/// Host-side mirror of the device configuration.
#[derive(Debug, Clone)]
pub struct DeviceConfig {
    pub wifi_mode: String,
    pub channel: u8,
    pub ssid: String,
    pub password: String,
    pub traffic_frequency: u32,
    pub csi_features_enabled: bool,
}

impl Default for DeviceConfig {
    fn default() -> (r: Self)
        ensures
            r.wifi_mode@ == "sniffer"@,
            r.channel == 1,
            r.ssid@ == Seq::<char>::empty(),
            r.password@ == Seq::<char>::empty(),
            r.traffic_frequency == 0,
            r.csi_features_enabled,
    {
        DeviceConfig {
            wifi_mode: "sniffer".to_string(),
            channel: 1,
            ssid: String::new(),
            password: String::new(),
            traffic_frequency: 0,
            csi_features_enabled: true,
        }
    }
}

} // verus!
