//! Tabular export of collected packets: one row per packet with its
//! metadata and amplitude summary.  Amplitudes are carried here as
//! exact squared magnitudes; the on-disk artifact's peak and mean
//! amplitude columns are their square roots, taken where floating
//! point is at home — the peak from `amplitude_peak_sq`, the mean
//! over the packet's `amplitude_squared` series.  Writing to disk is
//! likewise the embedding program's concern.
use vstd::prelude::*;

use crate::packet::{amp_sq_at, pair_count, pair_i, pair_q, CSIPacket};
use crate::text::{fmt_i64, fmt_int_spec, fmt_nat_spec, fmt_u64};

verus! {

/// The squared amplitudes of a packet's pairs, in order.
pub open spec fn amp_sq_seq(d: Seq<int>) -> Seq<int> {
    Seq::new(pair_count(d.len() as int) as nat, |k: int| amp_sq_at(d, k))
}

/// The greatest entry, or zero for an empty window.
pub open spec fn seq_max_int(s: Seq<int>) -> int
    decreases s.len(),
{
    if s.len() == 0 {
        0
    } else {
        let m = seq_max_int(s.drop_last());
        if s.last() > m {
            s.last()
        } else {
            m
        }
    }
}

/// One export row, reduced to plain values.
#[derive(Debug, Clone)]
pub struct CSIRecord {
    pub timestamp_us: u64,
    pub mac_address: String,
    pub rssi_dbm: i32,
    pub channel: u8,
    pub rate_mbps: u8,
    pub signal_length: u16,
    pub subcarrier_count: usize,
    /// Squared peak amplitude over the subcarriers; the peak amplitude
    /// is its square root.
    pub amplitude_peak_sq: u64,
}

/// What converting a packet yields.
pub open spec fn record_spec(p: CSIPacket) -> CSIRecord {
    CSIRecord {
        timestamp_us: p.timestamp,
        mac_address: p.mac,
        rssi_dbm: p.rssi,
        channel: p.channel,
        rate_mbps: p.rate,
        signal_length: p.sig_len,
        subcarrier_count: (p.csi_data@.len() / 2) as usize,
        amplitude_peak_sq: seq_max_int(amp_sq_seq(p@.csi_data)) as u64,
    }
}

impl CSIRecord {
    /// Reduces one packet to its export row.
    pub fn from_packet(p: &CSIPacket) -> (r: CSIRecord)
        ensures
            r == record_spec(*p),
    {
        let amps = p.amplitude_squared();
        let ghost asq = amp_sq_seq(p@.csi_data);
        proof {
            assert(amps@.len() == asq.len());
            assert(forall|k: int| 0 <= k < amps@.len() ==> amps@[k] as int == asq[k]);
        }
        let mut peak: u64 = 0;
        let mut i: usize = 0;
        while i < amps.len()
            invariant
                i <= amps@.len(),
                amps@.len() == asq.len(),
                forall|k: int| 0 <= k < amps@.len() ==> amps@[k] as int == asq[k],
                peak as int == seq_max_int(asq.take(i as int)),
            decreases amps.len() - i,
        {
            proof {
                assert(asq.take(i + 1).drop_last() =~= asq.take(i as int));
                assert(asq.take(i + 1).last() == asq[i as int]);
            }
            if amps[i] > peak {
                peak = amps[i];
            }
            i = i + 1;
        }
        proof {
            assert(asq.take(i as int) =~= asq);
            assert(p.csi_data@.map_values(|x: i32| x as int).len() == p.csi_data@.len());
        }
        CSIRecord {
            timestamp_us: p.timestamp,
            mac_address: p.mac.clone(),
            rssi_dbm: p.rssi,
            channel: p.channel,
            rate_mbps: p.rate,
            signal_length: p.sig_len,
            subcarrier_count: p.csi_data.len() / 2,
            amplitude_peak_sq: peak,
        }
    }
}

/// The column header of an export.
pub open spec fn header_spec() -> Seq<char> {
    "timestamp_us,mac_address,rssi_dbm,channel,rate_mbps,signal_length,subcarrier_count,amplitude_peak_sq"@
}

/// One rendered row.
pub open spec fn row_spec(p: CSIPacket) -> Seq<char> {
    fmt_nat_spec(p.timestamp as int) + ","@ + p.mac@ + ","@ + fmt_int_spec(p.rssi as int) + ","@
        + fmt_nat_spec(p.channel as int) + ","@ + fmt_nat_spec(p.rate as int) + ","@ + fmt_nat_spec(
        p.sig_len as int,
    ) + ","@ + fmt_nat_spec(p.csi_data@.len() as int / 2) + ","@ + fmt_nat_spec(
        seq_max_int(amp_sq_seq(p@.csi_data)),
    )
}

/// The rendered rows of a window, oldest first, each ending in a
/// newline.
pub open spec fn rows_spec(ps: Seq<CSIPacket>) -> Seq<char>
    decreases ps.len(),
{
    if ps.len() == 0 {
        Seq::empty()
    } else {
        rows_spec(ps.drop_last()) + row_spec(ps.last()) + "\n"@
    }
}

/// The whole export: header line, then one row per packet.
pub open spec fn export_spec(ps: Seq<CSIPacket>) -> Seq<char> {
    header_spec() + "\n"@ + rows_spec(ps)
}

/// Every entry bounded keeps the maximum bounded.
proof fn lemma_seq_max_in_range(s: Seq<int>, hi: int)
    requires
        hi >= 0,
        forall|i: int| 0 <= i < s.len() ==> 0 <= #[trigger] s[i] <= hi,
    ensures
        0 <= seq_max_int(s) <= hi,
    decreases s.len(),
{
    if s.len() > 0 {
        assert(forall|i: int|
            0 <= i < s.drop_last().len() ==> #[trigger] s.drop_last()[i] == s[i]);
        lemma_seq_max_in_range(s.drop_last(), hi);
    }
}

/// Squared amplitudes of 32-bit samples fit 64 bits.
proof fn lemma_amp_sq_in_range(p: CSIPacket)
    ensures
        forall|k: int|
            0 <= k < amp_sq_seq(p@.csi_data).len() ==> 0 <= #[trigger] amp_sq_seq(p@.csi_data)[k]
                <= 0x8000_0000_0000_0000,
        0 <= seq_max_int(amp_sq_seq(p@.csi_data)) <= 0x8000_0000_0000_0000,
{
    let d = p@.csi_data;
    assert(d.len() == p.csi_data@.len());
    assert forall|k: int|
        0 <= k < amp_sq_seq(d).len() implies 0 <= #[trigger] amp_sq_seq(d)[k]
        <= 0x8000_0000_0000_0000 by {
        assert(amp_sq_seq(d)[k] == amp_sq_at(d, k));
        let a = pair_i(d, k);
        let b = pair_q(d, k);
        assert(2 * k < d.len());
        assert(d[2 * k] == p.csi_data@[2 * k] as int);
        if 2 * k + 1 < d.len() {
            assert(d[2 * k + 1] == p.csi_data@[2 * k + 1] as int);
        }
        assert(-0x8000_0000 <= a <= 0x7fff_ffff);
        assert(-0x8000_0000 <= b <= 0x7fff_ffff);
        assert(0 <= a * a + b * b <= 0x8000_0000_0000_0000) by (nonlinear_arith)
            requires
                -0x8000_0000 <= a <= 0x7fff_ffff,
                -0x8000_0000 <= b <= 0x7fff_ffff,
        ;
    }
    lemma_seq_max_in_range(amp_sq_seq(d), 0x8000_0000_0000_0000);
}

fn render_row(p: &CSIPacket) -> (r: String)
    ensures
        r@ == row_spec(*p),
{
    let n = p.csi_data.len();
    proof {
        assert(p.csi_data@.len() == n);
    }
    let rec = CSIRecord::from_packet(p);
    let mut r = fmt_u64(rec.timestamp_us);
    r.append(",");
    r.append(rec.mac_address.as_str());
    r.append(",");
    r.append(fmt_i64(rec.rssi_dbm as i64).as_str());
    r.append(",");
    r.append(fmt_u64(rec.channel as u64).as_str());
    r.append(",");
    r.append(fmt_u64(rec.rate_mbps as u64).as_str());
    r.append(",");
    r.append(fmt_u64(rec.signal_length as u64).as_str());
    r.append(",");
    r.append(fmt_u64(rec.subcarrier_count as u64).as_str());
    r.append(",");
    r.append(fmt_u64(rec.amplitude_peak_sq).as_str());
    proof {
        assert(p.csi_data@.map_values(|x: i32| x as int).len() == p.csi_data@.len());
        lemma_amp_sq_in_range(*p);
        assert(rec.amplitude_peak_sq as int == seq_max_int(amp_sq_seq(p@.csi_data)));
        assert(r@ =~= row_spec(*p));
    }
    r
}

pub struct CSVExporter;

impl CSVExporter {
    /// Renders the window as delimited text: a header line, then one
    /// row per packet in arrival order.
    pub fn export_packets(packets: &Vec<CSIPacket>) -> (r: String)
        ensures
            r@ == export_spec(packets@),
    {
        let mut r = String::from_str(
            "timestamp_us,mac_address,rssi_dbm,channel,rate_mbps,signal_length,subcarrier_count,amplitude_peak_sq",
        );
        r.append("\n");
        let mut i: usize = 0;
        while i < packets.len()
            invariant
                i <= packets@.len(),
                r@ == export_spec(packets@.take(i as int)),
            decreases packets.len() - i,
        {
            proof {
                assert(packets@.take(i + 1).drop_last() =~= packets@.take(i as int));
                assert(packets@.take(i + 1).last() == packets@[i as int]);
            }
            let row = render_row(&packets[i]);
            r.append(row.as_str());
            r.append("\n");
            i = i + 1;
            proof {
                assert(r@ =~= export_spec(packets@.take(i as int)));
            }
        }
        proof {
            assert(packets@.take(i as int) =~= packets@);
        }
        r
    }

    /// The same export preceded by comment lines `# key: value`, one
    /// per metadata pair, and a blank line.
    pub fn export_with_metadata(packets: &Vec<CSIPacket>, metadata: &Vec<(String, String)>) -> (r:
        String)
        ensures
            r@ == metadata_spec(metadata@) + "\n"@ + export_spec(packets@),
    {
        let mut r = String::new();
        let mut i: usize = 0;
        proof {
            assert(r@ =~= metadata_spec(metadata@.take(0)));
        }
        while i < metadata.len()
            invariant
                i <= metadata@.len(),
                r@ == metadata_spec(metadata@.take(i as int)),
            decreases metadata.len() - i,
        {
            proof {
                assert(metadata@.take(i + 1).drop_last() =~= metadata@.take(i as int));
                assert(metadata@.take(i + 1).last() == metadata@[i as int]);
            }
            r.append("# ");
            r.append(metadata[i].0.as_str());
            r.append(": ");
            r.append(metadata[i].1.as_str());
            r.append("\n");
            i = i + 1;
            proof {
                assert(r@ =~= metadata_spec(metadata@.take(i as int)));
            }
        }
        proof {
            assert(metadata@.take(i as int) =~= metadata@);
        }
        r.append("\n");
        let body = CSVExporter::export_packets(packets);
        r.append(body.as_str());
        r
    }
}

/// The metadata preamble: `# key: value` lines.
pub open spec fn metadata_spec(md: Seq<(String, String)>) -> Seq<char>
    decreases md.len(),
{
    if md.len() == 0 {
        Seq::empty()
    } else {
        metadata_spec(md.drop_last()) + "# "@ + md.last().0@ + ": "@ + md.last().1@ + "\n"@
    }
}

} // verus!
