//! Rendering a packet back into the device's wire format, and the
//! round-trip law: a well-formed rendered block parses back to an
//! equal packet.
use vstd::prelude::*;

use crate::packet::{CSIPacket, CSIPacketV};
use crate::parser::{
    aggregation_label, ampdu_cnt_label, ant_label, channel_label, csi_line_selected,
    csi_raw_data_label, csi_values_spec, cwb_label, data_length_label, extract_csi_spec,
    extract_mac_spec, fec_coding_label, field_sint_lines, field_uint_lines, first_csi_line,
    first_line_containing, first_mac_pos, lemma_strip_brackets_end_take,
    lemma_strip_brackets_start_skip, lines_spec, mac_capture, mac_label, mac_match_at,
    mac_run_end, mcs_label, noise_floor_label, not_sounding_label, parse_packet_spec,
    parsed_i32s, rate_label, rssi_label, rx_state_label, second_colon_segment,
    secondary_channel_label, sgi_label, sig_len_label, sig_mode_label, smoothing_label,
    stbc_label, strip_brackets, strip_cr, timestamp_label, ws_run_end,
};
use crate::text::{
    contains_at, contains_seq, find_first, fmt_i64, fmt_int_spec, fmt_nat_spec, fmt_u64,
    is_digit_char, is_mac_char, is_space_char, lemma_find_first, lemma_fmt_int_chars,
    lemma_fmt_int_tail_digits, lemma_parse_fmt_int, lemma_parse_fmt_nat, lemma_split_no_sep,
    lemma_split_prepend, lemma_trim_end_take, lemma_trim_start_skip, parse_sint_spec,
    parse_uint_spec, split_char_spec, trim_spec,
};

verus! {

// ---------------------------------------------------------------------------
// Rendered form
// ---------------------------------------------------------------------------

/// A label line carrying a number: `label: value`.
pub open spec fn int_line(lab: Seq<char>, n: int) -> Seq<char> {
    lab + seq![' '] + fmt_int_spec(n)
}

/// The MAC line: `mac: aa:bb:...`.
pub open spec fn mac_line(mac: Seq<char>) -> Seq<char> {
    mac_label() + seq![' '] + mac
}

/// The comma-separated payload entries.
pub open spec fn array_items(d: Seq<int>) -> Seq<char>
    decreases d.len(),
{
    if d.len() == 0 {
        Seq::empty()
    } else if d.len() == 1 {
        fmt_int_spec(d[0])
    } else {
        fmt_int_spec(d[0]) + seq![','] + seq![' '] + array_items(d.skip(1))
    }
}

/// The payload line: `[v0, v1, ...]`.
pub open spec fn array_line(d: Seq<int>) -> Seq<char> {
    seq!['['] + array_items(d) + seq![']']
}

/// Every line of a rendered block, in the order the device prints
/// them.
pub open spec fn render_lines_spec(v: CSIPacketV) -> Seq<Seq<char>> {
    seq![
        mac_line(v.mac),
        int_line(rssi_label(), v.rssi),
        int_line(rate_label(), v.rate),
        int_line(noise_floor_label(), v.noise_floor),
        int_line(channel_label(), v.channel),
        int_line(timestamp_label(), v.timestamp),
        int_line(sig_len_label(), v.sig_len),
        int_line(rx_state_label(), v.rx_state),
        int_line(secondary_channel_label(), v.secondary_channel),
        int_line(sgi_label(), v.sgi),
        int_line(ant_label(), v.ant),
        int_line(ampdu_cnt_label(), v.ampdu_cnt),
        int_line(sig_mode_label(), v.sig_mode),
        int_line(mcs_label(), v.mcs),
        int_line(cwb_label(), v.cwb),
        int_line(smoothing_label(), v.smoothing),
        int_line(not_sounding_label(), v.not_sounding),
        int_line(aggregation_label(), v.aggregation),
        int_line(stbc_label(), v.stbc),
        int_line(fec_coding_label(), v.fec_coding),
        int_line(data_length_label(), v.data_length),
        csi_raw_data_label(),
        array_line(v.csi_data),
    ]
}

/// Lines joined with one newline after each.
pub open spec fn join_lines(ls: Seq<Seq<char>>) -> Seq<char>
    decreases ls.len(),
{
    if ls.len() == 0 {
        Seq::empty()
    } else {
        ls[0] + seq!['\n'] + join_lines(ls.skip(1))
    }
}

/// The full rendered block.
pub open spec fn render_block_spec(v: CSIPacketV) -> Seq<char> {
    join_lines(render_lines_spec(v))
}

/// The packets the round trip covers: a non-empty MAC of hex digits
/// and colons, and a non-empty even-length payload (one I/Q pair per
/// subcarrier) whose first entry is negative or zero.  (The parser
/// selects the payload line by exactly that leading shape and drops
/// odd-length payloads.)  Field ranges match the packet type.
pub open spec fn packet_wf(v: CSIPacketV) -> bool {
    &&& v.mac.len() >= 1
    &&& (forall|i: int| 0 <= i < v.mac.len() ==> is_mac_char(#[trigger] v.mac[i]))
    &&& -0x8000_0000 <= v.rssi <= 0x7fff_ffff
    &&& -0x8000_0000 <= v.noise_floor <= 0x7fff_ffff
    &&& 0 <= v.channel <= 255
    &&& 0 <= v.timestamp <= 0xffff_ffff_ffff_ffff
    &&& 0 <= v.rate <= 255
    &&& 0 <= v.sig_len <= 65535
    &&& 0 <= v.rx_state <= 255
    &&& 0 <= v.secondary_channel <= 255
    &&& 0 <= v.sgi <= 255
    &&& 0 <= v.ant <= 255
    &&& 0 <= v.ampdu_cnt <= 255
    &&& 0 <= v.sig_mode <= 255
    &&& 0 <= v.mcs <= 255
    &&& 0 <= v.cwb <= 255
    &&& 0 <= v.smoothing <= 255
    &&& 0 <= v.not_sounding <= 255
    &&& 0 <= v.aggregation <= 255
    &&& 0 <= v.stbc <= 255
    &&& 0 <= v.fec_coding <= 255
    &&& 0 <= v.data_length <= 65535
    &&& v.csi_data.len() >= 2
    &&& v.csi_data.len() % 2 == 0
    &&& (forall|i: int|
        0 <= i < v.csi_data.len() ==> -0x8000_0000 <= #[trigger] v.csi_data[i] <= 0x7fff_ffff)
    &&& (v.csi_data[0] < 0 || v.csi_data[0] == 0)
}

// ---------------------------------------------------------------------------
// Executable renderer
// ---------------------------------------------------------------------------

fn append_int_line(
    out: &mut String,
    Ghost(lines): Ghost<Seq<Seq<char>>>,
    lab: &str,
    Ghost(labv): Ghost<Seq<char>>,
    n: i64,
) -> (gl: Ghost<Seq<Seq<char>>>)
    requires
        lab@ == labv,
        old(out)@ == join_lines(lines),
    ensures
        gl@ == lines.push(int_line(labv, n as int)),
        final(out)@ == join_lines(gl@),
{
    out.append(lab);
    out.append(" ");
    out.append(fmt_i64(n).as_str());
    out.append("\n");
    proof {
        reveal_strlit(" ");
        reveal_strlit("\n");
        lemma_join_snoc(lines, int_line(labv, n as int));
        assert(out@ =~= join_lines(lines) + int_line(labv, n as int) + seq!['\n']);
    }
    Ghost(lines.push(int_line(labv, n as int)))
}

/// Everything rendered before the first payload entry: the first
/// twenty-two lines and the opening bracket.
pub open spec fn prefix_through_bracket(v: CSIPacketV) -> Seq<char> {
    join_lines(render_lines_spec(v).take(22)) + seq!['[']
}

/// Joining one more line appends it and a newline.
proof fn lemma_join_snoc(ls: Seq<Seq<char>>, l: Seq<char>)
    ensures
        join_lines(ls.push(l)) == join_lines(ls) + l + seq!['\n'],
    decreases ls.len(),
{
    if ls.len() == 0 {
        assert(ls.push(l)[0] == l);
        assert(ls.push(l).skip(1) =~= Seq::<Seq<char>>::empty());
        assert(join_lines(Seq::<Seq<char>>::empty()) =~= Seq::<char>::empty());
        assert(join_lines(ls) =~= Seq::<char>::empty());
        assert(join_lines(ls.push(l)) == ls.push(l)[0] + seq!['\n'] + join_lines(
            ls.push(l).skip(1),
        ));
        assert(join_lines(ls.push(l)) =~= join_lines(ls) + l + seq!['\n']);
    } else {
        assert(ls.push(l)[0] == ls[0]);
        assert(ls.push(l).skip(1) =~= ls.skip(1).push(l));
        lemma_join_snoc(ls.skip(1), l);
        assert(join_lines(ls.push(l)) =~= join_lines(ls) + l + seq!['\n']);
    }
}

/// Appending one more entry extends the item text by a separator and
/// the entry.
proof fn lemma_array_items_snoc(d: Seq<int>)
    requires
        d.len() >= 1,
    ensures
        d.len() == 1 ==> array_items(d) == fmt_int_spec(d[0]),
        d.len() >= 2 ==> array_items(d) == array_items(d.drop_last()) + seq![','] + seq![' ']
            + fmt_int_spec(d.last()),
    decreases d.len(),
{
    if d.len() >= 2 {
        lemma_array_items_snoc(d.skip(1));
        assert(d.skip(1).drop_last() =~= d.drop_last().skip(1));
        if d.len() == 2 {
            assert(d.drop_last().len() == 1);
            assert(array_items(d.drop_last()) == fmt_int_spec(d[0]));
            assert(d.skip(1).len() == 1);
            assert(array_items(d.skip(1)) == fmt_int_spec(d[1]));
            assert(array_items(d) =~= array_items(d.drop_last()) + seq![','] + seq![' ']
                + fmt_int_spec(d.last()));
        } else {
            assert(d.drop_last().len() >= 2);
            assert(d.drop_last()[0] == d[0]);
            assert(array_items(d.drop_last()) == fmt_int_spec(d[0]) + seq![','] + seq![' ']
                + array_items(d.drop_last().skip(1)));
            assert(d.skip(1).last() == d.last());
            assert(array_items(d) =~= array_items(d.drop_last()) + seq![','] + seq![' ']
                + fmt_int_spec(d.last()));
        }
    }
}


/// Renders a packet as one well-formed block, every mandatory field as
/// a `label: value` line and the payload as `[v0, v1, ...]`.
#[verifier::rlimit(100)]
pub fn render_block(p: &CSIPacket) -> (r: String)
    ensures
        r@ == render_block_spec(p@),
{
    proof {
        reveal_strlit("rssi:");
        reveal_strlit("rate:");
        reveal_strlit("noise floor:");
        reveal_strlit("channel:");
        reveal_strlit("timestamp:");
        reveal_strlit("sig len:");
        reveal_strlit("rx state:");
        reveal_strlit("secondary channel:");
        reveal_strlit("sgi:");
        reveal_strlit("ant:");
        reveal_strlit("ampdu cnt:");
        reveal_strlit("sig_mode:");
        reveal_strlit("mcs:");
        reveal_strlit("cwb:");
        reveal_strlit("smoothing:");
        reveal_strlit("not sounding:");
        reveal_strlit("aggregation:");
        reveal_strlit("stbc:");
        reveal_strlit("fec coding:");
        reveal_strlit("data length:");
        assert("rssi:"@ =~= rssi_label());
        assert("rate:"@ =~= rate_label());
        assert("noise floor:"@ =~= noise_floor_label());
        assert("channel:"@ =~= channel_label());
        assert("timestamp:"@ =~= timestamp_label());
        assert("sig len:"@ =~= sig_len_label());
        assert("rx state:"@ =~= rx_state_label());
        assert("secondary channel:"@ =~= secondary_channel_label());
        assert("sgi:"@ =~= sgi_label());
        assert("ant:"@ =~= ant_label());
        assert("ampdu cnt:"@ =~= ampdu_cnt_label());
        assert("sig_mode:"@ =~= sig_mode_label());
        assert("mcs:"@ =~= mcs_label());
        assert("cwb:"@ =~= cwb_label());
        assert("smoothing:"@ =~= smoothing_label());
        assert("not sounding:"@ =~= not_sounding_label());
        assert("aggregation:"@ =~= aggregation_label());
        assert("stbc:"@ =~= stbc_label());
        assert("fec coding:"@ =~= fec_coding_label());
        assert("data length:"@ =~= data_length_label());
    }
    let ghost v = p@;
    let mut out = String::new();
    let mut gl: Ghost<Seq<Seq<char>>> = Ghost(Seq::empty());
    out.append("mac:");
    out.append(" ");
    out.append(p.mac.as_str());
    out.append("\n");
    proof {
        reveal_strlit("mac:");
        reveal_strlit(" ");
        reveal_strlit("\n");
        lemma_join_snoc(gl@, mac_line(v.mac));
        assert(join_lines(Seq::<Seq<char>>::empty()) =~= Seq::<char>::empty());
        assert(out@ =~= join_lines(Seq::<Seq<char>>::empty()) + mac_line(v.mac) + seq!['\n']);
    }
    proof {
        gl@ = gl@.push(mac_line(v.mac));
    }
    gl = append_int_line(&mut out, gl, "rssi:", Ghost(rssi_label()), p.rssi as i64);
    gl = append_int_line(&mut out, gl, "rate:", Ghost(rate_label()), p.rate as i64);
    gl = append_int_line(&mut out, gl, "noise floor:", Ghost(noise_floor_label()), p.noise_floor as i64);
    gl = append_int_line(&mut out, gl, "channel:", Ghost(channel_label()), p.channel as i64);
    proof {
        assert(v.timestamp <= 0xffff_ffff_ffff_ffff);
    }
    let ts = fmt_u64(p.timestamp);
    out.append("timestamp:");
    out.append(" ");
    out.append(ts.as_str());
    out.append("\n");
    proof {
        reveal_strlit("timestamp:");
        reveal_strlit(" ");
        reveal_strlit("\n");
        assert(fmt_nat_spec(v.timestamp) == fmt_int_spec(v.timestamp));
        lemma_join_snoc(gl@, int_line(timestamp_label(), v.timestamp));
        assert(out@ =~= join_lines(gl@) + int_line(timestamp_label(), v.timestamp) + seq!['\n']);
        gl@ = gl@.push(int_line(timestamp_label(), v.timestamp));
    }
    gl = append_int_line(&mut out, gl, "sig len:", Ghost(sig_len_label()), p.sig_len as i64);
    gl = append_int_line(&mut out, gl, "rx state:", Ghost(rx_state_label()), p.rx_state as i64);
    gl = append_int_line(
        &mut out,
        gl,
        "secondary channel:",
        Ghost(secondary_channel_label()),
        p.secondary_channel as i64,
    );
    gl = append_int_line(&mut out, gl, "sgi:", Ghost(sgi_label()), p.sgi as i64);
    gl = append_int_line(&mut out, gl, "ant:", Ghost(ant_label()), p.ant as i64);
    gl = append_int_line(&mut out, gl, "ampdu cnt:", Ghost(ampdu_cnt_label()), p.ampdu_cnt as i64);
    gl = append_int_line(&mut out, gl, "sig_mode:", Ghost(sig_mode_label()), p.sig_mode as i64);
    gl = append_int_line(&mut out, gl, "mcs:", Ghost(mcs_label()), p.mcs as i64);
    gl = append_int_line(&mut out, gl, "cwb:", Ghost(cwb_label()), p.cwb as i64);
    gl = append_int_line(&mut out, gl, "smoothing:", Ghost(smoothing_label()), p.smoothing as i64);
    gl = append_int_line(&mut out, gl, "not sounding:", Ghost(not_sounding_label()), p.not_sounding as i64);
    gl = append_int_line(&mut out, gl, "aggregation:", Ghost(aggregation_label()), p.aggregation as i64);
    gl = append_int_line(&mut out, gl, "stbc:", Ghost(stbc_label()), p.stbc as i64);
    gl = append_int_line(&mut out, gl, "fec coding:", Ghost(fec_coding_label()), p.fec_coding as i64);
    gl = append_int_line(&mut out, gl, "data length:", Ghost(data_length_label()), p.data_length as i64);
    out.append("csi raw data:");
    out.append("\n");
    proof {
        reveal_strlit("csi raw data:");
        reveal_strlit("\n");
        assert("csi raw data:"@ =~= csi_raw_data_label());
        lemma_join_snoc(gl@, csi_raw_data_label());
        assert(out@ =~= join_lines(gl@) + csi_raw_data_label() + seq!['\n']);
        gl@ = gl@.push(csi_raw_data_label());
        assert(gl@ =~= render_lines_spec(v).take(22));
    }
    out.append("[");
    proof {
        reveal_strlit("[");
        assert(out@ =~= prefix_through_bracket(v));
    }
    let mut i: usize = 0;
    while i < p.csi_data.len()
        invariant
            i <= p.csi_data@.len(),
            v == p@,
            v.csi_data.len() == p.csi_data@.len(),
            forall|m: int| 0 <= m < v.csi_data.len() ==> v.csi_data[m] == p.csi_data@[m] as int,
            i == 0 ==> out@ == prefix_through_bracket(v),
            i > 0 ==> out@ == prefix_through_bracket(v) + array_items(v.csi_data.take(i as int)),
        decreases p.csi_data.len() - i,
    {
        if i > 0 {
            out.append(",");
            out.append(" ");
        }
        out.append(fmt_i64(p.csi_data[i] as i64).as_str());
        proof {
            reveal_strlit(",");
            reveal_strlit(" ");
            lemma_array_items_snoc(v.csi_data.take(i + 1));
            assert(v.csi_data.take(i + 1).drop_last() =~= v.csi_data.take(i as int));
            assert(v.csi_data.take(i + 1).last() == v.csi_data[i as int]);
            if i == 0 {
                assert(v.csi_data.take(1).len() == 1);
                assert(array_items(v.csi_data.take(1)) == fmt_int_spec(v.csi_data[0]));
                assert(out@ =~= prefix_through_bracket(v) + array_items(v.csi_data.take(1)));
            } else {
                assert(out@ =~= prefix_through_bracket(v) + array_items(v.csi_data.take(i + 1)));
            }
        }
        i = i + 1;
    }
    out.append("]");
    out.append("\n");
    proof {
        reveal_strlit("]");
        reveal_strlit("\n");
        assert(v.csi_data.take(v.csi_data.len() as int) =~= v.csi_data);
        if v.csi_data.len() == 0 {
            assert(array_items(v.csi_data) =~= Seq::<char>::empty());
        }
        let lines22 = render_lines_spec(v).take(22);
        lemma_join_snoc(lines22, array_line(v.csi_data));
        assert(lines22.push(array_line(v.csi_data)) =~= render_lines_spec(v));
        assert(out@ =~= join_lines(lines22) + array_line(v.csi_data) + seq!['\n']);
        assert(out@ =~= render_block_spec(v));
    }
    out
}


// ---------------------------------------------------------------------------
// Round trip: the rendered lines are recovered
// ---------------------------------------------------------------------------

/// A separator-free-line join splits back into the lines plus one
/// empty tail piece.
proof fn lemma_split_join(ls: Seq<Seq<char>>)
    requires
        forall|k: int, i: int|
            0 <= k < ls.len() && 0 <= i < ls[k].len() ==> #[trigger] ls[k][i] != '\n',
    ensures
        split_char_spec(join_lines(ls), '\n') == ls + seq![Seq::<char>::empty()],
    decreases ls.len(),
{
    if ls.len() == 0 {
        assert(join_lines(ls) =~= Seq::<char>::empty());
        assert(split_char_spec(join_lines(ls), '\n') =~= ls + seq![Seq::<char>::empty()]);
    } else {
        lemma_split_join(ls.skip(1));
        assert(forall|k: int, i: int|
            0 <= k < ls.skip(1).len() && 0 <= i < ls.skip(1)[k].len() ==> #[trigger] ls.skip(1)[k][i]
                == ls[k + 1][i]);
        assert(forall|i: int| 0 <= i < ls[0].len() ==> ls[0][i] != '\n');
        lemma_split_prepend(ls[0], join_lines(ls.skip(1)), '\n');
        assert(join_lines(ls) == ls[0] + seq!['\n'] + join_lines(ls.skip(1)));
        assert(split_char_spec(join_lines(ls), '\n') == seq![ls[0]] + split_char_spec(
            join_lines(ls.skip(1)),
            '\n',
        ));
        assert(seq![ls[0]] + (ls.skip(1) + seq![Seq::<char>::empty()]) =~= ls + seq![
            Seq::<char>::empty(),
        ]);
    }
}

/// A non-empty join ends with a newline.
proof fn lemma_join_last(ls: Seq<Seq<char>>)
    requires
        ls.len() >= 1,
    ensures
        join_lines(ls).len() >= 1,
        join_lines(ls).last() == '\n',
    decreases ls.len(),
{
    if ls.len() == 1 {
        assert(ls.skip(1) =~= Seq::<Seq<char>>::empty());
        assert(join_lines(ls.skip(1)) =~= Seq::<char>::empty());
        assert(join_lines(ls) == ls[0] + seq!['\n'] + join_lines(ls.skip(1)));
        assert(join_lines(ls).last() == '\n');
    } else {
        lemma_join_last(ls.skip(1));
        assert(join_lines(ls) == ls[0] + seq!['\n'] + join_lines(ls.skip(1)));
        assert(join_lines(ls).last() == join_lines(ls.skip(1)).last());
    }
}

/// The lines of a rendered join are the lines themselves, provided no
/// line holds a newline or ends with a carriage return.
proof fn lemma_lines_of_join(ls: Seq<Seq<char>>)
    requires
        ls.len() >= 1,
        forall|k: int, i: int|
            0 <= k < ls.len() && 0 <= i < ls[k].len() ==> #[trigger] ls[k][i] != '\n',
        forall|k: int|
            0 <= k < ls.len() ==> (ls[k].len() == 0 || (#[trigger] ls[k]).last() != '\r'),
    ensures
        lines_spec(join_lines(ls)) == ls,
{
    let s = join_lines(ls);
    lemma_join_last(ls);
    lemma_split_join(ls);
    let parts = split_char_spec(s, '\n');
    assert(parts.drop_last() =~= ls);
    let kept = parts.drop_last();
    assert(lines_spec(s) == kept.map_values(|l: Seq<char>| strip_cr(l)));
    assert(forall|k: int| 0 <= k < ls.len() ==> strip_cr(#[trigger] ls[k]) == ls[k]);
    assert(kept.map_values(|l: Seq<char>| strip_cr(l)) =~= ls) by {
        assert(forall|k: int|
            0 <= k < kept.len() ==> kept.map_values(|l: Seq<char>| strip_cr(l))[k] == strip_cr(
                #[trigger] kept[k],
            ));
    }
}

/// Every payload item character is a digit, a sign, a comma or a
/// space.
proof fn lemma_array_items_chars(d: Seq<int>)
    ensures
        forall|i: int|
            0 <= i < array_items(d).len() ==> (is_digit_char(#[trigger] array_items(d)[i])
                || array_items(d)[i] == '-' || array_items(d)[i] == ',' || array_items(d)[i]
                == ' '),
        d.len() >= 1 ==> array_items(d).len() >= 1,
        d.len() >= 1 ==> (is_digit_char(array_items(d)[0]) || array_items(d)[0] == '-'),
        d.len() >= 1 ==> is_digit_char(array_items(d).last()),
    decreases d.len(),
{
    if d.len() == 1 {
        lemma_fmt_int_tail_digits(d[0]);
        lemma_fmt_int_chars(d[0]);
    } else if d.len() >= 2 {
        lemma_fmt_int_tail_digits(d[0]);
        lemma_fmt_int_chars(d[0]);
        lemma_array_items_chars(d.skip(1));
        let f = fmt_int_spec(d[0]);
        let rest = array_items(d.skip(1));
        assert(array_items(d) == f + seq![','] + seq![' '] + rest);
        assert(array_items(d).last() == rest.last());
        assert(forall|i: int|
            0 <= i < array_items(d).len() ==> (is_digit_char(#[trigger] array_items(d)[i])
                || array_items(d)[i] == '-' || array_items(d)[i] == ',' || array_items(d)[i]
                == ' ')) by {
            assert(forall|i: int|
                f.len() + 2 <= i < array_items(d).len() ==> #[trigger] array_items(d)[i] == rest[i
                    - f.len() - 2]);
        }
    }
}

/// Line-level round trip: the text of a rendered block splits back
/// into exactly the rendered lines, in order — no line is lost,
/// merged or reordered.
pub proof fn lemma_render_lines_round_trip(v: CSIPacketV)
    requires
        packet_wf(v),
    ensures
        forall|k: int, i: int|
            0 <= k < render_lines_spec(v).len() && 0 <= i < render_lines_spec(v)[k].len()
                ==> #[trigger] render_lines_spec(v)[k][i] != '\n',
        forall|k: int|
            0 <= k < render_lines_spec(v).len() ==> (render_lines_spec(v)[k].len() == 0 || (
            #[trigger] render_lines_spec(v)[k]).last() != '\r'),
        lines_spec(render_block_spec(v)) == render_lines_spec(v),
{
    let ls = render_lines_spec(v);
    lemma_array_items_chars(v.csi_data);
    assert forall|k: int, i: int|
        0 <= k < ls.len() && 0 <= i < ls[k].len() implies #[trigger] ls[k][i] != '\n' by {
        if k == 0 {
            let l = mac_line(v.mac);
            if i >= 5 {
                assert(l[i] == v.mac[i - 5]);
                assert(is_mac_char(v.mac[i - 5]));
            }
        } else if k <= 20 {
            lemma_int_line_shape(line_label(k), line_value(v, k));
            assert(ls[k] == int_line(line_label(k), line_value(v, k)));
        } else if k == 21 {
        } else {
            let l = array_line(v.csi_data);
            if 1 <= i < l.len() - 1 {
                assert(l[i] == array_items(v.csi_data)[i - 1]);
            }
        }
    }
    assert forall|k: int|
        0 <= k < ls.len() implies (ls[k].len() == 0 || (#[trigger] ls[k]).last() != '\r') by {
        if k == 0 {
            let l = mac_line(v.mac);
            assert(l.last() == v.mac.last());
            assert(is_mac_char(v.mac.last()));
        } else if k <= 20 {
            lemma_int_line_shape(line_label(k), line_value(v, k));
            assert(ls[k] == int_line(line_label(k), line_value(v, k)));
        } else if k == 21 {
        } else {
            assert(ls[k].last() == ']');
        }
    }
    lemma_lines_of_join(ls);
}

/// The label of numbered line `k`.
pub open spec fn line_label(k: int) -> Seq<char> {
    if k == 1 {
        rssi_label()
    } else if k == 2 {
        rate_label()
    } else if k == 3 {
        noise_floor_label()
    } else if k == 4 {
        channel_label()
    } else if k == 5 {
        timestamp_label()
    } else if k == 6 {
        sig_len_label()
    } else if k == 7 {
        rx_state_label()
    } else if k == 8 {
        secondary_channel_label()
    } else if k == 9 {
        sgi_label()
    } else if k == 10 {
        ant_label()
    } else if k == 11 {
        ampdu_cnt_label()
    } else if k == 12 {
        sig_mode_label()
    } else if k == 13 {
        mcs_label()
    } else if k == 14 {
        cwb_label()
    } else if k == 15 {
        smoothing_label()
    } else if k == 16 {
        not_sounding_label()
    } else if k == 17 {
        aggregation_label()
    } else if k == 18 {
        stbc_label()
    } else if k == 19 {
        fec_coding_label()
    } else {
        data_length_label()
    }
}

/// The value carried on numbered line `k`.
pub open spec fn line_value(v: CSIPacketV, k: int) -> int {
    if k == 1 {
        v.rssi
    } else if k == 2 {
        v.rate
    } else if k == 3 {
        v.noise_floor
    } else if k == 4 {
        v.channel
    } else if k == 5 {
        v.timestamp
    } else if k == 6 {
        v.sig_len
    } else if k == 7 {
        v.rx_state
    } else if k == 8 {
        v.secondary_channel
    } else if k == 9 {
        v.sgi
    } else if k == 10 {
        v.ant
    } else if k == 11 {
        v.ampdu_cnt
    } else if k == 12 {
        v.sig_mode
    } else if k == 13 {
        v.mcs
    } else if k == 14 {
        v.cwb
    } else if k == 15 {
        v.smoothing
    } else if k == 16 {
        v.not_sounding
    } else if k == 17 {
        v.aggregation
    } else if k == 18 {
        v.stbc
    } else if k == 19 {
        v.fec_coding
    } else {
        v.data_length
    }
}

/// Shape facts of a numeric line: every character is a label
/// character, the separating space, or a digit or sign of the value.
proof fn lemma_int_line_shape(lab: Seq<char>, n: int)
    ensures
        int_line(lab, n).len() == lab.len() + 1 + fmt_int_spec(n).len(),
        forall|i: int| 0 <= i < lab.len() ==> #[trigger] int_line(lab, n)[i] == lab[i],
        int_line(lab, n)[lab.len() as int] == ' ',
        forall|i: int|
            lab.len() + 1 <= i < int_line(lab, n).len() ==> (is_digit_char(
                #[trigger] int_line(lab, n)[i],
            ) || int_line(lab, n)[i] == '-'),
        int_line(lab, n).last() != '\n' && int_line(lab, n).last() != '\r',
{
    lemma_fmt_int_chars(n);
    lemma_fmt_int_tail_digits(n);
    let l = int_line(lab, n);
    assert(forall|i: int|
        lab.len() + 1 <= i < l.len() ==> #[trigger] l[i] == fmt_int_spec(n)[i - lab.len() - 1]);
    assert(l.last() == fmt_int_spec(n).last());
    assert(is_digit_char(fmt_int_spec(n).last()) || fmt_int_spec(n).last() == '-');
}


/// The MAC of a rendered block is recovered by the leftmost-match
/// extraction.
pub proof fn lemma_mac_run_to(s: Seq<char>, j: int, e: int)
    requires
        0 <= j <= e < s.len(),
        forall|m: int| j <= m < e ==> is_mac_char(#[trigger] s[m]),
        !is_mac_char(s[e]),
    ensures
        mac_run_end(s, j) == e,
    decreases e - j,
{
    if j < e {
        lemma_mac_run_to(s, j + 1, e);
    }
}

/// MAC round trip: the sender address of a rendered block is
/// recovered exactly by the parser's leftmost-match extraction.
pub proof fn lemma_render_mac_round_trip(v: CSIPacketV)
    requires
        packet_wf(v),
    ensures
        extract_mac_spec(render_block_spec(v)) == Some(v.mac),
{
    let s = render_block_spec(v);
    let ls = render_lines_spec(v);
    assert(s == ls[0] + seq!['\n'] + join_lines(ls.skip(1)));
    let m = v.mac.len() as int;
    assert(ls[0].len() == 5 + m);
    assert(forall|i: int| 0 <= i < 4 ==> s[i] == mac_label()[i]);
    assert(s.subrange(0, 4) =~= mac_label());
    assert(s[4] == ' ');
    assert(forall|i: int| 5 <= i < 5 + m ==> s[i] == v.mac[i - 5]);
    assert(s[5 + m] == '\n');
    assert(is_mac_char(v.mac[0]));
    assert(!is_space_char(s[5]));
    assert(ws_run_end(s, 5) == 5);
    assert(ws_run_end(s, 4) == ws_run_end(s, 5));
    lemma_mac_run_to(s, 5, 5 + m);
    assert(mac_match_at(s, 0));
    assert(first_mac_pos(s, 0) == Some(0int));
    assert(mac_capture(s, 0) =~= v.mac);
}




// ---------------------------------------------------------------------------
// Witness machinery
// ---------------------------------------------------------------------------

/// A line without some character of the label cannot contain the
/// label.
proof fn lemma_no_witness_char(l: Seq<char>, lab: Seq<char>, c: char)
    requires
        lab.contains(c),
        forall|i: int| 0 <= i < l.len() ==> l[i] != c,
    ensures
        !contains_seq(l, lab),
{
    if contains_seq(l, lab) {
        let i = choose|i: int| contains_at(l, lab, i);
        let k = choose|k: int| 0 <= k < lab.len() && lab[k] == c;
        assert(l.subrange(i, i + lab.len())[k] == lab[k]);
        assert(l[i + k] == c);
        assert(false);
    }
}

/// A line without some adjacent character pair of the label cannot
/// contain the label.
proof fn lemma_no_witness_pair(l: Seq<char>, lab: Seq<char>, k: int)
    requires
        0 <= k,
        k + 1 < lab.len(),
        forall|i: int|
            0 <= i < l.len() - 1 ==> !(#[trigger] l[i] == lab[k] && l[i + 1] == lab[k + 1]),
    ensures
        !contains_seq(l, lab),
{
    if contains_seq(l, lab) {
        let i = choose|i: int| contains_at(l, lab, i);
        assert(l.subrange(i, i + lab.len())[k] == lab[k]);
        assert(l.subrange(i, i + lab.len())[k + 1] == lab[k + 1]);
        assert(l[i + k] == lab[k] && l[i + k + 1] == lab[k + 1]);
        assert(false);
    }
}

/// The characters of the MAC line: the label, a space, hex digits and
/// colons.
proof fn lemma_char_not_in_mac_line(mac: Seq<char>, c: char)
    requires
        forall|i: int| 0 <= i < mac.len() ==> is_mac_char(#[trigger] mac[i]),
        c != 'm' && c != 'a' && c != 'c' && c != ':' && c != ' ',
        !is_mac_char(c),
    ensures
        forall|i: int| 0 <= i < mac_line(mac).len() ==> #[trigger] mac_line(mac)[i] != c,
{
    let l = mac_line(mac);
    assert forall|i: int| 0 <= i < l.len() implies #[trigger] l[i] != c by {
        if i >= 5 {
            assert(l[i] == mac[i - 5]);
        }
    }
}

/// No adjacent pair of the MAC line matches the given pair, provided
/// the pair is not among the line's possible adjacencies.
proof fn lemma_pair_not_in_mac_line(mac: Seq<char>, x: char, y: char)
    requires
        forall|i: int| 0 <= i < mac.len() ==> is_mac_char(#[trigger] mac[i]),
        !(x == 'm' && y == 'a'),
        !(x == 'a' && y == 'c'),
        !(x == 'c' && y == ':'),
        !(x == ':' && y == ' '),
        !(x == ' ' && is_mac_char(y)),
        !(is_mac_char(x) && is_mac_char(y)),
    ensures
        forall|i: int|
            0 <= i < mac_line(mac).len() - 1 ==> !(#[trigger] mac_line(mac)[i] == x && mac_line(
                mac,
            )[i + 1] == y),
{
    let l = mac_line(mac);
    assert forall|i: int| 0 <= i < l.len() - 1 implies !(#[trigger] l[i] == x && l[i + 1] == y) by {
        if i >= 5 {
            assert(l[i] == mac[i - 5] && l[i + 1] == mac[i - 4]);
        } else if i == 4 {
            assert(l[4] == ' ' && l[5] == mac[0]);
        }
    }
}

/// A character that is not in the label, not the separator space, and
/// not part of a number does not occur on a numeric line.
proof fn lemma_char_not_in_int_line(lab: Seq<char>, n: int, c: char)
    requires
        forall|j: int| 0 <= j < lab.len() ==> #[trigger] lab[j] != c,
        c != ' ',
        !is_digit_char(c),
        c != '-',
    ensures
        forall|i: int| 0 <= i < int_line(lab, n).len() ==> #[trigger] int_line(lab, n)[i] != c,
{
    lemma_int_line_shape(lab, n);
}

/// An adjacent pair absent from the label and impossible around the
/// separator or inside a number does not occur on a numeric line.
proof fn lemma_pair_not_in_int_line(lab: Seq<char>, n: int, x: char, y: char)
    requires
        forall|j: int| 0 <= j < lab.len() - 1 ==> !(#[trigger] lab[j] == x && lab[j + 1] == y),
        !(lab.len() >= 1 && lab.last() == x && y == ' '),
        !(x == ' ' && (is_digit_char(y) || y == '-')),
        !(is_digit_char(x) && is_digit_char(y)),
        !(x == '-' && is_digit_char(y)),
    ensures
        forall|i: int|
            0 <= i < int_line(lab, n).len() - 1 ==> !(#[trigger] int_line(lab, n)[i] == x
                && int_line(lab, n)[i + 1] == y),
{
    lemma_int_line_shape(lab, n);
    lemma_fmt_int_tail_digits(n);
    let l = int_line(lab, n);
    assert forall|i: int| 0 <= i < l.len() - 1 implies !(#[trigger] l[i] == x && l[i + 1] == y) by {
        if i + 1 < lab.len() {
        } else if i + 1 == lab.len() {
            assert(l[i] == lab.last() && l[i + 1] == ' ');
            if l[i] == x && l[i + 1] == y {
                assert(false);
            }
        } else if i == lab.len() {
            assert(l[i] == ' ');
            assert(is_digit_char(l[i + 1]) || l[i + 1] == '-');
            assert(l[i + 1] == fmt_int_spec(n)[0]);
        } else {
            assert(l[i] == fmt_int_spec(n)[i - lab.len() - 1]);
            assert(l[i + 1] == fmt_int_spec(n)[i - lab.len()]);
            assert(is_digit_char(l[i + 1]));
            assert(is_digit_char(l[i]) || l[i] == '-');
        }
    }
}

/// The first line that contains the label is the known one, given
/// that no earlier line contains it.
proof fn lemma_first_line_at(lines: Seq<Seq<char>>, lab: Seq<char>, k: int)
    requires
        0 <= k < lines.len(),
        contains_seq(lines[k], lab),
        forall|j: int| 0 <= j < k ==> !contains_seq(#[trigger] lines[j], lab),
    ensures
        first_line_containing(lines, lab) == Some(lines[k]),
    decreases k,
{
    if k == 0 {
    } else {
        assert(!contains_seq(lines[0], lab));
        assert(forall|j: int|
            0 <= j < lines.skip(1).len() ==> #[trigger] lines.skip(1)[j] == lines[j + 1]);
        lemma_first_line_at(lines.skip(1), lab, k - 1);
    }
}

/// A label occurs in its own line, at the front.
proof fn lemma_line_contains_own_label(lab: Seq<char>, n: int)
    ensures
        contains_seq(int_line(lab, n), lab),
{
    let l = int_line(lab, n);
    assert(l.subrange(0, lab.len() as int) =~= lab);
    assert(contains_at(l, lab, 0));
}

/// Reading the value of a located numeric line: the first colon is
/// the label's final character, no second colon follows, the space is
/// trimmed away, and the number reads back.
proof fn lemma_int_line_value(lab: Seq<char>, n: int)
    requires
        lab.len() >= 2,
        lab.last() == ':',
        forall|j: int| 0 <= j < lab.len() - 1 ==> #[trigger] lab[j] != ':',
    ensures
        second_colon_segment(int_line(lab, n)) == Some(seq![' '] + fmt_int_spec(n)),
        trim_spec(seq![' '] + fmt_int_spec(n)) == fmt_int_spec(n),
        parse_sint_spec(fmt_int_spec(n)) == Some(n),
        n >= 0 ==> parse_uint_spec(fmt_int_spec(n)) == Some(n),
{
    let l = int_line(lab, n);
    lemma_int_line_shape(lab, n);
    lemma_fmt_int_tail_digits(n);
    lemma_find_first(l, ':');
    match find_first(l, ':') {
        None => {
            assert(l[lab.len() - 1] == ':');
            assert(false);
        },
        Some(i) => {
            assert(l[i] == ':');
            if i < lab.len() - 1 {
                assert(false);
            }
            if i > lab.len() - 1 {
                assert(l[lab.len() - 1] == ':');
                assert(false);
            }
            let rest = l.skip(i + 1);
            assert(rest =~= seq![' '] + fmt_int_spec(n));
            lemma_find_first(rest, ':');
            match find_first(rest, ':') {
                Some(j) => {
                    assert(rest[j] == ':');
                    if j == 0 {
                        assert(false);
                    } else {
                        assert(rest[j] == fmt_int_spec(n)[j - 1]);
                        assert(false);
                    }
                },
                None => {
                },
            }
        },
    }
    let seg = seq![' '] + fmt_int_spec(n);
    assert(!is_space_char(seg[1])) by {
        assert(seg[1] == fmt_int_spec(n)[0]);
    }
    lemma_trim_start_skip(seg, 1);
    assert(seg.skip(1) =~= fmt_int_spec(n));
    assert(!is_space_char(fmt_int_spec(n).last()));
    lemma_trim_end_take(fmt_int_spec(n), fmt_int_spec(n).len() as int);
    assert(fmt_int_spec(n).take(fmt_int_spec(n).len() as int) =~= fmt_int_spec(n));
    lemma_parse_fmt_int(n);
    if n >= 0 {
        lemma_parse_fmt_nat(n);
    }
}

/// A located unsigned field reads back to its value.
proof fn lemma_field_uint_value(lines: Seq<Seq<char>>, lab: Seq<char>, k: int, n: int, max: int)
    requires
        0 <= k < lines.len(),
        lines[k] == int_line(lab, n),
        first_line_containing(lines, lab) == Some(lines[k]),
        lab.len() >= 2,
        lab.last() == ':',
        forall|j: int| 0 <= j < lab.len() - 1 ==> #[trigger] lab[j] != ':',
        0 <= n <= max,
    ensures
        field_uint_lines(lines, lab, max) == Some(n),
{
    lemma_int_line_value(lab, n);
}

/// A located signed field reads back to its value.
proof fn lemma_field_sint_value(
    lines: Seq<Seq<char>>,
    lab: Seq<char>,
    k: int,
    n: int,
    min: int,
    max: int,
)
    requires
        0 <= k < lines.len(),
        lines[k] == int_line(lab, n),
        first_line_containing(lines, lab) == Some(lines[k]),
        lab.len() >= 2,
        lab.last() == ':',
        forall|j: int| 0 <= j < lab.len() - 1 ==> #[trigger] lab[j] != ':',
        min <= n <= max,
    ensures
        field_sint_lines(lines, lab, min, max) == Some(n),
{
    lemma_int_line_value(lab, n);
}

/// The line table of a rendered block, pinned once.
#[verifier::rlimit(100)]
#[verifier::spinoff_prover]
proof fn lemma_render_lines_index(v: CSIPacketV)
    ensures
        render_lines_spec(v).len() == 23,
        render_lines_spec(v)[0] == mac_line(v.mac),
        render_lines_spec(v)[1] == int_line(rssi_label(), v.rssi),
        render_lines_spec(v)[2] == int_line(rate_label(), v.rate),
        render_lines_spec(v)[3] == int_line(noise_floor_label(), v.noise_floor),
        render_lines_spec(v)[4] == int_line(channel_label(), v.channel),
        render_lines_spec(v)[5] == int_line(timestamp_label(), v.timestamp),
        render_lines_spec(v)[6] == int_line(sig_len_label(), v.sig_len),
        render_lines_spec(v)[7] == int_line(rx_state_label(), v.rx_state),
        render_lines_spec(v)[8] == int_line(secondary_channel_label(), v.secondary_channel),
        render_lines_spec(v)[9] == int_line(sgi_label(), v.sgi),
        render_lines_spec(v)[10] == int_line(ant_label(), v.ant),
        render_lines_spec(v)[11] == int_line(ampdu_cnt_label(), v.ampdu_cnt),
        render_lines_spec(v)[12] == int_line(sig_mode_label(), v.sig_mode),
        render_lines_spec(v)[13] == int_line(mcs_label(), v.mcs),
        render_lines_spec(v)[14] == int_line(cwb_label(), v.cwb),
        render_lines_spec(v)[15] == int_line(smoothing_label(), v.smoothing),
        render_lines_spec(v)[16] == int_line(not_sounding_label(), v.not_sounding),
        render_lines_spec(v)[17] == int_line(aggregation_label(), v.aggregation),
        render_lines_spec(v)[18] == int_line(stbc_label(), v.stbc),
        render_lines_spec(v)[19] == int_line(fec_coding_label(), v.fec_coding),
        render_lines_spec(v)[20] == int_line(data_length_label(), v.data_length),
        render_lines_spec(v)[21] == csi_raw_data_label(),
        render_lines_spec(v)[22] == array_line(v.csi_data),
{
}

// ---------------------------------------------------------------------------
// Round trip: locating each field's line
// ---------------------------------------------------------------------------

#[verifier::spinoff_prover]
proof fn colon_facts_rssi()
    ensures
        rssi_label().len() >= 2,
        rssi_label().last() == ':',
        forall|j: int| 0 <= j < rssi_label().len() - 1 ==> #[trigger] rssi_label()[j] != ':',
{
}

#[verifier::spinoff_prover]
proof fn colon_facts_rate()
    ensures
        rate_label().len() >= 2,
        rate_label().last() == ':',
        forall|j: int| 0 <= j < rate_label().len() - 1 ==> #[trigger] rate_label()[j] != ':',
{
}

#[verifier::spinoff_prover]
proof fn colon_facts_noise_floor()
    ensures
        noise_floor_label().len() >= 2,
        noise_floor_label().last() == ':',
        forall|j: int| 0 <= j < noise_floor_label().len() - 1 ==> #[trigger] noise_floor_label()[j] != ':',
{
}

#[verifier::spinoff_prover]
proof fn colon_facts_channel()
    ensures
        channel_label().len() >= 2,
        channel_label().last() == ':',
        forall|j: int| 0 <= j < channel_label().len() - 1 ==> #[trigger] channel_label()[j] != ':',
{
}

#[verifier::spinoff_prover]
proof fn colon_facts_timestamp()
    ensures
        timestamp_label().len() >= 2,
        timestamp_label().last() == ':',
        forall|j: int| 0 <= j < timestamp_label().len() - 1 ==> #[trigger] timestamp_label()[j] != ':',
{
}

#[verifier::spinoff_prover]
proof fn colon_facts_sig_len()
    ensures
        sig_len_label().len() >= 2,
        sig_len_label().last() == ':',
        forall|j: int| 0 <= j < sig_len_label().len() - 1 ==> #[trigger] sig_len_label()[j] != ':',
{
}

#[verifier::spinoff_prover]
proof fn colon_facts_rx_state()
    ensures
        rx_state_label().len() >= 2,
        rx_state_label().last() == ':',
        forall|j: int| 0 <= j < rx_state_label().len() - 1 ==> #[trigger] rx_state_label()[j] != ':',
{
}

#[verifier::spinoff_prover]
proof fn colon_facts_secondary_channel()
    ensures
        secondary_channel_label().len() >= 2,
        secondary_channel_label().last() == ':',
        forall|j: int| 0 <= j < secondary_channel_label().len() - 1 ==> #[trigger] secondary_channel_label()[j] != ':',
{
}

#[verifier::spinoff_prover]
proof fn colon_facts_sgi()
    ensures
        sgi_label().len() >= 2,
        sgi_label().last() == ':',
        forall|j: int| 0 <= j < sgi_label().len() - 1 ==> #[trigger] sgi_label()[j] != ':',
{
}

#[verifier::spinoff_prover]
proof fn colon_facts_ant()
    ensures
        ant_label().len() >= 2,
        ant_label().last() == ':',
        forall|j: int| 0 <= j < ant_label().len() - 1 ==> #[trigger] ant_label()[j] != ':',
{
}

#[verifier::spinoff_prover]
proof fn colon_facts_ampdu_cnt()
    ensures
        ampdu_cnt_label().len() >= 2,
        ampdu_cnt_label().last() == ':',
        forall|j: int| 0 <= j < ampdu_cnt_label().len() - 1 ==> #[trigger] ampdu_cnt_label()[j] != ':',
{
}

#[verifier::spinoff_prover]
proof fn colon_facts_sig_mode()
    ensures
        sig_mode_label().len() >= 2,
        sig_mode_label().last() == ':',
        forall|j: int| 0 <= j < sig_mode_label().len() - 1 ==> #[trigger] sig_mode_label()[j] != ':',
{
}

#[verifier::spinoff_prover]
proof fn colon_facts_mcs()
    ensures
        mcs_label().len() >= 2,
        mcs_label().last() == ':',
        forall|j: int| 0 <= j < mcs_label().len() - 1 ==> #[trigger] mcs_label()[j] != ':',
{
}

#[verifier::spinoff_prover]
proof fn colon_facts_cwb()
    ensures
        cwb_label().len() >= 2,
        cwb_label().last() == ':',
        forall|j: int| 0 <= j < cwb_label().len() - 1 ==> #[trigger] cwb_label()[j] != ':',
{
}

#[verifier::spinoff_prover]
proof fn colon_facts_smoothing()
    ensures
        smoothing_label().len() >= 2,
        smoothing_label().last() == ':',
        forall|j: int| 0 <= j < smoothing_label().len() - 1 ==> #[trigger] smoothing_label()[j] != ':',
{
}

#[verifier::spinoff_prover]
proof fn colon_facts_not_sounding()
    ensures
        not_sounding_label().len() >= 2,
        not_sounding_label().last() == ':',
        forall|j: int| 0 <= j < not_sounding_label().len() - 1 ==> #[trigger] not_sounding_label()[j] != ':',
{
}

#[verifier::spinoff_prover]
proof fn colon_facts_aggregation()
    ensures
        aggregation_label().len() >= 2,
        aggregation_label().last() == ':',
        forall|j: int| 0 <= j < aggregation_label().len() - 1 ==> #[trigger] aggregation_label()[j] != ':',
{
}

#[verifier::spinoff_prover]
proof fn colon_facts_stbc()
    ensures
        stbc_label().len() >= 2,
        stbc_label().last() == ':',
        forall|j: int| 0 <= j < stbc_label().len() - 1 ==> #[trigger] stbc_label()[j] != ':',
{
}

#[verifier::spinoff_prover]
proof fn colon_facts_fec_coding()
    ensures
        fec_coding_label().len() >= 2,
        fec_coding_label().last() == ':',
        forall|j: int| 0 <= j < fec_coding_label().len() - 1 ==> #[trigger] fec_coding_label()[j] != ':',
{
}

#[verifier::spinoff_prover]
proof fn colon_facts_data_length()
    ensures
        data_length_label().len() >= 2,
        data_length_label().last() == ':',
        forall|j: int| 0 <= j < data_length_label().len() - 1 ==> #[trigger] data_length_label()[j] != ':',
{
}

#[verifier::spinoff_prover]
proof fn nc_mac_rssi(mac: Seq<char>)
    requires
        forall|i: int| 0 <= i < mac.len() ==> is_mac_char(#[trigger] mac[i]),
    ensures
        !contains_seq(mac_line(mac), rssi_label()),
{
    assert(rssi_label()[0int] == 'r');
    lemma_char_not_in_mac_line(mac, 'r');
    lemma_no_witness_char(mac_line(mac), rssi_label(), 'r');
}

#[verifier::spinoff_prover]
proof fn nc_mac_rate(mac: Seq<char>)
    requires
        forall|i: int| 0 <= i < mac.len() ==> is_mac_char(#[trigger] mac[i]),
    ensures
        !contains_seq(mac_line(mac), rate_label()),
{
    assert(rate_label()[2int] == 't');
    lemma_char_not_in_mac_line(mac, 't');
    lemma_no_witness_char(mac_line(mac), rate_label(), 't');
}

#[verifier::spinoff_prover]
proof fn nc_mac_noise_floor(mac: Seq<char>)
    requires
        forall|i: int| 0 <= i < mac.len() ==> is_mac_char(#[trigger] mac[i]),
    ensures
        !contains_seq(mac_line(mac), noise_floor_label()),
{
    assert(noise_floor_label()[0int] == 'n');
    lemma_char_not_in_mac_line(mac, 'n');
    lemma_no_witness_char(mac_line(mac), noise_floor_label(), 'n');
}

#[verifier::spinoff_prover]
proof fn nc_mac_channel(mac: Seq<char>)
    requires
        forall|i: int| 0 <= i < mac.len() ==> is_mac_char(#[trigger] mac[i]),
    ensures
        !contains_seq(mac_line(mac), channel_label()),
{
    assert(channel_label()[1int] == 'h');
    lemma_char_not_in_mac_line(mac, 'h');
    lemma_no_witness_char(mac_line(mac), channel_label(), 'h');
}

#[verifier::spinoff_prover]
proof fn nc_mac_timestamp(mac: Seq<char>)
    requires
        forall|i: int| 0 <= i < mac.len() ==> is_mac_char(#[trigger] mac[i]),
    ensures
        !contains_seq(mac_line(mac), timestamp_label()),
{
    assert(timestamp_label()[8int] == 'p');
    lemma_char_not_in_mac_line(mac, 'p');
    lemma_no_witness_char(mac_line(mac), timestamp_label(), 'p');
}

#[verifier::spinoff_prover]
proof fn nc_mac_sig_len(mac: Seq<char>)
    requires
        forall|i: int| 0 <= i < mac.len() ==> is_mac_char(#[trigger] mac[i]),
    ensures
        !contains_seq(mac_line(mac), sig_len_label()),
{
    assert(sig_len_label()[2int] == 'g');
    lemma_char_not_in_mac_line(mac, 'g');
    lemma_no_witness_char(mac_line(mac), sig_len_label(), 'g');
}

#[verifier::spinoff_prover]
proof fn nc_mac_rx_state(mac: Seq<char>)
    requires
        forall|i: int| 0 <= i < mac.len() ==> is_mac_char(#[trigger] mac[i]),
    ensures
        !contains_seq(mac_line(mac), rx_state_label()),
{
    assert(rx_state_label()[1int] == 'x');
    lemma_char_not_in_mac_line(mac, 'x');
    lemma_no_witness_char(mac_line(mac), rx_state_label(), 'x');
}

#[verifier::spinoff_prover]
proof fn nc_mac_secondary_channel(mac: Seq<char>)
    requires
        forall|i: int| 0 <= i < mac.len() ==> is_mac_char(#[trigger] mac[i]),
    ensures
        !contains_seq(mac_line(mac), secondary_channel_label()),
{
    assert(secondary_channel_label()[8int] == 'y');
    lemma_char_not_in_mac_line(mac, 'y');
    lemma_no_witness_char(mac_line(mac), secondary_channel_label(), 'y');
}

#[verifier::spinoff_prover]
proof fn nc_mac_sgi(mac: Seq<char>)
    requires
        forall|i: int| 0 <= i < mac.len() ==> is_mac_char(#[trigger] mac[i]),
    ensures
        !contains_seq(mac_line(mac), sgi_label()),
{
    assert(sgi_label()[0int] == 's' && sgi_label()[0int + 1] == 'g');
    lemma_pair_not_in_mac_line(mac, 's', 'g');
    lemma_no_witness_pair(mac_line(mac), sgi_label(), 0);
}

#[verifier::spinoff_prover]
proof fn nc_mac_ant(mac: Seq<char>)
    requires
        forall|i: int| 0 <= i < mac.len() ==> is_mac_char(#[trigger] mac[i]),
    ensures
        !contains_seq(mac_line(mac), ant_label()),
{
    assert(ant_label()[1int] == 'n' && ant_label()[1int + 1] == 't');
    lemma_pair_not_in_mac_line(mac, 'n', 't');
    lemma_no_witness_pair(mac_line(mac), ant_label(), 1);
}

#[verifier::spinoff_prover]
proof fn nc_mac_ampdu_cnt(mac: Seq<char>)
    requires
        forall|i: int| 0 <= i < mac.len() ==> is_mac_char(#[trigger] mac[i]),
    ensures
        !contains_seq(mac_line(mac), ampdu_cnt_label()),
{
    assert(ampdu_cnt_label()[4int] == 'u');
    lemma_char_not_in_mac_line(mac, 'u');
    lemma_no_witness_char(mac_line(mac), ampdu_cnt_label(), 'u');
}

#[verifier::spinoff_prover]
proof fn nc_mac_sig_mode(mac: Seq<char>)
    requires
        forall|i: int| 0 <= i < mac.len() ==> is_mac_char(#[trigger] mac[i]),
    ensures
        !contains_seq(mac_line(mac), sig_mode_label()),
{
    assert(sig_mode_label()[3int] == '_');
    lemma_char_not_in_mac_line(mac, '_');
    lemma_no_witness_char(mac_line(mac), sig_mode_label(), '_');
}

#[verifier::spinoff_prover]
proof fn nc_mac_mcs(mac: Seq<char>)
    requires
        forall|i: int| 0 <= i < mac.len() ==> is_mac_char(#[trigger] mac[i]),
    ensures
        !contains_seq(mac_line(mac), mcs_label()),
{
    assert(mcs_label()[0int] == 'm' && mcs_label()[0int + 1] == 'c');
    lemma_pair_not_in_mac_line(mac, 'm', 'c');
    lemma_no_witness_pair(mac_line(mac), mcs_label(), 0);
}

#[verifier::spinoff_prover]
proof fn nc_mac_cwb(mac: Seq<char>)
    requires
        forall|i: int| 0 <= i < mac.len() ==> is_mac_char(#[trigger] mac[i]),
    ensures
        !contains_seq(mac_line(mac), cwb_label()),
{
    assert(cwb_label()[1int] == 'w');
    lemma_char_not_in_mac_line(mac, 'w');
    lemma_no_witness_char(mac_line(mac), cwb_label(), 'w');
}

#[verifier::spinoff_prover]
proof fn nc_mac_smoothing(mac: Seq<char>)
    requires
        forall|i: int| 0 <= i < mac.len() ==> is_mac_char(#[trigger] mac[i]),
    ensures
        !contains_seq(mac_line(mac), smoothing_label()),
{
    assert(smoothing_label()[0int] == 's' && smoothing_label()[0int + 1] == 'm');
    lemma_pair_not_in_mac_line(mac, 's', 'm');
    lemma_no_witness_pair(mac_line(mac), smoothing_label(), 0);
}

#[verifier::spinoff_prover]
proof fn nc_mac_not_sounding(mac: Seq<char>)
    requires
        forall|i: int| 0 <= i < mac.len() ==> is_mac_char(#[trigger] mac[i]),
    ensures
        !contains_seq(mac_line(mac), not_sounding_label()),
{
    assert(not_sounding_label()[2int] == 't' && not_sounding_label()[2int + 1] == ' ');
    lemma_pair_not_in_mac_line(mac, 't', ' ');
    lemma_no_witness_pair(mac_line(mac), not_sounding_label(), 2);
}

#[verifier::spinoff_prover]
proof fn nc_mac_aggregation(mac: Seq<char>)
    requires
        forall|i: int| 0 <= i < mac.len() ==> is_mac_char(#[trigger] mac[i]),
    ensures
        !contains_seq(mac_line(mac), aggregation_label()),
{
    assert(aggregation_label()[0int] == 'a' && aggregation_label()[0int + 1] == 'g');
    lemma_pair_not_in_mac_line(mac, 'a', 'g');
    lemma_no_witness_pair(mac_line(mac), aggregation_label(), 0);
}

#[verifier::spinoff_prover]
proof fn nc_mac_stbc(mac: Seq<char>)
    requires
        forall|i: int| 0 <= i < mac.len() ==> is_mac_char(#[trigger] mac[i]),
    ensures
        !contains_seq(mac_line(mac), stbc_label()),
{
    assert(stbc_label()[1int] == 't' && stbc_label()[1int + 1] == 'b');
    lemma_pair_not_in_mac_line(mac, 't', 'b');
    lemma_no_witness_pair(mac_line(mac), stbc_label(), 1);
}

#[verifier::spinoff_prover]
proof fn nc_mac_fec_coding(mac: Seq<char>)
    requires
        forall|i: int| 0 <= i < mac.len() ==> is_mac_char(#[trigger] mac[i]),
    ensures
        !contains_seq(mac_line(mac), fec_coding_label()),
{
    assert(fec_coding_label()[2int] == 'c' && fec_coding_label()[2int + 1] == ' ');
    lemma_pair_not_in_mac_line(mac, 'c', ' ');
    lemma_no_witness_pair(mac_line(mac), fec_coding_label(), 2);
}

#[verifier::spinoff_prover]
proof fn nc_mac_data_length(mac: Seq<char>)
    requires
        forall|i: int| 0 <= i < mac.len() ==> is_mac_char(#[trigger] mac[i]),
    ensures
        !contains_seq(mac_line(mac), data_length_label()),
{
    assert(data_length_label()[3int] == 'a' && data_length_label()[3int + 1] == ' ');
    lemma_pair_not_in_mac_line(mac, 'a', ' ');
    lemma_no_witness_pair(mac_line(mac), data_length_label(), 3);
}

#[verifier::spinoff_prover]
proof fn nc_rate_rssi(n: int)
    ensures
        !contains_seq(int_line(rssi_label(), n), rate_label()),
{
    assert(rate_label()[2int] == 't');
    lemma_char_not_in_int_line(rssi_label(), n, 't');
    lemma_no_witness_char(int_line(rssi_label(), n), rate_label(), 't');
}

#[verifier::spinoff_prover]
proof fn nc_noise_floor_rssi(n: int)
    ensures
        !contains_seq(int_line(rssi_label(), n), noise_floor_label()),
{
    assert(noise_floor_label()[0int] == 'n');
    lemma_char_not_in_int_line(rssi_label(), n, 'n');
    lemma_no_witness_char(int_line(rssi_label(), n), noise_floor_label(), 'n');
}

#[verifier::spinoff_prover]
proof fn nc_noise_floor_rate(n: int)
    ensures
        !contains_seq(int_line(rate_label(), n), noise_floor_label()),
{
    assert(noise_floor_label()[0int] == 'n');
    lemma_char_not_in_int_line(rate_label(), n, 'n');
    lemma_no_witness_char(int_line(rate_label(), n), noise_floor_label(), 'n');
}

#[verifier::spinoff_prover]
proof fn nc_channel_rssi(n: int)
    ensures
        !contains_seq(int_line(rssi_label(), n), channel_label()),
{
    assert(channel_label()[1int] == 'h');
    lemma_char_not_in_int_line(rssi_label(), n, 'h');
    lemma_no_witness_char(int_line(rssi_label(), n), channel_label(), 'h');
}

#[verifier::spinoff_prover]
proof fn nc_channel_rate(n: int)
    ensures
        !contains_seq(int_line(rate_label(), n), channel_label()),
{
    assert(channel_label()[1int] == 'h');
    lemma_char_not_in_int_line(rate_label(), n, 'h');
    lemma_no_witness_char(int_line(rate_label(), n), channel_label(), 'h');
}

#[verifier::spinoff_prover]
proof fn nc_channel_noise_floor(n: int)
    ensures
        !contains_seq(int_line(noise_floor_label(), n), channel_label()),
{
    assert(channel_label()[1int] == 'h');
    lemma_char_not_in_int_line(noise_floor_label(), n, 'h');
    lemma_no_witness_char(int_line(noise_floor_label(), n), channel_label(), 'h');
}

#[verifier::spinoff_prover]
proof fn nc_timestamp_rssi(n: int)
    ensures
        !contains_seq(int_line(rssi_label(), n), timestamp_label()),
{
    assert(timestamp_label()[8int] == 'p');
    lemma_char_not_in_int_line(rssi_label(), n, 'p');
    lemma_no_witness_char(int_line(rssi_label(), n), timestamp_label(), 'p');
}

#[verifier::spinoff_prover]
proof fn nc_timestamp_rate(n: int)
    ensures
        !contains_seq(int_line(rate_label(), n), timestamp_label()),
{
    assert(timestamp_label()[8int] == 'p');
    lemma_char_not_in_int_line(rate_label(), n, 'p');
    lemma_no_witness_char(int_line(rate_label(), n), timestamp_label(), 'p');
}

#[verifier::spinoff_prover]
proof fn nc_timestamp_noise_floor(n: int)
    ensures
        !contains_seq(int_line(noise_floor_label(), n), timestamp_label()),
{
    assert(timestamp_label()[8int] == 'p');
    lemma_char_not_in_int_line(noise_floor_label(), n, 'p');
    lemma_no_witness_char(int_line(noise_floor_label(), n), timestamp_label(), 'p');
}

#[verifier::spinoff_prover]
proof fn nc_timestamp_channel(n: int)
    ensures
        !contains_seq(int_line(channel_label(), n), timestamp_label()),
{
    assert(timestamp_label()[8int] == 'p');
    lemma_char_not_in_int_line(channel_label(), n, 'p');
    lemma_no_witness_char(int_line(channel_label(), n), timestamp_label(), 'p');
}

#[verifier::spinoff_prover]
proof fn nc_sig_len_rssi(n: int)
    ensures
        !contains_seq(int_line(rssi_label(), n), sig_len_label()),
{
    assert(sig_len_label()[2int] == 'g');
    lemma_char_not_in_int_line(rssi_label(), n, 'g');
    lemma_no_witness_char(int_line(rssi_label(), n), sig_len_label(), 'g');
}

#[verifier::spinoff_prover]
proof fn nc_sig_len_rate(n: int)
    ensures
        !contains_seq(int_line(rate_label(), n), sig_len_label()),
{
    assert(sig_len_label()[2int] == 'g');
    lemma_char_not_in_int_line(rate_label(), n, 'g');
    lemma_no_witness_char(int_line(rate_label(), n), sig_len_label(), 'g');
}

#[verifier::spinoff_prover]
proof fn nc_sig_len_noise_floor(n: int)
    ensures
        !contains_seq(int_line(noise_floor_label(), n), sig_len_label()),
{
    assert(sig_len_label()[2int] == 'g');
    lemma_char_not_in_int_line(noise_floor_label(), n, 'g');
    lemma_no_witness_char(int_line(noise_floor_label(), n), sig_len_label(), 'g');
}

#[verifier::spinoff_prover]
proof fn nc_sig_len_channel(n: int)
    ensures
        !contains_seq(int_line(channel_label(), n), sig_len_label()),
{
    assert(sig_len_label()[2int] == 'g');
    lemma_char_not_in_int_line(channel_label(), n, 'g');
    lemma_no_witness_char(int_line(channel_label(), n), sig_len_label(), 'g');
}

#[verifier::spinoff_prover]
proof fn nc_sig_len_timestamp(n: int)
    ensures
        !contains_seq(int_line(timestamp_label(), n), sig_len_label()),
{
    assert(sig_len_label()[2int] == 'g');
    lemma_char_not_in_int_line(timestamp_label(), n, 'g');
    lemma_no_witness_char(int_line(timestamp_label(), n), sig_len_label(), 'g');
}

#[verifier::spinoff_prover]
proof fn nc_rx_state_rssi(n: int)
    ensures
        !contains_seq(int_line(rssi_label(), n), rx_state_label()),
{
    assert(rx_state_label()[1int] == 'x');
    lemma_char_not_in_int_line(rssi_label(), n, 'x');
    lemma_no_witness_char(int_line(rssi_label(), n), rx_state_label(), 'x');
}

#[verifier::spinoff_prover]
proof fn nc_rx_state_rate(n: int)
    ensures
        !contains_seq(int_line(rate_label(), n), rx_state_label()),
{
    assert(rx_state_label()[1int] == 'x');
    lemma_char_not_in_int_line(rate_label(), n, 'x');
    lemma_no_witness_char(int_line(rate_label(), n), rx_state_label(), 'x');
}

#[verifier::spinoff_prover]
proof fn nc_rx_state_noise_floor(n: int)
    ensures
        !contains_seq(int_line(noise_floor_label(), n), rx_state_label()),
{
    assert(rx_state_label()[1int] == 'x');
    lemma_char_not_in_int_line(noise_floor_label(), n, 'x');
    lemma_no_witness_char(int_line(noise_floor_label(), n), rx_state_label(), 'x');
}

#[verifier::spinoff_prover]
proof fn nc_rx_state_channel(n: int)
    ensures
        !contains_seq(int_line(channel_label(), n), rx_state_label()),
{
    assert(rx_state_label()[1int] == 'x');
    lemma_char_not_in_int_line(channel_label(), n, 'x');
    lemma_no_witness_char(int_line(channel_label(), n), rx_state_label(), 'x');
}

#[verifier::spinoff_prover]
proof fn nc_rx_state_timestamp(n: int)
    ensures
        !contains_seq(int_line(timestamp_label(), n), rx_state_label()),
{
    assert(rx_state_label()[1int] == 'x');
    lemma_char_not_in_int_line(timestamp_label(), n, 'x');
    lemma_no_witness_char(int_line(timestamp_label(), n), rx_state_label(), 'x');
}

#[verifier::spinoff_prover]
proof fn nc_rx_state_sig_len(n: int)
    ensures
        !contains_seq(int_line(sig_len_label(), n), rx_state_label()),
{
    assert(rx_state_label()[1int] == 'x');
    lemma_char_not_in_int_line(sig_len_label(), n, 'x');
    lemma_no_witness_char(int_line(sig_len_label(), n), rx_state_label(), 'x');
}

#[verifier::spinoff_prover]
proof fn nc_secondary_channel_rssi(n: int)
    ensures
        !contains_seq(int_line(rssi_label(), n), secondary_channel_label()),
{
    assert(secondary_channel_label()[8int] == 'y');
    lemma_char_not_in_int_line(rssi_label(), n, 'y');
    lemma_no_witness_char(int_line(rssi_label(), n), secondary_channel_label(), 'y');
}

#[verifier::spinoff_prover]
proof fn nc_secondary_channel_rate(n: int)
    ensures
        !contains_seq(int_line(rate_label(), n), secondary_channel_label()),
{
    assert(secondary_channel_label()[8int] == 'y');
    lemma_char_not_in_int_line(rate_label(), n, 'y');
    lemma_no_witness_char(int_line(rate_label(), n), secondary_channel_label(), 'y');
}

#[verifier::spinoff_prover]
proof fn nc_secondary_channel_noise_floor(n: int)
    ensures
        !contains_seq(int_line(noise_floor_label(), n), secondary_channel_label()),
{
    assert(secondary_channel_label()[8int] == 'y');
    lemma_char_not_in_int_line(noise_floor_label(), n, 'y');
    lemma_no_witness_char(int_line(noise_floor_label(), n), secondary_channel_label(), 'y');
}

#[verifier::spinoff_prover]
proof fn nc_secondary_channel_channel(n: int)
    ensures
        !contains_seq(int_line(channel_label(), n), secondary_channel_label()),
{
    assert(secondary_channel_label()[8int] == 'y');
    lemma_char_not_in_int_line(channel_label(), n, 'y');
    lemma_no_witness_char(int_line(channel_label(), n), secondary_channel_label(), 'y');
}

#[verifier::spinoff_prover]
proof fn nc_secondary_channel_timestamp(n: int)
    ensures
        !contains_seq(int_line(timestamp_label(), n), secondary_channel_label()),
{
    assert(secondary_channel_label()[8int] == 'y');
    lemma_char_not_in_int_line(timestamp_label(), n, 'y');
    lemma_no_witness_char(int_line(timestamp_label(), n), secondary_channel_label(), 'y');
}

#[verifier::spinoff_prover]
proof fn nc_secondary_channel_sig_len(n: int)
    ensures
        !contains_seq(int_line(sig_len_label(), n), secondary_channel_label()),
{
    assert(secondary_channel_label()[8int] == 'y');
    lemma_char_not_in_int_line(sig_len_label(), n, 'y');
    lemma_no_witness_char(int_line(sig_len_label(), n), secondary_channel_label(), 'y');
}

#[verifier::spinoff_prover]
proof fn nc_secondary_channel_rx_state(n: int)
    ensures
        !contains_seq(int_line(rx_state_label(), n), secondary_channel_label()),
{
    assert(secondary_channel_label()[8int] == 'y');
    lemma_char_not_in_int_line(rx_state_label(), n, 'y');
    lemma_no_witness_char(int_line(rx_state_label(), n), secondary_channel_label(), 'y');
}

#[verifier::spinoff_prover]
proof fn nc_sgi_rssi(n: int)
    ensures
        !contains_seq(int_line(rssi_label(), n), sgi_label()),
{
    assert(sgi_label()[0int] == 's' && sgi_label()[0int + 1] == 'g');
    lemma_pair_not_in_int_line(rssi_label(), n, 's', 'g');
    lemma_no_witness_pair(int_line(rssi_label(), n), sgi_label(), 0);
}

#[verifier::spinoff_prover]
proof fn nc_sgi_rate(n: int)
    ensures
        !contains_seq(int_line(rate_label(), n), sgi_label()),
{
    assert(sgi_label()[0int] == 's' && sgi_label()[0int + 1] == 'g');
    lemma_pair_not_in_int_line(rate_label(), n, 's', 'g');
    lemma_no_witness_pair(int_line(rate_label(), n), sgi_label(), 0);
}

#[verifier::spinoff_prover]
proof fn nc_sgi_noise_floor(n: int)
    ensures
        !contains_seq(int_line(noise_floor_label(), n), sgi_label()),
{
    assert(sgi_label()[0int] == 's' && sgi_label()[0int + 1] == 'g');
    lemma_pair_not_in_int_line(noise_floor_label(), n, 's', 'g');
    lemma_no_witness_pair(int_line(noise_floor_label(), n), sgi_label(), 0);
}

#[verifier::spinoff_prover]
proof fn nc_sgi_channel(n: int)
    ensures
        !contains_seq(int_line(channel_label(), n), sgi_label()),
{
    assert(sgi_label()[0int] == 's' && sgi_label()[0int + 1] == 'g');
    lemma_pair_not_in_int_line(channel_label(), n, 's', 'g');
    lemma_no_witness_pair(int_line(channel_label(), n), sgi_label(), 0);
}

#[verifier::spinoff_prover]
proof fn nc_sgi_timestamp(n: int)
    ensures
        !contains_seq(int_line(timestamp_label(), n), sgi_label()),
{
    assert(sgi_label()[0int] == 's' && sgi_label()[0int + 1] == 'g');
    lemma_pair_not_in_int_line(timestamp_label(), n, 's', 'g');
    lemma_no_witness_pair(int_line(timestamp_label(), n), sgi_label(), 0);
}

#[verifier::spinoff_prover]
proof fn nc_sgi_sig_len(n: int)
    ensures
        !contains_seq(int_line(sig_len_label(), n), sgi_label()),
{
    assert(sgi_label()[0int] == 's' && sgi_label()[0int + 1] == 'g');
    lemma_pair_not_in_int_line(sig_len_label(), n, 's', 'g');
    lemma_no_witness_pair(int_line(sig_len_label(), n), sgi_label(), 0);
}

#[verifier::spinoff_prover]
proof fn nc_sgi_rx_state(n: int)
    ensures
        !contains_seq(int_line(rx_state_label(), n), sgi_label()),
{
    assert(sgi_label()[0int] == 's' && sgi_label()[0int + 1] == 'g');
    lemma_pair_not_in_int_line(rx_state_label(), n, 's', 'g');
    lemma_no_witness_pair(int_line(rx_state_label(), n), sgi_label(), 0);
}

#[verifier::spinoff_prover]
proof fn nc_sgi_secondary_channel(n: int)
    ensures
        !contains_seq(int_line(secondary_channel_label(), n), sgi_label()),
{
    assert(sgi_label()[0int] == 's' && sgi_label()[0int + 1] == 'g');
    lemma_pair_not_in_int_line(secondary_channel_label(), n, 's', 'g');
    lemma_no_witness_pair(int_line(secondary_channel_label(), n), sgi_label(), 0);
}

#[verifier::spinoff_prover]
proof fn nc_ant_rssi(n: int)
    ensures
        !contains_seq(int_line(rssi_label(), n), ant_label()),
{
    assert(ant_label()[1int] == 'n' && ant_label()[1int + 1] == 't');
    lemma_pair_not_in_int_line(rssi_label(), n, 'n', 't');
    lemma_no_witness_pair(int_line(rssi_label(), n), ant_label(), 1);
}

#[verifier::spinoff_prover]
proof fn nc_ant_rate(n: int)
    ensures
        !contains_seq(int_line(rate_label(), n), ant_label()),
{
    assert(ant_label()[1int] == 'n' && ant_label()[1int + 1] == 't');
    lemma_pair_not_in_int_line(rate_label(), n, 'n', 't');
    lemma_no_witness_pair(int_line(rate_label(), n), ant_label(), 1);
}

#[verifier::spinoff_prover]
proof fn nc_ant_noise_floor(n: int)
    ensures
        !contains_seq(int_line(noise_floor_label(), n), ant_label()),
{
    assert(ant_label()[1int] == 'n' && ant_label()[1int + 1] == 't');
    lemma_pair_not_in_int_line(noise_floor_label(), n, 'n', 't');
    lemma_no_witness_pair(int_line(noise_floor_label(), n), ant_label(), 1);
}

#[verifier::spinoff_prover]
proof fn nc_ant_channel(n: int)
    ensures
        !contains_seq(int_line(channel_label(), n), ant_label()),
{
    assert(ant_label()[1int] == 'n' && ant_label()[1int + 1] == 't');
    lemma_pair_not_in_int_line(channel_label(), n, 'n', 't');
    lemma_no_witness_pair(int_line(channel_label(), n), ant_label(), 1);
}

#[verifier::spinoff_prover]
proof fn nc_ant_timestamp(n: int)
    ensures
        !contains_seq(int_line(timestamp_label(), n), ant_label()),
{
    assert(ant_label()[1int] == 'n' && ant_label()[1int + 1] == 't');
    lemma_pair_not_in_int_line(timestamp_label(), n, 'n', 't');
    lemma_no_witness_pair(int_line(timestamp_label(), n), ant_label(), 1);
}

#[verifier::spinoff_prover]
proof fn nc_ant_sig_len(n: int)
    ensures
        !contains_seq(int_line(sig_len_label(), n), ant_label()),
{
    assert(ant_label()[1int] == 'n' && ant_label()[1int + 1] == 't');
    lemma_pair_not_in_int_line(sig_len_label(), n, 'n', 't');
    lemma_no_witness_pair(int_line(sig_len_label(), n), ant_label(), 1);
}

#[verifier::spinoff_prover]
proof fn nc_ant_rx_state(n: int)
    ensures
        !contains_seq(int_line(rx_state_label(), n), ant_label()),
{
    assert(ant_label()[1int] == 'n' && ant_label()[1int + 1] == 't');
    lemma_pair_not_in_int_line(rx_state_label(), n, 'n', 't');
    lemma_no_witness_pair(int_line(rx_state_label(), n), ant_label(), 1);
}

#[verifier::spinoff_prover]
proof fn nc_ant_secondary_channel(n: int)
    ensures
        !contains_seq(int_line(secondary_channel_label(), n), ant_label()),
{
    assert(ant_label()[1int] == 'n' && ant_label()[1int + 1] == 't');
    lemma_pair_not_in_int_line(secondary_channel_label(), n, 'n', 't');
    lemma_no_witness_pair(int_line(secondary_channel_label(), n), ant_label(), 1);
}

#[verifier::spinoff_prover]
proof fn nc_ant_sgi(n: int)
    ensures
        !contains_seq(int_line(sgi_label(), n), ant_label()),
{
    assert(ant_label()[1int] == 'n' && ant_label()[1int + 1] == 't');
    lemma_pair_not_in_int_line(sgi_label(), n, 'n', 't');
    lemma_no_witness_pair(int_line(sgi_label(), n), ant_label(), 1);
}

#[verifier::spinoff_prover]
proof fn nc_ampdu_cnt_rssi(n: int)
    ensures
        !contains_seq(int_line(rssi_label(), n), ampdu_cnt_label()),
{
    assert(ampdu_cnt_label()[4int] == 'u');
    lemma_char_not_in_int_line(rssi_label(), n, 'u');
    lemma_no_witness_char(int_line(rssi_label(), n), ampdu_cnt_label(), 'u');
}

#[verifier::spinoff_prover]
proof fn nc_ampdu_cnt_rate(n: int)
    ensures
        !contains_seq(int_line(rate_label(), n), ampdu_cnt_label()),
{
    assert(ampdu_cnt_label()[4int] == 'u');
    lemma_char_not_in_int_line(rate_label(), n, 'u');
    lemma_no_witness_char(int_line(rate_label(), n), ampdu_cnt_label(), 'u');
}

#[verifier::spinoff_prover]
proof fn nc_ampdu_cnt_noise_floor(n: int)
    ensures
        !contains_seq(int_line(noise_floor_label(), n), ampdu_cnt_label()),
{
    assert(ampdu_cnt_label()[4int] == 'u');
    lemma_char_not_in_int_line(noise_floor_label(), n, 'u');
    lemma_no_witness_char(int_line(noise_floor_label(), n), ampdu_cnt_label(), 'u');
}

#[verifier::spinoff_prover]
proof fn nc_ampdu_cnt_channel(n: int)
    ensures
        !contains_seq(int_line(channel_label(), n), ampdu_cnt_label()),
{
    assert(ampdu_cnt_label()[4int] == 'u');
    lemma_char_not_in_int_line(channel_label(), n, 'u');
    lemma_no_witness_char(int_line(channel_label(), n), ampdu_cnt_label(), 'u');
}

#[verifier::spinoff_prover]
proof fn nc_ampdu_cnt_timestamp(n: int)
    ensures
        !contains_seq(int_line(timestamp_label(), n), ampdu_cnt_label()),
{
    assert(ampdu_cnt_label()[4int] == 'u');
    lemma_char_not_in_int_line(timestamp_label(), n, 'u');
    lemma_no_witness_char(int_line(timestamp_label(), n), ampdu_cnt_label(), 'u');
}

#[verifier::spinoff_prover]
proof fn nc_ampdu_cnt_sig_len(n: int)
    ensures
        !contains_seq(int_line(sig_len_label(), n), ampdu_cnt_label()),
{
    assert(ampdu_cnt_label()[4int] == 'u');
    lemma_char_not_in_int_line(sig_len_label(), n, 'u');
    lemma_no_witness_char(int_line(sig_len_label(), n), ampdu_cnt_label(), 'u');
}

#[verifier::spinoff_prover]
proof fn nc_ampdu_cnt_rx_state(n: int)
    ensures
        !contains_seq(int_line(rx_state_label(), n), ampdu_cnt_label()),
{
    assert(ampdu_cnt_label()[4int] == 'u');
    lemma_char_not_in_int_line(rx_state_label(), n, 'u');
    lemma_no_witness_char(int_line(rx_state_label(), n), ampdu_cnt_label(), 'u');
}

#[verifier::spinoff_prover]
proof fn nc_ampdu_cnt_secondary_channel(n: int)
    ensures
        !contains_seq(int_line(secondary_channel_label(), n), ampdu_cnt_label()),
{
    assert(ampdu_cnt_label()[4int] == 'u');
    lemma_char_not_in_int_line(secondary_channel_label(), n, 'u');
    lemma_no_witness_char(int_line(secondary_channel_label(), n), ampdu_cnt_label(), 'u');
}

#[verifier::spinoff_prover]
proof fn nc_ampdu_cnt_sgi(n: int)
    ensures
        !contains_seq(int_line(sgi_label(), n), ampdu_cnt_label()),
{
    assert(ampdu_cnt_label()[4int] == 'u');
    lemma_char_not_in_int_line(sgi_label(), n, 'u');
    lemma_no_witness_char(int_line(sgi_label(), n), ampdu_cnt_label(), 'u');
}

#[verifier::spinoff_prover]
proof fn nc_ampdu_cnt_ant(n: int)
    ensures
        !contains_seq(int_line(ant_label(), n), ampdu_cnt_label()),
{
    assert(ampdu_cnt_label()[4int] == 'u');
    lemma_char_not_in_int_line(ant_label(), n, 'u');
    lemma_no_witness_char(int_line(ant_label(), n), ampdu_cnt_label(), 'u');
}

#[verifier::spinoff_prover]
proof fn nc_sig_mode_rssi(n: int)
    ensures
        !contains_seq(int_line(rssi_label(), n), sig_mode_label()),
{
    assert(sig_mode_label()[3int] == '_');
    lemma_char_not_in_int_line(rssi_label(), n, '_');
    lemma_no_witness_char(int_line(rssi_label(), n), sig_mode_label(), '_');
}

#[verifier::spinoff_prover]
proof fn nc_sig_mode_rate(n: int)
    ensures
        !contains_seq(int_line(rate_label(), n), sig_mode_label()),
{
    assert(sig_mode_label()[3int] == '_');
    lemma_char_not_in_int_line(rate_label(), n, '_');
    lemma_no_witness_char(int_line(rate_label(), n), sig_mode_label(), '_');
}

#[verifier::spinoff_prover]
proof fn nc_sig_mode_noise_floor(n: int)
    ensures
        !contains_seq(int_line(noise_floor_label(), n), sig_mode_label()),
{
    assert(sig_mode_label()[3int] == '_');
    lemma_char_not_in_int_line(noise_floor_label(), n, '_');
    lemma_no_witness_char(int_line(noise_floor_label(), n), sig_mode_label(), '_');
}

#[verifier::spinoff_prover]
proof fn nc_sig_mode_channel(n: int)
    ensures
        !contains_seq(int_line(channel_label(), n), sig_mode_label()),
{
    assert(sig_mode_label()[3int] == '_');
    lemma_char_not_in_int_line(channel_label(), n, '_');
    lemma_no_witness_char(int_line(channel_label(), n), sig_mode_label(), '_');
}

#[verifier::spinoff_prover]
proof fn nc_sig_mode_timestamp(n: int)
    ensures
        !contains_seq(int_line(timestamp_label(), n), sig_mode_label()),
{
    assert(sig_mode_label()[3int] == '_');
    lemma_char_not_in_int_line(timestamp_label(), n, '_');
    lemma_no_witness_char(int_line(timestamp_label(), n), sig_mode_label(), '_');
}

#[verifier::spinoff_prover]
proof fn nc_sig_mode_sig_len(n: int)
    ensures
        !contains_seq(int_line(sig_len_label(), n), sig_mode_label()),
{
    assert(sig_mode_label()[3int] == '_');
    lemma_char_not_in_int_line(sig_len_label(), n, '_');
    lemma_no_witness_char(int_line(sig_len_label(), n), sig_mode_label(), '_');
}

#[verifier::spinoff_prover]
proof fn nc_sig_mode_rx_state(n: int)
    ensures
        !contains_seq(int_line(rx_state_label(), n), sig_mode_label()),
{
    assert(sig_mode_label()[3int] == '_');
    lemma_char_not_in_int_line(rx_state_label(), n, '_');
    lemma_no_witness_char(int_line(rx_state_label(), n), sig_mode_label(), '_');
}

#[verifier::spinoff_prover]
proof fn nc_sig_mode_secondary_channel(n: int)
    ensures
        !contains_seq(int_line(secondary_channel_label(), n), sig_mode_label()),
{
    assert(sig_mode_label()[3int] == '_');
    lemma_char_not_in_int_line(secondary_channel_label(), n, '_');
    lemma_no_witness_char(int_line(secondary_channel_label(), n), sig_mode_label(), '_');
}

#[verifier::spinoff_prover]
proof fn nc_sig_mode_sgi(n: int)
    ensures
        !contains_seq(int_line(sgi_label(), n), sig_mode_label()),
{
    assert(sig_mode_label()[3int] == '_');
    lemma_char_not_in_int_line(sgi_label(), n, '_');
    lemma_no_witness_char(int_line(sgi_label(), n), sig_mode_label(), '_');
}

#[verifier::spinoff_prover]
proof fn nc_sig_mode_ant(n: int)
    ensures
        !contains_seq(int_line(ant_label(), n), sig_mode_label()),
{
    assert(sig_mode_label()[3int] == '_');
    lemma_char_not_in_int_line(ant_label(), n, '_');
    lemma_no_witness_char(int_line(ant_label(), n), sig_mode_label(), '_');
}

#[verifier::spinoff_prover]
proof fn nc_sig_mode_ampdu_cnt(n: int)
    ensures
        !contains_seq(int_line(ampdu_cnt_label(), n), sig_mode_label()),
{
    assert(sig_mode_label()[3int] == '_');
    lemma_char_not_in_int_line(ampdu_cnt_label(), n, '_');
    lemma_no_witness_char(int_line(ampdu_cnt_label(), n), sig_mode_label(), '_');
}

#[verifier::spinoff_prover]
proof fn nc_mcs_rssi(n: int)
    ensures
        !contains_seq(int_line(rssi_label(), n), mcs_label()),
{
    assert(mcs_label()[0int] == 'm' && mcs_label()[0int + 1] == 'c');
    lemma_pair_not_in_int_line(rssi_label(), n, 'm', 'c');
    lemma_no_witness_pair(int_line(rssi_label(), n), mcs_label(), 0);
}

#[verifier::spinoff_prover]
proof fn nc_mcs_rate(n: int)
    ensures
        !contains_seq(int_line(rate_label(), n), mcs_label()),
{
    assert(mcs_label()[0int] == 'm' && mcs_label()[0int + 1] == 'c');
    lemma_pair_not_in_int_line(rate_label(), n, 'm', 'c');
    lemma_no_witness_pair(int_line(rate_label(), n), mcs_label(), 0);
}

#[verifier::spinoff_prover]
proof fn nc_mcs_noise_floor(n: int)
    ensures
        !contains_seq(int_line(noise_floor_label(), n), mcs_label()),
{
    assert(mcs_label()[0int] == 'm' && mcs_label()[0int + 1] == 'c');
    lemma_pair_not_in_int_line(noise_floor_label(), n, 'm', 'c');
    lemma_no_witness_pair(int_line(noise_floor_label(), n), mcs_label(), 0);
}

#[verifier::spinoff_prover]
proof fn nc_mcs_channel(n: int)
    ensures
        !contains_seq(int_line(channel_label(), n), mcs_label()),
{
    assert(mcs_label()[0int] == 'm' && mcs_label()[0int + 1] == 'c');
    lemma_pair_not_in_int_line(channel_label(), n, 'm', 'c');
    lemma_no_witness_pair(int_line(channel_label(), n), mcs_label(), 0);
}

#[verifier::spinoff_prover]
proof fn nc_mcs_timestamp(n: int)
    ensures
        !contains_seq(int_line(timestamp_label(), n), mcs_label()),
{
    assert(mcs_label()[0int] == 'm' && mcs_label()[0int + 1] == 'c');
    lemma_pair_not_in_int_line(timestamp_label(), n, 'm', 'c');
    lemma_no_witness_pair(int_line(timestamp_label(), n), mcs_label(), 0);
}

#[verifier::spinoff_prover]
proof fn nc_mcs_sig_len(n: int)
    ensures
        !contains_seq(int_line(sig_len_label(), n), mcs_label()),
{
    assert(mcs_label()[0int] == 'm' && mcs_label()[0int + 1] == 'c');
    lemma_pair_not_in_int_line(sig_len_label(), n, 'm', 'c');
    lemma_no_witness_pair(int_line(sig_len_label(), n), mcs_label(), 0);
}

#[verifier::spinoff_prover]
proof fn nc_mcs_rx_state(n: int)
    ensures
        !contains_seq(int_line(rx_state_label(), n), mcs_label()),
{
    assert(mcs_label()[0int] == 'm' && mcs_label()[0int + 1] == 'c');
    lemma_pair_not_in_int_line(rx_state_label(), n, 'm', 'c');
    lemma_no_witness_pair(int_line(rx_state_label(), n), mcs_label(), 0);
}

#[verifier::spinoff_prover]
proof fn nc_mcs_secondary_channel(n: int)
    ensures
        !contains_seq(int_line(secondary_channel_label(), n), mcs_label()),
{
    assert(mcs_label()[0int] == 'm' && mcs_label()[0int + 1] == 'c');
    lemma_pair_not_in_int_line(secondary_channel_label(), n, 'm', 'c');
    lemma_no_witness_pair(int_line(secondary_channel_label(), n), mcs_label(), 0);
}

#[verifier::spinoff_prover]
proof fn nc_mcs_sgi(n: int)
    ensures
        !contains_seq(int_line(sgi_label(), n), mcs_label()),
{
    assert(mcs_label()[0int] == 'm' && mcs_label()[0int + 1] == 'c');
    lemma_pair_not_in_int_line(sgi_label(), n, 'm', 'c');
    lemma_no_witness_pair(int_line(sgi_label(), n), mcs_label(), 0);
}

#[verifier::spinoff_prover]
proof fn nc_mcs_ant(n: int)
    ensures
        !contains_seq(int_line(ant_label(), n), mcs_label()),
{
    assert(mcs_label()[0int] == 'm' && mcs_label()[0int + 1] == 'c');
    lemma_pair_not_in_int_line(ant_label(), n, 'm', 'c');
    lemma_no_witness_pair(int_line(ant_label(), n), mcs_label(), 0);
}

#[verifier::spinoff_prover]
proof fn nc_mcs_ampdu_cnt(n: int)
    ensures
        !contains_seq(int_line(ampdu_cnt_label(), n), mcs_label()),
{
    assert(mcs_label()[0int] == 'm' && mcs_label()[0int + 1] == 'c');
    lemma_pair_not_in_int_line(ampdu_cnt_label(), n, 'm', 'c');
    lemma_no_witness_pair(int_line(ampdu_cnt_label(), n), mcs_label(), 0);
}

#[verifier::spinoff_prover]
proof fn nc_mcs_sig_mode(n: int)
    ensures
        !contains_seq(int_line(sig_mode_label(), n), mcs_label()),
{
    assert(mcs_label()[0int] == 'm' && mcs_label()[0int + 1] == 'c');
    lemma_pair_not_in_int_line(sig_mode_label(), n, 'm', 'c');
    lemma_no_witness_pair(int_line(sig_mode_label(), n), mcs_label(), 0);
}

#[verifier::spinoff_prover]
proof fn nc_cwb_rssi(n: int)
    ensures
        !contains_seq(int_line(rssi_label(), n), cwb_label()),
{
    assert(cwb_label()[1int] == 'w');
    lemma_char_not_in_int_line(rssi_label(), n, 'w');
    lemma_no_witness_char(int_line(rssi_label(), n), cwb_label(), 'w');
}

#[verifier::spinoff_prover]
proof fn nc_cwb_rate(n: int)
    ensures
        !contains_seq(int_line(rate_label(), n), cwb_label()),
{
    assert(cwb_label()[1int] == 'w');
    lemma_char_not_in_int_line(rate_label(), n, 'w');
    lemma_no_witness_char(int_line(rate_label(), n), cwb_label(), 'w');
}

#[verifier::spinoff_prover]
proof fn nc_cwb_noise_floor(n: int)
    ensures
        !contains_seq(int_line(noise_floor_label(), n), cwb_label()),
{
    assert(cwb_label()[1int] == 'w');
    lemma_char_not_in_int_line(noise_floor_label(), n, 'w');
    lemma_no_witness_char(int_line(noise_floor_label(), n), cwb_label(), 'w');
}

#[verifier::spinoff_prover]
proof fn nc_cwb_channel(n: int)
    ensures
        !contains_seq(int_line(channel_label(), n), cwb_label()),
{
    assert(cwb_label()[1int] == 'w');
    lemma_char_not_in_int_line(channel_label(), n, 'w');
    lemma_no_witness_char(int_line(channel_label(), n), cwb_label(), 'w');
}

#[verifier::spinoff_prover]
proof fn nc_cwb_timestamp(n: int)
    ensures
        !contains_seq(int_line(timestamp_label(), n), cwb_label()),
{
    assert(cwb_label()[1int] == 'w');
    lemma_char_not_in_int_line(timestamp_label(), n, 'w');
    lemma_no_witness_char(int_line(timestamp_label(), n), cwb_label(), 'w');
}

#[verifier::spinoff_prover]
proof fn nc_cwb_sig_len(n: int)
    ensures
        !contains_seq(int_line(sig_len_label(), n), cwb_label()),
{
    assert(cwb_label()[1int] == 'w');
    lemma_char_not_in_int_line(sig_len_label(), n, 'w');
    lemma_no_witness_char(int_line(sig_len_label(), n), cwb_label(), 'w');
}

#[verifier::spinoff_prover]
proof fn nc_cwb_rx_state(n: int)
    ensures
        !contains_seq(int_line(rx_state_label(), n), cwb_label()),
{
    assert(cwb_label()[1int] == 'w');
    lemma_char_not_in_int_line(rx_state_label(), n, 'w');
    lemma_no_witness_char(int_line(rx_state_label(), n), cwb_label(), 'w');
}

#[verifier::spinoff_prover]
proof fn nc_cwb_secondary_channel(n: int)
    ensures
        !contains_seq(int_line(secondary_channel_label(), n), cwb_label()),
{
    assert(cwb_label()[1int] == 'w');
    lemma_char_not_in_int_line(secondary_channel_label(), n, 'w');
    lemma_no_witness_char(int_line(secondary_channel_label(), n), cwb_label(), 'w');
}

#[verifier::spinoff_prover]
proof fn nc_cwb_sgi(n: int)
    ensures
        !contains_seq(int_line(sgi_label(), n), cwb_label()),
{
    assert(cwb_label()[1int] == 'w');
    lemma_char_not_in_int_line(sgi_label(), n, 'w');
    lemma_no_witness_char(int_line(sgi_label(), n), cwb_label(), 'w');
}

#[verifier::spinoff_prover]
proof fn nc_cwb_ant(n: int)
    ensures
        !contains_seq(int_line(ant_label(), n), cwb_label()),
{
    assert(cwb_label()[1int] == 'w');
    lemma_char_not_in_int_line(ant_label(), n, 'w');
    lemma_no_witness_char(int_line(ant_label(), n), cwb_label(), 'w');
}

#[verifier::spinoff_prover]
proof fn nc_cwb_ampdu_cnt(n: int)
    ensures
        !contains_seq(int_line(ampdu_cnt_label(), n), cwb_label()),
{
    assert(cwb_label()[1int] == 'w');
    lemma_char_not_in_int_line(ampdu_cnt_label(), n, 'w');
    lemma_no_witness_char(int_line(ampdu_cnt_label(), n), cwb_label(), 'w');
}

#[verifier::spinoff_prover]
proof fn nc_cwb_sig_mode(n: int)
    ensures
        !contains_seq(int_line(sig_mode_label(), n), cwb_label()),
{
    assert(cwb_label()[1int] == 'w');
    lemma_char_not_in_int_line(sig_mode_label(), n, 'w');
    lemma_no_witness_char(int_line(sig_mode_label(), n), cwb_label(), 'w');
}

#[verifier::spinoff_prover]
proof fn nc_cwb_mcs(n: int)
    ensures
        !contains_seq(int_line(mcs_label(), n), cwb_label()),
{
    assert(cwb_label()[1int] == 'w');
    lemma_char_not_in_int_line(mcs_label(), n, 'w');
    lemma_no_witness_char(int_line(mcs_label(), n), cwb_label(), 'w');
}

#[verifier::spinoff_prover]
proof fn nc_smoothing_rssi(n: int)
    ensures
        !contains_seq(int_line(rssi_label(), n), smoothing_label()),
{
    assert(smoothing_label()[0int] == 's' && smoothing_label()[0int + 1] == 'm');
    lemma_pair_not_in_int_line(rssi_label(), n, 's', 'm');
    lemma_no_witness_pair(int_line(rssi_label(), n), smoothing_label(), 0);
}

#[verifier::spinoff_prover]
proof fn nc_smoothing_rate(n: int)
    ensures
        !contains_seq(int_line(rate_label(), n), smoothing_label()),
{
    assert(smoothing_label()[0int] == 's' && smoothing_label()[0int + 1] == 'm');
    lemma_pair_not_in_int_line(rate_label(), n, 's', 'm');
    lemma_no_witness_pair(int_line(rate_label(), n), smoothing_label(), 0);
}

#[verifier::spinoff_prover]
proof fn nc_smoothing_noise_floor(n: int)
    ensures
        !contains_seq(int_line(noise_floor_label(), n), smoothing_label()),
{
    assert(smoothing_label()[0int] == 's' && smoothing_label()[0int + 1] == 'm');
    lemma_pair_not_in_int_line(noise_floor_label(), n, 's', 'm');
    lemma_no_witness_pair(int_line(noise_floor_label(), n), smoothing_label(), 0);
}

#[verifier::spinoff_prover]
proof fn nc_smoothing_channel(n: int)
    ensures
        !contains_seq(int_line(channel_label(), n), smoothing_label()),
{
    assert(smoothing_label()[0int] == 's' && smoothing_label()[0int + 1] == 'm');
    lemma_pair_not_in_int_line(channel_label(), n, 's', 'm');
    lemma_no_witness_pair(int_line(channel_label(), n), smoothing_label(), 0);
}

#[verifier::spinoff_prover]
proof fn nc_smoothing_timestamp(n: int)
    ensures
        !contains_seq(int_line(timestamp_label(), n), smoothing_label()),
{
    assert(smoothing_label()[0int] == 's' && smoothing_label()[0int + 1] == 'm');
    lemma_pair_not_in_int_line(timestamp_label(), n, 's', 'm');
    lemma_no_witness_pair(int_line(timestamp_label(), n), smoothing_label(), 0);
}

#[verifier::spinoff_prover]
proof fn nc_smoothing_sig_len(n: int)
    ensures
        !contains_seq(int_line(sig_len_label(), n), smoothing_label()),
{
    assert(smoothing_label()[0int] == 's' && smoothing_label()[0int + 1] == 'm');
    lemma_pair_not_in_int_line(sig_len_label(), n, 's', 'm');
    lemma_no_witness_pair(int_line(sig_len_label(), n), smoothing_label(), 0);
}

#[verifier::spinoff_prover]
proof fn nc_smoothing_rx_state(n: int)
    ensures
        !contains_seq(int_line(rx_state_label(), n), smoothing_label()),
{
    assert(smoothing_label()[0int] == 's' && smoothing_label()[0int + 1] == 'm');
    lemma_pair_not_in_int_line(rx_state_label(), n, 's', 'm');
    lemma_no_witness_pair(int_line(rx_state_label(), n), smoothing_label(), 0);
}

#[verifier::spinoff_prover]
proof fn nc_smoothing_secondary_channel(n: int)
    ensures
        !contains_seq(int_line(secondary_channel_label(), n), smoothing_label()),
{
    assert(smoothing_label()[0int] == 's' && smoothing_label()[0int + 1] == 'm');
    lemma_pair_not_in_int_line(secondary_channel_label(), n, 's', 'm');
    lemma_no_witness_pair(int_line(secondary_channel_label(), n), smoothing_label(), 0);
}

#[verifier::spinoff_prover]
proof fn nc_smoothing_sgi(n: int)
    ensures
        !contains_seq(int_line(sgi_label(), n), smoothing_label()),
{
    assert(smoothing_label()[0int] == 's' && smoothing_label()[0int + 1] == 'm');
    lemma_pair_not_in_int_line(sgi_label(), n, 's', 'm');
    lemma_no_witness_pair(int_line(sgi_label(), n), smoothing_label(), 0);
}

#[verifier::spinoff_prover]
proof fn nc_smoothing_ant(n: int)
    ensures
        !contains_seq(int_line(ant_label(), n), smoothing_label()),
{
    assert(smoothing_label()[0int] == 's' && smoothing_label()[0int + 1] == 'm');
    lemma_pair_not_in_int_line(ant_label(), n, 's', 'm');
    lemma_no_witness_pair(int_line(ant_label(), n), smoothing_label(), 0);
}

#[verifier::spinoff_prover]
proof fn nc_smoothing_ampdu_cnt(n: int)
    ensures
        !contains_seq(int_line(ampdu_cnt_label(), n), smoothing_label()),
{
    assert(smoothing_label()[0int] == 's' && smoothing_label()[0int + 1] == 'm');
    lemma_pair_not_in_int_line(ampdu_cnt_label(), n, 's', 'm');
    lemma_no_witness_pair(int_line(ampdu_cnt_label(), n), smoothing_label(), 0);
}

#[verifier::spinoff_prover]
proof fn nc_smoothing_sig_mode(n: int)
    ensures
        !contains_seq(int_line(sig_mode_label(), n), smoothing_label()),
{
    assert(smoothing_label()[0int] == 's' && smoothing_label()[0int + 1] == 'm');
    lemma_pair_not_in_int_line(sig_mode_label(), n, 's', 'm');
    lemma_no_witness_pair(int_line(sig_mode_label(), n), smoothing_label(), 0);
}

#[verifier::spinoff_prover]
proof fn nc_smoothing_mcs(n: int)
    ensures
        !contains_seq(int_line(mcs_label(), n), smoothing_label()),
{
    assert(smoothing_label()[0int] == 's' && smoothing_label()[0int + 1] == 'm');
    lemma_pair_not_in_int_line(mcs_label(), n, 's', 'm');
    lemma_no_witness_pair(int_line(mcs_label(), n), smoothing_label(), 0);
}

#[verifier::spinoff_prover]
proof fn nc_smoothing_cwb(n: int)
    ensures
        !contains_seq(int_line(cwb_label(), n), smoothing_label()),
{
    assert(smoothing_label()[0int] == 's' && smoothing_label()[0int + 1] == 'm');
    lemma_pair_not_in_int_line(cwb_label(), n, 's', 'm');
    lemma_no_witness_pair(int_line(cwb_label(), n), smoothing_label(), 0);
}

#[verifier::spinoff_prover]
proof fn nc_not_sounding_rssi(n: int)
    ensures
        !contains_seq(int_line(rssi_label(), n), not_sounding_label()),
{
    assert(not_sounding_label()[2int] == 't' && not_sounding_label()[2int + 1] == ' ');
    lemma_pair_not_in_int_line(rssi_label(), n, 't', ' ');
    lemma_no_witness_pair(int_line(rssi_label(), n), not_sounding_label(), 2);
}

#[verifier::spinoff_prover]
proof fn nc_not_sounding_rate(n: int)
    ensures
        !contains_seq(int_line(rate_label(), n), not_sounding_label()),
{
    assert(not_sounding_label()[2int] == 't' && not_sounding_label()[2int + 1] == ' ');
    lemma_pair_not_in_int_line(rate_label(), n, 't', ' ');
    lemma_no_witness_pair(int_line(rate_label(), n), not_sounding_label(), 2);
}

#[verifier::spinoff_prover]
proof fn nc_not_sounding_noise_floor(n: int)
    ensures
        !contains_seq(int_line(noise_floor_label(), n), not_sounding_label()),
{
    assert(not_sounding_label()[2int] == 't' && not_sounding_label()[2int + 1] == ' ');
    lemma_pair_not_in_int_line(noise_floor_label(), n, 't', ' ');
    lemma_no_witness_pair(int_line(noise_floor_label(), n), not_sounding_label(), 2);
}

#[verifier::spinoff_prover]
proof fn nc_not_sounding_channel(n: int)
    ensures
        !contains_seq(int_line(channel_label(), n), not_sounding_label()),
{
    assert(not_sounding_label()[2int] == 't' && not_sounding_label()[2int + 1] == ' ');
    lemma_pair_not_in_int_line(channel_label(), n, 't', ' ');
    lemma_no_witness_pair(int_line(channel_label(), n), not_sounding_label(), 2);
}

#[verifier::spinoff_prover]
proof fn nc_not_sounding_timestamp(n: int)
    ensures
        !contains_seq(int_line(timestamp_label(), n), not_sounding_label()),
{
    assert(not_sounding_label()[2int] == 't' && not_sounding_label()[2int + 1] == ' ');
    lemma_pair_not_in_int_line(timestamp_label(), n, 't', ' ');
    lemma_no_witness_pair(int_line(timestamp_label(), n), not_sounding_label(), 2);
}

#[verifier::spinoff_prover]
proof fn nc_not_sounding_sig_len(n: int)
    ensures
        !contains_seq(int_line(sig_len_label(), n), not_sounding_label()),
{
    assert(not_sounding_label()[2int] == 't' && not_sounding_label()[2int + 1] == ' ');
    lemma_pair_not_in_int_line(sig_len_label(), n, 't', ' ');
    lemma_no_witness_pair(int_line(sig_len_label(), n), not_sounding_label(), 2);
}

#[verifier::spinoff_prover]
proof fn nc_not_sounding_rx_state(n: int)
    ensures
        !contains_seq(int_line(rx_state_label(), n), not_sounding_label()),
{
    assert(not_sounding_label()[2int] == 't' && not_sounding_label()[2int + 1] == ' ');
    lemma_pair_not_in_int_line(rx_state_label(), n, 't', ' ');
    lemma_no_witness_pair(int_line(rx_state_label(), n), not_sounding_label(), 2);
}

#[verifier::spinoff_prover]
proof fn nc_not_sounding_secondary_channel(n: int)
    ensures
        !contains_seq(int_line(secondary_channel_label(), n), not_sounding_label()),
{
    assert(not_sounding_label()[2int] == 't' && not_sounding_label()[2int + 1] == ' ');
    lemma_pair_not_in_int_line(secondary_channel_label(), n, 't', ' ');
    lemma_no_witness_pair(int_line(secondary_channel_label(), n), not_sounding_label(), 2);
}

#[verifier::spinoff_prover]
proof fn nc_not_sounding_sgi(n: int)
    ensures
        !contains_seq(int_line(sgi_label(), n), not_sounding_label()),
{
    assert(not_sounding_label()[2int] == 't' && not_sounding_label()[2int + 1] == ' ');
    lemma_pair_not_in_int_line(sgi_label(), n, 't', ' ');
    lemma_no_witness_pair(int_line(sgi_label(), n), not_sounding_label(), 2);
}

#[verifier::spinoff_prover]
proof fn nc_not_sounding_ant(n: int)
    ensures
        !contains_seq(int_line(ant_label(), n), not_sounding_label()),
{
    assert(not_sounding_label()[2int] == 't' && not_sounding_label()[2int + 1] == ' ');
    lemma_pair_not_in_int_line(ant_label(), n, 't', ' ');
    lemma_no_witness_pair(int_line(ant_label(), n), not_sounding_label(), 2);
}

#[verifier::spinoff_prover]
proof fn nc_not_sounding_ampdu_cnt(n: int)
    ensures
        !contains_seq(int_line(ampdu_cnt_label(), n), not_sounding_label()),
{
    assert(not_sounding_label()[2int] == 't' && not_sounding_label()[2int + 1] == ' ');
    lemma_pair_not_in_int_line(ampdu_cnt_label(), n, 't', ' ');
    lemma_no_witness_pair(int_line(ampdu_cnt_label(), n), not_sounding_label(), 2);
}

#[verifier::spinoff_prover]
proof fn nc_not_sounding_sig_mode(n: int)
    ensures
        !contains_seq(int_line(sig_mode_label(), n), not_sounding_label()),
{
    assert(not_sounding_label()[2int] == 't' && not_sounding_label()[2int + 1] == ' ');
    lemma_pair_not_in_int_line(sig_mode_label(), n, 't', ' ');
    lemma_no_witness_pair(int_line(sig_mode_label(), n), not_sounding_label(), 2);
}

#[verifier::spinoff_prover]
proof fn nc_not_sounding_mcs(n: int)
    ensures
        !contains_seq(int_line(mcs_label(), n), not_sounding_label()),
{
    assert(not_sounding_label()[2int] == 't' && not_sounding_label()[2int + 1] == ' ');
    lemma_pair_not_in_int_line(mcs_label(), n, 't', ' ');
    lemma_no_witness_pair(int_line(mcs_label(), n), not_sounding_label(), 2);
}

#[verifier::spinoff_prover]
proof fn nc_not_sounding_cwb(n: int)
    ensures
        !contains_seq(int_line(cwb_label(), n), not_sounding_label()),
{
    assert(not_sounding_label()[2int] == 't' && not_sounding_label()[2int + 1] == ' ');
    lemma_pair_not_in_int_line(cwb_label(), n, 't', ' ');
    lemma_no_witness_pair(int_line(cwb_label(), n), not_sounding_label(), 2);
}

#[verifier::spinoff_prover]
proof fn nc_not_sounding_smoothing(n: int)
    ensures
        !contains_seq(int_line(smoothing_label(), n), not_sounding_label()),
{
    assert(not_sounding_label()[2int] == 't' && not_sounding_label()[2int + 1] == ' ');
    lemma_pair_not_in_int_line(smoothing_label(), n, 't', ' ');
    lemma_no_witness_pair(int_line(smoothing_label(), n), not_sounding_label(), 2);
}

#[verifier::spinoff_prover]
proof fn nc_aggregation_rssi(n: int)
    ensures
        !contains_seq(int_line(rssi_label(), n), aggregation_label()),
{
    assert(aggregation_label()[0int] == 'a' && aggregation_label()[0int + 1] == 'g');
    lemma_pair_not_in_int_line(rssi_label(), n, 'a', 'g');
    lemma_no_witness_pair(int_line(rssi_label(), n), aggregation_label(), 0);
}

#[verifier::spinoff_prover]
proof fn nc_aggregation_rate(n: int)
    ensures
        !contains_seq(int_line(rate_label(), n), aggregation_label()),
{
    assert(aggregation_label()[0int] == 'a' && aggregation_label()[0int + 1] == 'g');
    lemma_pair_not_in_int_line(rate_label(), n, 'a', 'g');
    lemma_no_witness_pair(int_line(rate_label(), n), aggregation_label(), 0);
}

#[verifier::spinoff_prover]
proof fn nc_aggregation_noise_floor(n: int)
    ensures
        !contains_seq(int_line(noise_floor_label(), n), aggregation_label()),
{
    assert(aggregation_label()[0int] == 'a' && aggregation_label()[0int + 1] == 'g');
    lemma_pair_not_in_int_line(noise_floor_label(), n, 'a', 'g');
    lemma_no_witness_pair(int_line(noise_floor_label(), n), aggregation_label(), 0);
}

#[verifier::spinoff_prover]
proof fn nc_aggregation_channel(n: int)
    ensures
        !contains_seq(int_line(channel_label(), n), aggregation_label()),
{
    assert(aggregation_label()[0int] == 'a' && aggregation_label()[0int + 1] == 'g');
    lemma_pair_not_in_int_line(channel_label(), n, 'a', 'g');
    lemma_no_witness_pair(int_line(channel_label(), n), aggregation_label(), 0);
}

#[verifier::spinoff_prover]
proof fn nc_aggregation_timestamp(n: int)
    ensures
        !contains_seq(int_line(timestamp_label(), n), aggregation_label()),
{
    assert(aggregation_label()[0int] == 'a' && aggregation_label()[0int + 1] == 'g');
    lemma_pair_not_in_int_line(timestamp_label(), n, 'a', 'g');
    lemma_no_witness_pair(int_line(timestamp_label(), n), aggregation_label(), 0);
}

#[verifier::spinoff_prover]
proof fn nc_aggregation_sig_len(n: int)
    ensures
        !contains_seq(int_line(sig_len_label(), n), aggregation_label()),
{
    assert(aggregation_label()[0int] == 'a' && aggregation_label()[0int + 1] == 'g');
    lemma_pair_not_in_int_line(sig_len_label(), n, 'a', 'g');
    lemma_no_witness_pair(int_line(sig_len_label(), n), aggregation_label(), 0);
}

#[verifier::spinoff_prover]
proof fn nc_aggregation_rx_state(n: int)
    ensures
        !contains_seq(int_line(rx_state_label(), n), aggregation_label()),
{
    assert(aggregation_label()[0int] == 'a' && aggregation_label()[0int + 1] == 'g');
    lemma_pair_not_in_int_line(rx_state_label(), n, 'a', 'g');
    lemma_no_witness_pair(int_line(rx_state_label(), n), aggregation_label(), 0);
}

#[verifier::spinoff_prover]
proof fn nc_aggregation_secondary_channel(n: int)
    ensures
        !contains_seq(int_line(secondary_channel_label(), n), aggregation_label()),
{
    assert(aggregation_label()[0int] == 'a' && aggregation_label()[0int + 1] == 'g');
    lemma_pair_not_in_int_line(secondary_channel_label(), n, 'a', 'g');
    lemma_no_witness_pair(int_line(secondary_channel_label(), n), aggregation_label(), 0);
}

#[verifier::spinoff_prover]
proof fn nc_aggregation_sgi(n: int)
    ensures
        !contains_seq(int_line(sgi_label(), n), aggregation_label()),
{
    assert(aggregation_label()[0int] == 'a' && aggregation_label()[0int + 1] == 'g');
    lemma_pair_not_in_int_line(sgi_label(), n, 'a', 'g');
    lemma_no_witness_pair(int_line(sgi_label(), n), aggregation_label(), 0);
}

#[verifier::spinoff_prover]
proof fn nc_aggregation_ant(n: int)
    ensures
        !contains_seq(int_line(ant_label(), n), aggregation_label()),
{
    assert(aggregation_label()[0int] == 'a' && aggregation_label()[0int + 1] == 'g');
    lemma_pair_not_in_int_line(ant_label(), n, 'a', 'g');
    lemma_no_witness_pair(int_line(ant_label(), n), aggregation_label(), 0);
}

#[verifier::spinoff_prover]
proof fn nc_aggregation_ampdu_cnt(n: int)
    ensures
        !contains_seq(int_line(ampdu_cnt_label(), n), aggregation_label()),
{
    assert(aggregation_label()[0int] == 'a' && aggregation_label()[0int + 1] == 'g');
    lemma_pair_not_in_int_line(ampdu_cnt_label(), n, 'a', 'g');
    lemma_no_witness_pair(int_line(ampdu_cnt_label(), n), aggregation_label(), 0);
}

#[verifier::spinoff_prover]
proof fn nc_aggregation_sig_mode(n: int)
    ensures
        !contains_seq(int_line(sig_mode_label(), n), aggregation_label()),
{
    assert(aggregation_label()[0int] == 'a' && aggregation_label()[0int + 1] == 'g');
    lemma_pair_not_in_int_line(sig_mode_label(), n, 'a', 'g');
    lemma_no_witness_pair(int_line(sig_mode_label(), n), aggregation_label(), 0);
}

#[verifier::spinoff_prover]
proof fn nc_aggregation_mcs(n: int)
    ensures
        !contains_seq(int_line(mcs_label(), n), aggregation_label()),
{
    assert(aggregation_label()[0int] == 'a' && aggregation_label()[0int + 1] == 'g');
    lemma_pair_not_in_int_line(mcs_label(), n, 'a', 'g');
    lemma_no_witness_pair(int_line(mcs_label(), n), aggregation_label(), 0);
}

#[verifier::spinoff_prover]
proof fn nc_aggregation_cwb(n: int)
    ensures
        !contains_seq(int_line(cwb_label(), n), aggregation_label()),
{
    assert(aggregation_label()[0int] == 'a' && aggregation_label()[0int + 1] == 'g');
    lemma_pair_not_in_int_line(cwb_label(), n, 'a', 'g');
    lemma_no_witness_pair(int_line(cwb_label(), n), aggregation_label(), 0);
}

#[verifier::spinoff_prover]
proof fn nc_aggregation_smoothing(n: int)
    ensures
        !contains_seq(int_line(smoothing_label(), n), aggregation_label()),
{
    assert(aggregation_label()[0int] == 'a' && aggregation_label()[0int + 1] == 'g');
    lemma_pair_not_in_int_line(smoothing_label(), n, 'a', 'g');
    lemma_no_witness_pair(int_line(smoothing_label(), n), aggregation_label(), 0);
}

#[verifier::spinoff_prover]
proof fn nc_aggregation_not_sounding(n: int)
    ensures
        !contains_seq(int_line(not_sounding_label(), n), aggregation_label()),
{
    assert(aggregation_label()[0int] == 'a' && aggregation_label()[0int + 1] == 'g');
    lemma_pair_not_in_int_line(not_sounding_label(), n, 'a', 'g');
    lemma_no_witness_pair(int_line(not_sounding_label(), n), aggregation_label(), 0);
}

#[verifier::spinoff_prover]
proof fn nc_stbc_rssi(n: int)
    ensures
        !contains_seq(int_line(rssi_label(), n), stbc_label()),
{
    assert(stbc_label()[1int] == 't' && stbc_label()[1int + 1] == 'b');
    lemma_pair_not_in_int_line(rssi_label(), n, 't', 'b');
    lemma_no_witness_pair(int_line(rssi_label(), n), stbc_label(), 1);
}

#[verifier::spinoff_prover]
proof fn nc_stbc_rate(n: int)
    ensures
        !contains_seq(int_line(rate_label(), n), stbc_label()),
{
    assert(stbc_label()[1int] == 't' && stbc_label()[1int + 1] == 'b');
    lemma_pair_not_in_int_line(rate_label(), n, 't', 'b');
    lemma_no_witness_pair(int_line(rate_label(), n), stbc_label(), 1);
}

#[verifier::spinoff_prover]
proof fn nc_stbc_noise_floor(n: int)
    ensures
        !contains_seq(int_line(noise_floor_label(), n), stbc_label()),
{
    assert(stbc_label()[1int] == 't' && stbc_label()[1int + 1] == 'b');
    lemma_pair_not_in_int_line(noise_floor_label(), n, 't', 'b');
    lemma_no_witness_pair(int_line(noise_floor_label(), n), stbc_label(), 1);
}

#[verifier::spinoff_prover]
proof fn nc_stbc_channel(n: int)
    ensures
        !contains_seq(int_line(channel_label(), n), stbc_label()),
{
    assert(stbc_label()[1int] == 't' && stbc_label()[1int + 1] == 'b');
    lemma_pair_not_in_int_line(channel_label(), n, 't', 'b');
    lemma_no_witness_pair(int_line(channel_label(), n), stbc_label(), 1);
}

#[verifier::spinoff_prover]
proof fn nc_stbc_timestamp(n: int)
    ensures
        !contains_seq(int_line(timestamp_label(), n), stbc_label()),
{
    assert(stbc_label()[1int] == 't' && stbc_label()[1int + 1] == 'b');
    lemma_pair_not_in_int_line(timestamp_label(), n, 't', 'b');
    lemma_no_witness_pair(int_line(timestamp_label(), n), stbc_label(), 1);
}

#[verifier::spinoff_prover]
proof fn nc_stbc_sig_len(n: int)
    ensures
        !contains_seq(int_line(sig_len_label(), n), stbc_label()),
{
    assert(stbc_label()[1int] == 't' && stbc_label()[1int + 1] == 'b');
    lemma_pair_not_in_int_line(sig_len_label(), n, 't', 'b');
    lemma_no_witness_pair(int_line(sig_len_label(), n), stbc_label(), 1);
}

#[verifier::spinoff_prover]
proof fn nc_stbc_rx_state(n: int)
    ensures
        !contains_seq(int_line(rx_state_label(), n), stbc_label()),
{
    assert(stbc_label()[1int] == 't' && stbc_label()[1int + 1] == 'b');
    lemma_pair_not_in_int_line(rx_state_label(), n, 't', 'b');
    lemma_no_witness_pair(int_line(rx_state_label(), n), stbc_label(), 1);
}

#[verifier::spinoff_prover]
proof fn nc_stbc_secondary_channel(n: int)
    ensures
        !contains_seq(int_line(secondary_channel_label(), n), stbc_label()),
{
    assert(stbc_label()[1int] == 't' && stbc_label()[1int + 1] == 'b');
    lemma_pair_not_in_int_line(secondary_channel_label(), n, 't', 'b');
    lemma_no_witness_pair(int_line(secondary_channel_label(), n), stbc_label(), 1);
}

#[verifier::spinoff_prover]
proof fn nc_stbc_sgi(n: int)
    ensures
        !contains_seq(int_line(sgi_label(), n), stbc_label()),
{
    assert(stbc_label()[1int] == 't' && stbc_label()[1int + 1] == 'b');
    lemma_pair_not_in_int_line(sgi_label(), n, 't', 'b');
    lemma_no_witness_pair(int_line(sgi_label(), n), stbc_label(), 1);
}

#[verifier::spinoff_prover]
proof fn nc_stbc_ant(n: int)
    ensures
        !contains_seq(int_line(ant_label(), n), stbc_label()),
{
    assert(stbc_label()[1int] == 't' && stbc_label()[1int + 1] == 'b');
    lemma_pair_not_in_int_line(ant_label(), n, 't', 'b');
    lemma_no_witness_pair(int_line(ant_label(), n), stbc_label(), 1);
}

#[verifier::spinoff_prover]
proof fn nc_stbc_ampdu_cnt(n: int)
    ensures
        !contains_seq(int_line(ampdu_cnt_label(), n), stbc_label()),
{
    assert(stbc_label()[1int] == 't' && stbc_label()[1int + 1] == 'b');
    lemma_pair_not_in_int_line(ampdu_cnt_label(), n, 't', 'b');
    lemma_no_witness_pair(int_line(ampdu_cnt_label(), n), stbc_label(), 1);
}

#[verifier::spinoff_prover]
proof fn nc_stbc_sig_mode(n: int)
    ensures
        !contains_seq(int_line(sig_mode_label(), n), stbc_label()),
{
    assert(stbc_label()[1int] == 't' && stbc_label()[1int + 1] == 'b');
    lemma_pair_not_in_int_line(sig_mode_label(), n, 't', 'b');
    lemma_no_witness_pair(int_line(sig_mode_label(), n), stbc_label(), 1);
}

#[verifier::spinoff_prover]
proof fn nc_stbc_mcs(n: int)
    ensures
        !contains_seq(int_line(mcs_label(), n), stbc_label()),
{
    assert(stbc_label()[1int] == 't' && stbc_label()[1int + 1] == 'b');
    lemma_pair_not_in_int_line(mcs_label(), n, 't', 'b');
    lemma_no_witness_pair(int_line(mcs_label(), n), stbc_label(), 1);
}

#[verifier::spinoff_prover]
proof fn nc_stbc_cwb(n: int)
    ensures
        !contains_seq(int_line(cwb_label(), n), stbc_label()),
{
    assert(stbc_label()[1int] == 't' && stbc_label()[1int + 1] == 'b');
    lemma_pair_not_in_int_line(cwb_label(), n, 't', 'b');
    lemma_no_witness_pair(int_line(cwb_label(), n), stbc_label(), 1);
}

#[verifier::spinoff_prover]
proof fn nc_stbc_smoothing(n: int)
    ensures
        !contains_seq(int_line(smoothing_label(), n), stbc_label()),
{
    assert(stbc_label()[1int] == 't' && stbc_label()[1int + 1] == 'b');
    lemma_pair_not_in_int_line(smoothing_label(), n, 't', 'b');
    lemma_no_witness_pair(int_line(smoothing_label(), n), stbc_label(), 1);
}

#[verifier::spinoff_prover]
proof fn nc_stbc_not_sounding(n: int)
    ensures
        !contains_seq(int_line(not_sounding_label(), n), stbc_label()),
{
    assert(stbc_label()[1int] == 't' && stbc_label()[1int + 1] == 'b');
    lemma_pair_not_in_int_line(not_sounding_label(), n, 't', 'b');
    lemma_no_witness_pair(int_line(not_sounding_label(), n), stbc_label(), 1);
}

#[verifier::spinoff_prover]
proof fn nc_stbc_aggregation(n: int)
    ensures
        !contains_seq(int_line(aggregation_label(), n), stbc_label()),
{
    assert(stbc_label()[1int] == 't' && stbc_label()[1int + 1] == 'b');
    lemma_pair_not_in_int_line(aggregation_label(), n, 't', 'b');
    lemma_no_witness_pair(int_line(aggregation_label(), n), stbc_label(), 1);
}

#[verifier::spinoff_prover]
proof fn nc_fec_coding_rssi(n: int)
    ensures
        !contains_seq(int_line(rssi_label(), n), fec_coding_label()),
{
    assert(fec_coding_label()[2int] == 'c' && fec_coding_label()[2int + 1] == ' ');
    lemma_pair_not_in_int_line(rssi_label(), n, 'c', ' ');
    lemma_no_witness_pair(int_line(rssi_label(), n), fec_coding_label(), 2);
}

#[verifier::spinoff_prover]
proof fn nc_fec_coding_rate(n: int)
    ensures
        !contains_seq(int_line(rate_label(), n), fec_coding_label()),
{
    assert(fec_coding_label()[2int] == 'c' && fec_coding_label()[2int + 1] == ' ');
    lemma_pair_not_in_int_line(rate_label(), n, 'c', ' ');
    lemma_no_witness_pair(int_line(rate_label(), n), fec_coding_label(), 2);
}

#[verifier::spinoff_prover]
proof fn nc_fec_coding_noise_floor(n: int)
    ensures
        !contains_seq(int_line(noise_floor_label(), n), fec_coding_label()),
{
    assert(fec_coding_label()[2int] == 'c' && fec_coding_label()[2int + 1] == ' ');
    lemma_pair_not_in_int_line(noise_floor_label(), n, 'c', ' ');
    lemma_no_witness_pair(int_line(noise_floor_label(), n), fec_coding_label(), 2);
}

#[verifier::spinoff_prover]
proof fn nc_fec_coding_channel(n: int)
    ensures
        !contains_seq(int_line(channel_label(), n), fec_coding_label()),
{
    assert(fec_coding_label()[2int] == 'c' && fec_coding_label()[2int + 1] == ' ');
    lemma_pair_not_in_int_line(channel_label(), n, 'c', ' ');
    lemma_no_witness_pair(int_line(channel_label(), n), fec_coding_label(), 2);
}

#[verifier::spinoff_prover]
proof fn nc_fec_coding_timestamp(n: int)
    ensures
        !contains_seq(int_line(timestamp_label(), n), fec_coding_label()),
{
    assert(fec_coding_label()[2int] == 'c' && fec_coding_label()[2int + 1] == ' ');
    lemma_pair_not_in_int_line(timestamp_label(), n, 'c', ' ');
    lemma_no_witness_pair(int_line(timestamp_label(), n), fec_coding_label(), 2);
}

#[verifier::spinoff_prover]
proof fn nc_fec_coding_sig_len(n: int)
    ensures
        !contains_seq(int_line(sig_len_label(), n), fec_coding_label()),
{
    assert(fec_coding_label()[2int] == 'c' && fec_coding_label()[2int + 1] == ' ');
    lemma_pair_not_in_int_line(sig_len_label(), n, 'c', ' ');
    lemma_no_witness_pair(int_line(sig_len_label(), n), fec_coding_label(), 2);
}

#[verifier::spinoff_prover]
proof fn nc_fec_coding_rx_state(n: int)
    ensures
        !contains_seq(int_line(rx_state_label(), n), fec_coding_label()),
{
    assert(fec_coding_label()[2int] == 'c' && fec_coding_label()[2int + 1] == ' ');
    lemma_pair_not_in_int_line(rx_state_label(), n, 'c', ' ');
    lemma_no_witness_pair(int_line(rx_state_label(), n), fec_coding_label(), 2);
}

#[verifier::spinoff_prover]
proof fn nc_fec_coding_secondary_channel(n: int)
    ensures
        !contains_seq(int_line(secondary_channel_label(), n), fec_coding_label()),
{
    assert(fec_coding_label()[2int] == 'c' && fec_coding_label()[2int + 1] == ' ');
    lemma_pair_not_in_int_line(secondary_channel_label(), n, 'c', ' ');
    lemma_no_witness_pair(int_line(secondary_channel_label(), n), fec_coding_label(), 2);
}

#[verifier::spinoff_prover]
proof fn nc_fec_coding_sgi(n: int)
    ensures
        !contains_seq(int_line(sgi_label(), n), fec_coding_label()),
{
    assert(fec_coding_label()[2int] == 'c' && fec_coding_label()[2int + 1] == ' ');
    lemma_pair_not_in_int_line(sgi_label(), n, 'c', ' ');
    lemma_no_witness_pair(int_line(sgi_label(), n), fec_coding_label(), 2);
}

#[verifier::spinoff_prover]
proof fn nc_fec_coding_ant(n: int)
    ensures
        !contains_seq(int_line(ant_label(), n), fec_coding_label()),
{
    assert(fec_coding_label()[2int] == 'c' && fec_coding_label()[2int + 1] == ' ');
    lemma_pair_not_in_int_line(ant_label(), n, 'c', ' ');
    lemma_no_witness_pair(int_line(ant_label(), n), fec_coding_label(), 2);
}

#[verifier::spinoff_prover]
proof fn nc_fec_coding_ampdu_cnt(n: int)
    ensures
        !contains_seq(int_line(ampdu_cnt_label(), n), fec_coding_label()),
{
    assert(fec_coding_label()[2int] == 'c' && fec_coding_label()[2int + 1] == ' ');
    lemma_pair_not_in_int_line(ampdu_cnt_label(), n, 'c', ' ');
    lemma_no_witness_pair(int_line(ampdu_cnt_label(), n), fec_coding_label(), 2);
}

#[verifier::spinoff_prover]
proof fn nc_fec_coding_sig_mode(n: int)
    ensures
        !contains_seq(int_line(sig_mode_label(), n), fec_coding_label()),
{
    assert(fec_coding_label()[2int] == 'c' && fec_coding_label()[2int + 1] == ' ');
    lemma_pair_not_in_int_line(sig_mode_label(), n, 'c', ' ');
    lemma_no_witness_pair(int_line(sig_mode_label(), n), fec_coding_label(), 2);
}

#[verifier::spinoff_prover]
proof fn nc_fec_coding_mcs(n: int)
    ensures
        !contains_seq(int_line(mcs_label(), n), fec_coding_label()),
{
    assert(fec_coding_label()[2int] == 'c' && fec_coding_label()[2int + 1] == ' ');
    lemma_pair_not_in_int_line(mcs_label(), n, 'c', ' ');
    lemma_no_witness_pair(int_line(mcs_label(), n), fec_coding_label(), 2);
}

#[verifier::spinoff_prover]
proof fn nc_fec_coding_cwb(n: int)
    ensures
        !contains_seq(int_line(cwb_label(), n), fec_coding_label()),
{
    assert(fec_coding_label()[2int] == 'c' && fec_coding_label()[2int + 1] == ' ');
    lemma_pair_not_in_int_line(cwb_label(), n, 'c', ' ');
    lemma_no_witness_pair(int_line(cwb_label(), n), fec_coding_label(), 2);
}

#[verifier::spinoff_prover]
proof fn nc_fec_coding_smoothing(n: int)
    ensures
        !contains_seq(int_line(smoothing_label(), n), fec_coding_label()),
{
    assert(fec_coding_label()[2int] == 'c' && fec_coding_label()[2int + 1] == ' ');
    lemma_pair_not_in_int_line(smoothing_label(), n, 'c', ' ');
    lemma_no_witness_pair(int_line(smoothing_label(), n), fec_coding_label(), 2);
}

#[verifier::spinoff_prover]
proof fn nc_fec_coding_not_sounding(n: int)
    ensures
        !contains_seq(int_line(not_sounding_label(), n), fec_coding_label()),
{
    assert(fec_coding_label()[2int] == 'c' && fec_coding_label()[2int + 1] == ' ');
    lemma_pair_not_in_int_line(not_sounding_label(), n, 'c', ' ');
    lemma_no_witness_pair(int_line(not_sounding_label(), n), fec_coding_label(), 2);
}

#[verifier::spinoff_prover]
proof fn nc_fec_coding_aggregation(n: int)
    ensures
        !contains_seq(int_line(aggregation_label(), n), fec_coding_label()),
{
    assert(fec_coding_label()[2int] == 'c' && fec_coding_label()[2int + 1] == ' ');
    lemma_pair_not_in_int_line(aggregation_label(), n, 'c', ' ');
    lemma_no_witness_pair(int_line(aggregation_label(), n), fec_coding_label(), 2);
}

#[verifier::spinoff_prover]
proof fn nc_fec_coding_stbc(n: int)
    ensures
        !contains_seq(int_line(stbc_label(), n), fec_coding_label()),
{
    assert(fec_coding_label()[2int] == 'c' && fec_coding_label()[2int + 1] == ' ');
    lemma_pair_not_in_int_line(stbc_label(), n, 'c', ' ');
    lemma_no_witness_pair(int_line(stbc_label(), n), fec_coding_label(), 2);
}

#[verifier::spinoff_prover]
proof fn nc_data_length_rssi(n: int)
    ensures
        !contains_seq(int_line(rssi_label(), n), data_length_label()),
{
    assert(data_length_label()[3int] == 'a' && data_length_label()[3int + 1] == ' ');
    lemma_pair_not_in_int_line(rssi_label(), n, 'a', ' ');
    lemma_no_witness_pair(int_line(rssi_label(), n), data_length_label(), 3);
}

#[verifier::spinoff_prover]
proof fn nc_data_length_rate(n: int)
    ensures
        !contains_seq(int_line(rate_label(), n), data_length_label()),
{
    assert(data_length_label()[3int] == 'a' && data_length_label()[3int + 1] == ' ');
    lemma_pair_not_in_int_line(rate_label(), n, 'a', ' ');
    lemma_no_witness_pair(int_line(rate_label(), n), data_length_label(), 3);
}

#[verifier::spinoff_prover]
proof fn nc_data_length_noise_floor(n: int)
    ensures
        !contains_seq(int_line(noise_floor_label(), n), data_length_label()),
{
    assert(data_length_label()[3int] == 'a' && data_length_label()[3int + 1] == ' ');
    lemma_pair_not_in_int_line(noise_floor_label(), n, 'a', ' ');
    lemma_no_witness_pair(int_line(noise_floor_label(), n), data_length_label(), 3);
}

#[verifier::spinoff_prover]
proof fn nc_data_length_channel(n: int)
    ensures
        !contains_seq(int_line(channel_label(), n), data_length_label()),
{
    assert(data_length_label()[3int] == 'a' && data_length_label()[3int + 1] == ' ');
    lemma_pair_not_in_int_line(channel_label(), n, 'a', ' ');
    lemma_no_witness_pair(int_line(channel_label(), n), data_length_label(), 3);
}

#[verifier::spinoff_prover]
proof fn nc_data_length_timestamp(n: int)
    ensures
        !contains_seq(int_line(timestamp_label(), n), data_length_label()),
{
    assert(data_length_label()[3int] == 'a' && data_length_label()[3int + 1] == ' ');
    lemma_pair_not_in_int_line(timestamp_label(), n, 'a', ' ');
    lemma_no_witness_pair(int_line(timestamp_label(), n), data_length_label(), 3);
}

#[verifier::spinoff_prover]
proof fn nc_data_length_sig_len(n: int)
    ensures
        !contains_seq(int_line(sig_len_label(), n), data_length_label()),
{
    assert(data_length_label()[3int] == 'a' && data_length_label()[3int + 1] == ' ');
    lemma_pair_not_in_int_line(sig_len_label(), n, 'a', ' ');
    lemma_no_witness_pair(int_line(sig_len_label(), n), data_length_label(), 3);
}

#[verifier::spinoff_prover]
proof fn nc_data_length_rx_state(n: int)
    ensures
        !contains_seq(int_line(rx_state_label(), n), data_length_label()),
{
    assert(data_length_label()[3int] == 'a' && data_length_label()[3int + 1] == ' ');
    lemma_pair_not_in_int_line(rx_state_label(), n, 'a', ' ');
    lemma_no_witness_pair(int_line(rx_state_label(), n), data_length_label(), 3);
}

#[verifier::spinoff_prover]
proof fn nc_data_length_secondary_channel(n: int)
    ensures
        !contains_seq(int_line(secondary_channel_label(), n), data_length_label()),
{
    assert(data_length_label()[3int] == 'a' && data_length_label()[3int + 1] == ' ');
    lemma_pair_not_in_int_line(secondary_channel_label(), n, 'a', ' ');
    lemma_no_witness_pair(int_line(secondary_channel_label(), n), data_length_label(), 3);
}

#[verifier::spinoff_prover]
proof fn nc_data_length_sgi(n: int)
    ensures
        !contains_seq(int_line(sgi_label(), n), data_length_label()),
{
    assert(data_length_label()[3int] == 'a' && data_length_label()[3int + 1] == ' ');
    lemma_pair_not_in_int_line(sgi_label(), n, 'a', ' ');
    lemma_no_witness_pair(int_line(sgi_label(), n), data_length_label(), 3);
}

#[verifier::spinoff_prover]
proof fn nc_data_length_ant(n: int)
    ensures
        !contains_seq(int_line(ant_label(), n), data_length_label()),
{
    assert(data_length_label()[3int] == 'a' && data_length_label()[3int + 1] == ' ');
    lemma_pair_not_in_int_line(ant_label(), n, 'a', ' ');
    lemma_no_witness_pair(int_line(ant_label(), n), data_length_label(), 3);
}

#[verifier::spinoff_prover]
proof fn nc_data_length_ampdu_cnt(n: int)
    ensures
        !contains_seq(int_line(ampdu_cnt_label(), n), data_length_label()),
{
    assert(data_length_label()[3int] == 'a' && data_length_label()[3int + 1] == ' ');
    lemma_pair_not_in_int_line(ampdu_cnt_label(), n, 'a', ' ');
    lemma_no_witness_pair(int_line(ampdu_cnt_label(), n), data_length_label(), 3);
}

#[verifier::spinoff_prover]
proof fn nc_data_length_sig_mode(n: int)
    ensures
        !contains_seq(int_line(sig_mode_label(), n), data_length_label()),
{
    assert(data_length_label()[3int] == 'a' && data_length_label()[3int + 1] == ' ');
    lemma_pair_not_in_int_line(sig_mode_label(), n, 'a', ' ');
    lemma_no_witness_pair(int_line(sig_mode_label(), n), data_length_label(), 3);
}

#[verifier::spinoff_prover]
proof fn nc_data_length_mcs(n: int)
    ensures
        !contains_seq(int_line(mcs_label(), n), data_length_label()),
{
    assert(data_length_label()[3int] == 'a' && data_length_label()[3int + 1] == ' ');
    lemma_pair_not_in_int_line(mcs_label(), n, 'a', ' ');
    lemma_no_witness_pair(int_line(mcs_label(), n), data_length_label(), 3);
}

#[verifier::spinoff_prover]
proof fn nc_data_length_cwb(n: int)
    ensures
        !contains_seq(int_line(cwb_label(), n), data_length_label()),
{
    assert(data_length_label()[3int] == 'a' && data_length_label()[3int + 1] == ' ');
    lemma_pair_not_in_int_line(cwb_label(), n, 'a', ' ');
    lemma_no_witness_pair(int_line(cwb_label(), n), data_length_label(), 3);
}

#[verifier::spinoff_prover]
proof fn nc_data_length_smoothing(n: int)
    ensures
        !contains_seq(int_line(smoothing_label(), n), data_length_label()),
{
    assert(data_length_label()[3int] == 'a' && data_length_label()[3int + 1] == ' ');
    lemma_pair_not_in_int_line(smoothing_label(), n, 'a', ' ');
    lemma_no_witness_pair(int_line(smoothing_label(), n), data_length_label(), 3);
}

#[verifier::spinoff_prover]
proof fn nc_data_length_not_sounding(n: int)
    ensures
        !contains_seq(int_line(not_sounding_label(), n), data_length_label()),
{
    assert(data_length_label()[3int] == 'a' && data_length_label()[3int + 1] == ' ');
    lemma_pair_not_in_int_line(not_sounding_label(), n, 'a', ' ');
    lemma_no_witness_pair(int_line(not_sounding_label(), n), data_length_label(), 3);
}

#[verifier::spinoff_prover]
proof fn nc_data_length_aggregation(n: int)
    ensures
        !contains_seq(int_line(aggregation_label(), n), data_length_label()),
{
    assert(data_length_label()[3int] == 'a' && data_length_label()[3int + 1] == ' ');
    lemma_pair_not_in_int_line(aggregation_label(), n, 'a', ' ');
    lemma_no_witness_pair(int_line(aggregation_label(), n), data_length_label(), 3);
}

#[verifier::spinoff_prover]
proof fn nc_data_length_stbc(n: int)
    ensures
        !contains_seq(int_line(stbc_label(), n), data_length_label()),
{
    assert(data_length_label()[3int] == 'a' && data_length_label()[3int + 1] == ' ');
    lemma_pair_not_in_int_line(stbc_label(), n, 'a', ' ');
    lemma_no_witness_pair(int_line(stbc_label(), n), data_length_label(), 3);
}

#[verifier::spinoff_prover]
proof fn nc_data_length_fec_coding(n: int)
    ensures
        !contains_seq(int_line(fec_coding_label(), n), data_length_label()),
{
    assert(data_length_label()[3int] == 'a' && data_length_label()[3int + 1] == ' ');
    lemma_pair_not_in_int_line(fec_coding_label(), n, 'a', ' ');
    lemma_no_witness_pair(int_line(fec_coding_label(), n), data_length_label(), 3);
}

#[verifier::spinoff_prover]
proof fn lemma_field_rssi(v: CSIPacketV)
    requires
        packet_wf(v),
    ensures
        field_sint_lines(render_lines_spec(v), rssi_label(), -0x8000_0000, 0x7fff_ffff) == Some(v.rssi),
{
    lemma_render_lines_index(v);
    let ls = render_lines_spec(v);
    let lab = rssi_label();
    nc_mac_rssi(v.mac);
    assert(forall|j: int| 0 <= j < 1 ==> !contains_seq(#[trigger] ls[j], lab));
    lemma_line_contains_own_label(lab, v.rssi);
    lemma_first_line_at(ls, lab, 1);
    colon_facts_rssi();
    lemma_field_sint_value(ls, lab, 1, v.rssi, -0x8000_0000, 0x7fff_ffff);
}

#[verifier::spinoff_prover]
proof fn lemma_field_rate(v: CSIPacketV)
    requires
        packet_wf(v),
    ensures
        field_uint_lines(render_lines_spec(v), rate_label(), 255) == Some(v.rate),
{
    lemma_render_lines_index(v);
    let ls = render_lines_spec(v);
    let lab = rate_label();
    nc_mac_rate(v.mac);
    nc_rate_rssi(v.rssi);
    assert(forall|j: int| 0 <= j < 2 ==> !contains_seq(#[trigger] ls[j], lab));
    lemma_line_contains_own_label(lab, v.rate);
    lemma_first_line_at(ls, lab, 2);
    colon_facts_rate();
    lemma_field_uint_value(ls, lab, 2, v.rate, 255);
}

#[verifier::spinoff_prover]
proof fn lemma_field_noise_floor(v: CSIPacketV)
    requires
        packet_wf(v),
    ensures
        field_sint_lines(render_lines_spec(v), noise_floor_label(), -0x8000_0000, 0x7fff_ffff) == Some(v.noise_floor),
{
    lemma_render_lines_index(v);
    let ls = render_lines_spec(v);
    let lab = noise_floor_label();
    nc_mac_noise_floor(v.mac);
    nc_noise_floor_rssi(v.rssi);
    nc_noise_floor_rate(v.rate);
    assert(forall|j: int| 0 <= j < 3 ==> !contains_seq(#[trigger] ls[j], lab));
    lemma_line_contains_own_label(lab, v.noise_floor);
    lemma_first_line_at(ls, lab, 3);
    colon_facts_noise_floor();
    lemma_field_sint_value(ls, lab, 3, v.noise_floor, -0x8000_0000, 0x7fff_ffff);
}

#[verifier::spinoff_prover]
proof fn lemma_field_channel(v: CSIPacketV)
    requires
        packet_wf(v),
    ensures
        field_uint_lines(render_lines_spec(v), channel_label(), 255) == Some(v.channel),
{
    lemma_render_lines_index(v);
    let ls = render_lines_spec(v);
    let lab = channel_label();
    nc_mac_channel(v.mac);
    nc_channel_rssi(v.rssi);
    nc_channel_rate(v.rate);
    nc_channel_noise_floor(v.noise_floor);
    assert(forall|j: int| 0 <= j < 4 ==> !contains_seq(#[trigger] ls[j], lab));
    lemma_line_contains_own_label(lab, v.channel);
    lemma_first_line_at(ls, lab, 4);
    colon_facts_channel();
    lemma_field_uint_value(ls, lab, 4, v.channel, 255);
}

#[verifier::spinoff_prover]
proof fn lemma_field_timestamp(v: CSIPacketV)
    requires
        packet_wf(v),
    ensures
        field_uint_lines(render_lines_spec(v), timestamp_label(), 0xffff_ffff_ffff_ffff) == Some(v.timestamp),
{
    lemma_render_lines_index(v);
    let ls = render_lines_spec(v);
    let lab = timestamp_label();
    nc_mac_timestamp(v.mac);
    nc_timestamp_rssi(v.rssi);
    nc_timestamp_rate(v.rate);
    nc_timestamp_noise_floor(v.noise_floor);
    nc_timestamp_channel(v.channel);
    assert(forall|j: int| 0 <= j < 5 ==> !contains_seq(#[trigger] ls[j], lab));
    lemma_line_contains_own_label(lab, v.timestamp);
    lemma_first_line_at(ls, lab, 5);
    colon_facts_timestamp();
    lemma_field_uint_value(ls, lab, 5, v.timestamp, 0xffff_ffff_ffff_ffff);
}

#[verifier::spinoff_prover]
proof fn lemma_field_sig_len(v: CSIPacketV)
    requires
        packet_wf(v),
    ensures
        field_uint_lines(render_lines_spec(v), sig_len_label(), 65535) == Some(v.sig_len),
{
    lemma_render_lines_index(v);
    let ls = render_lines_spec(v);
    let lab = sig_len_label();
    nc_mac_sig_len(v.mac);
    nc_sig_len_rssi(v.rssi);
    nc_sig_len_rate(v.rate);
    nc_sig_len_noise_floor(v.noise_floor);
    nc_sig_len_channel(v.channel);
    nc_sig_len_timestamp(v.timestamp);
    assert(forall|j: int| 0 <= j < 6 ==> !contains_seq(#[trigger] ls[j], lab));
    lemma_line_contains_own_label(lab, v.sig_len);
    lemma_first_line_at(ls, lab, 6);
    colon_facts_sig_len();
    lemma_field_uint_value(ls, lab, 6, v.sig_len, 65535);
}

#[verifier::spinoff_prover]
proof fn lemma_field_rx_state(v: CSIPacketV)
    requires
        packet_wf(v),
    ensures
        field_uint_lines(render_lines_spec(v), rx_state_label(), 255) == Some(v.rx_state),
{
    lemma_render_lines_index(v);
    let ls = render_lines_spec(v);
    let lab = rx_state_label();
    nc_mac_rx_state(v.mac);
    nc_rx_state_rssi(v.rssi);
    nc_rx_state_rate(v.rate);
    nc_rx_state_noise_floor(v.noise_floor);
    nc_rx_state_channel(v.channel);
    nc_rx_state_timestamp(v.timestamp);
    nc_rx_state_sig_len(v.sig_len);
    assert(forall|j: int| 0 <= j < 7 ==> !contains_seq(#[trigger] ls[j], lab));
    lemma_line_contains_own_label(lab, v.rx_state);
    lemma_first_line_at(ls, lab, 7);
    colon_facts_rx_state();
    lemma_field_uint_value(ls, lab, 7, v.rx_state, 255);
}

#[verifier::spinoff_prover]
proof fn lemma_field_secondary_channel(v: CSIPacketV)
    requires
        packet_wf(v),
    ensures
        field_uint_lines(render_lines_spec(v), secondary_channel_label(), 255) == Some(v.secondary_channel),
{
    lemma_render_lines_index(v);
    let ls = render_lines_spec(v);
    let lab = secondary_channel_label();
    nc_mac_secondary_channel(v.mac);
    nc_secondary_channel_rssi(v.rssi);
    nc_secondary_channel_rate(v.rate);
    nc_secondary_channel_noise_floor(v.noise_floor);
    nc_secondary_channel_channel(v.channel);
    nc_secondary_channel_timestamp(v.timestamp);
    nc_secondary_channel_sig_len(v.sig_len);
    nc_secondary_channel_rx_state(v.rx_state);
    assert(forall|j: int| 0 <= j < 8 ==> !contains_seq(#[trigger] ls[j], lab));
    lemma_line_contains_own_label(lab, v.secondary_channel);
    lemma_first_line_at(ls, lab, 8);
    colon_facts_secondary_channel();
    lemma_field_uint_value(ls, lab, 8, v.secondary_channel, 255);
}

#[verifier::spinoff_prover]
proof fn lemma_field_sgi(v: CSIPacketV)
    requires
        packet_wf(v),
    ensures
        field_uint_lines(render_lines_spec(v), sgi_label(), 255) == Some(v.sgi),
{
    lemma_render_lines_index(v);
    let ls = render_lines_spec(v);
    let lab = sgi_label();
    nc_mac_sgi(v.mac);
    nc_sgi_rssi(v.rssi);
    nc_sgi_rate(v.rate);
    nc_sgi_noise_floor(v.noise_floor);
    nc_sgi_channel(v.channel);
    nc_sgi_timestamp(v.timestamp);
    nc_sgi_sig_len(v.sig_len);
    nc_sgi_rx_state(v.rx_state);
    nc_sgi_secondary_channel(v.secondary_channel);
    assert(forall|j: int| 0 <= j < 9 ==> !contains_seq(#[trigger] ls[j], lab));
    lemma_line_contains_own_label(lab, v.sgi);
    lemma_first_line_at(ls, lab, 9);
    colon_facts_sgi();
    lemma_field_uint_value(ls, lab, 9, v.sgi, 255);
}

#[verifier::spinoff_prover]
proof fn lemma_field_ant(v: CSIPacketV)
    requires
        packet_wf(v),
    ensures
        field_uint_lines(render_lines_spec(v), ant_label(), 255) == Some(v.ant),
{
    lemma_render_lines_index(v);
    let ls = render_lines_spec(v);
    let lab = ant_label();
    nc_mac_ant(v.mac);
    nc_ant_rssi(v.rssi);
    nc_ant_rate(v.rate);
    nc_ant_noise_floor(v.noise_floor);
    nc_ant_channel(v.channel);
    nc_ant_timestamp(v.timestamp);
    nc_ant_sig_len(v.sig_len);
    nc_ant_rx_state(v.rx_state);
    nc_ant_secondary_channel(v.secondary_channel);
    nc_ant_sgi(v.sgi);
    assert(forall|j: int| 0 <= j < 10 ==> !contains_seq(#[trigger] ls[j], lab));
    lemma_line_contains_own_label(lab, v.ant);
    lemma_first_line_at(ls, lab, 10);
    colon_facts_ant();
    lemma_field_uint_value(ls, lab, 10, v.ant, 255);
}

#[verifier::spinoff_prover]
proof fn lemma_field_ampdu_cnt(v: CSIPacketV)
    requires
        packet_wf(v),
    ensures
        field_uint_lines(render_lines_spec(v), ampdu_cnt_label(), 255) == Some(v.ampdu_cnt),
{
    lemma_render_lines_index(v);
    let ls = render_lines_spec(v);
    let lab = ampdu_cnt_label();
    nc_mac_ampdu_cnt(v.mac);
    nc_ampdu_cnt_rssi(v.rssi);
    nc_ampdu_cnt_rate(v.rate);
    nc_ampdu_cnt_noise_floor(v.noise_floor);
    nc_ampdu_cnt_channel(v.channel);
    nc_ampdu_cnt_timestamp(v.timestamp);
    nc_ampdu_cnt_sig_len(v.sig_len);
    nc_ampdu_cnt_rx_state(v.rx_state);
    nc_ampdu_cnt_secondary_channel(v.secondary_channel);
    nc_ampdu_cnt_sgi(v.sgi);
    nc_ampdu_cnt_ant(v.ant);
    assert(forall|j: int| 0 <= j < 11 ==> !contains_seq(#[trigger] ls[j], lab));
    lemma_line_contains_own_label(lab, v.ampdu_cnt);
    lemma_first_line_at(ls, lab, 11);
    colon_facts_ampdu_cnt();
    lemma_field_uint_value(ls, lab, 11, v.ampdu_cnt, 255);
}

#[verifier::spinoff_prover]
proof fn lemma_field_sig_mode(v: CSIPacketV)
    requires
        packet_wf(v),
    ensures
        field_uint_lines(render_lines_spec(v), sig_mode_label(), 255) == Some(v.sig_mode),
{
    lemma_render_lines_index(v);
    let ls = render_lines_spec(v);
    let lab = sig_mode_label();
    nc_mac_sig_mode(v.mac);
    nc_sig_mode_rssi(v.rssi);
    nc_sig_mode_rate(v.rate);
    nc_sig_mode_noise_floor(v.noise_floor);
    nc_sig_mode_channel(v.channel);
    nc_sig_mode_timestamp(v.timestamp);
    nc_sig_mode_sig_len(v.sig_len);
    nc_sig_mode_rx_state(v.rx_state);
    nc_sig_mode_secondary_channel(v.secondary_channel);
    nc_sig_mode_sgi(v.sgi);
    nc_sig_mode_ant(v.ant);
    nc_sig_mode_ampdu_cnt(v.ampdu_cnt);
    assert(forall|j: int| 0 <= j < 12 ==> !contains_seq(#[trigger] ls[j], lab));
    lemma_line_contains_own_label(lab, v.sig_mode);
    lemma_first_line_at(ls, lab, 12);
    colon_facts_sig_mode();
    lemma_field_uint_value(ls, lab, 12, v.sig_mode, 255);
}

#[verifier::spinoff_prover]
proof fn lemma_field_mcs(v: CSIPacketV)
    requires
        packet_wf(v),
    ensures
        field_uint_lines(render_lines_spec(v), mcs_label(), 255) == Some(v.mcs),
{
    lemma_render_lines_index(v);
    let ls = render_lines_spec(v);
    let lab = mcs_label();
    nc_mac_mcs(v.mac);
    nc_mcs_rssi(v.rssi);
    nc_mcs_rate(v.rate);
    nc_mcs_noise_floor(v.noise_floor);
    nc_mcs_channel(v.channel);
    nc_mcs_timestamp(v.timestamp);
    nc_mcs_sig_len(v.sig_len);
    nc_mcs_rx_state(v.rx_state);
    nc_mcs_secondary_channel(v.secondary_channel);
    nc_mcs_sgi(v.sgi);
    nc_mcs_ant(v.ant);
    nc_mcs_ampdu_cnt(v.ampdu_cnt);
    nc_mcs_sig_mode(v.sig_mode);
    assert(forall|j: int| 0 <= j < 13 ==> !contains_seq(#[trigger] ls[j], lab));
    lemma_line_contains_own_label(lab, v.mcs);
    lemma_first_line_at(ls, lab, 13);
    colon_facts_mcs();
    lemma_field_uint_value(ls, lab, 13, v.mcs, 255);
}

#[verifier::spinoff_prover]
proof fn lemma_field_cwb(v: CSIPacketV)
    requires
        packet_wf(v),
    ensures
        field_uint_lines(render_lines_spec(v), cwb_label(), 255) == Some(v.cwb),
{
    lemma_render_lines_index(v);
    let ls = render_lines_spec(v);
    let lab = cwb_label();
    nc_mac_cwb(v.mac);
    nc_cwb_rssi(v.rssi);
    nc_cwb_rate(v.rate);
    nc_cwb_noise_floor(v.noise_floor);
    nc_cwb_channel(v.channel);
    nc_cwb_timestamp(v.timestamp);
    nc_cwb_sig_len(v.sig_len);
    nc_cwb_rx_state(v.rx_state);
    nc_cwb_secondary_channel(v.secondary_channel);
    nc_cwb_sgi(v.sgi);
    nc_cwb_ant(v.ant);
    nc_cwb_ampdu_cnt(v.ampdu_cnt);
    nc_cwb_sig_mode(v.sig_mode);
    nc_cwb_mcs(v.mcs);
    assert(forall|j: int| 0 <= j < 14 ==> !contains_seq(#[trigger] ls[j], lab));
    lemma_line_contains_own_label(lab, v.cwb);
    lemma_first_line_at(ls, lab, 14);
    colon_facts_cwb();
    lemma_field_uint_value(ls, lab, 14, v.cwb, 255);
}

#[verifier::spinoff_prover]
proof fn lemma_field_smoothing(v: CSIPacketV)
    requires
        packet_wf(v),
    ensures
        field_uint_lines(render_lines_spec(v), smoothing_label(), 255) == Some(v.smoothing),
{
    lemma_render_lines_index(v);
    let ls = render_lines_spec(v);
    let lab = smoothing_label();
    nc_mac_smoothing(v.mac);
    nc_smoothing_rssi(v.rssi);
    nc_smoothing_rate(v.rate);
    nc_smoothing_noise_floor(v.noise_floor);
    nc_smoothing_channel(v.channel);
    nc_smoothing_timestamp(v.timestamp);
    nc_smoothing_sig_len(v.sig_len);
    nc_smoothing_rx_state(v.rx_state);
    nc_smoothing_secondary_channel(v.secondary_channel);
    nc_smoothing_sgi(v.sgi);
    nc_smoothing_ant(v.ant);
    nc_smoothing_ampdu_cnt(v.ampdu_cnt);
    nc_smoothing_sig_mode(v.sig_mode);
    nc_smoothing_mcs(v.mcs);
    nc_smoothing_cwb(v.cwb);
    assert(forall|j: int| 0 <= j < 15 ==> !contains_seq(#[trigger] ls[j], lab));
    lemma_line_contains_own_label(lab, v.smoothing);
    lemma_first_line_at(ls, lab, 15);
    colon_facts_smoothing();
    lemma_field_uint_value(ls, lab, 15, v.smoothing, 255);
}

#[verifier::spinoff_prover]
proof fn lemma_field_not_sounding(v: CSIPacketV)
    requires
        packet_wf(v),
    ensures
        field_uint_lines(render_lines_spec(v), not_sounding_label(), 255) == Some(v.not_sounding),
{
    lemma_render_lines_index(v);
    let ls = render_lines_spec(v);
    let lab = not_sounding_label();
    nc_mac_not_sounding(v.mac);
    nc_not_sounding_rssi(v.rssi);
    nc_not_sounding_rate(v.rate);
    nc_not_sounding_noise_floor(v.noise_floor);
    nc_not_sounding_channel(v.channel);
    nc_not_sounding_timestamp(v.timestamp);
    nc_not_sounding_sig_len(v.sig_len);
    nc_not_sounding_rx_state(v.rx_state);
    nc_not_sounding_secondary_channel(v.secondary_channel);
    nc_not_sounding_sgi(v.sgi);
    nc_not_sounding_ant(v.ant);
    nc_not_sounding_ampdu_cnt(v.ampdu_cnt);
    nc_not_sounding_sig_mode(v.sig_mode);
    nc_not_sounding_mcs(v.mcs);
    nc_not_sounding_cwb(v.cwb);
    nc_not_sounding_smoothing(v.smoothing);
    assert(forall|j: int| 0 <= j < 16 ==> !contains_seq(#[trigger] ls[j], lab));
    lemma_line_contains_own_label(lab, v.not_sounding);
    lemma_first_line_at(ls, lab, 16);
    colon_facts_not_sounding();
    lemma_field_uint_value(ls, lab, 16, v.not_sounding, 255);
}

#[verifier::spinoff_prover]
proof fn lemma_field_aggregation(v: CSIPacketV)
    requires
        packet_wf(v),
    ensures
        field_uint_lines(render_lines_spec(v), aggregation_label(), 255) == Some(v.aggregation),
{
    lemma_render_lines_index(v);
    let ls = render_lines_spec(v);
    let lab = aggregation_label();
    nc_mac_aggregation(v.mac);
    nc_aggregation_rssi(v.rssi);
    nc_aggregation_rate(v.rate);
    nc_aggregation_noise_floor(v.noise_floor);
    nc_aggregation_channel(v.channel);
    nc_aggregation_timestamp(v.timestamp);
    nc_aggregation_sig_len(v.sig_len);
    nc_aggregation_rx_state(v.rx_state);
    nc_aggregation_secondary_channel(v.secondary_channel);
    nc_aggregation_sgi(v.sgi);
    nc_aggregation_ant(v.ant);
    nc_aggregation_ampdu_cnt(v.ampdu_cnt);
    nc_aggregation_sig_mode(v.sig_mode);
    nc_aggregation_mcs(v.mcs);
    nc_aggregation_cwb(v.cwb);
    nc_aggregation_smoothing(v.smoothing);
    nc_aggregation_not_sounding(v.not_sounding);
    assert(forall|j: int| 0 <= j < 17 ==> !contains_seq(#[trigger] ls[j], lab));
    lemma_line_contains_own_label(lab, v.aggregation);
    lemma_first_line_at(ls, lab, 17);
    colon_facts_aggregation();
    lemma_field_uint_value(ls, lab, 17, v.aggregation, 255);
}

#[verifier::spinoff_prover]
proof fn lemma_field_stbc(v: CSIPacketV)
    requires
        packet_wf(v),
    ensures
        field_uint_lines(render_lines_spec(v), stbc_label(), 255) == Some(v.stbc),
{
    lemma_render_lines_index(v);
    let ls = render_lines_spec(v);
    let lab = stbc_label();
    nc_mac_stbc(v.mac);
    nc_stbc_rssi(v.rssi);
    nc_stbc_rate(v.rate);
    nc_stbc_noise_floor(v.noise_floor);
    nc_stbc_channel(v.channel);
    nc_stbc_timestamp(v.timestamp);
    nc_stbc_sig_len(v.sig_len);
    nc_stbc_rx_state(v.rx_state);
    nc_stbc_secondary_channel(v.secondary_channel);
    nc_stbc_sgi(v.sgi);
    nc_stbc_ant(v.ant);
    nc_stbc_ampdu_cnt(v.ampdu_cnt);
    nc_stbc_sig_mode(v.sig_mode);
    nc_stbc_mcs(v.mcs);
    nc_stbc_cwb(v.cwb);
    nc_stbc_smoothing(v.smoothing);
    nc_stbc_not_sounding(v.not_sounding);
    nc_stbc_aggregation(v.aggregation);
    assert(forall|j: int| 0 <= j < 18 ==> !contains_seq(#[trigger] ls[j], lab));
    lemma_line_contains_own_label(lab, v.stbc);
    lemma_first_line_at(ls, lab, 18);
    colon_facts_stbc();
    lemma_field_uint_value(ls, lab, 18, v.stbc, 255);
}

#[verifier::spinoff_prover]
proof fn lemma_field_fec_coding(v: CSIPacketV)
    requires
        packet_wf(v),
    ensures
        field_uint_lines(render_lines_spec(v), fec_coding_label(), 255) == Some(v.fec_coding),
{
    lemma_render_lines_index(v);
    let ls = render_lines_spec(v);
    let lab = fec_coding_label();
    nc_mac_fec_coding(v.mac);
    nc_fec_coding_rssi(v.rssi);
    nc_fec_coding_rate(v.rate);
    nc_fec_coding_noise_floor(v.noise_floor);
    nc_fec_coding_channel(v.channel);
    nc_fec_coding_timestamp(v.timestamp);
    nc_fec_coding_sig_len(v.sig_len);
    nc_fec_coding_rx_state(v.rx_state);
    nc_fec_coding_secondary_channel(v.secondary_channel);
    nc_fec_coding_sgi(v.sgi);
    nc_fec_coding_ant(v.ant);
    nc_fec_coding_ampdu_cnt(v.ampdu_cnt);
    nc_fec_coding_sig_mode(v.sig_mode);
    nc_fec_coding_mcs(v.mcs);
    nc_fec_coding_cwb(v.cwb);
    nc_fec_coding_smoothing(v.smoothing);
    nc_fec_coding_not_sounding(v.not_sounding);
    nc_fec_coding_aggregation(v.aggregation);
    nc_fec_coding_stbc(v.stbc);
    assert(forall|j: int| 0 <= j < 19 ==> !contains_seq(#[trigger] ls[j], lab));
    lemma_line_contains_own_label(lab, v.fec_coding);
    lemma_first_line_at(ls, lab, 19);
    colon_facts_fec_coding();
    lemma_field_uint_value(ls, lab, 19, v.fec_coding, 255);
}

#[verifier::spinoff_prover]
proof fn lemma_field_data_length(v: CSIPacketV)
    requires
        packet_wf(v),
    ensures
        field_uint_lines(render_lines_spec(v), data_length_label(), 65535) == Some(v.data_length),
{
    lemma_render_lines_index(v);
    let ls = render_lines_spec(v);
    let lab = data_length_label();
    nc_mac_data_length(v.mac);
    nc_data_length_rssi(v.rssi);
    nc_data_length_rate(v.rate);
    nc_data_length_noise_floor(v.noise_floor);
    nc_data_length_channel(v.channel);
    nc_data_length_timestamp(v.timestamp);
    nc_data_length_sig_len(v.sig_len);
    nc_data_length_rx_state(v.rx_state);
    nc_data_length_secondary_channel(v.secondary_channel);
    nc_data_length_sgi(v.sgi);
    nc_data_length_ant(v.ant);
    nc_data_length_ampdu_cnt(v.ampdu_cnt);
    nc_data_length_sig_mode(v.sig_mode);
    nc_data_length_mcs(v.mcs);
    nc_data_length_cwb(v.cwb);
    nc_data_length_smoothing(v.smoothing);
    nc_data_length_not_sounding(v.not_sounding);
    nc_data_length_aggregation(v.aggregation);
    nc_data_length_stbc(v.stbc);
    nc_data_length_fec_coding(v.fec_coding);
    assert(forall|j: int| 0 <= j < 20 ==> !contains_seq(#[trigger] ls[j], lab));
    lemma_line_contains_own_label(lab, v.data_length);
    lemma_first_line_at(ls, lab, 20);
    colon_facts_data_length();
    lemma_field_uint_value(ls, lab, 20, v.data_length, 65535);
}


// ---------------------------------------------------------------------------
// Round trip: the payload line
// ---------------------------------------------------------------------------

/// The first selected line is the known one, given that no earlier
/// line is selected.
proof fn lemma_first_csi_at(lines: Seq<Seq<char>>, k: int)
    requires
        0 <= k < lines.len(),
        csi_line_selected(lines[k]),
        forall|j: int| 0 <= j < k ==> !csi_line_selected(#[trigger] lines[j]),
    ensures
        first_csi_line(lines) == Some(lines[k]),
    decreases k,
{
    if k == 0 {
    } else {
        assert(!csi_line_selected(lines[0]));
        assert(forall|j: int|
            0 <= j < lines.skip(1).len() ==> #[trigger] lines.skip(1)[j] == lines[j + 1]);
        lemma_first_csi_at(lines.skip(1), k - 1);
    }
}

/// No line before the payload line is selected: each starts with a
/// letter, never a bracket.
#[verifier::spinoff_prover]
proof fn lemma_not_selected_before_array(v: CSIPacketV)
    ensures
        forall|j: int| 0 <= j < 22 ==> !csi_line_selected(#[trigger] render_lines_spec(v)[j]),
{
    lemma_render_lines_index(v);
    let ls = render_lines_spec(v);
    assert forall|j: int| 0 <= j < 22 implies !csi_line_selected(#[trigger] ls[j]) by {
        if j == 0 {
            assert(ls[0][0] == 'm');
        } else if j == 21 {
            assert(ls[21][0] == 'c');
        } else {
            assert(ls[j] == int_line(line_label(j), line_value(v, j)));
            assert(int_line(line_label(j), line_value(v, j))[0] == line_label(j)[0]);
            assert(line_label(j)[0] != '[');
        }
    }
}

/// The rendered payload entries parse back to the values, entry by
/// entry.
proof fn lemma_parse_items_sp(d: Seq<int>)
    requires
        d.len() >= 1,
        forall|i: int|
            0 <= i < d.len() ==> -0x8000_0000 <= #[trigger] d[i] <= 0x7fff_ffff,
    ensures
        parsed_i32s(split_char_spec(seq![' '] + array_items(d), ',')) == d,
    decreases d.len(),
{
    lemma_fmt_int_chars(d[0]);
    lemma_fmt_int_tail_digits(d[0]);
    lemma_parse_fmt_int(d[0]);
    let f = fmt_int_spec(d[0]);
    let a = seq![' '] + f;
    assert(forall|i: int| 0 <= i < a.len() ==> #[trigger] a[i] != ',') by {
        assert(forall|i: int| 1 <= i < a.len() ==> a[i] == f[i - 1]);
    }
    assert(!is_space_char(a[1]));
    lemma_trim_start_skip(a, 1);
    assert(a.skip(1) =~= f);
    assert(!is_space_char(f.last()));
    lemma_trim_end_take(f, f.len() as int);
    assert(f.take(f.len() as int) =~= f);
    if d.len() == 1 {
        lemma_split_no_sep(a, ',');
        let parts = split_char_spec(a, ',');
        assert(parts == seq![a]);
        assert(parts.skip(1) =~= Seq::<Seq<char>>::empty());
        assert(parsed_i32s(Seq::<Seq<char>>::empty()) =~= Seq::<int>::empty());
        assert(parsed_i32s(parts) =~= d);
    } else {
        lemma_parse_items_sp(d.skip(1));
        assert(forall|i: int|
            0 <= i < d.skip(1).len() ==> #[trigger] d.skip(1)[i] == d[i + 1]);
        let rest = seq![' '] + array_items(d.skip(1));
        assert(seq![' '] + array_items(d) =~= a + seq![','] + rest);
        lemma_split_prepend(a, rest, ',');
        let parts = split_char_spec(a + seq![','] + rest, ',');
        assert(parts == seq![a] + split_char_spec(rest, ','));
        assert(parts[0] == a);
        assert(parts.skip(1) =~= split_char_spec(rest, ','));
        assert(parsed_i32s(parts) =~= seq![d[0]] + d.skip(1));
        assert(seq![d[0]] + d.skip(1) =~= d);
    }
}

/// The whole rendered payload parses back to the values.
proof fn lemma_parse_items(d: Seq<int>)
    requires
        d.len() >= 1,
        forall|i: int|
            0 <= i < d.len() ==> -0x8000_0000 <= #[trigger] d[i] <= 0x7fff_ffff,
    ensures
        parsed_i32s(split_char_spec(array_items(d), ',')) == d,
    decreases d.len(),
{
    lemma_fmt_int_chars(d[0]);
    lemma_fmt_int_tail_digits(d[0]);
    lemma_parse_fmt_int(d[0]);
    let f = fmt_int_spec(d[0]);
    assert(forall|i: int| 0 <= i < f.len() ==> #[trigger] f[i] != ',');
    assert(!is_space_char(f[0]));
    lemma_trim_start_skip(f, 0);
    assert(f.skip(0) =~= f);
    assert(!is_space_char(f.last()));
    lemma_trim_end_take(f, f.len() as int);
    assert(f.take(f.len() as int) =~= f);
    if d.len() == 1 {
        lemma_split_no_sep(f, ',');
        let parts = split_char_spec(f, ',');
        assert(parts == seq![f]);
        assert(parts.skip(1) =~= Seq::<Seq<char>>::empty());
        assert(parsed_i32s(Seq::<Seq<char>>::empty()) =~= Seq::<int>::empty());
        assert(parsed_i32s(parts) =~= d);
    } else {
        lemma_parse_items_sp(d.skip(1));
        assert(forall|i: int|
            0 <= i < d.skip(1).len() ==> #[trigger] d.skip(1)[i] == d[i + 1]);
        let rest = seq![' '] + array_items(d.skip(1));
        assert(array_items(d) =~= f + seq![','] + rest);
        lemma_split_prepend(f, rest, ',');
        let parts = split_char_spec(f + seq![','] + rest, ',');
        assert(parts == seq![f] + split_char_spec(rest, ','));
        assert(parts[0] == f);
        assert(parts.skip(1) =~= split_char_spec(rest, ','));
        assert(parsed_i32s(parts) =~= seq![d[0]] + d.skip(1));
        assert(seq![d[0]] + d.skip(1) =~= d);
    }
}

/// The rendered payload line is selected by its leading shape.
#[verifier::spinoff_prover]
proof fn lemma_array_line_selected(d: Seq<int>)
    requires
        d.len() >= 2,
        forall|i: int| 0 <= i < d.len() ==> -0x8000_0000 <= #[trigger] d[i] <= 0x7fff_ffff,
        d[0] < 0 || d[0] == 0,
    ensures
        csi_line_selected(array_line(d)),
{
    let l = array_line(d);
    let items = array_items(d);
    lemma_array_items_chars(d);
    lemma_fmt_int_tail_digits(d[0]);
    assert(items == fmt_int_spec(d[0]) + seq![','] + seq![' '] + array_items(d.skip(1)));
    assert(items[0] == fmt_int_spec(d[0])[0]);
    assert(l[0] == '[');
    assert(l[1] == items[0]);
    if d[0] < 0 {
        assert(fmt_int_spec(d[0])[0] == '-');
    } else {
        assert(fmt_int_spec(0) == fmt_nat_spec(0));
        assert(fmt_nat_spec(0) == seq![crate::text::digit_to_char(0)]);
        assert(crate::text::digit_to_char(0) == '0');
        assert(l[1] == '0');
        assert(fmt_int_spec(d[0]).len() == 1);
        assert(items[1] == ',');
        assert(l[2] == items[1]);
    }
}

/// The rendered payload line's values read back exactly: brackets
/// off, nothing to trim, every entry parsed.
#[verifier::spinoff_prover]
proof fn lemma_array_line_values(d: Seq<int>)
    requires
        d.len() >= 1,
        forall|i: int| 0 <= i < d.len() ==> -0x8000_0000 <= #[trigger] d[i] <= 0x7fff_ffff,
    ensures
        csi_values_spec(array_line(d)) == d,
{
    let l = array_line(d);
    let items = array_items(d);
    lemma_array_items_chars(d);
    assert(l.skip(1) =~= items + seq![']']);
    assert(!crate::parser::is_bracket(items[0]));
    lemma_strip_brackets_start_skip(l, 1);
    assert(strip_brackets(l) == crate::parser::strip_brackets_end(items + seq![']']));
    let ie = items + seq![']'];
    assert(forall|j: int|
        items.len() <= j < ie.len() ==> crate::parser::is_bracket(#[trigger] ie[j]));
    assert(!crate::parser::is_bracket(ie[items.len() - 1])) by {
        assert(ie[items.len() - 1] == items.last());
    }
    lemma_strip_brackets_end_take(ie, items.len() as int);
    assert(ie.take(items.len() as int) =~= items);
    assert(strip_brackets(l) == items);
    assert(!is_space_char(items[0]));
    lemma_trim_start_skip(items, 0);
    assert(items.skip(0) =~= items);
    assert(!is_space_char(items.last()));
    lemma_trim_end_take(items, items.len() as int);
    assert(items.take(items.len() as int) =~= items);
    assert(trim_spec(strip_brackets(l)) == items);
    lemma_parse_items(d);
}

/// CSI payload round trip: the payload line of a rendered block is
/// selected, no earlier line is, and its entries read back exactly.
#[verifier::spinoff_prover]
proof fn lemma_extract_csi_of_render(v: CSIPacketV)
    requires
        packet_wf(v),
    ensures
        extract_csi_spec(render_block_spec(v)) == Some(v.csi_data),
{
    let d = v.csi_data;
    let l = array_line(d);
    lemma_render_lines_round_trip(v);
    lemma_render_lines_index(v);
    lemma_not_selected_before_array(v);
    let ls = render_lines_spec(v);
    lemma_array_line_selected(d);
    lemma_first_csi_at(ls, 22);
    assert(first_csi_line(lines_spec(render_block_spec(v))) == Some(l));
    lemma_array_line_values(d);
    assert(csi_values_spec(l).len() == d.len());
}

// ---------------------------------------------------------------------------
// Round trip: the whole block
// ---------------------------------------------------------------------------

/// Round trip: a block rendered from any covered packet parses back
/// to exactly that packet — every metadata field, the MAC, and the
/// payload entries in order.
#[verifier::rlimit(100)]
#[verifier::spinoff_prover]
pub proof fn lemma_parse_render_round_trip(v: CSIPacketV)
    requires
        packet_wf(v),
    ensures
        parse_packet_spec(render_block_spec(v)) == Some(v),
{
    let s = render_block_spec(v);
    lemma_render_lines_round_trip(v);
    lemma_render_mac_round_trip(v);
    lemma_field_rssi(v);
    lemma_field_rate(v);
    lemma_field_noise_floor(v);
    lemma_field_channel(v);
    lemma_field_timestamp(v);
    lemma_field_sig_len(v);
    lemma_field_rx_state(v);
    lemma_field_secondary_channel(v);
    lemma_field_sgi(v);
    lemma_field_ant(v);
    lemma_field_ampdu_cnt(v);
    lemma_field_sig_mode(v);
    lemma_field_mcs(v);
    lemma_field_cwb(v);
    lemma_field_smoothing(v);
    lemma_field_not_sounding(v);
    lemma_field_aggregation(v);
    lemma_field_stbc(v);
    lemma_field_fec_coding(v);
    lemma_field_data_length(v);
    lemma_extract_csi_of_render(v);
    assert(lines_spec(s) == render_lines_spec(v));
    let r = parse_packet_spec(s);
    assert(r is Some);
    assert(r->Some_0 =~= v);
}

} // verus!
