//! The tolerant packet parser.  A block of device output text yields a
//! `CSIPacket` exactly when every mandatory field is present and well
//! formed; anything else yields no packet and no error.  Each field is
//! located by scanning the block's lines for its label substring and
//! reading the text after the first colon of that line.
use vstd::prelude::*;

use crate::packet::{CSIPacket, CSIPacketV};
use crate::text::{
    chars_of, contains_at, contains_pat, contains_seq, digit_char, find_char, find_first,
    is_digit_char, is_mac_char, is_space_char, lemma_find_first, lemma_parse_uint_nonneg,
    lemma_split_char_len, mac_char, space_char, parse_sint_range, parse_sint_spec, parse_uint_max,
    parse_uint_spec, split_char_spec, split_on_char, trim_chars, trim_spec,
};

verus! {

// ---------------------------------------------------------------------------
// Lines
// ---------------------------------------------------------------------------

/// One trailing carriage return removed, as `str::lines` does.
pub open spec fn strip_cr(l: Seq<char>) -> Seq<char> {
    if l.len() > 0 && l.last() == '\r' {
        l.drop_last()
    } else {
        l
    }
}

/// The lines of `s`, as `str::lines` yields them: split on newlines,
/// no empty tail for a trailing newline, carriage returns stripped.
pub open spec fn lines_spec(s: Seq<char>) -> Seq<Seq<char>> {
    if s.len() == 0 {
        Seq::empty()
    } else {
        let parts = split_char_spec(s, '\n');
        let kept = if s.last() == '\n' {
            parts.drop_last()
        } else {
            parts
        };
        kept.map_values(|l: Seq<char>| strip_cr(l))
    }
}

fn copy_chars(v: &Vec<char>) -> (r: Vec<char>)
    ensures
        r@ == v@,
{
    let mut r: Vec<char> = Vec::new();
    let mut i: usize = 0;
    while i < v.len()
        invariant
            i <= v@.len(),
            r@ == v@.subrange(0, i as int),
        decreases v.len() - i,
    {
        r.push(v[i]);
        i = i + 1;
        proof {
            assert(r@ =~= v@.subrange(0, i as int));
        }
    }
    proof {
        assert(r@ =~= v@);
    }
    r
}

/// Splits `v` into its lines, matching `lines_spec` piecewise.
pub fn split_lines(v: &Vec<char>) -> (r: Vec<Vec<char>>)
    ensures
        r@.len() == lines_spec(v@).len(),
        forall|i: int| 0 <= i < r@.len() ==> r@[i]@ == lines_spec(v@)[i],
{
    if v.len() == 0 {
        let r: Vec<Vec<char>> = Vec::new();
        return r;
    }
    let parts = split_on_char(v, '\n');
    proof {
        lemma_split_char_len(v@, '\n');
    }
    let keep: usize = if v[v.len() - 1] == '\n' {
        parts.len() - 1
    } else {
        parts.len()
    };
    let ghost kept = if v@.last() == '\n' {
        split_char_spec(v@, '\n').drop_last()
    } else {
        split_char_spec(v@, '\n')
    };
    let mut r: Vec<Vec<char>> = Vec::new();
    let mut i: usize = 0;
    while i < keep
        invariant
            i <= keep,
            keep <= parts@.len(),
            parts@.len() == split_char_spec(v@, '\n').len(),
            forall|j: int| 0 <= j < parts@.len() ==> parts@[j]@ == split_char_spec(v@, '\n')[j],
            kept.len() == keep,
            forall|j: int| 0 <= j < keep ==> kept[j] == split_char_spec(v@, '\n')[j],
            r@.len() == i,
            forall|j: int| 0 <= j < i ==> r@[j]@ == strip_cr(kept[j]),
        decreases keep - i,
    {
        let mut l = copy_chars(&parts[i]);
        if l.len() > 0 && l[l.len() - 1] == '\r' {
            let _ = l.pop();
        }
        proof {
            assert(l@ == strip_cr(kept[i as int]));
        }
        r.push(l);
        i = i + 1;
    }
    proof {
        assert(lines_spec(v@) == kept.map_values(|l: Seq<char>| strip_cr(l)));
        assert(forall|j: int|
            0 <= j < keep ==> kept.map_values(|l: Seq<char>| strip_cr(l))[j] == strip_cr(
                #[trigger] kept[j],
            ));
    }
    r
}

// ---------------------------------------------------------------------------
// Field location
// ---------------------------------------------------------------------------

/// The first line that holds `lab` as a substring.
pub open spec fn first_line_containing(lines: Seq<Seq<char>>, lab: Seq<char>) -> Option<Seq<char>>
    decreases lines.len(),
{
    if lines.len() == 0 {
        None
    } else if contains_seq(lines[0], lab) {
        Some(lines[0])
    } else {
        first_line_containing(lines.skip(1), lab)
    }
}

/// What `split(':').nth(1)` yields: the text between the first colon
/// and the second colon or the end of the line.
pub open spec fn second_colon_segment(l: Seq<char>) -> Option<Seq<char>> {
    match find_first(l, ':') {
        None => None,
        Some(i) => {
            let rest = l.skip(i + 1);
            match find_first(rest, ':') {
                None => Some(rest),
                Some(j) => Some(rest.subrange(0, j)),
            }
        },
    }
}

/// The trimmed value of the field labelled `lab` among `lines`.
pub open spec fn field_value_lines(lines: Seq<Seq<char>>, lab: Seq<char>) -> Option<Seq<char>> {
    match first_line_containing(lines, lab) {
        None => None,
        Some(l) => match second_colon_segment(l) {
            None => None,
            Some(seg) => Some(trim_spec(seg)),
        },
    }
}

/// An unsigned field value within `0..=max`, as the original device
/// format carries it; out-of-range or malformed text gives `None`.
pub open spec fn field_uint_lines(lines: Seq<Seq<char>>, lab: Seq<char>, max: int) -> Option<int> {
    match field_value_lines(lines, lab) {
        None => None,
        Some(w) => match parse_uint_spec(w) {
            None => None,
            Some(n) => if 0 <= n <= max {
                Some(n)
            } else {
                None
            },
        },
    }
}

/// A signed field value within `min..=max`.
pub open spec fn field_sint_lines(lines: Seq<Seq<char>>, lab: Seq<char>, min: int, max: int) -> Option<
    int,
> {
    match field_value_lines(lines, lab) {
        None => None,
        Some(w) => match parse_sint_spec(w) {
            None => None,
            Some(n) => if min <= n <= max {
                Some(n)
            } else {
                None
            },
        },
    }
}

/// Index of the first line containing `lab`, if any.
fn find_line_with(lines: &Vec<Vec<char>>, lab: &Vec<char>) -> (r: Option<usize>)
    ensures
        ({
            let lv = lines@.map_values(|x: Vec<char>| x@);
            match r {
                Some(i) => i < lines@.len() && first_line_containing(lv, lab@) == Some(lv[i as int]),
                None => first_line_containing(lv, lab@) is None,
            }
        }),
{
    let ghost lv = lines@.map_values(|x: Vec<char>| x@);
    proof {
        assert(lv.skip(0) =~= lv);
    }
    let mut i: usize = 0;
    while i < lines.len()
        invariant
            i <= lines@.len(),
            lv == lines@.map_values(|x: Vec<char>| x@),
            lv.len() == lines@.len(),
            forall|j: int| 0 <= j < lv.len() ==> lv[j] == #[trigger] lines@[j]@,
            first_line_containing(lv, lab@) == first_line_containing(lv.skip(i as int), lab@),
        decreases lines.len() - i,
    {
        let c = contains_pat(&lines[i], lab);
        proof {
            assert(lv.skip(i as int)[0] == lv[i as int]);
            assert(lv.skip(i as int).skip(1) =~= lv.skip(i + 1));
        }
        if c {
            return Some(i);
        }
        i = i + 1;
    }
    proof {
        assert(lv.skip(i as int) =~= Seq::<Seq<char>>::empty());
    }
    None
}

/// Extracts and trims the field value for `lab`, if the label occurs on
/// some line and a colon follows.
fn field_value(lines: &Vec<Vec<char>>, lab: &Vec<char>) -> (r: Option<Vec<char>>)
    ensures
        ({
            let lv = lines@.map_values(|x: Vec<char>| x@);
            match r {
                Some(w) => field_value_lines(lv, lab@) == Some(w@),
                None => field_value_lines(lv, lab@) is None,
            }
        }),
{
    let ghost lv = lines@.map_values(|x: Vec<char>| x@);
    let li = match find_line_with(lines, lab) {
        Some(i) => i,
        None => {
            return None;
        },
    };
    let line = &lines[li];
    proof {
        assert(lv[li as int] == lines@[li as int]@);
        lemma_find_first(line@, ':');
    }
    let ci = match find_char(line, ':') {
        Some(c) => c,
        None => {
            return None;
        },
    };
    let linelen = line.len();
    proof {
        assert(ci < linelen);
    }
    // The segment runs from past the first colon to the next colon or the end.
    let mut seg: Vec<char> = Vec::new();
    let ghost rest = line@.skip(ci + 1);
    let mut j: usize = ci;
    j = j + 1;
    while j < line.len() && line[j] != ':'
        invariant
            ci < line@.len(),
            ci + 1 <= j <= line@.len(),
            rest == line@.skip(ci + 1),
            seg@ == rest.subrange(0, j - ci - 1),
            forall|m: int| ci + 1 <= m < j ==> line@[m] != ':',
        decreases line.len() - j,
    {
        seg.push(line[j]);
        j = j + 1;
        proof {
            assert(seg@ =~= rest.subrange(0, j - ci - 1));
        }
    }
    proof {
        lemma_find_first(rest, ':');
        assert(forall|m: int| 0 <= m < rest.len() ==> rest[m] == line@[ci + 1 + m]);
        if j < line@.len() {
            assert(line@[j as int] == ':');
            assert(rest[j - ci - 1] == ':');
            match find_first(rest, ':') {
                Some(k) => {
                    assert(!(k < j - ci - 1) && !(j - ci - 1 < k));
                    assert(second_colon_segment(line@) == Some(rest.subrange(0, j - ci - 1)));
                },
                None => {
                    assert(false);
                },
            }
        } else {
            assert(find_first(rest, ':') is None);
            assert(seg@ =~= rest);
            assert(second_colon_segment(line@) == Some(rest));
        }
    }
    let w = trim_chars(&seg);
    Some(w)
}

/// Reads the unsigned field `lab`, accepting values up to `max`.
fn field_uint(lines: &Vec<Vec<char>>, lab: &Vec<char>, max: u64) -> (r: Option<u64>)
    ensures
        ({
            let lv = lines@.map_values(|x: Vec<char>| x@);
            match r {
                Some(n) => field_uint_lines(lv, lab@, max as int) == Some(n as int) && n <= max,
                None => field_uint_lines(lv, lab@, max as int) is None,
            }
        }),
{
    match field_value(lines, lab) {
        Some(w) => {
            proof {
                if parse_uint_spec(w@) is Some {
                    lemma_parse_uint_nonneg(w@);
                }
            }
            parse_uint_max(&w, max)
        },
        None => None,
    }
}

/// Reads the signed field `lab`, accepting values in `min..=max`.
fn field_sint(lines: &Vec<Vec<char>>, lab: &Vec<char>, min: i64, max: i64) -> (r: Option<i64>)
    requires
        min <= 0 <= max,
    ensures
        ({
            let lv = lines@.map_values(|x: Vec<char>| x@);
            match r {
                Some(n) => field_sint_lines(lv, lab@, min as int, max as int) == Some(n as int)
                    && min <= n <= max,
                None => field_sint_lines(lv, lab@, min as int, max as int) is None,
            }
        }),
{
    match field_value(lines, lab) {
        Some(w) => parse_sint_range(&w, min, max),
        None => None,
    }
}

// ---------------------------------------------------------------------------
// Field labels
// ---------------------------------------------------------------------------

pub open spec fn mac_label() -> Seq<char> {
    seq!['m', 'a', 'c', ':']
}

pub open spec fn rssi_label() -> Seq<char> {
    seq!['r', 's', 's', 'i', ':']
}

pub open spec fn rate_label() -> Seq<char> {
    seq!['r', 'a', 't', 'e', ':']
}

pub open spec fn noise_floor_label() -> Seq<char> {
    seq!['n', 'o', 'i', 's', 'e', ' ', 'f', 'l', 'o', 'o', 'r', ':']
}

pub open spec fn channel_label() -> Seq<char> {
    seq!['c', 'h', 'a', 'n', 'n', 'e', 'l', ':']
}

pub open spec fn timestamp_label() -> Seq<char> {
    seq!['t', 'i', 'm', 'e', 's', 't', 'a', 'm', 'p', ':']
}

pub open spec fn sig_len_label() -> Seq<char> {
    seq!['s', 'i', 'g', ' ', 'l', 'e', 'n', ':']
}

pub open spec fn rx_state_label() -> Seq<char> {
    seq!['r', 'x', ' ', 's', 't', 'a', 't', 'e', ':']
}

pub open spec fn secondary_channel_label() -> Seq<char> {
    seq!['s', 'e', 'c', 'o', 'n', 'd', 'a', 'r', 'y', ' ', 'c', 'h', 'a', 'n', 'n', 'e', 'l', ':']
}

pub open spec fn sgi_label() -> Seq<char> {
    seq!['s', 'g', 'i', ':']
}

pub open spec fn ant_label() -> Seq<char> {
    seq!['a', 'n', 't', ':']
}

pub open spec fn ampdu_cnt_label() -> Seq<char> {
    seq!['a', 'm', 'p', 'd', 'u', ' ', 'c', 'n', 't', ':']
}

pub open spec fn sig_mode_label() -> Seq<char> {
    seq!['s', 'i', 'g', '_', 'm', 'o', 'd', 'e', ':']
}

pub open spec fn mcs_label() -> Seq<char> {
    seq!['m', 'c', 's', ':']
}

pub open spec fn cwb_label() -> Seq<char> {
    seq!['c', 'w', 'b', ':']
}

pub open spec fn smoothing_label() -> Seq<char> {
    seq!['s', 'm', 'o', 'o', 't', 'h', 'i', 'n', 'g', ':']
}

pub open spec fn not_sounding_label() -> Seq<char> {
    seq!['n', 'o', 't', ' ', 's', 'o', 'u', 'n', 'd', 'i', 'n', 'g', ':']
}

pub open spec fn aggregation_label() -> Seq<char> {
    seq!['a', 'g', 'g', 'r', 'e', 'g', 'a', 't', 'i', 'o', 'n', ':']
}

pub open spec fn stbc_label() -> Seq<char> {
    seq!['s', 't', 'b', 'c', ':']
}

pub open spec fn fec_coding_label() -> Seq<char> {
    seq!['f', 'e', 'c', ' ', 'c', 'o', 'd', 'i', 'n', 'g', ':']
}

pub open spec fn data_length_label() -> Seq<char> {
    seq!['d', 'a', 't', 'a', ' ', 'l', 'e', 'n', 'g', 't', 'h', ':']
}

pub open spec fn csi_raw_data_label() -> Seq<char> {
    seq!['c', 's', 'i', ' ', 'r', 'a', 'w', ' ', 'd', 'a', 't', 'a', ':']
}


// ---------------------------------------------------------------------------
// MAC extraction
// ---------------------------------------------------------------------------

/// End of the whitespace run starting at `j`.
pub open spec fn ws_run_end(s: Seq<char>, j: int) -> int
    decreases s.len() - j,
{
    if 0 <= j && j < s.len() && is_space_char(s[j]) {
        ws_run_end(s, j + 1)
    } else {
        j
    }
}

/// End of the MAC-character run starting at `j`.
pub open spec fn mac_run_end(s: Seq<char>, j: int) -> int
    decreases s.len() - j,
{
    if 0 <= j && j < s.len() && is_mac_char(s[j]) {
        mac_run_end(s, j + 1)
    } else {
        j
    }
}

pub proof fn lemma_ws_run_end(s: Seq<char>, j: int)
    requires
        0 <= j <= s.len(),
    ensures
        j <= ws_run_end(s, j) <= s.len(),
        forall|m: int| j <= m < ws_run_end(s, j) ==> is_space_char(s[m]),
        ws_run_end(s, j) < s.len() ==> !is_space_char(s[ws_run_end(s, j)]),
    decreases s.len() - j,
{
    if j < s.len() && is_space_char(s[j]) {
        lemma_ws_run_end(s, j + 1);
    }
}

pub proof fn lemma_mac_run_end(s: Seq<char>, j: int)
    requires
        0 <= j <= s.len(),
    ensures
        j <= mac_run_end(s, j) <= s.len(),
        forall|m: int| j <= m < mac_run_end(s, j) ==> is_mac_char(s[m]),
        mac_run_end(s, j) < s.len() ==> !is_mac_char(s[mac_run_end(s, j)]),
    decreases s.len() - j,
{
    if j < s.len() && is_mac_char(s[j]) {
        lemma_mac_run_end(s, j + 1);
    }
}

/// The MAC pattern matches at `i`: the label, one or more whitespace
/// characters, then at least one MAC character.
pub open spec fn mac_match_at(s: Seq<char>, i: int) -> bool {
    &&& 0 <= i
    &&& i + 4 <= s.len()
    &&& s.subrange(i, i + 4) == mac_label()
    &&& ws_run_end(s, i + 4) > i + 4
    &&& ws_run_end(s, i + 4) < s.len()
    &&& is_mac_char(s[ws_run_end(s, i + 4)])
}

/// The captured MAC text at a match position: the maximal run of MAC
/// characters after the whitespace.
pub open spec fn mac_capture(s: Seq<char>, i: int) -> Seq<char> {
    let w = ws_run_end(s, i + 4);
    s.subrange(w, mac_run_end(s, w))
}

/// The leftmost match position at or after `from`.
pub open spec fn first_mac_pos(s: Seq<char>, from: int) -> Option<int>
    decreases s.len() - from,
{
    if from < 0 || from >= s.len() {
        None
    } else if mac_match_at(s, from) {
        Some(from)
    } else {
        first_mac_pos(s, from + 1)
    }
}

/// The MAC text of the leftmost match, if any.
pub open spec fn extract_mac_spec(s: Seq<char>) -> Option<Seq<char>> {
    match first_mac_pos(s, 0) {
        None => None,
        Some(i) => Some(mac_capture(s, i)),
    }
}

fn scan_ws_end(v: &Vec<char>, from: usize) -> (r: usize)
    requires
        from <= v@.len(),
    ensures
        r as int == ws_run_end(v@, from as int),
        from <= r <= v@.len(),
{
    let mut j = from;
    while j < v.len() && space_char(v[j])
        invariant
            from <= j <= v@.len(),
            ws_run_end(v@, from as int) == ws_run_end(v@, j as int),
        decreases v.len() - j,
    {
        j = j + 1;
    }
    j
}

fn scan_mac_end(v: &Vec<char>, from: usize) -> (r: usize)
    requires
        from <= v@.len(),
    ensures
        r as int == mac_run_end(v@, from as int),
        from <= r <= v@.len(),
{
    let mut j = from;
    while j < v.len() && mac_char(v[j])
        invariant
            from <= j <= v@.len(),
            mac_run_end(v@, from as int) == mac_run_end(v@, j as int),
        decreases v.len() - j,
    {
        j = j + 1;
    }
    j
}

/// Finds the first `mac:` label followed by whitespace and MAC text,
/// and returns the MAC text.
fn extract_mac(v: &Vec<char>) -> (r: Option<Vec<char>>)
    ensures
        match r {
            Some(m) => extract_mac_spec(v@) == Some(m@) && m@.len() >= 1 && forall|k: int|
                0 <= k < m@.len() ==> is_mac_char(m@[k]),
            None => extract_mac_spec(v@) is None,
        },
{
    let ghost sv = v@;
    let n = v.len();
    let mut i: usize = 0;
    while i < n
        invariant
            n == sv.len(),
            sv == v@,
            0 <= i <= n,
            first_mac_pos(sv, 0) == first_mac_pos(sv, i as int),
        decreases n - i,
    {
        let lab_here = n - i >= 4 && v[i] == 'm' && v[i + 1] == 'a' && v[i + 2] == 'c' && v[i + 3]
            == ':';
        if lab_here {
            proof {
                assert(sv.subrange(i as int, i + 4) =~= mac_label());
            }
            let w = scan_ws_end(v, i + 4);
            proof {
                lemma_ws_run_end(sv, i + 4);
            }
            if w > i + 4 && w < n && mac_char(v[w]) {
                proof {
                    assert(mac_match_at(sv, i as int));
                    assert(first_mac_pos(sv, i as int) == Some(i as int));
                }
                let e = scan_mac_end(v, w);
                proof {
                    lemma_mac_run_end(sv, w as int);
                }
                let mut m: Vec<char> = Vec::new();
                let mut j = w;
                while j < e
                    invariant
                        w <= j <= e <= sv.len(),
                        sv == v@,
                        m@ == sv.subrange(w as int, j as int),
                    decreases e - j,
                {
                    m.push(v[j]);
                    j = j + 1;
                    proof {
                        assert(m@ =~= sv.subrange(w as int, j as int));
                    }
                }
                proof {
                    assert(m@ == mac_capture(sv, i as int));
                    assert(e > w);
                    assert(forall|k: int| 0 <= k < m@.len() ==> is_mac_char(m@[k]));
                }
                return Some(m);
            }
            proof {
                assert(!mac_match_at(sv, i as int));
            }
        } else {
            proof {
                if mac_match_at(sv, i as int) {
                    assert(sv.subrange(i as int, i + 4)[0] == 'm');
                    assert(sv.subrange(i as int, i + 4)[1] == 'a');
                    assert(sv.subrange(i as int, i + 4)[2] == 'c');
                    assert(sv.subrange(i as int, i + 4)[3] == ':');
                    assert(false);
                }
            }
        }
        i = i + 1;
    }
    None
}

// ---------------------------------------------------------------------------
// CSI data array extraction
// ---------------------------------------------------------------------------

/// The line the original selects for the I/Q payload: it starts with
/// `[0,` or `[-`.
pub open spec fn csi_line_selected(l: Seq<char>) -> bool {
    l.len() >= 2 && l[0] == '[' && (l[1] == '-' || (l.len() >= 3 && l[1] == '0' && l[2] == ','))
}

/// The first selected line.
pub open spec fn first_csi_line(lines: Seq<Seq<char>>) -> Option<Seq<char>>
    decreases lines.len(),
{
    if lines.len() == 0 {
        None
    } else if csi_line_selected(lines[0]) {
        Some(lines[0])
    } else {
        first_csi_line(lines.skip(1))
    }
}

pub open spec fn is_bracket(c: char) -> bool {
    c == '[' || c == ']'
}

pub open spec fn strip_brackets_start(s: Seq<char>) -> Seq<char>
    decreases s.len(),
{
    if s.len() > 0 && is_bracket(s[0]) {
        strip_brackets_start(s.skip(1))
    } else {
        s
    }
}

pub open spec fn strip_brackets_end(s: Seq<char>) -> Seq<char>
    decreases s.len(),
{
    if s.len() > 0 && is_bracket(s.last()) {
        strip_brackets_end(s.drop_last())
    } else {
        s
    }
}

/// Brackets removed from both ends, as `trim_matches` does.
pub open spec fn strip_brackets(s: Seq<char>) -> Seq<char> {
    strip_brackets_end(strip_brackets_start(s))
}

pub proof fn lemma_strip_brackets_start_skip(s: Seq<char>, k: int)
    requires
        0 <= k <= s.len(),
        forall|j: int| 0 <= j < k ==> is_bracket(s[j]),
        k < s.len() ==> !is_bracket(s[k]),
    ensures
        strip_brackets_start(s) == s.skip(k),
    decreases k,
{
    if k == 0 {
        if s.len() > 0 && is_bracket(s[0]) {
            assert(false);
        }
        assert(s.skip(0) =~= s);
    } else {
        lemma_strip_brackets_start_skip(s.skip(1), k - 1);
        assert(s.skip(1).skip(k - 1) =~= s.skip(k));
    }
}

pub proof fn lemma_strip_brackets_end_take(s: Seq<char>, k: int)
    requires
        0 <= k <= s.len(),
        forall|j: int| k <= j < s.len() ==> is_bracket(s[j]),
        k > 0 ==> !is_bracket(s[k - 1]),
    ensures
        strip_brackets_end(s) == s.take(k),
    decreases s.len() - k,
{
    if k == s.len() {
        if s.len() > 0 && is_bracket(s.last()) {
            assert(false);
        }
        assert(s.take(k) =~= s);
    } else {
        assert(is_bracket(s.last()));
        lemma_strip_brackets_end_take(s.drop_last(), k);
        assert(s.drop_last().take(k) =~= s.take(k));
    }
}

fn bracket_char(c: char) -> (r: bool)
    ensures
        r == is_bracket(c),
{
    c == '[' || c == ']'
}

/// Copy of `v` with leading and trailing brackets removed.
fn strip_brackets_chars(v: &Vec<char>) -> (r: Vec<char>)
    ensures
        r@ == strip_brackets(v@),
{
    let mut a: usize = 0;
    while a < v.len() && bracket_char(v[a])
        invariant
            a <= v@.len(),
            forall|j: int| 0 <= j < a ==> is_bracket(v@[j]),
        decreases v.len() - a,
    {
        a = a + 1;
    }
    proof {
        lemma_strip_brackets_start_skip(v@, a as int);
    }
    let mut b: usize = v.len();
    while b > a && bracket_char(v[b - 1])
        invariant
            a <= b <= v@.len(),
            forall|j: int| b <= j < v@.len() ==> is_bracket(v@[j]),
            strip_brackets_start(v@) == v@.skip(a as int),
        decreases b,
    {
        b = b - 1;
    }
    proof {
        if b > a {
            assert(!is_bracket(v@[b - 1]));
        }
        lemma_strip_brackets_end_take(v@.skip(a as int), b - a);
    }
    let mut r: Vec<char> = Vec::new();
    let mut i: usize = a;
    while i < b
        invariant
            a <= i <= b <= v@.len(),
            r@ == v@.subrange(a as int, i as int),
        decreases b - i,
    {
        r.push(v[i]);
        i = i + 1;
        proof {
            assert(r@ =~= v@.subrange(a as int, i as int));
        }
    }
    proof {
        assert(v@.subrange(a as int, b as int) =~= v@.skip(a as int).take(b - a));
    }
    r
}

/// The comma-separated entries of a payload line that read as 32-bit
/// integers, in order; unreadable entries are passed over.
pub open spec fn parsed_i32s(parts: Seq<Seq<char>>) -> Seq<int>
    decreases parts.len(),
{
    if parts.len() == 0 {
        Seq::empty()
    } else {
        let rest = parsed_i32s(parts.skip(1));
        match parse_sint_spec(trim_spec(parts[0])) {
            Some(n) => if -0x8000_0000 <= n <= 0x7fff_ffff {
                seq![n] + rest
            } else {
                rest
            },
            None => rest,
        }
    }
}

/// The values read from a selected payload line.
pub open spec fn csi_values_spec(l: Seq<char>) -> Seq<int> {
    parsed_i32s(split_char_spec(trim_spec(strip_brackets(l)), ','))
}

/// The I/Q payload of the first selected line.  A payload that is
/// empty, fully unreadable, or of odd length (the samples come in I/Q
/// pairs, so the length must be even) counts as no payload: the block
/// is dropped as a parse anomaly.
pub open spec fn extract_csi_spec(s: Seq<char>) -> Option<Seq<int>> {
    match first_csi_line(lines_spec(s)) {
        None => None,
        Some(l) => if csi_values_spec(l).len() == 0 || csi_values_spec(l).len() % 2 != 0 {
            None
        } else {
            Some(csi_values_spec(l))
        },
    }
}

fn csi_line_sel(l: &Vec<char>) -> (r: bool)
    ensures
        r == csi_line_selected(l@),
{
    l.len() >= 2 && l[0] == '[' && (l[1] == '-' || (l.len() >= 3 && l[1] == '0' && l[2] == ','))
}

/// Reads the I/Q payload of the block whose lines are given.
fn extract_csi(lines: &Vec<Vec<char>>) -> (r: Option<Vec<i32>>)
    ensures
        ({
            let lv = lines@.map_values(|x: Vec<char>| x@);
            match r {
                Some(d) => {
                    &&& first_csi_line(lv) is Some
                    &&& d@.len() >= 1
                    &&& d@.len() % 2 == 0
                    &&& d@.map_values(|x: i32| x as int) == csi_values_spec(
                        first_csi_line(lv)->Some_0,
                    )
                },
                None => match first_csi_line(lv) {
                    None => true,
                    Some(l) => csi_values_spec(l).len() == 0 || csi_values_spec(l).len() % 2 != 0,
                },
            }
        }),
{
    let ghost lv = lines@.map_values(|x: Vec<char>| x@);
    proof {
        assert(lv.skip(0) =~= lv);
    }
    let mut i: usize = 0;
    let mut found: Option<usize> = None;
    while i < lines.len() && found.is_none()
        invariant
            i <= lines@.len(),
            lv == lines@.map_values(|x: Vec<char>| x@),
            lv.len() == lines@.len(),
            forall|j: int| 0 <= j < lv.len() ==> lv[j] == #[trigger] lines@[j]@,
            match found {
                Some(k) => k < lines@.len() && first_csi_line(lv) == Some(lv[k as int]),
                None => first_csi_line(lv) == first_csi_line(lv.skip(i as int)),
            },
        decreases (if found.is_none() { 1int } else { 0int }), lines@.len() - i,
    {
        proof {
            assert(lv.skip(i as int)[0] == lv[i as int]);
            assert(lv.skip(i as int).skip(1) =~= lv.skip(i + 1));
        }
        if csi_line_sel(&lines[i]) {
            found = Some(i);
        } else {
            i = i + 1;
        }
    }
    let li = match found {
        Some(k) => k,
        None => {
            proof {
                assert(lv.skip(i as int) =~= Seq::<Seq<char>>::empty());
            }
            return None;
        },
    };
    let ghost sel = first_csi_line(lv)->Some_0;
    let cleaned = trim_chars(&strip_brackets_chars(&lines[li]));
    let parts = split_on_char(&cleaned, ',');
    proof {
        assert(cleaned@ == trim_spec(strip_brackets(sel)));
    }
    let ghost pv = split_char_spec(cleaned@, ',');
    let mut out: Vec<i32> = Vec::new();
    let mut k: usize = 0;
    proof {
        assert(pv.skip(0) =~= pv);
        assert(out@.map_values(|x: i32| x as int) =~= Seq::<int>::empty());
    }
    while k < parts.len()
        invariant
            k <= parts@.len(),
            pv == split_char_spec(cleaned@, ','),
            parts@.len() == pv.len(),
            forall|j: int| 0 <= j < pv.len() ==> parts@[j]@ == pv[j],
            parsed_i32s(pv) =~= out@.map_values(|x: i32| x as int) + parsed_i32s(
                pv.skip(k as int),
            ),
        decreases parts.len() - k,
    {
        let ghost old_out = out@;
        let t = trim_chars(&parts[k]);
        let r = parse_sint_range(&t, -0x8000_0000i64, 0x7fff_ffffi64);
        proof {
            assert(pv.skip(k as int)[0] == pv[k as int]);
            assert(pv.skip(k as int).skip(1) =~= pv.skip(k + 1));
            assert(t@ == trim_spec(pv[k as int]));
        }
        match r {
            Some(n) => {
                out.push(n as i32);
                proof {
                    assert(out@.map_values(|x: i32| x as int) =~= old_out.map_values(
                        |x: i32| x as int,
                    ) + seq![n as int]);
                    assert(parsed_i32s(pv.skip(k as int)) =~= seq![n as int] + parsed_i32s(
                        pv.skip(k + 1),
                    ));
                    assert(parsed_i32s(pv) =~= out@.map_values(|x: i32| x as int) + parsed_i32s(
                        pv.skip(k + 1),
                    ));
                }
            },
            None => {
                proof {
                    assert(parsed_i32s(pv.skip(k as int)) =~= parsed_i32s(pv.skip(k + 1)));
                }
            },
        }
        k = k + 1;
    }
    proof {
        assert(pv.skip(k as int) =~= Seq::<Seq<char>>::empty());
        assert(parsed_i32s(pv) =~= out@.map_values(|x: i32| x as int));
        assert(csi_values_spec(sel) == parsed_i32s(pv));
    }
    if out.len() == 0 || out.len() % 2 != 0 {
        None
    } else {
        Some(out)
    }
}


// ---------------------------------------------------------------------------
// Whole-packet parsing
// ---------------------------------------------------------------------------

/// What a block of text yields: a fully populated packet model when the
/// MAC, every labelled numeric field, and a non-empty I/Q payload are
/// all present and well formed, and nothing otherwise.
pub open spec fn parse_packet_spec(s: Seq<char>) -> Option<CSIPacketV> {
    let lines = lines_spec(s);
    let mac = extract_mac_spec(s);
    let rssi = field_sint_lines(lines, rssi_label(), -0x8000_0000, 0x7fff_ffff);
    let channel = field_uint_lines(lines, channel_label(), 255);
    let timestamp = field_uint_lines(lines, timestamp_label(), 0xffff_ffff_ffff_ffff);
    let rate = field_uint_lines(lines, rate_label(), 255);
    let noise_floor = field_sint_lines(lines, noise_floor_label(), -0x8000_0000, 0x7fff_ffff);
    let sig_len = field_uint_lines(lines, sig_len_label(), 65535);
    let rx_state = field_uint_lines(lines, rx_state_label(), 255);
    let secondary_channel = field_uint_lines(lines, secondary_channel_label(), 255);
    let sgi = field_uint_lines(lines, sgi_label(), 255);
    let ant = field_uint_lines(lines, ant_label(), 255);
    let ampdu_cnt = field_uint_lines(lines, ampdu_cnt_label(), 255);
    let sig_mode = field_uint_lines(lines, sig_mode_label(), 255);
    let mcs = field_uint_lines(lines, mcs_label(), 255);
    let cwb = field_uint_lines(lines, cwb_label(), 255);
    let smoothing = field_uint_lines(lines, smoothing_label(), 255);
    let not_sounding = field_uint_lines(lines, not_sounding_label(), 255);
    let aggregation = field_uint_lines(lines, aggregation_label(), 255);
    let stbc = field_uint_lines(lines, stbc_label(), 255);
    let fec_coding = field_uint_lines(lines, fec_coding_label(), 255);
    let data_length = field_uint_lines(lines, data_length_label(), 65535);
    let csi = extract_csi_spec(s);
    if mac is Some && rssi is Some && channel is Some && timestamp is Some && rate is Some
        && noise_floor is Some && sig_len is Some && rx_state is Some && secondary_channel is Some
        && sgi is Some && ant is Some && ampdu_cnt is Some && sig_mode is Some && mcs is Some
        && cwb is Some && smoothing is Some && not_sounding is Some && aggregation is Some
        && stbc is Some && fec_coding is Some && data_length is Some && csi is Some {
        Some(
            CSIPacketV {
                mac: mac->Some_0,
                rssi: rssi->Some_0,
                channel: channel->Some_0,
                timestamp: timestamp->Some_0,
                rate: rate->Some_0,
                noise_floor: noise_floor->Some_0,
                sig_len: sig_len->Some_0,
                rx_state: rx_state->Some_0,
                secondary_channel: secondary_channel->Some_0,
                sgi: sgi->Some_0,
                ant: ant->Some_0,
                ampdu_cnt: ampdu_cnt->Some_0,
                sig_mode: sig_mode->Some_0,
                mcs: mcs->Some_0,
                cwb: cwb->Some_0,
                smoothing: smoothing->Some_0,
                not_sounding: not_sounding->Some_0,
                aggregation: aggregation->Some_0,
                stbc: stbc->Some_0,
                fec_coding: fec_coding->Some_0,
                data_length: data_length->Some_0,
                csi_data: csi->Some_0,
            },
        )
    } else {
        None
    }
}

fn mac_char_str(c: char) -> (r: &'static str)
    requires
        is_mac_char(c),
    ensures
        r@ == seq![c],
{
    proof {
        reveal_strlit("0");
        reveal_strlit("1");
        reveal_strlit("2");
        reveal_strlit("3");
        reveal_strlit("4");
        reveal_strlit("5");
        reveal_strlit("6");
        reveal_strlit("7");
        reveal_strlit("8");
        reveal_strlit("9");
        reveal_strlit("a");
        reveal_strlit("b");
        reveal_strlit("c");
        reveal_strlit("d");
        reveal_strlit("e");
        reveal_strlit("f");
        reveal_strlit("A");
        reveal_strlit("B");
        reveal_strlit("C");
        reveal_strlit("D");
        reveal_strlit("E");
        reveal_strlit("F");
        reveal_strlit(":");
    }
    let r: &'static str = if c == '0' {
        "0"
    } else if c == '1' {
        "1"
    } else if c == '2' {
        "2"
    } else if c == '3' {
        "3"
    } else if c == '4' {
        "4"
    } else if c == '5' {
        "5"
    } else if c == '6' {
        "6"
    } else if c == '7' {
        "7"
    } else if c == '8' {
        "8"
    } else if c == '9' {
        "9"
    } else if c == 'a' {
        "a"
    } else if c == 'b' {
        "b"
    } else if c == 'c' {
        "c"
    } else if c == 'd' {
        "d"
    } else if c == 'e' {
        "e"
    } else if c == 'f' {
        "f"
    } else if c == 'A' {
        "A"
    } else if c == 'B' {
        "B"
    } else if c == 'C' {
        "C"
    } else if c == 'D' {
        "D"
    } else if c == 'E' {
        "E"
    } else if c == 'F' {
        "F"
    } else {
        ":"
    };
    proof {
        assert(r@ =~= seq![c]);
    }
    r
}

/// Builds the owned MAC string from extracted MAC characters.
fn mac_string(m: &Vec<char>) -> (r: String)
    requires
        forall|k: int| 0 <= k < m@.len() ==> is_mac_char(m@[k]),
    ensures
        r@ == m@,
{
    let mut r = String::new();
    let mut i: usize = 0;
    while i < m.len()
        invariant
            i <= m@.len(),
            forall|k: int| 0 <= k < m@.len() ==> is_mac_char(m@[k]),
            r@ == m@.subrange(0, i as int),
        decreases m.len() - i,
    {
        r.append(mac_char_str(m[i]));
        i = i + 1;
        proof {
            assert(r@ =~= m@.subrange(0, i as int));
        }
    }
    proof {
        assert(r@ =~= m@);
    }
    r
}

fn label_chars(lit: &str, Ghost(lab): Ghost<Seq<char>>) -> (r: Vec<char>)
    requires
        lit@ == lab,
    ensures
        r@ == lab,
{
    chars_of(lit)
}

/// Parses one block given as characters.
fn parse_packet_chars(v: &Vec<char>) -> (r: Option<CSIPacket>)
    ensures
        match r {
            Some(p) => parse_packet_spec(v@) == Some(p@),
            None => parse_packet_spec(v@) is None,
        },
{
    proof {
        reveal_strlit("rssi:");
        reveal_strlit("channel:");
        reveal_strlit("timestamp:");
        reveal_strlit("rate:");
        reveal_strlit("noise floor:");
        reveal_strlit("sig len:");
        reveal_strlit("rx state:");
        reveal_strlit("secondary channel:");
        reveal_strlit("sgi:");
        reveal_strlit("ant:");
        reveal_strlit("ampdu cnt:");
        reveal_strlit("sig_mode:");
        reveal_strlit("mcs:");
        reveal_strlit("cwb:");
        reveal_strlit("smoothing:");
        reveal_strlit("not sounding:");
        reveal_strlit("aggregation:");
        reveal_strlit("stbc:");
        reveal_strlit("fec coding:");
        reveal_strlit("data length:");
        assert("rssi:"@ =~= rssi_label());
        assert("channel:"@ =~= channel_label());
        assert("timestamp:"@ =~= timestamp_label());
        assert("rate:"@ =~= rate_label());
        assert("noise floor:"@ =~= noise_floor_label());
        assert("sig len:"@ =~= sig_len_label());
        assert("rx state:"@ =~= rx_state_label());
        assert("secondary channel:"@ =~= secondary_channel_label());
        assert("sgi:"@ =~= sgi_label());
        assert("ant:"@ =~= ant_label());
        assert("ampdu cnt:"@ =~= ampdu_cnt_label());
        assert("sig_mode:"@ =~= sig_mode_label());
        assert("mcs:"@ =~= mcs_label());
        assert("cwb:"@ =~= cwb_label());
        assert("smoothing:"@ =~= smoothing_label());
        assert("not sounding:"@ =~= not_sounding_label());
        assert("aggregation:"@ =~= aggregation_label());
        assert("stbc:"@ =~= stbc_label());
        assert("fec coding:"@ =~= fec_coding_label());
        assert("data length:"@ =~= data_length_label());
    }
    let lines = split_lines(v);
    proof {
        assert(lines@.map_values(|x: Vec<char>| x@) =~= lines_spec(v@));
    }
    let mac_chars = match extract_mac(v) {
        Some(m) => m,
        None => {
            return None;
        },
    };
    let rssi = match field_sint(
        &lines,
        &label_chars("rssi:", Ghost(rssi_label())),
        -0x8000_0000i64,
        0x7fff_ffffi64,
    ) {
        Some(x) => x as i32,
        None => {
            return None;
        },
    };
    let channel = match field_uint(&lines, &label_chars("channel:", Ghost(channel_label())), 255) {
        Some(x) => x as u8,
        None => {
            return None;
        },
    };
    let timestamp = match field_uint(
        &lines,
        &label_chars("timestamp:", Ghost(timestamp_label())),
        u64::MAX,
    ) {
        Some(x) => x,
        None => {
            return None;
        },
    };
    let rate = match field_uint(&lines, &label_chars("rate:", Ghost(rate_label())), 255) {
        Some(x) => x as u8,
        None => {
            return None;
        },
    };
    let noise_floor = match field_sint(
        &lines,
        &label_chars("noise floor:", Ghost(noise_floor_label())),
        -0x8000_0000i64,
        0x7fff_ffffi64,
    ) {
        Some(x) => x as i32,
        None => {
            return None;
        },
    };
    let sig_len = match field_uint(&lines, &label_chars("sig len:", Ghost(sig_len_label())), 65535) {
        Some(x) => x as u16,
        None => {
            return None;
        },
    };
    let rx_state = match field_uint(&lines, &label_chars("rx state:", Ghost(rx_state_label())), 255) {
        Some(x) => x as u8,
        None => {
            return None;
        },
    };
    let secondary_channel = match field_uint(
        &lines,
        &label_chars("secondary channel:", Ghost(secondary_channel_label())),
        255,
    ) {
        Some(x) => x as u8,
        None => {
            return None;
        },
    };
    let sgi = match field_uint(&lines, &label_chars("sgi:", Ghost(sgi_label())), 255) {
        Some(x) => x as u8,
        None => {
            return None;
        },
    };
    let ant = match field_uint(&lines, &label_chars("ant:", Ghost(ant_label())), 255) {
        Some(x) => x as u8,
        None => {
            return None;
        },
    };
    let ampdu_cnt = match field_uint(&lines, &label_chars("ampdu cnt:", Ghost(ampdu_cnt_label())), 255) {
        Some(x) => x as u8,
        None => {
            return None;
        },
    };
    let sig_mode = match field_uint(&lines, &label_chars("sig_mode:", Ghost(sig_mode_label())), 255) {
        Some(x) => x as u8,
        None => {
            return None;
        },
    };
    let mcs = match field_uint(&lines, &label_chars("mcs:", Ghost(mcs_label())), 255) {
        Some(x) => x as u8,
        None => {
            return None;
        },
    };
    let cwb = match field_uint(&lines, &label_chars("cwb:", Ghost(cwb_label())), 255) {
        Some(x) => x as u8,
        None => {
            return None;
        },
    };
    let smoothing = match field_uint(&lines, &label_chars("smoothing:", Ghost(smoothing_label())), 255) {
        Some(x) => x as u8,
        None => {
            return None;
        },
    };
    let not_sounding = match field_uint(
        &lines,
        &label_chars("not sounding:", Ghost(not_sounding_label())),
        255,
    ) {
        Some(x) => x as u8,
        None => {
            return None;
        },
    };
    let aggregation = match field_uint(
        &lines,
        &label_chars("aggregation:", Ghost(aggregation_label())),
        255,
    ) {
        Some(x) => x as u8,
        None => {
            return None;
        },
    };
    let stbc = match field_uint(&lines, &label_chars("stbc:", Ghost(stbc_label())), 255) {
        Some(x) => x as u8,
        None => {
            return None;
        },
    };
    let fec_coding = match field_uint(
        &lines,
        &label_chars("fec coding:", Ghost(fec_coding_label())),
        255,
    ) {
        Some(x) => x as u8,
        None => {
            return None;
        },
    };
    let data_length = match field_uint(
        &lines,
        &label_chars("data length:", Ghost(data_length_label())),
        65535,
    ) {
        Some(x) => x as u16,
        None => {
            return None;
        },
    };
    let csi_data = match extract_csi(&lines) {
        Some(d) => d,
        None => {
            return None;
        },
    };
    let mac = mac_string(&mac_chars);
    let p = CSIPacket {
        mac,
        rssi,
        channel,
        timestamp,
        rate,
        noise_floor,
        sig_len,
        rx_state,
        secondary_channel,
        sgi,
        ant,
        ampdu_cnt,
        sig_mode,
        mcs,
        cwb,
        smoothing,
        not_sounding,
        aggregation,
        stbc,
        fec_coding,
        data_length,
        csi_data,
    };
    proof {
        assert(parse_packet_spec(v@) == Some(p@));
    }
    Some(p)
}

/// Stateless parser for blocks of device output text.
pub struct CSIParser {}

impl CSIParser {
    pub fn new() -> (r: Self)
        ensures
            true,
    {
        CSIParser {  }
    }

    /// Parses one multi-line block: a packet exactly when every
    /// mandatory field is present and readable and the I/Q payload is
    /// non-empty and of even length, `None` otherwise.  Never fails on
    /// malformed text.
    pub fn parse_packet(&self, output: &str) -> (r: Option<CSIPacket>)
        ensures
            match r {
                Some(p) => parse_packet_spec(output@) == Some(p@),
                None => parse_packet_spec(output@) is None,
            },
    {
        let v = chars_of(output);
        parse_packet_chars(&v)
    }
}

impl Default for CSIParser {
    fn default() -> (r: Self) {
        CSIParser::new()
    }
}

// ---------------------------------------------------------------------------
// Splitting a stream into blocks
// ---------------------------------------------------------------------------

/// Pieces of `s` between occurrences of a blank-line separator (two
/// newlines), leftmost first; always at least one piece.
pub open spec fn split_blocks_spec(s: Seq<char>) -> Seq<Seq<char>>
    decreases s.len(),
{
    if s.len() < 2 {
        seq![s]
    } else if s[0] == '\n' && s[1] == '\n' {
        seq![Seq::<char>::empty()] + split_blocks_spec(s.skip(2))
    } else {
        let rest = split_blocks_spec(s.skip(1));
        seq![seq![s[0]] + rest[0]] + rest.skip(1)
    }
}

pub proof fn lemma_split_blocks_len(s: Seq<char>)
    ensures
        split_blocks_spec(s).len() >= 1,
    decreases s.len(),
{
    if s.len() >= 2 {
        if s[0] == '\n' && s[1] == '\n' {
            lemma_split_blocks_len(s.skip(2));
        } else {
            lemma_split_blocks_len(s.skip(1));
        }
    }
}

/// Splits the stream text on blank lines, matching `split_blocks_spec`.
pub fn split_blocks(v: &Vec<char>) -> (r: Vec<Vec<char>>)
    ensures
        r@.len() == split_blocks_spec(v@).len(),
        forall|i: int| 0 <= i < r@.len() ==> r@[i]@ == split_blocks_spec(v@)[i],
{
    let mut done: Vec<Vec<char>> = Vec::new();
    let mut cur: Vec<char> = Vec::new();
    let mut i: usize = 0;
    proof {
        lemma_split_blocks_len(v@);
        let suffix = split_blocks_spec(v@);
        assert(v@.skip(0) =~= v@);
        assert(cur@ + suffix[0] =~= suffix[0]);
        assert(done@.map_values(|x: Vec<char>| x@) + seq![cur@ + suffix[0]] + suffix.skip(1)
            =~= suffix);
    }
    while i < v.len()
        invariant
            i <= v@.len(),
            ({
                let suffix = split_blocks_spec(v@.skip(i as int));
                let whole = split_blocks_spec(v@);
                suffix.len() >= 1 && whole =~= done@.map_values(|x: Vec<char>| x@) + seq![
                    cur@ + suffix[0],
                ] + suffix.skip(1)
            }),
        decreases v.len() - i,
    {
        proof {
            lemma_split_blocks_len(v@.skip(i as int));
            lemma_split_blocks_len(v@.skip(i + 1));
            if i + 2 <= v@.len() {
                lemma_split_blocks_len(v@.skip(i + 2));
                assert(v@.skip(i as int).skip(2) =~= v@.skip(i + 2));
            }
            assert(v@.skip(i as int).skip(1) =~= v@.skip(i + 1));
        }
        let ghost old_done = done@;
        let ghost old_cur = cur@;
        let two = v.len() - i >= 2 && v[i] == '\n' && v[i + 1] == '\n';
        if two {
            done.push(cur);
            cur = Vec::new();
            proof {
                let suffix = split_blocks_spec(v@.skip(i as int));
                let nsuffix = split_blocks_spec(v@.skip(i + 2));
                assert(v@.skip(i as int)[0] == '\n' && v@.skip(i as int)[1] == '\n');
                assert(v@.skip(i as int).len() >= 2);
                assert(suffix =~= seq![Seq::<char>::empty()] + nsuffix);
                assert(old_cur + suffix[0] =~= old_cur);
                assert(done@.map_values(|x: Vec<char>| x@) =~= old_done.map_values(
                    |x: Vec<char>| x@,
                ).push(old_cur));
                assert(split_blocks_spec(v@) =~= done@.map_values(|x: Vec<char>| x@) + seq![
                    cur@ + nsuffix[0],
                ] + nsuffix.skip(1));
            }
            i = i + 2;
        } else {
            let c = v[i];
            cur.push(c);
            proof {
                let suffix = split_blocks_spec(v@.skip(i as int));
                let nsuffix = split_blocks_spec(v@.skip(i + 1));
                assert(v@.skip(i as int)[0] == c);
                if v@.skip(i as int).len() >= 2 {
                    assert(!(v@.skip(i as int)[0] == '\n' && v@.skip(i as int)[1] == '\n'));
                    assert(suffix =~= seq![seq![c] + nsuffix[0]] + nsuffix.skip(1));
                } else {
                    assert(v@.skip(i + 1) =~= Seq::<char>::empty());
                    assert(nsuffix =~= seq![Seq::<char>::empty()]);
                    assert(suffix =~= seq![v@.skip(i as int)]);
                    assert(v@.skip(i as int) =~= seq![c] + nsuffix[0]);
                    assert(suffix =~= seq![seq![c] + nsuffix[0]] + nsuffix.skip(1));
                }
                assert(old_cur + suffix[0] =~= cur@ + nsuffix[0]);
                assert(split_blocks_spec(v@) =~= done@.map_values(|x: Vec<char>| x@) + seq![
                    cur@ + nsuffix[0],
                ] + nsuffix.skip(1));
            }
            i = i + 1;
        }
    }
    proof {
        let suffix = split_blocks_spec(v@.skip(i as int));
        assert(v@.skip(i as int) =~= Seq::<char>::empty());
        assert(suffix =~= seq![Seq::<char>::empty()]);
        assert(cur@ + suffix[0] =~= cur@);
    }
    done.push(cur);
    proof {
        assert(split_blocks_spec(v@) =~= done@.map_values(|x: Vec<char>| x@));
        assert(forall|k: int|
            0 <= k < done@.len() ==> done@.map_values(|x: Vec<char>| x@)[k] == #[trigger] done@[k]@);
    }
    done
}

/// The packet models that a sequence of blocks yields, in order;
/// blocks that yield nothing are passed over.
pub open spec fn parsed_packets_spec(blocks: Seq<Seq<char>>) -> Seq<CSIPacketV>
    decreases blocks.len(),
{
    if blocks.len() == 0 {
        Seq::empty()
    } else {
        let rest = parsed_packets_spec(blocks.skip(1));
        match parse_packet_spec(blocks[0]) {
            Some(p) => seq![p] + rest,
            None => rest,
        }
    }
}

/// Splits a raw output stream into blank-line-separated blocks and
/// parses each one.
pub struct CSIProcessor {
    parser: CSIParser,
}

impl CSIProcessor {
    pub fn new() -> (r: Self)
        ensures
            true,
    {
        CSIProcessor { parser: CSIParser::new() }
    }

    /// Every block that parses contributes exactly one packet, in
    /// stream order; malformed blocks contribute nothing and raise no
    /// error.
    #[verifier::rlimit(60)]
    pub fn process_output(&self, output: &str) -> (r: Vec<CSIPacket>)
        ensures
            ({
                let ps = parsed_packets_spec(split_blocks_spec(output@));
                r@.len() == ps.len() && forall|i: int| 0 <= i < r@.len() ==> r@[i]@ == ps[i]
            }),
    {
        let v = chars_of(output);
        let blocks = split_blocks(&v);
        let ghost bv = split_blocks_spec(v@);
        let mut out: Vec<CSIPacket> = Vec::new();
        let mut k: usize = 0;
        proof {
            assert(bv.skip(0) =~= bv);
            assert(out@.map_values(|p: CSIPacket| p@) =~= Seq::<CSIPacketV>::empty());
        }
        while k < blocks.len()
            invariant
                k <= blocks@.len(),
                bv == split_blocks_spec(v@),
                v@ == output@,
                blocks@.len() == bv.len(),
                forall|j: int| 0 <= j < bv.len() ==> blocks@[j]@ == bv[j],
                parsed_packets_spec(bv) =~= out@.map_values(|p: CSIPacket| p@)
                    + parsed_packets_spec(bv.skip(k as int)),
            decreases blocks.len() - k,
        {
            let ghost old_out = out@;
            let r = parse_packet_chars(&blocks[k]);
            proof {
                assert(bv.skip(k as int)[0] == bv[k as int]);
                assert(bv.skip(k as int).skip(1) =~= bv.skip(k + 1));
            }
            match r {
                Some(p) => {
                    let ghost pv = p@;
                    out.push(p);
                    proof {
                        assert(out@.map_values(|p: CSIPacket| p@) =~= old_out.map_values(
                            |p: CSIPacket| p@,
                        ) + seq![pv]);
                        assert(parsed_packets_spec(bv.skip(k as int)) =~= seq![pv]
                            + parsed_packets_spec(bv.skip(k + 1)));
                        assert(parsed_packets_spec(bv) =~= out@.map_values(|p: CSIPacket| p@)
                            + parsed_packets_spec(bv.skip(k + 1)));
                    }
                },
                None => {
                    proof {
                        assert(parsed_packets_spec(bv.skip(k as int)) =~= parsed_packets_spec(
                            bv.skip(k + 1),
                        ));
                    }
                },
            }
            k = k + 1;
        }
        proof {
            assert(bv.skip(k as int) =~= Seq::<Seq<char>>::empty());
            assert(parsed_packets_spec(bv) =~= out@.map_values(|p: CSIPacket| p@));
            assert(forall|i: int|
                0 <= i < out@.len() ==> out@.map_values(|p: CSIPacket| p@)[i] == #[trigger] out@[i]@);
        }
        out
    }
}

impl Default for CSIProcessor {
    fn default() -> (r: Self) {
        CSIProcessor::new()
    }
}


/// Malformed-block tolerance: a stream of exactly two blocks, one
/// that parses and one that does not, yields exactly the one packet —
/// in either order of the match, the unparsable block contributes
/// nothing and no error arises.
pub proof fn lemma_malformed_block_tolerance(s: Seq<char>, p: CSIPacketV)
    requires
        split_blocks_spec(s).len() == 2,
        parse_packet_spec(split_blocks_spec(s)[0]) == Some(p),
        parse_packet_spec(split_blocks_spec(s)[1]) is None,
    ensures
        parsed_packets_spec(split_blocks_spec(s)) == seq![p],
{
    let bs = split_blocks_spec(s);
    assert(bs.skip(1)[0] == bs[1]);
    assert(bs.skip(1).skip(1) =~= Seq::<Seq<char>>::empty());
    assert(parsed_packets_spec(Seq::<Seq<char>>::empty()) =~= Seq::<CSIPacketV>::empty());
    assert(parsed_packets_spec(bs.skip(1)) =~= Seq::<CSIPacketV>::empty());
    assert(parsed_packets_spec(bs) =~= seq![p]);
}

} // verus!
