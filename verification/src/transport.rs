//! Host-side transport logic around the serial link: framing of
//! outgoing commands, reassembly of the incoming chunk stream into
//! blank-line-separated blocks, and classification of status lines.
//! The blocking reads and writes themselves live with the embedding
//! program; this module only decides.
use vstd::prelude::*;

use crate::buffer::{fold_pushes, push_step};
use crate::packet::CSIPacket;
use crate::parser::{
    lemma_split_blocks_len, parse_packet_spec, parsed_packets_spec, split_blocks_spec,
};
use crate::text::{
    chars_of, contains_pat, contains_seq, fmt_nat_spec, fmt_u64, is_space_char,
    lemma_trim_end_take, lemma_trim_start_skip, space_char, trim_chars, trim_spec,
};

verus! {

/// Frames one outgoing command line: the text followed by CRLF.
pub fn frame_command(command: &str) -> (r: String)
    ensures
        r@ == command@ + "\r\n"@,
{
    let mut r = String::from_str(command);
    r.append("\r\n");
    r
}

/// First index of a blank-line separator, if any.
fn find_separator(v: &Vec<char>) -> (r: Option<usize>)
    ensures
        match r {
            Some(k) => k + 2 <= v@.len() && v@[k as int] == '\n' && v@[k + 1] == '\n' && forall|
                j: int,
            |
                0 <= j < k ==> !(#[trigger] v@[j] == '\n' && v@[j + 1] == '\n'),
            None => forall|j: int|
                0 <= j < v@.len() - 1 ==> !(#[trigger] v@[j] == '\n' && v@[j + 1] == '\n'),
        },
{
    if v.len() < 2 {
        return None;
    }
    let mut i: usize = 0;
    let last = v.len() - 2;
    while i <= last
        invariant
            v@.len() >= 2,
            v@.len() <= usize::MAX as int,
            last == v@.len() - 2,
            i <= last + 1,
            forall|j: int| 0 <= j < i ==> !(#[trigger] v@[j] == '\n' && v@[j + 1] == '\n'),
        decreases last + 1 - i,
    {
        if v[i] == '\n' && v[i + 1] == '\n' {
            return Some(i);
        }
        i = i + 1;
    }
    None
}

/// A leading block before the first separator splits off whole.
proof fn lemma_split_blocks_first_sep(s: Seq<char>, k: int)
    requires
        0 <= k,
        k + 2 <= s.len(),
        s[k] == '\n',
        s[k + 1] == '\n',
        forall|j: int| 0 <= j < k ==> !(#[trigger] s[j] == '\n' && s[j + 1] == '\n'),
    ensures
        split_blocks_spec(s) == seq![s.subrange(0, k)] + split_blocks_spec(s.skip(k + 2)),
    decreases k,
{
    lemma_split_blocks_len(s.skip(1));
    if k == 0 {
        assert(s.subrange(0, 0) =~= Seq::<char>::empty());
        assert(split_blocks_spec(s) =~= seq![s.subrange(0, 0)] + split_blocks_spec(s.skip(2)));
    } else {
        lemma_split_blocks_first_sep(s.skip(1), k - 1);
        assert(forall|j: int|
            0 <= j < k - 1 ==> #[trigger] s.skip(1)[j] == s[j + 1] && s.skip(1)[j + 1] == s[j
                + 2]);
        assert(s.skip(1)[k - 1] == s[k as int] && s.skip(1)[k] == s[k + 1]);
        let rest = split_blocks_spec(s.skip(1));
        assert(rest == seq![s.skip(1).subrange(0, k - 1)] + split_blocks_spec(s.skip(1).skip(k + 1)));
        assert(s.skip(1).skip(k + 1) =~= s.skip(k + 2));
        assert(!(s[0] == '\n' && s[1] == '\n'));
        assert(split_blocks_spec(s) == seq![seq![s[0]] + rest[0]] + rest.skip(1));
        assert(seq![s[0]] + rest[0] =~= s.subrange(0, k));
        assert(rest.skip(1) =~= split_blocks_spec(s.skip(k + 2)));
        assert(split_blocks_spec(s) =~= seq![s.subrange(0, k)] + split_blocks_spec(s.skip(k + 2)));
    }
}

/// Text without a separator is one single block.
proof fn lemma_split_blocks_no_sep(s: Seq<char>)
    requires
        forall|j: int| 0 <= j < s.len() - 1 ==> !(#[trigger] s[j] == '\n' && s[j + 1] == '\n'),
    ensures
        split_blocks_spec(s) == seq![s],
    decreases s.len(),
{
    if s.len() >= 2 {
        lemma_split_blocks_no_sep(s.skip(1));
        assert(forall|j: int|
            0 <= j < s.skip(1).len() - 1 ==> #[trigger] s.skip(1)[j] == s[j + 1] && s.skip(1)[j
                + 1] == s[j + 2]);
        let rest = split_blocks_spec(s.skip(1));
        assert(seq![s[0]] + rest[0] =~= s);
        assert(split_blocks_spec(s) =~= seq![s]);
    }
}

/// Reassembles the incoming byte-chunk stream into blocks.  Chunks are
/// appended as they arrive; each drain hands out every block that a
/// blank line has completed, in arrival order, and keeps the partial
/// tail for the next poll.
pub struct StreamAssembler {
    pending: Vec<char>,
}

impl StreamAssembler {
    /// Text received and not yet handed out as complete blocks.
    pub closed spec fn buffered(&self) -> Seq<char> {
        self.pending@
    }

    pub fn new() -> (r: Self)
        ensures
            r.buffered() == Seq::<char>::empty(),
    {
        StreamAssembler { pending: Vec::new() }
    }

    /// Appends one received chunk, preserving arrival order.
    pub fn feed(&mut self, chunk: &str)
        ensures
            final(self).buffered() == old(self).buffered() + chunk@,
    {
        let v = chars_of(chunk);
        let mut i: usize = 0;
        while i < v.len()
            invariant
                i <= v@.len(),
                self.pending@ == old(self).pending@ + v@.subrange(0, i as int),
            decreases v.len() - i,
        {
            self.pending.push(v[i]);
            i = i + 1;
            proof {
                assert(self.pending@ =~= old(self).pending@ + v@.subrange(0, i as int));
            }
        }
        proof {
            assert(self.pending@ =~= old(self).pending@ + v@);
        }
    }

    /// Hands out every completed block: all pieces of the buffered
    /// text up to the last blank-line separator, in order; the piece
    /// after it stays buffered.
    pub fn drain_blocks(&mut self) -> (r: Vec<Vec<char>>)
        ensures
            ({
                let pieces = split_blocks_spec(old(self).buffered());
                &&& r@.len() + 1 == pieces.len()
                &&& forall|i: int| 0 <= i < r@.len() ==> r@[i]@ == pieces[i]
                &&& final(self).buffered() == pieces.last()
            }),
    {
        let ghost whole = self.pending@;
        proof {
            lemma_split_blocks_len(whole);
        }
        let mut r: Vec<Vec<char>> = Vec::new();
        loop
            invariant
                ({
                    let pieces = split_blocks_spec(whole);
                    let rest = split_blocks_spec(self.pending@);
                    &&& whole == old(self).buffered()
                    &&& pieces.len() >= 1
                    &&& rest.len() >= 1
                    &&& r@.len() + rest.len() == pieces.len()
                    &&& (forall|i: int| 0 <= i < r@.len() ==> r@[i]@ == pieces[i])
                    &&& (forall|i: int|
                        0 <= i < rest.len() ==> rest[i] == pieces[r@.len() + i])
                }),
            decreases self.pending@.len(),
        {
            proof {
                lemma_split_blocks_len(self.pending@);
            }
            let plen = self.pending.len();
            let sep = find_separator(&self.pending);
            match sep {
                Some(k) => {
                    proof {
                        assert(k + 2 <= plen);
                        lemma_split_blocks_first_sep(self.pending@, k as int);
                    }
                    let mut block: Vec<char> = Vec::new();
                    let mut i: usize = 0;
                    while i < k
                        invariant
                            i <= k,
                            k + 2 <= self.pending@.len(),
                            block@ == self.pending@.subrange(0, i as int),
                        decreases k - i,
                    {
                        block.push(self.pending[i]);
                        i = i + 1;
                        proof {
                            assert(block@ =~= self.pending@.subrange(0, i as int));
                        }
                    }
                    let mut tail: Vec<char> = Vec::new();
                    let mut j: usize = k + 2;
                    while j < self.pending.len()
                        invariant
                            k + 2 <= j <= self.pending@.len(),
                            tail@ == self.pending@.subrange(k + 2, j as int),
                        decreases self.pending.len() - j,
                    {
                        tail.push(self.pending[j]);
                        j = j + 1;
                        proof {
                            assert(tail@ =~= self.pending@.subrange(k + 2, j as int));
                        }
                    }
                    proof {
                        assert(tail@ =~= self.pending@.skip(k + 2));
                        assert(block@ =~= self.pending@.subrange(0, k as int));
                    }
                    let ghost before = self.pending@;
                    let ghost old_r = r@;
                    r.push(block);
                    self.pending = tail;
                    proof {
                        let pieces = split_blocks_spec(whole);
                        let prev_rest = split_blocks_spec(before);
                        let rest = split_blocks_spec(self.pending@);
                        assert(prev_rest == seq![before.subrange(0, k as int)] + rest);
                        assert(forall|i: int|
                            0 <= i < rest.len() ==> #[trigger] rest[i] == prev_rest[i + 1]);
                        assert(prev_rest[0] == before.subrange(0, k as int));
                        assert(prev_rest[0] == pieces[old_r.len() as int]);
                        assert(r@[old_r.len() as int]@ == pieces[old_r.len() as int]);
                        assert(forall|i: int|
                            0 <= i < rest.len() ==> rest[i] == #[trigger] pieces[r@.len() + i])
                            by {
                            assert(forall|i: int|
                                0 <= i < rest.len() ==> #[trigger] rest[i] == prev_rest[i + 1]
                                    && prev_rest[i + 1] == pieces[old_r.len() + i + 1]);
                        }
                        assert(self.pending@.len() < before.len());
                    }
                },
                None => {
                    proof {
                        lemma_split_blocks_no_sep(self.pending@);
                        let pieces = split_blocks_spec(whole);
                        let rest = split_blocks_spec(self.pending@);
                        assert(rest =~= seq![self.pending@]);
                        assert(rest[0] == self.pending@);
                        assert(rest[0] == pieces[r@.len() as int]);
                        assert(r@.len() + 1 == pieces.len());
                        assert(self.pending@ == pieces.last());
                    }
                    return r;
                },
            }
        }
    }
}

/// What one line of device output means to the host monitor.
#[derive(Debug, Clone, Copy, PartialEq, Eq, Structural)]
pub enum LineClass {
    /// Blank, or a prompt echo: skipped.
    Skip,
    /// The device confirmed a WiFi configuration change.
    WifiConfigured,
    /// The device reports an established WiFi connection.
    WifiConnected,
    /// CSI payload or metadata: counted and captured while collecting.
    CsiData,
    /// The device reports that collection stopped.
    CollectionStopped,
    /// Anything else: kept in the output log only.
    Other,
}

/// The trimmed line starts with the prompt marker.
pub open spec fn is_prompt(t: Seq<char>) -> bool {
    t.len() >= 3 && t.subrange(0, 3) == ">>>"@
}

/// Classification of one line, applied to its trimmed text: first
/// match wins, in the order configuration, connection, data, stop.
pub open spec fn classify_spec(line: Seq<char>) -> LineClass {
    let t = trim_spec(line);
    if t.len() == 0 || is_prompt(t) {
        LineClass::Skip
    } else if contains_seq(t, "WiFi Configuration Set"@) {
        LineClass::WifiConfigured
    } else if contains_seq(t, "WiFi Connected"@) {
        LineClass::WifiConnected
    } else if contains_seq(t, "CSI"@) || contains_seq(t, "mac:"@) {
        LineClass::CsiData
    } else if contains_seq(t, "Collection stopped"@) || contains_seq(t, "stopped"@) {
        LineClass::CollectionStopped
    } else {
        LineClass::Other
    }
}

/// Classifies one line of device output.
pub fn classify_line(line: &str) -> (r: LineClass)
    ensures
        r == classify_spec(line@),
{
    let v = chars_of(line);
    let t = trim_chars(&v);
    if t.len() == 0 {
        return LineClass::Skip;
    }
    if t.len() >= 3 && t[0] == '>' && t[1] == '>' && t[2] == '>' {
        proof {
            reveal_strlit(">>>");
            assert(trim_spec(line@).subrange(0, 3) =~= ">>>"@);
        }
        return LineClass::Skip;
    }
    proof {
        reveal_strlit(">>>");
        if is_prompt(trim_spec(line@)) {
            assert(trim_spec(line@).subrange(0, 3)[0] == '>');
            assert(trim_spec(line@).subrange(0, 3)[1] == '>');
            assert(trim_spec(line@).subrange(0, 3)[2] == '>');
            assert(false);
        }
    }
    if contains_pat(&t, &chars_of("WiFi Configuration Set")) {
        return LineClass::WifiConfigured;
    }
    if contains_pat(&t, &chars_of("WiFi Connected")) {
        return LineClass::WifiConnected;
    }
    if contains_pat(&t, &chars_of("CSI")) || contains_pat(&t, &chars_of("mac:")) {
        return LineClass::CsiData;
    }
    if contains_pat(&t, &chars_of("Collection stopped")) || contains_pat(&t, &chars_of("stopped")) {
        return LineClass::CollectionStopped;
    }
    LineClass::Other
}


// ---------------------------------------------------------------------------
// Monitor state
// ---------------------------------------------------------------------------

/// The trimmed text of a line, as an owned string.
fn trim_str(line: &str) -> (r: String)
    ensures
        r@ == trim_spec(line@),
{
    let n = line.unicode_len();
    let mut a: usize = 0;
    while a < n && space_char(line.get_char(a))
        invariant
            a <= n,
            n == line@.len(),
            forall|j: int| 0 <= j < a ==> is_space_char(line@[j]),
        decreases n - a,
    {
        a = a + 1;
    }
    proof {
        lemma_trim_start_skip(line@, a as int);
    }
    let mut b: usize = n;
    while b > a && space_char(line.get_char(b - 1))
        invariant
            a <= b <= n,
            n == line@.len(),
            forall|j: int| b <= j < n ==> is_space_char(line@[j]),
            trim_spec(line@) == crate::text::trim_end_spec(line@.skip(a as int)),
        decreases b,
    {
        b = b - 1;
    }
    proof {
        if b > a {
            assert(!is_space_char(line@[b - 1]));
        }
        lemma_trim_end_take(line@.skip(a as int), b - a);
        assert(line@.skip(a as int).take(b - a) =~= line@.subrange(a as int, b as int));
    }
    let piece = line.substring_char(a, b);
    String::from_str(piece)
}

/// The views of an owned-string log.
pub open spec fn log_views(log: Seq<String>) -> Seq<Seq<char>> {
    log.map_values(|s: String| s@)
}

/// One bounded append: the line goes on the back, the front leaves
/// while the log exceeds its bound.
pub open spec fn log_step(log: Seq<Seq<char>>, l: Seq<char>, max: int) -> Seq<Seq<char>> {
    let grown = log.push(l);
    if grown.len() <= max {
        grown
    } else {
        grown.skip(grown.len() - max)
    }
}

/// What the host knows of the device from the lines read so far: link
/// and collection indicators, the packet-line counter, the latest data
/// line, a bounded output log, and the lines captured while capture is
/// on.  This is the state the read loop folds device output into; the
/// reads themselves happen outside.
pub struct MonitorState {
    pub connected: bool,
    /// Data has been observed arriving.
    pub collecting: bool,
    /// Data lines are being recorded; toggled by the operator's start
    /// and stop and switched off when the device reports a stop.
    pub capturing: bool,
    pub packets_received: u64,
    pub latest_data: Option<String>,
    pub last_command: String,
    pub status: String,
    pub output_log: Vec<String>,
    pub max_lines: usize,
    pub captured: Vec<String>,
}

impl MonitorState {
    /// The output log never exceeds its bound.
    pub open spec fn wf(&self) -> bool {
        self.output_log@.len() <= self.max_lines
    }

    pub fn new(max_lines: usize) -> (r: Self)
        ensures
            !r.connected,
            !r.collecting,
            !r.capturing,
            r.packets_received == 0,
            r.latest_data is None,
            r.last_command@ == "None"@,
            r.status@ == "Connecting..."@,
            r.output_log@ == Seq::<String>::empty(),
            r.captured@ == Seq::<String>::empty(),
            r.max_lines == max_lines,
            r.wf(),
    {
        MonitorState {
            connected: false,
            collecting: false,
            capturing: false,
            packets_received: 0,
            latest_data: None,
            last_command: "None".to_string(),
            status: "Connecting...".to_string(),
            output_log: Vec::new(),
            max_lines,
            captured: Vec::new(),
        }
    }

    /// Appends one line to the bounded output log.
    fn log_line(&mut self, l: String)
        requires
            old(self).wf(),
        ensures
            final(self).wf(),
            log_views(final(self).output_log@) == log_step(
                log_views(old(self).output_log@),
                l@,
                old(self).max_lines as int,
            ),
            final(self).connected == old(self).connected,
            final(self).collecting == old(self).collecting,
            final(self).capturing == old(self).capturing,
            final(self).packets_received == old(self).packets_received,
            final(self).latest_data == old(self).latest_data,
            final(self).last_command == old(self).last_command,
            final(self).status == old(self).status,
            final(self).captured == old(self).captured,
            final(self).max_lines == old(self).max_lines,
    {
        let ghost lv = l@;
        self.output_log.push(l);
        proof {
            assert(log_views(self.output_log@) =~= log_views(old(self).output_log@).push(lv));
        }
        if self.output_log.len() > self.max_lines {
            let ghost grown = log_views(self.output_log@);
            let _ = self.output_log.remove(0);
            proof {
                assert(log_views(self.output_log@) =~= grown.skip(
                    grown.len() - self.max_lines,
                ));
            }
        }
    }

    /// Folds one line of device output into the state, by its class:
    /// skipped lines change nothing; every other line enters the
    /// bounded log trimmed; configuration and connection reports set
    /// the status, a connection also sets the link indicator; a data
    /// line counts a packet, becomes the latest data, marks collection
    /// live, and is captured while capture is on; a stop report turns
    /// capture off.
    pub fn ingest_line(&mut self, line: &str)
        requires
            old(self).wf(),
        ensures
            final(self).wf(),
            final(self).max_lines == old(self).max_lines,
            final(self).last_command == old(self).last_command,
            ({
                let c = classify_spec(line@);
                let t = trim_spec(line@);
                match c {
                    LineClass::Skip => *final(self) == *old(self),
                    _ => {
                        &&& log_views(final(self).output_log@) == log_step(
                            log_views(old(self).output_log@),
                            t,
                            old(self).max_lines as int,
                        )
                        &&& final(self).connected == (old(self).connected || c
                            is WifiConnected)
                        &&& final(self).collecting == (old(self).collecting || c is CsiData)
                        &&& final(self).capturing == (old(self).capturing && !(c
                            is CollectionStopped))
                        &&& final(self).packets_received as int == (if c is CsiData {
                            if old(self).packets_received < u64::MAX {
                                old(self).packets_received + 1
                            } else {
                                u64::MAX as int
                            }
                        } else {
                            old(self).packets_received as int
                        })
                        &&& (if c is CsiData {
                            final(self).latest_data matches Some(d) && d@ == t
                        } else {
                            final(self).latest_data == old(self).latest_data
                        })
                        &&& log_views(final(self).captured@) == (if c is CsiData && old(
                            self,
                        ).capturing {
                            log_views(old(self).captured@).push(t)
                        } else {
                            log_views(old(self).captured@)
                        })
                        &&& final(self).status@ == (if c is WifiConfigured {
                            "WiFi configured"@
                        } else if c is WifiConnected {
                            "WiFi Connected"@
                        } else {
                            old(self).status@
                        })
                    },
                }
            }),
    {
        let class = classify_line(line);
        match class {
            LineClass::Skip => {
                return ;
            },
            _ => {},
        }
        let t = trim_str(line);
        let ghost tv = t@;
        match class {
            LineClass::Skip => {},
            LineClass::WifiConfigured => {
                self.status = "WiFi configured".to_string();
            },
            LineClass::WifiConnected => {
                self.status = "WiFi Connected".to_string();
                self.connected = true;
            },
            LineClass::CsiData => {
                if self.packets_received < u64::MAX {
                    self.packets_received = self.packets_received + 1;
                }
                self.latest_data = Some(t.clone());
                self.collecting = true;
                if self.capturing {
                    let ghost pre = log_views(self.captured@);
                    self.captured.push(t.clone());
                    proof {
                        assert(log_views(self.captured@) =~= pre.push(tv));
                    }
                }
            },
            LineClass::CollectionStopped => {
                self.capturing = false;
            },
            LineClass::Other => {},
        }
        self.log_line(t);
    }

    /// Records a command the operator sent: it becomes the last
    /// command and enters the bounded log as `Sent: <command>`.
    pub fn note_sent(&mut self, command: &str)
        requires
            old(self).wf(),
        ensures
            final(self).wf(),
            final(self).last_command@ == command@,
            log_views(final(self).output_log@) == log_step(
                log_views(old(self).output_log@),
                "Sent: "@ + command@,
                old(self).max_lines as int,
            ),
            final(self).connected == old(self).connected,
            final(self).collecting == old(self).collecting,
            final(self).capturing == old(self).capturing,
            final(self).packets_received == old(self).packets_received,
            final(self).latest_data == old(self).latest_data,
            final(self).captured == old(self).captured,
            final(self).max_lines == old(self).max_lines,
    {
        self.last_command = String::from_str(command);
        let mut l = String::from_str("Sent: ");
        l.append(command);
        self.log_line(l);
    }

    /// The one-line status summary the display shows.
    pub fn status_line(&self) -> (r: String)
        ensures
            r@ == "Status: "@ + self.status@ + " | Collecting: "@ + (if self.collecting {
                "Yes"@
            } else {
                "No"@
            }) + " | Packets: "@ + fmt_nat_spec(self.packets_received as int),
    {
        let mut r = String::from_str("Status: ");
        r.append(self.status.as_str());
        r.append(" | Collecting: ");
        if self.collecting {
            r.append("Yes");
        } else {
            r.append("No");
        }
        r.append(" | Packets: ");
        r.append(fmt_u64(self.packets_received).as_str());
        r
    }
}


/// End-to-end scenario: a stream whose drained part holds exactly two
/// completed blocks — the first parses to `q`'s model, the second does
/// not parse — contributes exactly one packet, and pushing that packet
/// into an empty buffer of any positive capacity leaves exactly it.
pub proof fn lemma_end_to_end_single_packet(s: Seq<char>, q: CSIPacket, cap: int)
    requires
        split_blocks_spec(s).len() == 3,
        parse_packet_spec(split_blocks_spec(s)[0]) == Some(q@),
        parse_packet_spec(split_blocks_spec(s)[1]) is None,
        cap >= 1,
    ensures
        parsed_packets_spec(split_blocks_spec(s).take(2)) == seq![q@],
        fold_pushes(seq![q], cap) == seq![q],
{
    let t = split_blocks_spec(s).take(2);
    assert(t[0] == split_blocks_spec(s)[0]);
    assert(t.skip(1)[0] == split_blocks_spec(s)[1]);
    assert(t.skip(1).skip(1) =~= Seq::<Seq<char>>::empty());
    assert(parsed_packets_spec(Seq::<Seq<char>>::empty()) =~= Seq::<crate::packet::CSIPacketV>::empty());
    assert(parsed_packets_spec(t.skip(1)) =~= Seq::<crate::packet::CSIPacketV>::empty());
    assert(parsed_packets_spec(t) =~= seq![q@]);
    let one = seq![q];
    assert(one.drop_last() =~= Seq::<CSIPacket>::empty());
    assert(fold_pushes(one.drop_last(), cap) =~= Seq::<CSIPacket>::empty());
    assert(fold_pushes(one, cap) == push_step(Seq::<CSIPacket>::empty(), q, cap));
    assert(fold_pushes(one, cap) =~= one);
}

} // verus!
