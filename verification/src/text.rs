//! Character-level text utilities shared by the packet parser, the command
//! handlers and the exporters: character classes, line and separator
//! splitting, whitespace trimming, and decimal integer parsing/formatting,
//! each with an exact specification over sequences of characters.
use vstd::prelude::*;

verus! {

// ---------------------------------------------------------------------------
// Character classes
// ---------------------------------------------------------------------------

pub open spec fn is_digit_char(c: char) -> bool {
    '0' <= c && c <= '9'
}

/// ASCII whitespace recognised by the trimming and scanning routines.
pub open spec fn is_space_char(c: char) -> bool {
    c == ' ' || c == '\t' || c == '\n' || c == '\r' || c == '\u{b}' || c == '\u{c}'
}

pub open spec fn is_hex_char(c: char) -> bool {
    is_digit_char(c) || ('a' <= c && c <= 'f') || ('A' <= c && c <= 'F')
}

/// Characters admitted in a textual MAC address: hex digits and colons.
pub open spec fn is_mac_char(c: char) -> bool {
    is_hex_char(c) || c == ':'
}

pub fn digit_char(c: char) -> (r: bool)
    ensures
        r == is_digit_char(c),
{
    '0' <= c && c <= '9'
}

pub fn space_char(c: char) -> (r: bool)
    ensures
        r == is_space_char(c),
{
    c == ' ' || c == '\t' || c == '\n' || c == '\r' || c == '\u{b}' || c == '\u{c}'
}

pub fn mac_char(c: char) -> (r: bool)
    ensures
        r == is_mac_char(c),
{
    ('0' <= c && c <= '9') || ('a' <= c && c <= 'f') || ('A' <= c && c <= 'F') || c == ':'
}

// ---------------------------------------------------------------------------
// Conversion between strings and character vectors
// ---------------------------------------------------------------------------

/// Collects the characters of a string slice into a vector with the same view.
pub fn chars_of(s: &str) -> (r: Vec<char>)
    ensures
        r@ == s@,
{
    let n = s.unicode_len();
    let mut r: Vec<char> = Vec::new();
    let mut i: usize = 0;
    while i < n
        invariant
            i <= n,
            n == s@.len(),
            r@ == s@.subrange(0, i as int),
        decreases n - i,
    {
        r.push(s.get_char(i));
        i = i + 1;
        proof {
            assert(r@ =~= s@.subrange(0, i as int));
        }
    }
    proof {
        assert(r@ =~= s@);
    }
    r
}

/// Equality of two character vectors.
pub fn chars_eq(a: &Vec<char>, b: &Vec<char>) -> (r: bool)
    ensures
        r == (a@ == b@),
{
    if a.len() != b.len() {
        proof {
            assert(a@.len() != b@.len());
        }
        return false;
    }
    let mut i: usize = 0;
    while i < a.len()
        invariant
            i <= a.len(),
            a@.len() == b@.len(),
            forall|j: int| 0 <= j < i ==> a@[j] == b@[j],
        decreases a.len() - i,
    {
        if a[i] != b[i] {
            return false;
        }
        i = i + 1;
    }
    proof {
        assert(a@ =~= b@);
    }
    true
}

/// Whether a string slice reads the same as a character vector.
pub fn str_eq_chars(s: &str, v: &Vec<char>) -> (r: bool)
    ensures
        r == (s@ == v@),
{
    let c = chars_of(s);
    chars_eq(&c, v)
}

// ---------------------------------------------------------------------------
// Substring containment
// ---------------------------------------------------------------------------

pub open spec fn contains_at(l: Seq<char>, pat: Seq<char>, i: int) -> bool {
    0 <= i && i + pat.len() <= l.len() && l.subrange(i, i + pat.len() as int) == pat
}

/// `pat` occurs somewhere in `l`.
pub open spec fn contains_seq(l: Seq<char>, pat: Seq<char>) -> bool {
    exists|i: int| contains_at(l, pat, i)
}

/// Substring search: does `pat` occur in `l`?
pub fn contains_pat(l: &Vec<char>, pat: &Vec<char>) -> (r: bool)
    ensures
        r == contains_seq(l@, pat@),
{
    if pat.len() > l.len() {
        proof {
            assert(forall|i: int| !contains_at(l@, pat@, i));
        }
        return false;
    }
    if pat.len() == 0 {
        proof {
            assert(l@.subrange(0, 0) =~= pat@);
            assert(contains_at(l@, pat@, 0));
        }
        return true;
    }
    let mut i: usize = 0;
    let last = l.len() - pat.len();
    while i <= last
        invariant
            l@.len() >= pat@.len(),
            pat@.len() >= 1,
            l@.len() <= usize::MAX as int,
            last == l@.len() - pat@.len(),
            i <= last + 1,
            forall|j: int| 0 <= j < i ==> !contains_at(l@, pat@, j),
        decreases last + 1 - i,
    {
        let mut k: usize = 0;
        let mut same = true;
        while same && k < pat.len()
            invariant
                i <= last,
                last == l@.len() - pat@.len(),
                l@.len() >= pat@.len(),
                l@.len() <= usize::MAX as int,
                k <= pat@.len(),
                same ==> (forall|m: int| 0 <= m < k ==> l@[i + m] == pat@[m]),
                !same ==> !contains_at(l@, pat@, i as int),
            decreases (if same { 1int } else { 0int }), pat@.len() - k,
        {
            if l[i + k] != pat[k] {
                proof {
                    if contains_at(l@, pat@, i as int) {
                        assert(l@.subrange(i as int, i + pat@.len())[k as int] == pat@[k as int]);
                        assert(false);
                    }
                }
                same = false;
            } else {
                k = k + 1;
            }
        }
        if same {
            proof {
                assert(l@.subrange(i as int, i + pat@.len()) =~= pat@);
                assert(contains_at(l@, pat@, i as int));
            }
            return true;
        }
        i = i + 1;
    }
    proof {
        assert forall|j: int| !contains_at(l@, pat@, j) by {
            if 0 <= j && j + pat@.len() <= l@.len() {
                assert(j <= last);
            }
        }
    }
    false
}

// ---------------------------------------------------------------------------
// First occurrence of a character
// ---------------------------------------------------------------------------

pub open spec fn find_first(s: Seq<char>, c: char) -> Option<int>
    decreases s.len(),
{
    if s.len() == 0 {
        None
    } else if s[0] == c {
        Some(0int)
    } else {
        match find_first(s.skip(1), c) {
            Some(i) => Some(i + 1),
            None => None,
        }
    }
}

pub proof fn lemma_find_first(s: Seq<char>, c: char)
    ensures
        match find_first(s, c) {
            Some(i) => 0 <= i < s.len() && s[i] == c && forall|j: int| 0 <= j < i ==> s[j] != c,
            None => forall|j: int| 0 <= j < s.len() ==> s[j] != c,
        },
    decreases s.len(),
{
    if s.len() > 0 && s[0] != c {
        lemma_find_first(s.skip(1), c);
        match find_first(s.skip(1), c) {
            Some(i) => {
                assert(s[i + 1] == s.skip(1)[i] && s.skip(1)[i] == c);
                assert forall|j: int| 0 <= j < i + 1 implies s[j] != c by {
                    if j >= 1 {
                        assert(s.skip(1)[j - 1] == s[j]);
                    }
                }
            },
            None => {
                assert forall|j: int| 0 <= j < s.len() implies s[j] != c by {
                    if j >= 1 {
                        assert(s.skip(1)[j - 1] == s[j]);
                    }
                }
            },
        }
    }
}

/// First index at or after 0 holding `c`, if any.
pub fn find_char(v: &Vec<char>, c: char) -> (r: Option<usize>)
    ensures
        match r {
            Some(i) => find_first(v@, c) == Some(i as int),
            None => find_first(v@, c) == None::<int>,
        },
{
    proof {
        lemma_find_first(v@, c);
    }
    let mut i: usize = 0;
    while i < v.len()
        invariant
            i <= v@.len(),
            forall|j: int| 0 <= j < i ==> v@[j] != c,
            match find_first(v@, c) {
                Some(k) => 0 <= k < v@.len() && v@[k] == c && forall|j: int|
                    0 <= j < k ==> v@[j] != c,
                None => forall|j: int| 0 <= j < v@.len() ==> v@[j] != c,
            },
        decreases v.len() - i,
    {
        if v[i] == c {
            proof {
                if find_first(v@, c) is None {
                    assert(false);
                }
                let k = find_first(v@, c)->Some_0;
                assert(!(k < i) && !(i < k));
            }
            return Some(i);
        }
        i = i + 1;
    }
    proof {
        if find_first(v@, c) is Some {
            assert(false);
        }
    }
    None
}

// ---------------------------------------------------------------------------
// Trimming
// ---------------------------------------------------------------------------

pub open spec fn trim_start_spec(s: Seq<char>) -> Seq<char>
    decreases s.len(),
{
    if s.len() > 0 && is_space_char(s[0]) {
        trim_start_spec(s.skip(1))
    } else {
        s
    }
}

pub open spec fn trim_end_spec(s: Seq<char>) -> Seq<char>
    decreases s.len(),
{
    if s.len() > 0 && is_space_char(s.last()) {
        trim_end_spec(s.drop_last())
    } else {
        s
    }
}

/// Whitespace removed from both ends.
pub open spec fn trim_spec(s: Seq<char>) -> Seq<char> {
    trim_end_spec(trim_start_spec(s))
}

pub proof fn lemma_trim_start_skip(s: Seq<char>, k: int)
    requires
        0 <= k <= s.len(),
        forall|j: int| 0 <= j < k ==> is_space_char(s[j]),
        k < s.len() ==> !is_space_char(s[k]),
    ensures
        trim_start_spec(s) == s.skip(k),
    decreases k,
{
    if k == 0 {
        if s.len() > 0 && is_space_char(s[0]) {
            assert(false);
        }
        assert(s.skip(0) =~= s);
    } else {
        lemma_trim_start_skip(s.skip(1), k - 1);
        assert(s.skip(1).skip(k - 1) =~= s.skip(k));
    }
}

pub proof fn lemma_trim_end_take(s: Seq<char>, k: int)
    requires
        0 <= k <= s.len(),
        forall|j: int| k <= j < s.len() ==> is_space_char(s[j]),
        k > 0 ==> !is_space_char(s[k - 1]),
    ensures
        trim_end_spec(s) == s.take(k),
    decreases s.len() - k,
{
    if k == s.len() {
        if s.len() > 0 && is_space_char(s.last()) {
            assert(false);
        }
        assert(s.take(k) =~= s);
    } else {
        assert(is_space_char(s.last()));
        lemma_trim_end_take(s.drop_last(), k);
        assert(s.drop_last().take(k) =~= s.take(k));
    }
}

/// Copy of `v` with leading and trailing whitespace removed.
pub fn trim_chars(v: &Vec<char>) -> (r: Vec<char>)
    ensures
        r@ == trim_spec(v@),
{
    let mut a: usize = 0;
    while a < v.len() && space_char(v[a])
        invariant
            a <= v@.len(),
            forall|j: int| 0 <= j < a ==> is_space_char(v@[j]),
        decreases v.len() - a,
    {
        a = a + 1;
    }
    proof {
        lemma_trim_start_skip(v@, a as int);
    }
    let mut b: usize = v.len();
    while b > a && space_char(v[b - 1])
        invariant
            a <= b <= v@.len(),
            forall|j: int| b <= j < v@.len() ==> is_space_char(v@[j]),
            trim_start_spec(v@) == v@.skip(a as int),
        decreases b,
    {
        b = b - 1;
    }
    proof {
        if b > a {
            assert(!is_space_char(v@[b - 1]));
        }
        lemma_trim_end_take(v@.skip(a as int), b - a);
    }
    let mut r: Vec<char> = Vec::new();
    let mut i: usize = a;
    while i < b
        invariant
            a <= i <= b <= v@.len(),
            r@ == v@.subrange(a as int, i as int),
        decreases b - i,
    {
        r.push(v[i]);
        i = i + 1;
        proof {
            assert(r@ =~= v@.subrange(a as int, i as int));
        }
    }
    proof {
        assert(v@.subrange(a as int, b as int) =~= v@.skip(a as int).take(b - a));
    }
    r
}

// ---------------------------------------------------------------------------
// Splitting on a single character
// ---------------------------------------------------------------------------

/// Pieces of `s` between occurrences of `sep`; always at least one piece.
pub open spec fn split_char_spec(s: Seq<char>, sep: char) -> Seq<Seq<char>>
    decreases s.len(),
{
    if s.len() == 0 {
        seq![Seq::<char>::empty()]
    } else if s[0] == sep {
        seq![Seq::<char>::empty()] + split_char_spec(s.skip(1), sep)
    } else {
        let rest = split_char_spec(s.skip(1), sep);
        seq![seq![s[0]] + rest[0]] + rest.skip(1)
    }
}

pub proof fn lemma_split_char_len(s: Seq<char>, sep: char)
    ensures
        split_char_spec(s, sep).len() >= 1,
    decreases s.len(),
{
    if s.len() > 0 {
        lemma_split_char_len(s.skip(1), sep);
    }
}

/// Splits `v` on `sep`, matching `split_char_spec` piecewise.
pub fn split_on_char(v: &Vec<char>, sep: char) -> (r: Vec<Vec<char>>)
    ensures
        r@.len() == split_char_spec(v@, sep).len(),
        forall|i: int| 0 <= i < r@.len() ==> r@[i]@ == split_char_spec(v@, sep)[i],
{
    let mut done: Vec<Vec<char>> = Vec::new();
    let mut cur: Vec<char> = Vec::new();
    let mut i: usize = 0;
    proof {
        lemma_split_char_len(v@, sep);
        let suffix = split_char_spec(v@, sep);
        assert(v@.skip(0) =~= v@);
        assert(cur@ + suffix[0] =~= suffix[0]);
        assert(done@.map_values(|x: Vec<char>| x@) + seq![cur@ + suffix[0]] + suffix.skip(1)
            =~= suffix);
    }
    while i < v.len()
        invariant
            i <= v@.len(),
            split_char_spec(v@, sep).len() >= 1,
            ({
                let suffix = split_char_spec(v@.skip(i as int), sep);
                let whole = split_char_spec(v@, sep);
                whole =~= done@.map_values(|x: Vec<char>| x@) + seq![cur@ + suffix[0]]
                    + suffix.skip(1)
            }),
        decreases v.len() - i,
    {
        proof {
            lemma_split_char_len(v@.skip(i as int), sep);
            lemma_split_char_len(v@.skip(i + 1), sep);
            assert(v@.skip(i as int).skip(1) =~= v@.skip(i + 1));
        }
        let ghost old_done = done@;
        let ghost old_cur = cur@;
        if v[i] == sep {
            done.push(cur);
            cur = Vec::new();
            proof {
                let suffix = split_char_spec(v@.skip(i as int), sep);
                let nsuffix = split_char_spec(v@.skip(i + 1), sep);
                assert(v@.skip(i as int)[0] == sep);
                assert(suffix =~= seq![Seq::<char>::empty()] + nsuffix);
                assert(old_cur + suffix[0] =~= old_cur);
                assert(done@.map_values(|x: Vec<char>| x@) =~= old_done.map_values(
                    |x: Vec<char>| x@,
                ).push(old_cur));
                assert(split_char_spec(v@, sep) =~= done@.map_values(|x: Vec<char>| x@) + seq![
                    cur@ + nsuffix[0],
                ] + nsuffix.skip(1));
            }
        } else {
            let c = v[i];
            cur.push(c);
            proof {
                let suffix = split_char_spec(v@.skip(i as int), sep);
                let nsuffix = split_char_spec(v@.skip(i + 1), sep);
                assert(v@.skip(i as int)[0] == c && c != sep);
                assert(suffix =~= seq![seq![c] + nsuffix[0]] + nsuffix.skip(1));
                assert(old_cur + suffix[0] =~= cur@ + nsuffix[0]);
                assert(suffix.skip(1) =~= nsuffix.skip(1));
                assert(split_char_spec(v@, sep) =~= done@.map_values(|x: Vec<char>| x@) + seq![
                    cur@ + nsuffix[0],
                ] + nsuffix.skip(1));
            }
        }
        i = i + 1;
    }
    proof {
        let suffix = split_char_spec(v@.skip(i as int), sep);
        assert(v@.skip(i as int) =~= Seq::<char>::empty());
        assert(suffix =~= seq![Seq::<char>::empty()]);
        assert(cur@ + suffix[0] =~= cur@);
    }
    done.push(cur);
    proof {
        assert(split_char_spec(v@, sep) =~= done@.map_values(|x: Vec<char>| x@));
        assert(forall|k: int|
            0 <= k < done@.len() ==> done@.map_values(|x: Vec<char>| x@)[k] == #[trigger] done@[k]@);
    }
    done
}

// ---------------------------------------------------------------------------
// Decimal integer parsing
// ---------------------------------------------------------------------------

/// Value of a digit string, most significant digit first.
pub open spec fn digits_val(s: Seq<char>) -> int
    decreases s.len(),
{
    if s.len() == 0 {
        0
    } else {
        digits_val(s.drop_last()) * 10 + (s.last() as int - '0' as int)
    }
}

pub open spec fn all_digits(s: Seq<char>) -> bool {
    forall|i: int| 0 <= i < s.len() ==> is_digit_char(#[trigger] s[i])
}

/// How `str::parse` reads an unsigned decimal: optional `+`, then digits.
pub open spec fn parse_uint_spec(s: Seq<char>) -> Option<int> {
    if s.len() >= 1 && s[0] == '+' {
        if s.len() >= 2 && all_digits(s.skip(1)) {
            Some(digits_val(s.skip(1)))
        } else {
            None
        }
    } else if s.len() >= 1 && all_digits(s) {
        Some(digits_val(s))
    } else {
        None
    }
}

/// How `str::parse` reads a signed decimal: optional `+`/`-`, then digits.
pub open spec fn parse_sint_spec(s: Seq<char>) -> Option<int> {
    if s.len() >= 1 && s[0] == '-' {
        if s.len() >= 2 && all_digits(s.skip(1)) {
            Some(-digits_val(s.skip(1)))
        } else {
            None
        }
    } else {
        parse_uint_spec(s)
    }
}

pub proof fn lemma_digits_val_nonneg(s: Seq<char>)
    requires
        all_digits(s),
    ensures
        digits_val(s) >= 0,
    decreases s.len(),
{
    if s.len() > 0 {
        assert(all_digits(s.drop_last())) by {
            assert(forall|i: int| 0 <= i < s.len() - 1 ==> s.drop_last()[i] == s[i]);
        }
        lemma_digits_val_nonneg(s.drop_last());
    }
}

/// Parses the digit run `v[from..]` as a value at most `max`;
/// `None` when a non-digit appears, the run is empty, or the value exceeds `max`.
fn parse_digits_capped(v: &Vec<char>, from: usize, max: u64) -> (r: Option<u64>)
    requires
        from <= v@.len(),
    ensures
        match r {
            Some(n) => all_digits(v@.skip(from as int)) && v@.len() > from && digits_val(
                v@.skip(from as int),
            ) == n && n <= max,
            None => !(all_digits(v@.skip(from as int)) && v@.len() > from && digits_val(
                v@.skip(from as int),
            ) <= max),
        },
{
    if v.len() == from {
        return None;
    }
    let mut acc: u64 = 0;
    let mut i: usize = from;
    while i < v.len()
        invariant
            from <= i <= v@.len(),
            acc <= max,
            all_digits(v@.subrange(from as int, i as int)),
            acc == digits_val(v@.subrange(from as int, i as int)),
        decreases v.len() - i,
    {
        let c = v[i];
        if !digit_char(c) {
            proof {
                assert(v@.skip(from as int)[i - from] == c);
            }
            return None;
        }
        let d: u64 = (c as u32 - '0' as u32) as u64;
        proof {
            assert(d <= 9);
        }
        let ghost pre = v@.subrange(from as int, i as int);
        let ghost post = v@.subrange(from as int, i + 1);
        proof {
            assert(post.drop_last() =~= pre);
            assert(post.last() == c);
            assert(all_digits(post)) by {
                assert(forall|j: int| 0 <= j < post.len() - 1 ==> post[j] == pre[j]);
            }
        }
        if acc > max / 10 || (acc == max / 10 && d > max % 10) {
            // The value of the whole run can only grow from here on.
            proof {
                vstd::arithmetic::div_mod::lemma_fundamental_div_mod(max as int, 10);
                assert(acc * 10 + d > max) by (nonlinear_arith)
                    requires
                        acc > max / 10 || (acc == max / 10 && d > max % 10),
                        max == 10 * (max / 10) + max % 10,
                        0 <= max % 10 < 10,
                        acc >= 0,
                        d >= 0,
                ;
                if all_digits(v@.skip(from as int)) {
                    lemma_digits_prefix_monotone(v@.skip(from as int), i + 1 - from);
                    assert(v@.skip(from as int).take(i + 1 - from) =~= post);
                }
            }
            return None;
        }
        proof {
            vstd::arithmetic::div_mod::lemma_fundamental_div_mod(max as int, 10);
            assert(acc * 10 + d <= max) by (nonlinear_arith)
                requires
                    acc <= max / 10,
                    acc == max / 10 ==> d <= max % 10,
                    max == 10 * (max / 10) + max % 10,
                    0 <= max % 10 < 10,
                    0 <= d <= 9,
                    acc >= 0,
            ;
        }
        acc = acc * 10 + d;
        i = i + 1;
    }
    proof {
        assert(v@.subrange(from as int, v@.len() as int) =~= v@.skip(from as int));
    }
    Some(acc)
}

/// A digit string is worth at least any of its prefixes.
proof fn lemma_digits_prefix_monotone(s: Seq<char>, k: int)
    requires
        0 <= k <= s.len(),
        all_digits(s),
    ensures
        digits_val(s) >= digits_val(s.take(k)),
    decreases s.len() - k,
{
    if k < s.len() {
        lemma_digits_prefix_monotone(s, k + 1);
        let a = s.take(k);
        let b = s.take(k + 1);
        assert(b.drop_last() =~= a);
        assert(is_digit_char(b.last()));
        assert(digits_val(a) >= 0) by {
            assert(all_digits(a)) by {
                assert(forall|i: int| 0 <= i < a.len() ==> a[i] == s[i]);
            }
            lemma_digits_val_nonneg(a);
        }
        assert(digits_val(b) == digits_val(a) * 10 + (b.last() as int - '0' as int));
        assert(digits_val(a) * 10 >= digits_val(a)) by (nonlinear_arith)
            requires
                digits_val(a) >= 0,
        ;
    } else {
        assert(s.take(k) =~= s);
    }
}

/// A successfully parsed unsigned decimal is non-negative.
pub proof fn lemma_parse_uint_nonneg(s: Seq<char>)
    requires
        parse_uint_spec(s) is Some,
    ensures
        parse_uint_spec(s)->Some_0 >= 0,
{
    if s.len() >= 1 && s[0] == '+' {
        lemma_digits_val_nonneg(s.skip(1));
    } else {
        lemma_digits_val_nonneg(s);
    }
}

/// Parses `v` as an unsigned decimal no greater than `max`, with
/// `str::parse` grammar: `None` exactly where Rust's parse errs for a
/// type whose range is `0..=max`.
pub fn parse_uint_max(v: &Vec<char>, max: u64) -> (r: Option<u64>)
    ensures
        match r {
            Some(n) => parse_uint_spec(v@) == Some(n as int) && n <= max,
            None => match parse_uint_spec(v@) {
                Some(m) => !(0 <= m <= max),
                None => true,
            },
        },
{
    if v.len() == 0 {
        return None;
    }
    let from: usize = if v[0] == '+' {
        1
    } else {
        0
    };
    let r = parse_digits_capped(v, from, max);
    proof {
        if from == 1 {
            if v@.len() >= 2 && all_digits(v@.skip(1)) {
                lemma_digits_val_nonneg(v@.skip(1));
            }
        } else {
            if all_digits(v@) {
                lemma_digits_val_nonneg(v@);
            } else {
                assert(!(v@.len() > 0 && all_digits(v@.skip(0))) ==> parse_uint_spec(v@)
                    is None) by {
                    assert(v@.skip(0) =~= v@);
                }
            }
            assert(v@.skip(0) =~= v@);
        }
    }
    r
}

/// Parses `v` as a signed decimal within `[min, max]`, with `str::parse`
/// grammar; `None` exactly where Rust's parse errs for that range.
pub fn parse_sint_range(v: &Vec<char>, min: i64, max: i64) -> (r: Option<i64>)
    requires
        min <= 0 <= max,
    ensures
        match r {
            Some(n) => parse_sint_spec(v@) == Some(n as int) && min <= n <= max,
            None => match parse_sint_spec(v@) {
                Some(m) => !(min <= m <= max),
                None => true,
            },
        },
{
    if v.len() == 0 {
        return None;
    }
    if v[0] == '-' {
        let cap: u64 = if min == i64::MIN {
            9223372036854775808u64
        } else {
            (-min) as u64
        };
        proof {
            assert(cap as int == -(min as int));
        }
        match parse_digits_capped(v, 1, cap) {
            Some(m) => {
                proof {
                    lemma_digits_val_nonneg(v@.skip(1));
                    assert(v@.len() >= 2);
                    assert(parse_sint_spec(v@) == Some(-digits_val(v@.skip(1))));
                    assert(digits_val(v@.skip(1)) == m as int);
                }
                let n: i64 = if m == 9223372036854775808u64 {
                    i64::MIN
                } else {
                    -(m as i64)
                };
                proof {
                    assert(n as int == -(m as int));
                }
                Some(n)
            },
            None => {
                proof {
                    if v@.len() >= 2 && all_digits(v@.skip(1)) {
                        lemma_digits_val_nonneg(v@.skip(1));
                        let dv = digits_val(v@.skip(1));
                        assert(parse_sint_spec(v@) == Some(-dv));
                        assert(dv > cap as int);
                        assert(-dv < min as int);
                    }
                }
                None
            },
        }
    } else {
        match parse_uint_max(v, max as u64) {
            Some(n) => Some(n as i64),
            None => {
                proof {
                    if parse_uint_spec(v@) is Some {
                        lemma_parse_uint_nonneg(v@);
                    }
                }
                None
            },
        }
    }
}

// ---------------------------------------------------------------------------
// Decimal integer formatting
// ---------------------------------------------------------------------------

pub open spec fn digit_to_char(d: int) -> char {
    (d + '0' as int) as char
}

/// Decimal rendering of a non-negative value, most significant digit first.
pub open spec fn fmt_nat_spec(n: int) -> Seq<char>
    decreases n,
{
    if n < 10 {
        seq![digit_to_char(n)]
    } else {
        fmt_nat_spec(n / 10).push(digit_to_char(n % 10))
    }
}

/// Decimal rendering of a signed value.
pub open spec fn fmt_int_spec(n: int) -> Seq<char> {
    if n < 0 {
        seq!['-'] + fmt_nat_spec(-n)
    } else {
        fmt_nat_spec(n)
    }
}

fn digit_str(d: u64) -> (r: &'static str)
    requires
        d < 10,
    ensures
        r@ == seq![digit_to_char(d as int)],
{
    proof {
        reveal_strlit("0");
        reveal_strlit("1");
        reveal_strlit("2");
        reveal_strlit("3");
        reveal_strlit("4");
        reveal_strlit("5");
        reveal_strlit("6");
        reveal_strlit("7");
        reveal_strlit("8");
        reveal_strlit("9");
    }
    let r: &'static str = if d == 0 {
        "0"
    } else if d == 1 {
        "1"
    } else if d == 2 {
        "2"
    } else if d == 3 {
        "3"
    } else if d == 4 {
        "4"
    } else if d == 5 {
        "5"
    } else if d == 6 {
        "6"
    } else if d == 7 {
        "7"
    } else if d == 8 {
        "8"
    } else {
        "9"
    };
    proof {
        assert(r@ =~= seq![digit_to_char(d as int)]);
    }
    r
}

/// Renders `n` in decimal.
pub fn fmt_u64(n: u64) -> (r: String)
    ensures
        r@ == fmt_nat_spec(n as int),
    decreases n,
{
    if n < 10 {
        let mut s = String::new();
        s.append(digit_str(n));
        proof {
            assert(s@ =~= fmt_nat_spec(n as int));
        }
        s
    } else {
        let mut s = fmt_u64(n / 10);
        s.append(digit_str(n % 10));
        proof {
            assert(s@ =~= fmt_nat_spec(n as int));
        }
        s
    }
}

/// Renders `n` in decimal with a leading minus sign when negative.
pub fn fmt_i64(n: i64) -> (r: String)
    ensures
        r@ == fmt_int_spec(n as int),
{
    if n >= 0 {
        fmt_u64(n as u64)
    } else {
        let m: u64 = if n == i64::MIN {
            9223372036854775808u64
        } else {
            (-n) as u64
        };
        let mut s = String::new();
        s.append("-");
        s.append(fmt_u64(m).as_str());
        proof {
            reveal_strlit("-");
            assert(s@ =~= fmt_int_spec(n as int));
        }
        s
    }
}

/// Every character of a formatted non-negative number is a digit.
pub proof fn lemma_fmt_nat_digits(n: int)
    requires
        n >= 0,
    ensures
        all_digits(fmt_nat_spec(n)),
        fmt_nat_spec(n).len() >= 1,
    decreases n,
{
    if n < 10 {
        assert(is_digit_char(digit_to_char(n)));
    } else {
        lemma_fmt_nat_digits(n / 10);
        assert(is_digit_char(digit_to_char(n % 10)));
        assert(forall|i: int|
            0 <= i < fmt_nat_spec(n).len() ==> is_digit_char(#[trigger] fmt_nat_spec(n)[i]));
    }
}

/// Formatting then reading back the digits gives the value again.
pub proof fn lemma_fmt_nat_val(n: int)
    requires
        n >= 0,
    ensures
        digits_val(fmt_nat_spec(n)) == n,
    decreases n,
{
    if n < 10 {
        let s = fmt_nat_spec(n);
        assert(s.drop_last() =~= Seq::<char>::empty());
        assert(digits_val(Seq::<char>::empty()) == 0);
        assert(0 <= (n + '0' as int) && (n + '0' as int) < 0xD800);
        assert(digit_to_char(n) as int == n + '0' as int);
        assert(s.last() == digit_to_char(n));
        assert(digits_val(s) == digits_val(s.drop_last()) * 10 + (s.last() as int - '0' as int));
    } else {
        lemma_fmt_nat_val(n / 10);
        let s = fmt_nat_spec(n);
        assert(s.drop_last() =~= fmt_nat_spec(n / 10));
        assert(digit_to_char(n % 10) as int == n % 10 + '0' as int);
        vstd::arithmetic::div_mod::lemma_fundamental_div_mod(n, 10);
    }
}

/// A rendered unsigned number parses back to itself.
pub proof fn lemma_parse_fmt_nat(n: int)
    requires
        n >= 0,
    ensures
        parse_uint_spec(fmt_nat_spec(n)) == Some(n),
        parse_sint_spec(fmt_nat_spec(n)) == Some(n),
{
    lemma_fmt_nat_digits(n);
    lemma_fmt_nat_val(n);
    let s = fmt_nat_spec(n);
    assert(is_digit_char(s[0]));
    assert(s[0] != '+' && s[0] != '-');
}

/// A rendered signed number parses back to itself.
pub proof fn lemma_parse_fmt_int(n: int)
    ensures
        parse_sint_spec(fmt_int_spec(n)) == Some(n),
{
    if n >= 0 {
        lemma_parse_fmt_nat(n);
    } else {
        lemma_fmt_nat_digits(-n);
        lemma_fmt_nat_val(-n);
        let s = fmt_int_spec(n);
        assert(s[0] == '-');
        assert(s.skip(1) =~= fmt_nat_spec(-n));
        assert(s.len() >= 2);
    }
}

/// Every character of a formatted signed number is a digit or the sign.
pub proof fn lemma_fmt_int_chars(n: int)
    ensures
        forall|i: int|
            0 <= i < fmt_int_spec(n).len() ==> (is_digit_char(#[trigger] fmt_int_spec(n)[i])
                || fmt_int_spec(n)[i] == '-'),
{
    if n >= 0 {
        lemma_fmt_nat_digits(n);
    } else {
        lemma_fmt_nat_digits(-n);
        assert(forall|i: int|
            1 <= i < fmt_int_spec(n).len() ==> fmt_int_spec(n)[i] == fmt_nat_spec(-n)[i - 1]);
    }
}


/// A separator-free prefix splits off whole.
pub proof fn lemma_split_prepend(a: Seq<char>, rest: Seq<char>, sep: char)
    requires
        forall|i: int| 0 <= i < a.len() ==> a[i] != sep,
    ensures
        split_char_spec(a + seq![sep] + rest, sep) == seq![a] + split_char_spec(rest, sep),
    decreases a.len(),
{
    let s = a + seq![sep] + rest;
    if a.len() == 0 {
        assert(s[0] == sep);
        assert(s.skip(1) =~= rest);
        assert(a =~= Seq::<char>::empty());
        assert(split_char_spec(s, sep) == seq![Seq::<char>::empty()] + split_char_spec(
            s.skip(1),
            sep,
        ));
        assert(seq![Seq::<char>::empty()] + split_char_spec(rest, sep) =~= seq![a]
            + split_char_spec(rest, sep));
    } else {
        assert(s[0] == a[0] && a[0] != sep);
        assert(s.skip(1) =~= a.skip(1) + seq![sep] + rest);
        assert(forall|i: int| 0 <= i < a.skip(1).len() ==> a.skip(1)[i] == a[i + 1]);
        lemma_split_prepend(a.skip(1), rest, sep);
        let inner = split_char_spec(a.skip(1) + seq![sep] + rest, sep);
        assert(inner == seq![a.skip(1)] + split_char_spec(rest, sep));
        assert(split_char_spec(s, sep) == seq![seq![s[0]] + inner[0]] + inner.skip(1));
        assert(seq![s[0]] + inner[0] =~= a);
        assert(inner.skip(1) =~= split_char_spec(rest, sep));
        assert(split_char_spec(s, sep) =~= seq![a] + split_char_spec(rest, sep));
    }
}

/// Separator-free text is one single piece.
pub proof fn lemma_split_no_sep(a: Seq<char>, sep: char)
    requires
        forall|i: int| 0 <= i < a.len() ==> a[i] != sep,
    ensures
        split_char_spec(a, sep) == seq![a],
    decreases a.len(),
{
    if a.len() > 0 {
        assert(forall|i: int| 0 <= i < a.skip(1).len() ==> a.skip(1)[i] == a[i + 1]);
        lemma_split_no_sep(a.skip(1), sep);
        let rest = split_char_spec(a.skip(1), sep);
        assert(seq![a[0]] + rest[0] =~= a);
        assert(split_char_spec(a, sep) =~= seq![a]);
    } else {
        assert(a =~= Seq::<char>::empty());
        assert(split_char_spec(a, sep) =~= seq![a]);
    }
}

/// Only the leading character of a rendered signed number can be the
/// sign; the rest are digits.
pub proof fn lemma_fmt_int_tail_digits(n: int)
    ensures
        fmt_int_spec(n).len() >= 1,
        forall|j: int| 1 <= j < fmt_int_spec(n).len() ==> is_digit_char(#[trigger] fmt_int_spec(n)[j]),
        is_digit_char(fmt_int_spec(n)[0]) || fmt_int_spec(n)[0] == '-',
{
    if n >= 0 {
        lemma_fmt_nat_digits(n);
    } else {
        lemma_fmt_nat_digits(-n);
        assert(forall|j: int|
            1 <= j < fmt_int_spec(n).len() ==> fmt_int_spec(n)[j] == fmt_nat_spec(-n)[j - 1]);
    }
}

} // verus!
