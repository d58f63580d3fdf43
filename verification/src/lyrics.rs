//! LRC lyric parsing.
//!
//! Each line of an LRC file carries zero or more bracketed timestamps
//! `[mm:ss]`, `[mm:ss.x]`, `[mm:ss.xx]` or `[mm:ss.xxx]` followed by the
//! line's text; several timestamps on one line replicate the text.  Minutes
//! are bounded by 6000 and seconds by 60; the fractional part is padded on
//! the right to milliseconds, and digits past the third are ignored.  An
//! invalid timestamp token is skipped; a line without any valid timestamp
//! contributes nothing; the parsed list comes out sorted by timestamp.
//!
//! The grammar is stated as spec functions over `Seq<char>` and every parsing
//! function returns exactly what the grammar assigns to its input.

use vstd::prelude::*;
use vstd::string::*;
use vstd::seq_lib::*;
use vstd::multiset::Multiset;

verus! {

/// One synchronized lyric line: a timestamp in milliseconds and its text.
#[derive(Debug, Clone)]
pub struct LyricsLine {
    pub timestamp: u32,
    pub text: String,
}

impl PartialEq for LyricsLine {
    fn eq(&self, other: &LyricsLine) -> (r: bool) {
        self.timestamp == other.timestamp && self.text == other.text
    }
}

impl vstd::std_specs::cmp::PartialEqSpecImpl for LyricsLine {
    open spec fn obeys_eq_spec() -> bool {
        true
    }

    open spec fn eq_spec(&self, other: &LyricsLine) -> bool {
        self.timestamp == other.timestamp && self.text@ == other.text@
    }
}

/// The pair a lyric line denotes: timestamp and text characters.
pub open spec fn line_view(line: LyricsLine) -> (u32, Seq<char>) {
    (line.timestamp, line.text@)
}

/// The pairs a sequence of lyric lines denotes.
pub open spec fn views_of(s: Seq<LyricsLine>) -> Seq<(u32, Seq<char>)> {
    Seq::new(s.len(), |i: int| line_view(s[i]))
}

/// Whitespace stripped from around tokens: blank, tab, carriage return,
/// line feed.
pub open spec fn is_ws(c: char) -> bool {
    c == ' ' || c == '\t' || c == '\r' || c == '\n'
}

/// An ASCII decimal digit.
pub open spec fn is_digit(c: char) -> bool {
    48 <= c as u32 <= 57
}

/// Numeric value of an ASCII digit.
pub open spec fn digit_val(c: char) -> u32 {
    (c as u32 - 48) as u32
}

/// All characters of `s` are decimal digits.
pub open spec fn all_digits(s: Seq<char>) -> bool {
    forall|i: int| 0 <= i < s.len() ==> is_digit(#[trigger] s[i])
}

/// Value of a digit string read in base ten (unbounded).
pub open spec fn digits_value(s: Seq<char>) -> nat
    decreases s.len(),
{
    if s.len() == 0 {
        0
    } else {
        (digits_value(s.drop_last()) * 10 + digit_val(s.last())) as nat
    }
}

/// `s` with leading whitespace removed.
pub open spec fn spec_trim_start(s: Seq<char>) -> Seq<char>
    decreases s.len(),
{
    if s.len() > 0 && is_ws(s[0]) {
        spec_trim_start(s.drop_first())
    } else {
        s
    }
}

/// `s` with trailing whitespace removed.
pub open spec fn spec_trim_end(s: Seq<char>) -> Seq<char>
    decreases s.len(),
{
    if s.len() > 0 && is_ws(s.last()) {
        spec_trim_end(s.drop_last())
    } else {
        s
    }
}

/// `s` with whitespace removed from both ends.
pub open spec fn spec_trim(s: Seq<char>) -> Seq<char> {
    spec_trim_end(spec_trim_start(s))
}

/// Index of the first occurrence of `c` in `s`, or -1 when absent.
pub open spec fn first_index_of(s: Seq<char>, c: char) -> int
    decreases s.len(),
{
    if s.len() == 0 {
        -1
    } else if s[0] == c {
        0
    } else {
        let r = first_index_of(s.drop_first(), c);
        if r == -1 {
            -1
        } else {
            r + 1
        }
    }
}

/// What `first_index_of` finds: the unique first occurrence, or nothing.
pub proof fn lemma_first_index_of(s: Seq<char>, c: char)
    ensures
        first_index_of(s, c) == -1 ==> forall|i: int| 0 <= i < s.len() ==> s[i] != c,
        first_index_of(s, c) != -1 ==> {
            let r = first_index_of(s, c);
            0 <= r < s.len() && s[r] == c && forall|i: int| 0 <= i < r ==> s[i] != c
        },
    decreases s.len(),
{
    if s.len() > 0 && s[0] != c {
        lemma_first_index_of(s.drop_first(), c);
        let t = s.drop_first();
        assert(forall|i: int| 1 <= i < s.len() ==> #[trigger] s[i] == t[i - 1]);
    }
}

/// A prefix of whitespace followed by a non-whitespace boundary pins down
/// `spec_trim_start`.
pub proof fn lemma_trim_start_at(s: Seq<char>, k: int)
    requires
        0 <= k <= s.len(),
        forall|i: int| 0 <= i < k ==> is_ws(#[trigger] s[i]),
        k == s.len() || !is_ws(s[k]),
    ensures
        spec_trim_start(s) == s.subrange(k, s.len() as int),
    decreases k,
{
    if k == 0 {
        assert(s.subrange(0, s.len() as int) =~= s);
    } else {
        let t = s.drop_first();
        assert(forall|i: int| 0 <= i < t.len() ==> t[i] == s[i + 1]);
        lemma_trim_start_at(t, k - 1);
        assert(t.subrange(k - 1, t.len() as int) =~= s.subrange(k, s.len() as int));
    }
}

/// A suffix of whitespace preceded by a non-whitespace boundary pins down
/// `spec_trim_end`.
pub proof fn lemma_trim_end_at(s: Seq<char>, k: int)
    requires
        0 <= k <= s.len(),
        forall|i: int| k <= i < s.len() ==> is_ws(#[trigger] s[i]),
        k == 0 || !is_ws(s[k - 1]),
    ensures
        spec_trim_end(s) == s.subrange(0, k),
    decreases s.len() - k,
{
    if k == s.len() {
        assert(s.subrange(0, s.len() as int) =~= s);
    } else {
        let t = s.drop_last();
        lemma_trim_end_at(t, k);
        assert(t.subrange(0, k) =~= s.subrange(0, k));
    }
}

/// Appending digits never shrinks the value.
pub proof fn lemma_digits_value_monotone(s: Seq<char>, i: int, j: int)
    requires
        0 <= i <= j <= s.len(),
    ensures
        digits_value(s.subrange(0, i)) <= digits_value(s.subrange(0, j)),
    decreases j - i,
{
    if i < j {
        lemma_digits_value_monotone(s, i, j - 1);
        let p = s.subrange(0, j);
        assert(p.drop_last() =~= s.subrange(0, j - 1));
    }
}

/// A trimmed, non-empty digit string whose value fits in 32 bits; what
/// `u32` parsing accepts.
pub open spec fn spec_parse_u32(s: Seq<char>) -> Option<u32> {
    let t = spec_trim(s);
    if t.len() > 0 && all_digits(t) && digits_value(t) <= u32::MAX {
        Some(digits_value(t) as u32)
    } else {
        None
    }
}

/// Milliseconds denoted by an already-trimmed fractional token: empty means
/// zero, any non-digit rejects, and only the first three digits count.
pub open spec fn spec_fraction_millis(f: Seq<char>) -> Option<u32> {
    if f.len() == 0 {
        Some(0u32)
    } else if !all_digits(f) {
        None
    } else {
        let d1 = digit_val(f[0]);
        let d2 = if f.len() >= 2 {
            digit_val(f[1])
        } else {
            0u32
        };
        let d3 = if f.len() >= 3 {
            digit_val(f[2])
        } else {
            0u32
        };
        Some((d1 * 100 + d2 * 10 + d3) as u32)
    }
}

/// The milliseconds denoted by a bracket token `mm:ss`, `mm:ss.` or
/// `mm:ss.fff`, with whitespace tolerated around each field; `None` on any
/// violation of the grammar (a second separator, minutes above 6000,
/// seconds at 60 or beyond, a non-digit anywhere).
pub open spec fn spec_parse_timestamp(s: Seq<char>) -> Option<u32> {
    let ci = first_index_of(s, ':');
    if ci < 0 {
        None
    } else {
        let mm_part = s.subrange(0, ci);
        let rest = s.subrange(ci + 1, s.len() as int);
        if first_index_of(rest, ':') >= 0 {
            None
        } else {
            match spec_parse_u32(mm_part) {
                None => None,
                Some(mm) => if mm > 6000 {
                    None
                } else {
                    let sf = spec_trim(rest);
                    let di = first_index_of(sf, '.');
                    let sec_part = if di < 0 {
                        sf
                    } else {
                        sf.subrange(0, di)
                    };
                    let frac_part = if di < 0 {
                        Seq::<char>::empty()
                    } else {
                        sf.subrange(di + 1, sf.len() as int)
                    };
                    if di >= 0 && first_index_of(frac_part, '.') >= 0 {
                        None
                    } else {
                        match spec_parse_u32(sec_part) {
                            None => None,
                            Some(ss) => if ss >= 60 {
                                None
                            } else {
                                match spec_fraction_millis(spec_trim(frac_part)) {
                                    None => None,
                                    Some(ms) => Some((mm * 60000 + ss * 1000 + ms) as u32),
                                }
                            },
                        }
                    }
                },
            }
        }
    }
}

/// The timestamps of the leading bracket groups of a line, together with
/// what remains once they stop: whitespace between groups is skipped, an
/// invalid bracket token is skipped without contributing a timestamp, and
/// an unclosed bracket ends the run and belongs to the text.
pub open spec fn spec_line_timestamps(s: Seq<char>) -> (Seq<u32>, Seq<char>)
    decreases s.len(),
{
    if s.len() == 0 {
        (Seq::<u32>::empty(), s)
    } else if is_ws(s[0]) {
        spec_line_timestamps(s.drop_first())
    } else if s[0] != '[' {
        (Seq::<u32>::empty(), s)
    } else {
        let inner = s.drop_first();
        let ci = first_index_of(inner, ']');
        if !(0 <= ci < inner.len()) {
            (Seq::<u32>::empty(), s)
        } else {
            let rec = spec_line_timestamps(inner.subrange(ci + 1, inner.len() as int));
            match spec_parse_timestamp(inner.subrange(0, ci)) {
                None => rec,
                Some(t) => (seq![t] + rec.0, rec.1),
            }
        }
    }
}

/// What one line denotes: its text, trimmed, replicated once per valid
/// timestamp; a line without a valid timestamp denotes nothing.
pub open spec fn spec_parse_line(s: Seq<char>) -> Seq<(u32, Seq<char>)> {
    let t = spec_trim(s);
    let (ts, rest) = spec_line_timestamps(t);
    if ts.len() == 0 {
        Seq::<(u32, Seq<char>)>::empty()
    } else {
        let text = spec_trim(rest);
        Seq::new(ts.len(), |i: int| (ts[i], text))
    }
}

/// What a whole LRC file denotes before sorting: the concatenation of what
/// its newline-separated lines denote.
pub open spec fn spec_parse_lrc(s: Seq<char>) -> Seq<(u32, Seq<char>)>
    decreases s.len(),
{
    let ni = first_index_of(s, '\n');
    if 0 <= ni < s.len() {
        spec_parse_line(s.subrange(0, ni)) + spec_parse_lrc(s.subrange(ni + 1, s.len() as int))
    } else {
        spec_parse_line(s)
    }
}

/// Lines ordered by non-decreasing timestamp.
pub open spec fn sorted_by_timestamp(s: Seq<LyricsLine>) -> bool {
    forall|i: int, j: int| 0 <= i < j < s.len() ==> s[i].timestamp <= s[j].timestamp
}

/// Scans `s` between `from` and `to` for the first occurrence of `c`.
fn find_char_in(s: &str, from: usize, to: usize, c: char) -> (r: Option<usize>)
    requires
        from <= to <= s@.len(),
    ensures
        match r {
            Some(k) => from <= k < to && first_index_of(s@.subrange(from as int, to as int), c)
                == k - from,
            None => first_index_of(s@.subrange(from as int, to as int), c) == -1,
        },
{
    let ghost sub = s@.subrange(from as int, to as int);
    let mut i = from;
    while i < to
        invariant
            from <= i <= to <= s@.len(),
            sub == s@.subrange(from as int, to as int),
            forall|j: int| from <= j < i ==> s@[j] != c,
        decreases to - i,
    {
        if s.get_char(i) == c {
            proof {
                lemma_first_index_of(sub, c);
                assert(sub[i - from] == s@[i as int]);
                assert(forall|j: int| 0 <= j < i - from ==> #[trigger] sub[j] != c);
            }
            return Some(i);
        }
        i += 1;
    }
    proof {
        lemma_first_index_of(sub, c);
        assert(forall|j: int| 0 <= j < sub.len() ==> #[trigger] sub[j] != c);
    }
    None
}

/// Whitespace-trimmed bounds of the token between `from` and `to`.
pub(crate) fn trim_range(s: &str, from: usize, to: usize) -> (r: (usize, usize))
    requires
        from <= to <= s@.len(),
    ensures
        from <= r.0 <= r.1 <= to,
        spec_trim(s@.subrange(from as int, to as int)) == s@.subrange(r.0 as int, r.1 as int),
{
    let ghost sub = s@.subrange(from as int, to as int);
    let mut lo = from;
    while lo < to && is_ws_exec(s.get_char(lo))
        invariant
            from <= lo <= to <= s@.len(),
            forall|j: int| from <= j < lo ==> is_ws(#[trigger] s@[j]),
        decreases to - lo,
    {
        lo += 1;
    }
    proof {
        assert(forall|j: int| 0 <= j < lo - from ==> sub[j] == s@[j + from]);
        if lo < to {
            assert(sub[lo - from] == s@[lo as int]);
        }
        lemma_trim_start_at(sub, lo - from);
        assert(sub.subrange(lo - from, sub.len() as int) =~= s@.subrange(lo as int, to as int));
    }
    let ghost started = s@.subrange(lo as int, to as int);
    let mut hi = to;
    while hi > lo && is_ws_exec(s.get_char(hi - 1))
        invariant
            from <= lo <= hi <= to <= s@.len(),
            forall|j: int| hi <= j < to ==> is_ws(#[trigger] s@[j]),
        decreases hi,
    {
        hi -= 1;
    }
    proof {
        assert(forall|j: int| hi - lo <= j < started.len() ==> started[j] == s@[j + lo] && is_ws(
            s@[j + lo],
        ));
        if hi > lo {
            assert(started[hi - lo - 1] == s@[hi - 1]);
        }
        lemma_trim_end_at(started, hi - lo);
        assert(started.subrange(0, hi - lo) =~= s@.subrange(lo as int, hi as int));
    }
    (lo, hi)
}

/// Exec test for the whitespace class used in trimming.
pub(crate) fn is_ws_exec(c: char) -> (r: bool)
    ensures
        r == is_ws(c),
{
    c == ' ' || c == '\t' || c == '\r' || c == '\n'
}

/// Parses the decimal token between `from` and `to`, whitespace tolerated
/// at both ends, rejecting overflow past `u32`.
fn parse_u32_range(s: &str, from: usize, to: usize) -> (r: Option<u32>)
    requires
        from <= to <= s@.len(),
    ensures
        r == spec_parse_u32(s@.subrange(from as int, to as int)),
{
    let ghost sub = s@.subrange(from as int, to as int);
    let (lo, hi) = trim_range(s, from, to);
    let ghost t = spec_trim(sub);
    proof {
        assert(t == s@.subrange(lo as int, hi as int));
    }
    if lo == hi {
        return None;
    }
    let mut acc: u64 = 0;
    let mut i = lo;
    while i < hi
        invariant
            from <= lo <= i <= hi <= to <= s@.len(),
            t == spec_trim(s@.subrange(from as int, to as int)),
            t == s@.subrange(lo as int, hi as int),
            all_digits(t.subrange(0, i - lo)),
            acc == digits_value(t.subrange(0, i - lo)),
            acc <= u32::MAX,
        decreases hi - i,
    {
        let c = s.get_char(i);
        let u = c as u32;
        proof {
            assert(t[i - lo] == s@[i as int]);
        }
        if u < 48 || u > 57 {
            proof {
                assert(!is_digit(t[i - lo]));
            }
            return None;
        }
        let d = u - 48;
        let next = acc * 10 + (d as u64);
        proof {
            let p = t.subrange(0, i - lo + 1);
            assert(p.drop_last() =~= t.subrange(0, i - lo));
            assert(p.last() == t[i - lo]);
            assert(all_digits(p)) by {
                assert(forall|j: int| 0 <= j < p.len() - 1 ==> p[j] == t.subrange(0, i - lo)[j]);
            }
        }
        if next > u32::MAX as u64 {
            proof {
                lemma_digits_value_monotone(t, i - lo + 1, t.len() as int);
                assert(t.subrange(0, t.len() as int) =~= t);
            }
            return None;
        }
        acc = next;
        i += 1;
    }
    proof {
        assert(t.subrange(0, hi - lo) =~= t);
    }
    Some(acc as u32)
}

/// Parses the fractional token between `from` and `to` (already trimmed by
/// the caller) into milliseconds.
fn parse_fraction_range(s: &str, from: usize, to: usize) -> (r: Option<u32>)
    requires
        from <= to <= s@.len(),
    ensures
        r == spec_fraction_millis(s@.subrange(from as int, to as int)),
{
    let ghost f = s@.subrange(from as int, to as int);
    if from == to {
        return Some(0);
    }
    let mut i = from;
    while i < to
        invariant
            from <= i <= to <= s@.len(),
            f == s@.subrange(from as int, to as int),
            forall|j: int| 0 <= j < i - from ==> is_digit(#[trigger] f[j]),
        decreases to - i,
    {
        let c = s.get_char(i);
        let u = c as u32;
        proof {
            assert(f[i - from] == s@[i as int]);
        }
        if u < 48 || u > 57 {
            return None;
        }
        i += 1;
    }
    proof {
        assert(f[0] == s@[from as int]);
        if to - from >= 2 {
            assert(f[1] == s@[from + 1]);
        }
        if to - from >= 3 {
            assert(f[2] == s@[from + 2]);
        }
    }
    let d1 = digit_at(s, from);
    let d2 = if to - from >= 2 {
        digit_at(s, from + 1)
    } else {
        0
    };
    let d3 = if to - from >= 3 {
        digit_at(s, from + 2)
    } else {
        0
    };
    Some(d1 * 100 + d2 * 10 + d3)
}

/// Numeric value of the digit character at `i`.
fn digit_at(s: &str, i: usize) -> (d: u32)
    requires
        i < s@.len(),
        is_digit(s@[i as int]),
    ensures
        d == digit_val(s@[i as int]),
        d <= 9,
{
    let c = s.get_char(i);
    c as u32 - 48
}

/// Parses a fractional-seconds token into milliseconds: empty means zero,
/// any non-digit rejects, digits past the third are ignored.
pub fn parse_fraction_to_millis(fraction: &str) -> (r: Option<u32>)
    ensures
        r == spec_fraction_millis(fraction@),
{
    let n = fraction.unicode_len();
    proof {
        assert(fraction@.subrange(0, n as int) =~= fraction@);
    }
    parse_fraction_range(fraction, 0, n)
}

/// Parses one bracket token; returns exactly what the grammar assigns.
pub fn parse_timestamp(value: &str) -> (r: Option<u32>)
    ensures
        r == spec_parse_timestamp(value@),
{
    let n = value.unicode_len();
    proof {
        assert(value@.subrange(0, n as int) =~= value@);
    }
    let colon = match find_char_in(value, 0, n, ':') {
        Some(k) => k,
        None => {
            return None;
        },
    };
    let ghost ci = colon as int;
    let ghost rest = value@.subrange(ci + 1, n as int);
    if find_char_in(value, colon + 1, n, ':').is_some() {
        return None;
    }
    let minutes = match parse_u32_range(value, 0, colon) {
        Some(m) => m,
        None => {
            return None;
        },
    };
    if minutes > 6000 {
        return None;
    }
    let (rlo, rhi) = trim_range(value, colon + 1, n);
    let ghost sf = spec_trim(rest);
    proof {
        assert(sf == value@.subrange(rlo as int, rhi as int));
    }
    match find_char_in(value, rlo, rhi, '.') {
        None => {
            let seconds = match parse_u32_range(value, rlo, rhi) {
                Some(v) => v,
                None => {
                    return None;
                },
            };
            if seconds >= 60 {
                return None;
            }
            proof {
                assert(spec_trim_start(Seq::<char>::empty()) =~= Seq::<char>::empty());
                assert(spec_trim(Seq::<char>::empty()) =~= Seq::<char>::empty());
            }
            Some(minutes * 60000 + seconds * 1000)
        },
        Some(d) => {
            let ghost di = d - rlo;
            let ghost frac_part = sf.subrange(di + 1, sf.len() as int);
            proof {
                assert(sf.subrange(0, di) =~= value@.subrange(rlo as int, d as int));
                assert(frac_part =~= value@.subrange(d + 1, rhi as int));
            }
            if find_char_in(value, d + 1, rhi, '.').is_some() {
                return None;
            }
            let seconds = match parse_u32_range(value, rlo, d) {
                Some(v) => v,
                None => {
                    return None;
                },
            };
            if seconds >= 60 {
                return None;
            }
            let (flo, fhi) = trim_range(value, d + 1, rhi);
            let ghost ft = spec_trim(frac_part);
            proof {
                assert(ft == value@.subrange(flo as int, fhi as int));
            }
            let millis = match parse_fraction_range(value, flo, fhi) {
                Some(v) => v,
                None => {
                    return None;
                },
            };
            proof {
                if ft.len() > 0 {
                    assert(digit_val(ft[0]) <= 9 && (ft.len() < 2 || digit_val(ft[1]) <= 9) && (
                    ft.len() < 3 || digit_val(ft[2]) <= 9));
                }
                assert(millis <= 999);
            }
            Some(minutes * 60000 + seconds * 1000 + millis)
        },
    }
}

/// Relation kept while the bracket groups of one line are consumed: the
/// timestamps of the whole trimmed line are those already collected plus
/// those of the suffix still to scan, and both runs end at the same rest.
pub open spec fn line_run_inv(t0: Seq<char>, stamps: Seq<u32>, suffix: Seq<char>) -> bool {
    spec_line_timestamps(t0).0 == stamps + spec_line_timestamps(suffix).0
        && spec_line_timestamps(t0).1 == spec_line_timestamps(suffix).1
}

/// Parses one LRC line into its replicated lyric entries; returns exactly
/// what the grammar assigns.
pub fn parse_line(line: &str) -> (r: Vec<LyricsLine>)
    ensures
        views_of(r@) == spec_parse_line(line@),
{
    let n = line.unicode_len();
    proof {
        assert(line@.subrange(0, n as int) =~= line@);
    }
    let (start, tend) = trim_range(line, 0, n);
    let ghost t0 = spec_trim(line@);
    let mut pos = start;
    let mut stamps: Vec<u32> = Vec::new();
    proof {
        assert(line@.subrange(pos as int, tend as int) == t0);
    }
    loop
        invariant
            pos <= tend <= n,
            n == line@.len(),
            t0 == spec_trim(line@),
            line_run_inv(t0, stamps@, line@.subrange(pos as int, tend as int)),
        ensures
            pos <= tend <= n == line@.len(),
            line_run_inv(t0, stamps@, line@.subrange(pos as int, tend as int)),
            spec_line_timestamps(line@.subrange(pos as int, tend as int)).0
                =~= Seq::<u32>::empty(),
            spec_line_timestamps(line@.subrange(pos as int, tend as int)).1 == line@.subrange(
                pos as int,
                tend as int,
            ),
        decreases tend - pos,
    {
        let ghost pos0 = pos;
        while pos < tend && is_ws_exec(line.get_char(pos))
            invariant
                pos0 <= pos <= tend <= n,
                n == line@.len(),
                t0 == spec_trim(line@),
                line_run_inv(t0, stamps@, line@.subrange(pos as int, tend as int)),
            decreases tend - pos,
        {
            proof {
                let suf = line@.subrange(pos as int, tend as int);
                assert(suf[0] == line@[pos as int]);
                assert(suf.drop_first() =~= line@.subrange(pos + 1, tend as int));
            }
            pos += 1;
        }
        let ghost suf = line@.subrange(pos as int, tend as int);
        if pos == tend {
            break;
        }
        proof {
            assert(suf[0] == line@[pos as int]);
            assert(!is_ws(suf[0]));
        }
        let c = line.get_char(pos);
        if c != '[' {
            break;
        }
        let ghost inner = suf.drop_first();
        proof {
            assert(inner =~= line@.subrange(pos + 1, tend as int));
        }
        let cj = match find_char_in(line, pos + 1, tend, ']') {
            None => {
                break;
            },
            Some(k) => k,
        };
        let token = line.substring_char(pos + 1, cj);
        proof {
            assert(token@ =~= inner.subrange(0, cj - (pos + 1)));
        }
        match parse_timestamp(token) {
            None => {
                proof {
                    assert(inner.subrange(cj - (pos + 1) + 1, inner.len() as int) =~= line@
                        .subrange(cj + 1, tend as int));
                }
                pos = cj + 1;
            },
            Some(ts) => {
                proof {
                    let rec = spec_line_timestamps(
                        inner.subrange(cj - (pos + 1) + 1, inner.len() as int),
                    );
                    assert(inner.subrange(cj - (pos + 1) + 1, inner.len() as int) =~= line@
                        .subrange(cj + 1, tend as int));
                    assert(spec_line_timestamps(suf).0 == seq![ts] + rec.0);
                    assert(stamps@ + (seq![ts] + rec.0) =~= stamps@.push(ts) + rec.0);
                }
                stamps.push(ts);
                pos = cj + 1;
            },
        }
    }
    let ghost fin = line@.subrange(pos as int, tend as int);
    proof {
        assert(spec_line_timestamps(t0).0 =~= stamps@);
    }
    if stamps.len() == 0 {
        let r: Vec<LyricsLine> = Vec::new();
        proof {
            assert(views_of(r@) =~= spec_parse_line(line@));
        }
        return r;
    }
    let (a, b) = trim_range(line, pos, tend);
    let text: String = line.substring_char(a, b).to_owned();
    proof {
        assert(text@ == spec_trim(fin));
    }
    let mut result: Vec<LyricsLine> = Vec::new();
    let mut k: usize = 0;
    while k < stamps.len()
        invariant
            k <= stamps@.len(),
            result@.len() == k,
            spec_parse_line(line@).len() == stamps@.len(),
            forall|i: int|
                0 <= i < stamps@.len() ==> spec_parse_line(line@)[i] == (stamps@[i], text@),
            forall|i: int|
                0 <= i < k ==> #[trigger] result@[i].timestamp == stamps@[i] && result@[i].text@
                    == text@,
        decreases stamps@.len() - k,
    {
        result.push(LyricsLine { timestamp: stamps[k], text: text.clone() });
        k += 1;
    }
    proof {
        assert(views_of(result@) =~= spec_parse_line(line@));
    }
    result
}

/// Selection sort by timestamp: moves the earliest remaining line over,
/// so the result is ordered and holds exactly the same lines.
fn sort_by_timestamp(v: Vec<LyricsLine>) -> (r: Vec<LyricsLine>)
    ensures
        sorted_by_timestamp(r@),
        r@.to_multiset() == v@.to_multiset(),
{
    broadcast use vstd::seq_lib::group_to_multiset_ensures;

    let ghost orig = v@;
    let mut rest = v;
    let mut out: Vec<LyricsLine> = Vec::new();
    while rest.len() > 0
        invariant
            sorted_by_timestamp(out@),
            out@.to_multiset().add(rest@.to_multiset()) =~= orig.to_multiset(),
            forall|i: int, j: int|
                0 <= i < out@.len() && 0 <= j < rest@.len() ==> out@[i].timestamp
                    <= rest@[j].timestamp,
        decreases rest@.len(),
    {
        let mut m: usize = 0;
        let mut k: usize = 1;
        while k < rest.len()
            invariant
                m < k <= rest@.len() || (k <= rest@.len() && m == 0),
                m < rest@.len(),
                forall|j: int| 0 <= j < k ==> rest@[m as int].timestamp <= rest@[j].timestamp,
            decreases rest@.len() - k,
        {
            if rest[k].timestamp < rest[m].timestamp {
                m = k;
            }
            k += 1;
        }
        let ghost pre = rest@;
        let x = rest.remove(m);
        proof {
            broadcast use vstd::seq_lib::group_to_multiset_ensures;

            pre.remove_ensures(m as int);
            assert(pre.contains(pre[m as int]));
            assert(pre.to_multiset().count(x) > 0);
            assert(pre.remove(m as int).to_multiset() == pre.to_multiset().remove(x));
            assert(out@.push(x).to_multiset() == out@.to_multiset().insert(x));
            assert(out@.push(x).to_multiset().add(rest@.to_multiset()) =~= orig.to_multiset());
        }
        out.push(x);
    }
    proof {
        broadcast use vstd::multiset::lemma_multiset_empty_len;
        broadcast use vstd::multiset::group_multiset_axioms;

        assert(rest@.to_multiset().len() == rest@.len());
        assert(rest@.to_multiset() =~= Multiset::<LyricsLine>::empty());
        assert(out@.to_multiset().add(rest@.to_multiset()) =~= out@.to_multiset());
    }
    out
}

/// Equal line multisets map to equal view multisets.
proof fn lemma_multiset_map_views(a: Seq<LyricsLine>, b: Seq<LyricsLine>)
    requires
        a.to_multiset() == b.to_multiset(),
    ensures
        views_of(a).to_multiset() == views_of(b).to_multiset(),
    decreases a.len(),
{
    broadcast use vstd::seq_lib::group_to_multiset_ensures;

    if a.len() == 0 {
        assert(a.to_multiset().len() == a.len());
        assert(b.to_multiset().len() == b.len());
        assert(b.len() == 0);
        assert(views_of(a) =~= views_of(b));
    } else {
        let x = a.last();
        assert(a.contains(x));
        assert(b.to_multiset().count(x) > 0);
        assert(b.contains(x));
        let j = choose|j: int| 0 <= j < b.len() && b[j] == x;
        let a1 = a.remove(a.len() - 1);
        let b1 = b.remove(j);
        assert(a1.to_multiset() == a.to_multiset().remove(x));
        assert(b1.to_multiset() == b.to_multiset().remove(x));
        lemma_multiset_map_views(a1, b1);
        a.remove_ensures(a.len() - 1);
        b.remove_ensures(j);
        assert(views_of(a) =~= views_of(a1).push(line_view(x)));
        assert(views_of(b).remove(j) =~= views_of(b1));
        assert(views_of(b).remove(j).to_multiset() == views_of(b).to_multiset().remove(line_view(b[j])));
        assert(views_of(b).to_multiset().count(line_view(x)) > 0) by {
            assert(views_of(b)[j] == line_view(x));
            assert(views_of(b).contains(line_view(x)));
        }
        assert(views_of(a).to_multiset() =~= views_of(b).to_multiset());
    }
}

/// Parses a whole LRC file: every line contributes its entries, and the
/// result is ordered by timestamp.
pub fn parse_lrc(content: &str) -> (r: Vec<LyricsLine>)
    ensures
        sorted_by_timestamp(r@),
        views_of(r@).to_multiset() == spec_parse_lrc(content@).to_multiset(),
{
    let n = content.unicode_len();
    proof {
        assert(content@.subrange(0, n as int) =~= content@);
    }
    let mut acc: Vec<LyricsLine> = Vec::new();
    let mut pos: usize = 0;
    loop
        invariant
            pos <= n,
            n == content@.len(),
            spec_parse_lrc(content@) == views_of(acc@) + spec_parse_lrc(
                content@.subrange(pos as int, n as int),
            ),
        ensures
            spec_parse_lrc(content@) == views_of(acc@),
        decreases n - pos,
    {
        let ghost suf = content@.subrange(pos as int, n as int);
        match find_char_in(content, pos, n, '\n') {
            None => {
                let line_str = content.substring_char(pos, n);
                let mut parsed = parse_line(line_str);
                proof {
                    assert(line_str@ == suf);
                    assert(views_of(acc@) + spec_parse_line(suf) =~= views_of(acc@ + parsed@));
                    assert(spec_trim_start(Seq::<char>::empty()) =~= Seq::<char>::empty());
                    assert(spec_parse_lrc(content@.subrange(n as int, n as int))
                        =~= Seq::<(u32, Seq<char>)>::empty());
                }
                acc.append(&mut parsed);
                pos = n;
                proof {
                    assert(views_of(acc@) + spec_parse_lrc(content@.subrange(n as int, n as int))
                        =~= views_of(acc@));
                }
                break;
            },
            Some(k) => {
                let line_str = content.substring_char(pos, k);
                let mut parsed = parse_line(line_str);
                proof {
                    let ni = k - pos;
                    assert(suf.subrange(0, ni as int) =~= content@.subrange(pos as int, k as int));
                    assert(suf.subrange(ni + 1, suf.len() as int) =~= content@.subrange(
                        k + 1,
                        n as int,
                    ));
                    assert(line_str@ == suf.subrange(0, ni as int));
                    assert(views_of(acc@) + (spec_parse_line(suf.subrange(0, ni as int))
                        + spec_parse_lrc(suf.subrange(ni + 1, suf.len() as int))) =~= views_of(acc@ + parsed@) + spec_parse_lrc(
                        content@.subrange(k + 1, n as int),
                    ));
                }
                acc.append(&mut parsed);
                pos = k + 1;
            },
        }
    }
    let sorted = sort_by_timestamp(acc);
    proof {
        lemma_multiset_map_views(sorted@, acc@);
    }
    sorted
}

} // verus!
