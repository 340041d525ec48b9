use vstd::prelude::*;
use vstd::std_specs::iter::IteratorSpec;

verus! {

/// The largest magnitude that the digit accumulator keeps apart from larger ones:
/// one more than the magnitude of `i32::MIN`.
const MAGNITUDE_CAP: i64 = 2147483649;

/// Unicode `White_Space`, the characters that `str::trim` removes.
pub open spec fn is_white_space(c: char) -> bool {
    ||| c == '\t'
    ||| c == '\n'
    ||| c == '\u{0B}'
    ||| c == '\u{0C}'
    ||| c == '\r'
    ||| c == ' '
    ||| c == '\u{85}'
    ||| c == '\u{A0}'
    ||| c == '\u{1680}'
    ||| ('\u{2000}' <= c && c <= '\u{200A}')
    ||| c == '\u{2028}'
    ||| c == '\u{2029}'
    ||| c == '\u{202F}'
    ||| c == '\u{205F}'
    ||| c == '\u{3000}'
}

pub open spec fn trim_start(s: Seq<char>) -> Seq<char>
    decreases s.len(),
{
    if s.len() > 0 && is_white_space(s[0]) {
        trim_start(s.drop_first())
    } else {
        s
    }
}

pub open spec fn trim_end(s: Seq<char>) -> Seq<char>
    decreases s.len(),
{
    if s.len() > 0 && is_white_space(s.last()) {
        trim_end(s.drop_last())
    } else {
        s
    }
}

/// `s` without white space at either end.
pub open spec fn trim(s: Seq<char>) -> Seq<char> {
    trim_end(trim_start(s))
}

pub open spec fn is_digit(c: char) -> bool {
    '0' <= c && c <= '9'
}

pub open spec fn all_digits(d: Seq<char>) -> bool {
    forall|m: int| 0 <= m < d.len() ==> is_digit(#[trigger] d[m])
}

/// The number that a string of decimal digits writes.
pub open spec fn digits_value(d: Seq<char>) -> int
    decreases d.len(),
{
    if d.len() == 0 {
        0
    } else {
        digits_value(d.drop_last()) * 10 + (d.last() as int - '0' as int)
    }
}

/// The integer that `t` writes: an optional sign and at least one decimal digit.
pub open spec fn signed_value(t: Seq<char>) -> Option<int> {
    if t.len() > 0 && (t[0] == '-' || t[0] == '+') {
        let d = t.drop_first();
        if d.len() > 0 && all_digits(d) {
            if t[0] == '-' {
                Some(-digits_value(d))
            } else {
                Some(digits_value(d))
            }
        } else {
            None
        }
    } else if t.len() > 0 && all_digits(t) {
        Some(digits_value(t))
    } else {
        None
    }
}

pub open spec fn telemetry_prefix() -> Seq<char> {
    seq!['A', 'P', 'M', ':']
}

/// The sample that a line of the instrumentation host carries: the line starts with
/// `APM:`, and the rest, trimmed, writes an integer that fits in `i32`.
pub open spec fn sample_of(line: Seq<char>) -> Option<i32> {
    if line.len() >= 4 && line.take(4) == telemetry_prefix() {
        match signed_value(trim(line.skip(4))) {
            Some(v) => if i32::MIN <= v <= i32::MAX {
                Some(v as i32)
            } else {
                None
            },
            None => None,
        }
    } else {
        None
    }
}

fn white_space(c: char) -> (r: bool)
    ensures
        r == is_white_space(c),
{
    c == '\t' || c == '\n' || c == '\u{0B}' || c == '\u{0C}' || c == '\r' || c == ' ' || c
        == '\u{85}' || c == '\u{A0}' || c == '\u{1680}' || ('\u{2000}' <= c && c <= '\u{200A}')
        || c == '\u{2028}' || c == '\u{2029}' || c == '\u{202F}' || c == '\u{205F}' || c
        == '\u{3000}'
}

/// The characters of `s`, in order.
pub fn chars_of(s: &str) -> (r: Vec<char>)
    ensures
        r@ == s@,
{
    broadcast use vstd::string::axiom_spec_iter, vstd::string::next_postcondition;

    let mut it = s.chars();
    let mut out: Vec<char> = Vec::new();
    loop
        invariant
            out@ + it.remaining() == s@,
            it.obeys_prophetic_iter_laws(),
        ensures
            out@ == s@,
        decreases s@.len() - out@.len(),
    {
        match it.next() {
            Some(c) => {
                out.push(c);
            },
            None => {
                assert(out@ + it.remaining() =~= out@);
                break;
            },
        }
    }
    out
}

/// The value that the decimal digits `v[from..to]` write, or `None` when one of them is
/// not a digit or the range is empty; values above `MAGNITUDE_CAP` are held at the cap.
fn digits_magnitude(v: &Vec<char>, from: usize, to: usize) -> (r: Option<i64>)
    requires
        from <= to <= v@.len(),
    ensures
        ({
            let d = v@.subrange(from as int, to as int);
            match r {
                Some(m) => d.len() > 0 && all_digits(d) && 0 <= m <= MAGNITUDE_CAP
                    && digits_value(d) >= 0 && (digits_value(d) < MAGNITUDE_CAP
                    ==> m == digits_value(d)) && (digits_value(d) >= MAGNITUDE_CAP ==> m
                    == MAGNITUDE_CAP),
                None => !(d.len() > 0 && all_digits(d)),
            }
        }),
{
    if from == to {
        return None;
    }
    let mut acc: i64 = 0;
    let mut k: usize = from;
    while k < to
        invariant
            from <= k <= to <= v@.len(),
            all_digits(v@.subrange(from as int, k as int)),
            0 <= acc <= MAGNITUDE_CAP,
            digits_value(v@.subrange(from as int, k as int)) >= 0,
            digits_value(v@.subrange(from as int, k as int)) < MAGNITUDE_CAP ==> acc
                == digits_value(v@.subrange(from as int, k as int)),
            digits_value(v@.subrange(from as int, k as int)) >= MAGNITUDE_CAP ==> acc
                == MAGNITUDE_CAP,
        decreases to - k,
    {
        let c = v[k];
        if !('0' <= c && c <= '9') {
            assert(!is_digit(v@.subrange(from as int, to as int)[k - from]));
            return None;
        }
        let ghost prev = v@.subrange(from as int, k as int);
        let ghost next = v@.subrange(from as int, k + 1);
        assert(next.drop_last() =~= prev);
        let d: i64 = (c as u32 - '0' as u32) as i64;
        let t: i64 = acc * 10 + d;
        acc = if t > MAGNITUDE_CAP {
            MAGNITUDE_CAP
        } else {
            t
        };
        assert(digits_value(next) == digits_value(prev) * 10 + d);
        assert(all_digits(next)) by {
            assert forall|m: int| 0 <= m < next.len() implies is_digit(#[trigger] next[m]) by {
                if m < prev.len() {
                    assert(next[m] == prev[m]);
                }
            }
        }
        k = k + 1;
    }
    Some(acc)
}

/// The sample that one line of the instrumentation host carries, if any.
pub fn parse_sample(line: &str) -> (r: Option<i32>)
    ensures
        r == sample_of(line@),
{
    let v = chars_of(line);
    let n = v.len();
    if n < 4 || !(v[0] == 'A' && v[1] == 'P' && v[2] == 'M' && v[3] == ':') {
        if n >= 4 {
            assert(v@.take(4)[0] == v@[0] && v@.take(4)[1] == v@[1]);
            assert(v@.take(4)[2] == v@[2] && v@.take(4)[3] == v@[3]);
        }
        return None;
    }
    assert(v@.take(4) =~= telemetry_prefix());
    let mut i: usize = 4;
    while i < n && white_space(v[i])
        invariant
            4 <= i <= n == v@.len(),
            trim_start(v@.skip(4)) == trim_start(v@.subrange(i as int, n as int)),
        decreases n - i,
    {
        assert(v@.subrange(i as int, n as int).drop_first() =~= v@.subrange(i + 1, n as int));
        i = i + 1;
    }
    assert(v@.skip(4) =~= v@.subrange(4, n as int)) by {}
    assert(trim_start(v@.subrange(i as int, n as int)) == v@.subrange(i as int, n as int));
    let mut j: usize = n;
    while j > i && white_space(v[j - 1])
        invariant
            i <= j <= n == v@.len(),
            trim(v@.skip(4)) == trim_end(v@.subrange(i as int, j as int)),
        decreases j,
    {
        assert(v@.subrange(i as int, j as int).drop_last() =~= v@.subrange(i as int, j - 1));
        j = j - 1;
    }
    let ghost t = v@.subrange(i as int, j as int);
    assert(trim(v@.skip(4)) == t);
    if i == j {
        return None;
    }
    let negative = v[i] == '-';
    if negative || v[i] == '+' {
        assert(t.drop_first() =~= v@.subrange(i + 1, j as int));
        match digits_magnitude(&v, i + 1, j) {
            None => None,
            Some(m) => {
                if negative {
                    if m <= 2147483648 {
                        Some((-m) as i32)
                    } else {
                        None
                    }
                } else if m <= 2147483647 {
                    Some(m as i32)
                } else {
                    None
                }
            },
        }
    } else {
        assert(!is_digit(t[0]) ==> !all_digits(t));
        match digits_magnitude(&v, i, j) {
            None => None,
            Some(m) => {
                if m <= 2147483647 {
                    Some(m as i32)
                } else {
                    None
                }
            },
        }
    }
}

/// What the change-only filter does with one line, from the last published value
/// (`None` before the first): the new last published value, and the sample to
/// publish, if any.
pub open spec fn filter_step(last: Option<i32>, line: Seq<char>) -> (Option<i32>, Option<i32>) {
    match sample_of(line) {
        Some(v) => if last != Some(v) {
            (Some(v), Some(v))
        } else {
            (last, None)
        },
        None => (last, None),
    }
}

/// Turns the host's output lines into samples, publishing only those that differ
/// from the last one published.
#[derive(Clone, Copy, Debug)]
pub struct SampleFilter {
    pub last: Option<i32>,
}

impl SampleFilter {
    /// A filter for a new session: nothing published yet.
    pub fn new() -> (r: SampleFilter)
        ensures
            r.last is None,
    {
        SampleFilter { last: None }
    }

    /// Reads one line; returns the sample to publish, if any.
    pub fn accept(&mut self, line: &str) -> (r: Option<i32>)
        ensures
            (final(self).last, r) == filter_step(old(self).last, line@),
    {
        match parse_sample(line) {
            Some(v) => {
                let fresh = match self.last {
                    Some(p) => p != v,
                    None => true,
                };
                if fresh {
                    self.last = Some(v);
                    Some(v)
                } else {
                    None
                }
            },
            None => None,
        }
    }
}

/// Two consecutive lines with the same sample publish it at most once: the second
/// is suppressed, and the first is published exactly when it differs from the last
/// published value, so always at the start of a session.
pub proof fn lemma_duplicate_published_once(
    last: Option<i32>,
    l1: Seq<char>,
    l2: Seq<char>,
    v: i32,
)
    requires
        sample_of(l1) == Some(v),
        sample_of(l2) == Some(v),
    ensures
        filter_step(filter_step(last, l1).0, l2).1 is None,
        filter_step(last, l1).1 == (if last != Some(v) {
            Some(v)
        } else {
            None
        }),
        last is None ==> filter_step(last, l1).1 == Some(v),
{
}

/// The samples that a run of lines carries, in order.
pub open spec fn samples_of(lines: Seq<Seq<char>>) -> Seq<i32>
    decreases lines.len(),
{
    if lines.len() == 0 {
        Seq::empty()
    } else {
        match sample_of(lines.last()) {
            Some(v) => samples_of(lines.drop_last()).push(v),
            None => samples_of(lines.drop_last()),
        }
    }
}

/// `xs` with each element equal to the one before it removed.
pub open spec fn without_repeats(xs: Seq<i32>) -> Seq<i32>
    decreases xs.len(),
{
    if xs.len() <= 1 {
        xs
    } else if xs.last() == xs[xs.len() - 2] {
        without_repeats(xs.drop_last())
    } else {
        without_repeats(xs.drop_last()).push(xs.last())
    }
}

/// What a filter publishes over a run of lines, and its last published value after.
pub open spec fn filter_run(last: Option<i32>, lines: Seq<Seq<char>>) -> (Option<i32>, Seq<i32>)
    decreases lines.len(),
{
    if lines.len() == 0 {
        (last, Seq::empty())
    } else {
        let (l, out) = filter_run(last, lines.drop_last());
        let (l2, r) = filter_step(l, lines.last());
        match r {
            Some(v) => (l2, out.push(v)),
            None => (l2, out),
        }
    }
}

proof fn lemma_filter_run_tracks_last(lines: Seq<Seq<char>>)
    ensures
        filter_run(None, lines).1 == without_repeats(samples_of(lines)),
        samples_of(lines).len() == 0 ==> filter_run(None, lines).0 is None,
        samples_of(lines).len() > 0 ==> filter_run(None, lines).0 == Some(
            samples_of(lines).last(),
        ),
        samples_of(lines).len() > 0 ==> without_repeats(samples_of(lines)).last()
            == samples_of(lines).last(),
    decreases lines.len(),
{
    if lines.len() > 0 {
        let init = lines.drop_last();
        lemma_filter_run_tracks_last(init);
        let xs = samples_of(init);
        match sample_of(lines.last()) {
            Some(v) => {
                let ys = xs.push(v);
                assert(ys.drop_last() =~= xs);
                if ys.len() > 1 {
                    assert(ys[ys.len() - 2] == xs.last());
                }
            },
            None => {},
        }
    }
}

/// Over a whole session, the filter publishes exactly the samples of the lines with
/// consecutive repeats removed, in order.
pub proof fn lemma_session_publishes_changes(lines: Seq<Seq<char>>)
    ensures
        filter_run(None, lines).1 == without_repeats(samples_of(lines)),
{
    lemma_filter_run_tracks_last(lines);
}

} // verus!
