//! Numeric text as the exchange writes it: decimal digits, an optional
//! sign, and thousands separators that carry no meaning.

use vstd::prelude::*;

verus! {

/// The thousands separator of the upstream report.
pub const SEPARATOR: char = ',';

/// `String::push` of the standard library appends one character to the
/// string and leaves what was there in place.
pub assume_specification[ String::push ](s: &mut String, c: char)
    ensures
        final(s)@ == old(s)@.push(c),
;

/// The text with every thousands separator taken out.
pub open spec fn without_separators(s: Seq<char>) -> Seq<char> {
    s.filter(|c: char| c != SEPARATOR)
}

/// Whether `c` is one of the ten ASCII digits.
pub open spec fn is_digit(c: char) -> bool {
    '0' <= c && c <= '9'
}

/// The number that the character stands for; meaningful for digits.
pub open spec fn digit_value(c: char) -> nat {
    if is_digit(c) {
        (c as int - '0' as int) as nat
    } else {
        0
    }
}

/// Whether every character of `s` is a digit. The empty text qualifies.
pub open spec fn all_digits(s: Seq<char>) -> bool {
    forall|i: int| 0 <= i < s.len() ==> is_digit(#[trigger] s[i])
}

/// The number written by the digits of `s`, most significant first.
pub open spec fn digits_value(s: Seq<char>) -> nat
    decreases s.len(),
{
    if s.len() == 0 {
        0
    } else {
        digits_value(s.drop_last()) * 10 + digit_value(s.last())
    }
}

/// The number written by `s` when `s` is one or more digits.
pub open spec fn magnitude_of(s: Seq<char>) -> Option<nat> {
    if s.len() > 0 && all_digits(s) {
        Some(digits_value(s))
    } else {
        None
    }
}

/// The integer written by `s`: an optional `+` or `-`, then one or more
/// digits, and nothing else.
pub open spec fn integer_of(s: Seq<char>) -> Option<int> {
    if s.len() > 0 && s[0] == '-' {
        match magnitude_of(s.skip(1)) {
            Some(m) => Some(-(m as int)),
            None => None,
        }
    } else if s.len() > 0 && s[0] == '+' {
        match magnitude_of(s.skip(1)) {
            Some(m) => Some(m as int),
            None => None,
        }
    } else {
        match magnitude_of(s) {
            Some(m) => Some(m as int),
            None => None,
        }
    }
}

/// The integer written by `s`, provided that it fits in 64 signed bits.
pub open spec fn i64_of(s: Seq<char>) -> Option<i64> {
    match integer_of(s) {
        Some(v) => if i64::MIN <= v <= i64::MAX {
            Some(v as i64)
        } else {
            None
        },
        None => None,
    }
}

/// The number written by `s` as an unsigned quantity of at most `max`: an
/// optional `+`, then one or more digits. A `-` is never accepted.
pub open spec fn unsigned_of(s: Seq<char>, max: nat) -> Option<nat> {
    let body = if s.len() > 0 && s[0] == '+' {
        s.skip(1)
    } else {
        s
    };
    match magnitude_of(body) {
        Some(m) => if m <= max {
            Some(m)
        } else {
            None
        },
        None => None,
    }
}

/// A prefix of a digit string never writes a larger number than the whole.
pub proof fn lemma_prefix_value(s: Seq<char>, k: int)
    requires
        0 <= k <= s.len(),
    ensures
        digits_value(s.take(k)) <= digits_value(s),
    decreases s.len(),
{
    if k == s.len() {
        assert(s.take(k) =~= s);
    } else {
        lemma_prefix_value(s.drop_last(), k);
        assert(s.drop_last().take(k) =~= s.take(k));
    }
}

/// A thousands separator means nothing, wherever it stands: the text with
/// one more separator at `i` holds what the text holds.
pub proof fn lemma_separator_is_ignored(s: Seq<char>, i: int)
    requires
        0 <= i <= s.len(),
    ensures
        without_separators(s.insert(i, SEPARATOR)) == without_separators(s),
        i64_of(without_separators(s.insert(i, SEPARATOR))) == i64_of(without_separators(s)),
{
    let keep = |c: char| c != SEPARATOR;
    let head = s.subrange(0, i);
    let tail = s.subrange(i, s.len() as int);
    assert(s.insert(i, SEPARATOR) =~= head.push(SEPARATOR) + tail);
    assert(s =~= head + tail);
    head.lemma_filter_push(SEPARATOR, keep);
    Seq::filter_distributes_over_add(head.push(SEPARATOR), tail, keep);
    Seq::filter_distributes_over_add(head, tail, keep);
}

/// A text without a separator is read as it stands.
pub proof fn lemma_plain_text_is_kept(s: Seq<char>)
    requires
        forall|i: int| 0 <= i < s.len() ==> s[i] != SEPARATOR,
    ensures
        without_separators(s) == s,
    decreases s.len(),
{
    reveal(Seq::filter);
    if s.len() > 0 {
        lemma_plain_text_is_kept(s.drop_last());
        assert(s.drop_last().push(s.last()) =~= s);
    }
}

/// Removes every thousands separator from `text`.
pub fn strip_separators(text: &str) -> (out: String)
    ensures
        out@ == without_separators(text@),
{
    let mut out = String::new();
    proof {
        reveal(Seq::filter);
        assert(text@.take(0) =~= Seq::<char>::empty());
    }
    for c in it: text.chars()
        invariant
            it.seq() == text@,
            out@ == without_separators(text@.take(it.index() as int)),
    {
        proof {
            let i = it.index() as int;
            assert(text@.take(i + 1) =~= text@.take(i).push(c));
            text@.take(i).lemma_filter_push(c, |c: char| c != SEPARATOR);
        }
        if c != SEPARATOR {
            out.push(c);
        }
    }
    proof {
        assert(text@.take(text@.len() as int) =~= text@);
    }
    out
}

/// The characters of `text`, one by one.
pub fn chars_of(text: &str) -> (out: Vec<char>)
    ensures
        out@ == text@,
{
    let mut out: Vec<char> = Vec::new();
    for c in it: text.chars()
        invariant
            it.seq() == text@,
            out@ == text@.take(it.index() as int),
    {
        out.push(c);
        proof {
            let i = it.index() as int;
            assert(text@.take(i + 1) =~= text@.take(i).push(c));
        }
    }
    proof {
        assert(text@.take(text@.len() as int) =~= text@);
    }
    out
}

/// The end of the run of digits that starts at `from`.
pub fn scan_digits(s: &Vec<char>, from: usize) -> (to: usize)
    requires
        from <= s.len(),
    ensures
        from <= to <= s.len(),
        forall|k: int| from <= k < to ==> is_digit(#[trigger] s@[k]),
        to < s.len() ==> !is_digit(s@[to as int]),
{
    let mut to = from;
    while to < s.len() && '0' <= s[to] && s[to] <= '9'
        invariant
            from <= to <= s.len(),
            forall|k: int| from <= k < to ==> is_digit(#[trigger] s@[k]),
        decreases s.len() - to,
    {
        to += 1;
    }
    to
}

/// Reads the characters of `s` from `start` on as one or more digits that
/// write a number of at most `limit`.
pub fn read_magnitude(s: &Vec<char>, start: usize, limit: u64) -> (r: Option<u64>)
    requires
        start <= s.len(),
    ensures
        r == match magnitude_of(s@.skip(start as int)) {
            Some(m) => if m <= limit {
                Some(m as u64)
            } else {
                None
            },
            None => None,
        },
{
    let n = s.len();
    let ghost body = s@.skip(start as int);
    if start == n {
        return None;
    }
    let mut acc: u64 = 0;
    let mut i = start;
    proof {
        assert(body.take(0) =~= Seq::<char>::empty());
    }
    while i < n
        invariant
            start <= i <= n,
            n == s.len(),
            body == s@.skip(start as int),
            all_digits(body.take(i - start)),
            acc == digits_value(body.take(i - start)),
            acc <= limit,
        decreases n - i,
    {
        let c = s[i];
        let ghost k = i - start;
        proof {
            assert(body[k] == c);
            assert(body.take(k + 1).drop_last() =~= body.take(k));
            assert(body.take(k + 1).last() == c);
        }
        if !('0' <= c && c <= '9') {
            return None;
        }
        let d = (c as u32 - '0' as u32) as u64;
        if acc > limit / 10 || d > limit - acc * 10 {
            proof {
                assert(digits_value(body.take(k + 1)) > limit);
                lemma_prefix_value(body, k + 1);
            }
            return None;
        }
        acc = acc * 10 + d;
        i += 1;
        proof {
            assert forall|j: int| 0 <= j < body.take(k + 1).len() implies is_digit(
                #[trigger] body.take(k + 1)[j],
            ) by {
                if j < k {
                    assert(body.take(k)[j] == body.take(k + 1)[j]);
                }
            }
        }
    }
    proof {
        assert(body.take(n - start) =~= body);
    }
    Some(acc)
}

/// The largest magnitude a negative 64-bit integer can have.
pub const I64_MIN_MAGNITUDE: u64 = 9223372036854775808;

/// The largest positive 64-bit integer.
pub const I64_MAX_MAGNITUDE: u64 = 9223372036854775807;

/// Reads `s` as a signed 64-bit integer, as `str::parse::<i64>` does.
pub fn read_i64(s: &Vec<char>) -> (r: Option<i64>)
    ensures
        r == i64_of(s@),
{
    if s.len() == 0 {
        return None;
    }
    let first = s[0];
    if first == '-' {
        match read_magnitude(s, 1, I64_MIN_MAGNITUDE) {
            Some(m) => {
                if m == I64_MIN_MAGNITUDE {
                    Some(i64::MIN)
                } else {
                    Some(-(m as i64))
                }
            },
            None => None,
        }
    } else if first == '+' {
        match read_magnitude(s, 1, I64_MAX_MAGNITUDE) {
            Some(m) => Some(m as i64),
            None => None,
        }
    } else {
        proof {
            assert(s@.skip(0) =~= s@);
        }
        match read_magnitude(s, 0, I64_MAX_MAGNITUDE) {
            Some(m) => Some(m as i64),
            None => None,
        }
    }
}

/// Reads `s` as an unsigned number of at most `max`, as `str::parse` does
/// for the unsigned integer types.
pub fn read_unsigned(s: &Vec<char>, max: u64) -> (r: Option<u64>)
    ensures
        r == match unsigned_of(s@, max as nat) {
            Some(m) => Some(m as u64),
            None => None,
        },
{
    if s.len() > 0 && s[0] == '+' {
        read_magnitude(s, 1, max)
    } else {
        proof {
            assert(s@.skip(0) =~= s@);
        }
        read_magnitude(s, 0, max)
    }
}

/// Parses an integer field of the report: the thousands separators are
/// dropped, and what is left is read as a signed 64-bit integer.
pub fn parse_i64(text: &str) -> (r: Option<i64>)
    ensures
        r == i64_of(without_separators(text@)),
{
    let cleaned = strip_separators(text);
    let chars = chars_of(cleaned.as_str());
    read_i64(&chars)
}

} // verus!
