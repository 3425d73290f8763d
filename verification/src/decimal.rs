//! Decimal literals: the text in which the report gives prices.
//!
//! A price is kept as the literal that was read, once it is known to
//! follow the grammar below. Turning the literal into a binary
//! floating-point number is left to whoever stores it.
//!
//! ```text
//! Literal  ::= Sign? ( "inf" | "infinity" | "nan" | Number )
//! Number   ::= Mantissa Exponent?
//! Mantissa ::= Digit+ | Digit+ "." Digit* | Digit* "." Digit+
//! Exponent ::= "e" Sign? Digit+
//! Sign     ::= "+" | "-"
//! Digit    ::= "0" ... "9"
//! ```
//!
//! Letters match in either case.

use crate::numeric::{
    all_digits, chars_of, is_digit, scan_digits, strip_separators, without_separators,
};
use vstd::prelude::*;

verus! {

/// `+` or `-`.
pub open spec fn is_sign(c: char) -> bool {
    c == '+' || c == '-'
}

/// The letter that opens an exponent, in either case.
pub open spec fn is_exponent_mark(c: char) -> bool {
    c == 'e' || c == 'E'
}

/// Whether `c` is the given letter, in lower or upper case.
pub open spec fn is_letter(c: char, lower: char, upper: char) -> bool {
    c == lower || c == upper
}

/// `s` has a decimal point at `k`, digits only on both sides of it, and
/// at least one digit in all.
pub open spec fn is_pointed_mantissa(s: Seq<char>, k: int) -> bool {
    &&& 0 <= k < s.len()
    &&& s.len() > 1
    &&& s[k] == '.'
    &&& all_digits(s.take(k))
    &&& all_digits(s.skip(k + 1))
}

/// `Digit+ | Digit+ "." Digit* | Digit* "." Digit+`
pub open spec fn is_mantissa(s: Seq<char>) -> bool {
    ||| s.len() > 0 && all_digits(s)
    ||| exists|k: int| is_pointed_mantissa(s, k)
}

/// `"e" Sign? Digit+`
pub open spec fn is_exponent(s: Seq<char>) -> bool {
    &&& s.len() >= 2
    &&& is_exponent_mark(s[0])
    &&& {
        let digits = if is_sign(s[1]) {
            s.skip(2)
        } else {
            s.skip(1)
        };
        digits.len() > 0 && all_digits(digits)
    }
}

/// `s` is a mantissa up to `k` and an exponent from `k` on.
pub open spec fn is_number_split(s: Seq<char>, k: int) -> bool {
    &&& 0 < k < s.len()
    &&& is_mantissa(s.take(k))
    &&& is_exponent(s.skip(k))
}

/// `Mantissa Exponent?`
pub open spec fn is_number(s: Seq<char>) -> bool {
    ||| is_mantissa(s)
    ||| exists|k: int| is_number_split(s, k)
}

/// `"inf" | "infinity" | "nan"`, letters in either case.
pub open spec fn is_special(s: Seq<char>) -> bool {
    ||| {
        &&& s.len() == 3
        &&& is_letter(s[0], 'i', 'I')
        &&& is_letter(s[1], 'n', 'N')
        &&& is_letter(s[2], 'f', 'F')
    }
    ||| {
        &&& s.len() == 3
        &&& is_letter(s[0], 'n', 'N')
        &&& is_letter(s[1], 'a', 'A')
        &&& is_letter(s[2], 'n', 'N')
    }
    ||| {
        &&& s.len() == 8
        &&& is_letter(s[0], 'i', 'I')
        &&& is_letter(s[1], 'n', 'N')
        &&& is_letter(s[2], 'f', 'F')
        &&& is_letter(s[3], 'i', 'I')
        &&& is_letter(s[4], 'n', 'N')
        &&& is_letter(s[5], 'i', 'I')
        &&& is_letter(s[6], 't', 'T')
        &&& is_letter(s[7], 'y', 'Y')
    }
}

/// Whether `s` is a decimal literal: the whole of it, with nothing before
/// or after.
pub open spec fn is_decimal_text(s: Seq<char>) -> bool {
    let body = if s.len() > 0 && is_sign(s[0]) {
        s.skip(1)
    } else {
        s
    };
    is_special(body) || is_number(body)
}

/// What a scan for a mantissa finds. The scan takes the digits from the
/// start of `body` up to `a`, then, if a point stands at `a`, the point
/// and the digits after it up to `b`. The prefix up to `b` is a mantissa
/// exactly if the scan met a digit, and no other prefix that ends the text
/// or stands before an exponent mark is one.
proof fn lemma_mantissa_scan(body: Seq<char>, a: int, b: int, pointed: bool)
    requires
        0 <= a <= b <= body.len(),
        forall|k: int| 0 <= k < a ==> is_digit(#[trigger] body[k]),
        a < body.len() ==> !is_digit(body[a]),
        pointed == (a < body.len() && body[a] == '.'),
        pointed ==> a + 1 <= b,
        pointed ==> forall|k: int| a + 1 <= k < b ==> is_digit(#[trigger] body[k]),
        pointed ==> (b < body.len() ==> !is_digit(body[b])),
        !pointed ==> b == a,
    ensures
        is_mantissa(body.take(b)) <==> (if pointed {
            b - 1
        } else {
            a
        }) > 0,
        forall|k: int|
            0 <= k <= body.len() && #[trigger] is_mantissa(body.take(k)) && (k == body.len()
                || is_exponent_mark(body[k])) ==> k == b,
{
    let scanned = body.take(b);
    if pointed {
        if b > 1 {
            assert(is_pointed_mantissa(scanned, a));
        } else {
            assert(!is_digit(scanned[0]));
        }
    }
    assert forall|k: int|
        0 <= k <= body.len() && #[trigger] is_mantissa(body.take(k)) && (k == body.len()
            || is_exponent_mark(body[k])) implies k == b by {
        let prefix = body.take(k);
        if prefix.len() > 0 && all_digits(prefix) {
            if a < k {
                assert(is_digit(prefix[a]));
            }
            if k < body.len() && a > k {
                assert(is_digit(body[k]));
            }
        } else {
            let j = choose|j: int| is_pointed_mantissa(prefix, j);
            assert(prefix[j] == '.');
            if a < j {
                assert(is_digit(prefix.take(j)[a]));
            }
            if a > j {
                assert(is_digit(body[j]));
            }
            if b < k {
                assert(is_digit(prefix.skip(j + 1)[b - (j + 1)]));
            }
            if k < body.len() && b > k {
                assert(is_digit(body[k]));
            }
        }
    }
}

/// Whether the text from `start` on is an exponent.
fn is_exponent_from(s: &Vec<char>, start: usize) -> (ok: bool)
    requires
        start <= s.len(),
    ensures
        ok == is_exponent(s@.skip(start as int)),
{
    let n = s.len();
    if n - start < 2 {
        return false;
    }
    let ghost body = s@.skip(start as int);
    let mark = s[start];
    if mark != 'e' && mark != 'E' {
        return false;
    }
    let sign = s[start + 1];
    let from = if sign == '+' || sign == '-' {
        start + 2
    } else {
        start + 1
    };
    let to = scan_digits(s, from);
    proof {
        let digits = s@.skip(from as int);
        assert(body.skip(from - start) =~= digits);
        if to == n {
            assert forall|i: int| 0 <= i < digits.len() implies is_digit(#[trigger] digits[i]) by {
                assert(digits[i] == s@[from + i]);
            }
        } else {
            assert(digits[to - from] == s@[to as int]);
        }
    }
    to == n && to > from
}

/// Whether the text from `start` on is a number.
fn is_number_from(s: &Vec<char>, start: usize) -> (ok: bool)
    requires
        start <= s.len(),
    ensures
        ok == is_number(s@.skip(start as int)),
{
    let n = s.len();
    let ghost body = s@.skip(start as int);
    let a = scan_digits(s, start);
    let pointed = a < n && s[a] == '.';
    let b = if pointed {
        scan_digits(s, a + 1)
    } else {
        a
    };
    let digits = if pointed {
        b - start - 1
    } else {
        a - start
    };
    proof {
        assert forall|k: int| 0 <= k < a - start implies is_digit(#[trigger] body[k]) by {
            assert(body[k] == s@[start + k]);
        }
        if pointed {
            assert forall|k: int| a - start + 1 <= k < b - start implies is_digit(
                #[trigger] body[k],
            ) by {
                assert(body[k] == s@[start + k]);
            }
        }
        lemma_mantissa_scan(body, a - start, b - start, pointed);
        assert(body.take(body.len() as int) =~= body);
    }
    if digits == 0 {
        proof {
            if is_number(body) {
                if is_mantissa(body) {
                    assert(is_mantissa(body.take(body.len() as int)));
                } else {
                    let k = choose|k: int| is_number_split(body, k);
                    assert(body.skip(k)[0] == body[k]);
                    assert(is_mantissa(body.take(k)));
                }
            }
        }
        return false;
    }
    if b == n {
        return true;
    }
    let exponent = is_exponent_from(s, b);
    proof {
        assert(body.skip(b - start) =~= s@.skip(b as int));
        if exponent {
            assert(is_number_split(body, b - start));
        } else if is_number(body) {
            if is_mantissa(body) {
                assert(is_mantissa(body.take(body.len() as int)));
            } else {
                let k = choose|k: int| is_number_split(body, k);
                assert(body.skip(k)[0] == body[k]);
                assert(is_mantissa(body.take(k)));
            }
        }
    }
    exponent
}

/// Whether `c` is the given letter, in lower or upper case.
fn letter_is(c: char, lower: char, upper: char) -> (ok: bool)
    ensures
        ok == is_letter(c, lower, upper),
{
    c == lower || c == upper
}

/// Whether the text from `start` on is one of the three special words.
fn is_special_from(s: &Vec<char>, start: usize) -> (ok: bool)
    requires
        start <= s.len(),
    ensures
        ok == is_special(s@.skip(start as int)),
{
    let n = s.len() - start;
    if n == 3 {
        (letter_is(s[start], 'i', 'I') && letter_is(s[start + 1], 'n', 'N') && letter_is(
            s[start + 2],
            'f',
            'F',
        )) || (letter_is(s[start], 'n', 'N') && letter_is(s[start + 1], 'a', 'A') && letter_is(
            s[start + 2],
            'n',
            'N',
        ))
    } else if n == 8 {
        letter_is(s[start], 'i', 'I') && letter_is(s[start + 1], 'n', 'N') && letter_is(
            s[start + 2],
            'f',
            'F',
        ) && letter_is(s[start + 3], 'i', 'I') && letter_is(s[start + 4], 'n', 'N') && letter_is(
            s[start + 5],
            'i',
            'I',
        ) && letter_is(s[start + 6], 't', 'T') && letter_is(s[start + 7], 'y', 'Y')
    } else {
        false
    }
}

/// Decides whether `s` is a decimal literal.
pub fn is_decimal(s: &Vec<char>) -> (ok: bool)
    ensures
        ok == is_decimal_text(s@),
{
    let start: usize = if s.len() > 0 && (s[0] == '+' || s[0] == '-') {
        1
    } else {
        0
    };
    proof {
        assert(s@.skip(0) =~= s@);
    }
    is_special_from(s, start) || is_number_from(s, start)
}

/// A decimal literal, free of thousands separators.
#[derive(Debug)]
pub struct Decimal {
    text: String,
}

impl View for Decimal {
    type V = Seq<char>;

    closed spec fn view(&self) -> Seq<char> {
        self.text@
    }
}

impl Decimal {
    #[verifier::type_invariant]
    spec fn well_formed(self) -> bool {
        is_decimal_text(self.text@)
    }

    /// Parses a price field of the report: the thousands separators are
    /// dropped, and what is left is kept if it is a decimal literal.
    pub fn parse(text: &str) -> (r: Option<Decimal>)
        ensures
            r is Some <==> is_decimal_text(without_separators(text@)),
            r is Some ==> r.unwrap()@ == without_separators(text@),
    {
        let cleaned = strip_separators(text);
        let chars = chars_of(cleaned.as_str());
        if is_decimal(&chars) {
            Some(Decimal { text: cleaned })
        } else {
            None
        }
    }

    /// The literal.
    pub fn as_str(&self) -> (text: &str)
        ensures
            text@ == self@,
            is_decimal_text(text@),
    {
        proof {
            use_type_invariant(self);
        }
        self.text.as_str()
    }

    /// A copy of the literal.
    pub fn duplicate(&self) -> (copy: Decimal)
        ensures
            copy@ == self@,
    {
        proof {
            use_type_invariant(self);
        }
        Decimal { text: self.text.clone() }
    }
}

} // verus!
