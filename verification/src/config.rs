use vstd::prelude::*;
use vstd::string::*;
use crate::tcp::DEFAULT_SSL_CLOSE_TIMEOUT_MS;

verus! {

/// The character is an ASCII decimal digit.
pub open spec fn is_digit(c: char) -> bool {
    '0' <= c && c <= '9'
}

/// The value of a character taken as a decimal digit.
pub open spec fn digit_value(c: char) -> nat {
    (c as int - '0' as int) as nat
}

/// The value of a string of decimal digits, most significant first.
pub open spec fn digits_value(s: Seq<char>) -> nat
    decreases s.len(),
{
    if s.len() == 0 {
        0
    } else {
        digits_value(s.drop_last()) * 10 + digit_value(s.last())
    }
}

/// The digits of a decimal number, after an optional leading `+`.
pub open spec fn unsigned_digits(s: Seq<char>) -> Seq<char> {
    if s.len() > 0 && s[0] == '+' {
        s.drop_first()
    } else {
        s
    }
}

/// What parsing a `u16` from text gives: an optional `+`, then one or more
/// decimal digits whose value fits in 16 bits; nothing else is accepted.
pub open spec fn parse_u16_spec(s: Seq<char>) -> Option<u16> {
    let d = unsigned_digits(s);
    if d.len() > 0 && (forall|i: int| 0 <= i < d.len() ==> is_digit(#[trigger] d[i])) && digits_value(d) <= u16::MAX {
        Some(digits_value(d) as u16)
    } else {
        None
    }
}

/// A longer run of digits is worth at least as much as its prefix.
proof fn lemma_digits_value_monotone(d: Seq<char>, i: int, j: int)
    requires
        0 <= i <= j <= d.len(),
        forall|k: int| 0 <= k < d.len() ==> is_digit(#[trigger] d[k]),
    ensures
        digits_value(d.take(i)) <= digits_value(d.take(j)),
    decreases j - i,
{
    if i < j {
        lemma_digits_value_monotone(d, i, j - 1);
        assert(d.take(j).drop_last() =~= d.take(j - 1));
    }
}

/// Parses a `u16` the way the standard library does for decimal text.
pub fn parse_u16(s: &str) -> (r: Option<u16>)
    ensures
        r == parse_u16_spec(s@),
{
    let n = s.unicode_len();
    let mut i: usize = 0;
    if n > 0 && s.get_char(0) == '+' {
        i = 1;
    }
    let start = i;
    let ghost d = unsigned_digits(s@);
    assert(d =~= s@.skip(start as int));
    if start == n {
        return None;
    }
    let mut acc: u32 = 0;
    while i < n
        invariant
            start <= i <= n,
            n == s@.len(),
            d == s@.skip(start as int),
            d == unsigned_digits(s@),
            d.len() > 0,
            acc <= u16::MAX,
            acc == digits_value(d.take(i - start)),
            forall|k: int| 0 <= k < i - start ==> is_digit(#[trigger] d[k]),
        decreases n - i,
    {
        let c = s.get_char(i);
        if !('0' <= c && c <= '9') {
            proof {
                let k = i - start;
                assert(0 <= k < d.len());
                assert(d[k] == c);
                assert(!is_digit(d[k]));
                assert(!(forall|k2: int| 0 <= k2 < d.len() ==> is_digit(#[trigger] d[k2])));
                assert(parse_u16_spec(s@) is None);
            }
            return None;
        }
        let dv = (c as u32) - ('0' as u32);
        let ghost k = (i - start) as int;
        proof {
            assert(d[k] == c);
            assert(d.take(k + 1).drop_last() =~= d.take(k));
            assert(d.take(k + 1).last() == c);
        }
        acc = acc * 10 + dv;
        i = i + 1;
        if acc > 65535 {
            proof {
                if forall|k2: int| 0 <= k2 < d.len() ==> is_digit(#[trigger] d[k2]) {
                    lemma_digits_value_monotone(d, i - start, d.len() as int);
                    assert(d.take(d.len() as int) =~= d);
                    assert(digits_value(d) > 65535);
                }
                assert(parse_u16_spec(s@) is None);
            }
            return None;
        }
    }
    proof {
        assert(d.take(d.len() as int) =~= d);
    }
    Some(acc as u16)
}

/// The close timeout of TLS transports in milliseconds: the configured value
/// when it parses as a `u16`, the default otherwise.
pub fn ssl_close_timeout_from(value: Option<&str>) -> (r: u16)
    ensures
        r == match value {
            Some(v) => match parse_u16_spec(v@) {
                Some(t) => t,
                None => DEFAULT_SSL_CLOSE_TIMEOUT_MS,
            },
            None => DEFAULT_SSL_CLOSE_TIMEOUT_MS,
        },
{
    match value {
        Some(v) => match parse_u16(v) {
            Some(t) => t,
            None => DEFAULT_SSL_CLOSE_TIMEOUT_MS,
        },
        None => DEFAULT_SSL_CLOSE_TIMEOUT_MS,
    }
}

} // verus!
