//! Startup configuration: the listening port, read once from the process
//! environment. The port text must be a 16-bit unsigned decimal integer;
//! a missing or unparsable value is a fatal startup error, reported
//! before any listener is bound.

use vstd::prelude::*;

verus! {

/// A decimal digit.
pub open spec fn is_dec_digit(c: char) -> bool {
    '0' <= c && c <= '9'
}

/// The value of one decimal digit.
pub open spec fn digit_val(c: char) -> nat {
    (c as u32 - '0' as u32) as nat
}

/// Every character of the sequence is a decimal digit.
pub open spec fn all_digits(s: Seq<char>) -> bool {
    forall|i: int| 0 <= i < s.len() ==> is_dec_digit(s[i])
}

/// The number a sequence of decimal digits denotes.
pub open spec fn dec_val(s: Seq<char>) -> nat
    decreases s.len(),
{
    if s.len() == 0 {
        0
    } else {
        dec_val(s.drop_last()) * 10 + digit_val(s.last())
    }
}

/// The digits of an unsigned decimal literal: the text after an
/// optional leading plus sign.
pub open spec fn unsigned_digits(s: Seq<char>) -> Seq<char> {
    if s.len() > 0 && s[0] == '+' {
        s.skip(1)
    } else {
        s
    }
}

/// What parsing the text as a 16-bit unsigned integer yields: the
/// denoted number, if the text is an optional plus sign followed by one
/// or more decimal digits and the number fits; nothing otherwise.
pub open spec fn parse_u16_spec(s: Seq<char>) -> Option<u16> {
    let d = unsigned_digits(s);
    if d.len() > 0 && all_digits(d) && dec_val(d) <= 0xffff {
        Some(dec_val(d) as u16)
    } else {
        None
    }
}

/// A digit sequence denotes at least what any of its prefixes denotes.
proof fn lemma_dec_val_prefix(s: Seq<char>, k: int)
    requires
        0 <= k <= s.len(),
    ensures
        dec_val(s.subrange(0, k)) <= dec_val(s),
    decreases s.len(),
{
    if k == s.len() {
        assert(s.subrange(0, k) =~= s);
    } else {
        assert(s.subrange(0, k) =~= s.drop_last().subrange(0, k));
        lemma_dec_val_prefix(s.drop_last(), k);
    }
}

/// Parse the port text as `u16`: an optional plus sign, then one or
/// more decimal digits, the value at most `u16::MAX`.
pub fn parse_port(s: &str) -> (r: Option<u16>)
    ensures
        r == parse_u16_spec(s@),
{
    let n = s.unicode_len();
    let mut start: usize = 0;
    if n > 0 && s.get_char(0) == '+' {
        start = 1;
    }
    let ghost d = unsigned_digits(s@);
    proof {
        assert(d =~= s@.subrange(start as int, n as int));
    }
    if start >= n {
        return None;
    }
    let mut i: usize = start;
    let mut acc: u32 = 0;
    while i < n
        invariant
            n == s@.len(),
            start <= i <= n,
            start < n,
            d == s@.subrange(start as int, n as int),
            d == unsigned_digits(s@),
            forall|j: int| start <= j < i ==> is_dec_digit(s@[j]),
            acc == dec_val(s@.subrange(start as int, i as int)),
            acc <= 0xffff,
        decreases n - i,
    {
        let c = s.get_char(i);
        if c < '0' || c > '9' {
            proof {
                assert(d[i - start] == s@[i as int]);
            }
            return None;
        }
        let dv: u32 = c as u32 - '0' as u32;
        proof {
            assert(s@.subrange(start as int, i + 1).drop_last() =~= s@.subrange(
                start as int,
                i as int,
            ));
            assert(s@.subrange(start as int, i + 1).last() == s@[i as int]);
        }
        acc = acc * 10 + dv;
        if acc > 0xffff {
            proof {
                assert(acc == dec_val(d.subrange(0, i + 1 - start))) by {
                    assert(d.subrange(0, i + 1 - start) =~= s@.subrange(start as int, i + 1));
                };
                lemma_dec_val_prefix(d, i + 1 - start);
            }
            return None;
        }
        i += 1;
    }
    proof {
        assert(s@.subrange(start as int, n as int) =~= d);
    }
    Some(acc as u16)
}

/// Why startup fails before the server ever listens.
#[derive(Clone, Copy, Debug, PartialEq, Eq, Structural)]
pub enum StartupError {
    /// The port variable is not set at all.
    MissingPort,
    /// The port variable is set but is not a 16-bit unsigned decimal
    /// integer.
    InvalidPort,
}

/// What the startup sequence decides from the port variable's value:
/// the port to listen on, or the fatal error to terminate with.
pub open spec fn startup_port_spec(var: Option<Seq<char>>) -> Result<u16, StartupError> {
    match var {
        Option::None => Result::Err(StartupError::MissingPort),
        Option::Some(s) => match parse_u16_spec(s) {
            Option::Some(p) => Result::Ok(p),
            Option::None => Result::Err(StartupError::InvalidPort),
        },
    }
}

/// Decide the listening port from the environment's port variable, or
/// the fatal error that terminates startup.
pub fn startup_port(var: Option<String>) -> (r: Result<u16, StartupError>)
    ensures
        r == startup_port_spec(match var {
            Option::Some(s) => Option::Some(s@),
            Option::None => Option::None,
        }),
{
    match var {
        Option::None => Result::Err(StartupError::MissingPort),
        Option::Some(s) => match parse_port(s.as_str()) {
            Option::Some(p) => Result::Ok(p),
            Option::None => Result::Err(StartupError::InvalidPort),
        },
    }
}

} // verus!
