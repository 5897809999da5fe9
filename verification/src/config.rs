//! Startup configuration: the database address and the listening port.
//! The process must fail fast, before binding any socket, when either is
//! missing or the port is not a number; `validate_config` is that
//! decision, taken on the raw environment values.

use vstd::prelude::*;
use crate::errors::AppError;

verus! {

/// `b` is the code of a decimal digit.
pub open spec fn is_digit(b: u8) -> bool {
    48 <= b <= 57
}

/// Every byte of `s` is a decimal digit.
pub open spec fn all_digits(s: Seq<u8>) -> bool {
    forall|i: int| 0 <= i < s.len() ==> is_digit(#[trigger] s[i])
}

/// The value of `s` read as a decimal number.
pub open spec fn dec_val(s: Seq<u8>) -> nat
    decreases s.len(),
{
    if s.len() == 0 {
        0
    } else {
        (dec_val(s.drop_last()) * 10 + (s.last() - 48)) as nat
    }
}

/// Reading more digits never shrinks the value.
proof fn lemma_dec_val_prefix(s: Seq<u8>, j: int)
    requires
        0 <= j <= s.len(),
        all_digits(s),
    ensures
        dec_val(s.subrange(0, j)) <= dec_val(s),
    decreases s.len() - j,
{
    if j == s.len() {
        assert(s.subrange(0, j) =~= s);
    } else {
        lemma_dec_val_prefix(s, j + 1);
        assert(s.subrange(0, j + 1).drop_last() =~= s.subrange(0, j));
        let v = dec_val(s.subrange(0, j));
        assert(v <= v * 10) by (nonlinear_arith);
    }
}

/// Parses a decimal port number: succeeds exactly on non-empty all-digit
/// input whose value fits a port.
pub fn parse_port(s: &[u8]) -> (r: Option<u16>)
    ensures
        r is Some <==> s@.len() > 0 && all_digits(s@) && dec_val(s@) <= 65535,
        r is Some ==> r.unwrap() == dec_val(s@),
{
    if s.len() == 0 {
        return None;
    }
    let mut acc: u32 = 0;
    let mut i: usize = 0;
    while i < s.len()
        invariant
            0 < s@.len(),
            i <= s@.len(),
            all_digits(s@.subrange(0, i as int)),
            acc == dec_val(s@.subrange(0, i as int)),
            acc <= 65535,
        decreases s@.len() - i,
    {
        let b = s[i];
        proof {
            assert(s@.subrange(0, i + 1).drop_last() =~= s@.subrange(0, i as int));
            assert(s@.subrange(0, i + 1).last() == s@[i as int]);
        }
        if b < 48 || b > 57 {
            return None;
        }
        let next: u32 = acc * 10 + (b - 48) as u32;
        if next > 65535 {
            proof {
                if all_digits(s@) {
                    lemma_dec_val_prefix(s@, i + 1);
                }
            }
            return None;
        }
        acc = next;
        i = i + 1;
    }
    proof {
        assert(s@.subrange(0, s@.len() as int) =~= s@);
    }
    Some(acc as u16)
}

/// The validated startup configuration.
#[derive(Debug)]
pub struct Config {
    pub database_url: String,
    pub port: u16,
}

/// Checks the raw environment values: succeeds exactly when the database
/// address is present and the port is present, numeric and in range.
/// A failure means the process must exit without binding a socket.
pub fn validate_config(database_url: Option<String>, port: Option<Vec<u8>>) -> (r: Result<
    Config,
    AppError,
>)
    ensures
        r is Ok <==> database_url is Some && port is Some && port.unwrap()@.len() > 0
            && all_digits(port.unwrap()@) && dec_val(port.unwrap()@) <= 65535,
        r is Ok ==> r.unwrap().database_url == database_url.unwrap() && r.unwrap().port == dec_val(
            port.unwrap()@,
        ),
        r is Err ==> r.unwrap_err() == AppError::Config,
{
    match (database_url, port) {
        (Some(url), Some(pb)) => match parse_port(pb.as_slice()) {
            Some(p) => Ok(Config { database_url: url, port: p }),
            None => Err(AppError::Config),
        },
        _ => Err(AppError::Config),
    }
}

} // verus!
