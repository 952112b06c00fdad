use vstd::prelude::*;
use vstd::string::StringSliceAdditionalSpecFns;

verus! {

/// Why a byte quantity was refused.
#[derive(PartialEq, Eq, Structural, Debug, Clone, Copy)]
pub enum ParseBytesError {
    /// Not a decimal number with an optional `k`, `M`, `G` or `T` suffix.
    Invalid,
    /// The quantity does not fit in 64 bits.
    OutOfRange,
}

pub open spec fn is_digit(b: u8) -> bool {
    48 <= b <= 57
}

pub open spec fn all_digits(s: Seq<u8>) -> bool {
    forall|i: int| 0 <= i < s.len() ==> is_digit(#[trigger] s[i])
}

/// The value of a string of decimal digits.
pub open spec fn digits_value(s: Seq<u8>) -> nat
    decreases s.len(),
{
    if s.len() == 0 {
        0
    } else {
        digits_value(s.drop_last()) * 10 + (s.last() - 48) as nat
    }
}

/// The multiplier of a unit suffix, 0 for a byte that is none.
pub open spec fn suffix_factor(b: u8) -> nat {
    if b == 107 {
        1024
    } else if b == 77 {
        1024 * 1024
    } else if b == 71 {
        1024 * 1024 * 1024
    } else if b == 84 {
        1024 * 1024 * 1024 * 1024
    } else {
        0
    }
}

/// The quantity that a string denotes: decimal digits, optionally followed
/// by `k`, `M`, `G` or `T` (powers of 1024); none for any other string.
pub open spec fn bytes_value(s: Seq<u8>) -> Option<nat> {
    if s.len() > 0 && all_digits(s) {
        Some(digits_value(s))
    } else if s.len() > 1 && all_digits(s.drop_last()) && suffix_factor(s.last()) > 0 {
        Some(digits_value(s.drop_last()) * suffix_factor(s.last()))
    } else {
        None
    }
}

/// Reads a run of decimal digits. Returns `None` where a byte is no digit,
/// else whether the value fits in 64 bits and, where it does, the value.
fn parse_digits(s: &[u8]) -> (r: Option<(u64, bool)>)
    ensures
        r is None <==> !all_digits(s@),
        r matches Some((v, fits)) ==> {
            &&& fits <==> digits_value(s@) <= u64::MAX
            &&& fits ==> v == digits_value(s@)
        },
{
    let mut acc: u64 = 0;
    let mut fits: bool = true;
    let mut i: usize = 0;
    while i < s.len()
        invariant
            i <= s@.len(),
            all_digits(s@.subrange(0, i as int)),
            fits ==> acc == digits_value(s@.subrange(0, i as int)),
            !fits ==> digits_value(s@.subrange(0, i as int)) > u64::MAX,
        decreases s@.len() - i,
    {
        let b = s[i];
        if b < 48 || b > 57 {
            return None;
        }
        let d: u64 = (b - 48) as u64;
        let ghost pre = s@.subrange(0, i as int);
        let ghost next = s@.subrange(0, i + 1);
        proof {
            assert(next.drop_last() =~= pre);
            assert(all_digits(next)) by {
                assert forall|k: int| 0 <= k < next.len() implies is_digit(#[trigger] next[k]) by {
                    if k < i {
                        assert(next[k] == pre[k]);
                    }
                }
            }
        }
        if fits {
            if acc > (u64::MAX - d) / 10 {
                fits = false;
                assert(digits_value(next) > u64::MAX) by (nonlinear_arith)
                    requires
                        digits_value(next) == acc * 10 + d,
                        acc > (u64::MAX - d) / 10,
                        d <= 9,
                ;
            } else {
                assert(acc * 10 + d <= u64::MAX) by (nonlinear_arith)
                    requires
                        acc <= (u64::MAX - d) / 10,
                        d <= 9,
                ;
                acc = acc * 10 + d;
            }
        } else {
            proof {
                assert(digits_value(next) >= digits_value(pre)) by (nonlinear_arith)
                    requires
                        digits_value(next) == digits_value(pre) * 10 + (next.last() - 48) as nat,
                ;
            }
        }
        i = i + 1;
    }
    assert(s@.subrange(0, s@.len() as int) =~= s@);
    Some((acc, fits))
}

/// Parses a byte quantity: decimal digits, optionally followed by the suffix
/// `k`, `M`, `G` or `T`, which multiplies by 1024, 1024², 1024³ or 1024⁴.
pub fn parsebytes(s: &str) -> (r: Result<u64, ParseBytesError>)
    ensures
        match bytes_value(s.spec_bytes()) {
            None => r == Err::<u64, ParseBytesError>(ParseBytesError::Invalid),
            Some(v) => if v <= u64::MAX {
                r == Ok::<u64, ParseBytesError>(v as u64)
            } else {
                r == Err::<u64, ParseBytesError>(ParseBytesError::OutOfRange)
            },
        },
{
    let b = s.as_bytes();
    let n = b.len();
    if n == 0 {
        return Err(ParseBytesError::Invalid);
    }
    let last = b[n - 1];
    let factor: u64 = if last == 107 {
        1024
    } else if last == 77 {
        1024 * 1024
    } else if last == 71 {
        1024 * 1024 * 1024
    } else if last == 84 {
        1024 * 1024 * 1024 * 1024
    } else {
        1
    };
    if factor == 1 {
        match parse_digits(b) {
            None => Err(ParseBytesError::Invalid),
            Some((v, fits)) => if fits {
                Ok(v)
            } else {
                Err(ParseBytesError::OutOfRange)
            },
        }
    } else {
        assert(b@.subrange(0, n - 1) =~= b@.drop_last());
        assert(!is_digit(b@[n - 1]));
        if n == 1 {
            return Err(ParseBytesError::Invalid);
        }
        let digits = vstd::slice::slice_subrange(b, 0, n - 1);
        match parse_digits(digits) {
            None => Err(ParseBytesError::Invalid),
            Some((v, fits)) => if fits && v <= u64::MAX / factor {
                assert(v * factor <= u64::MAX) by (nonlinear_arith)
                    requires
                        v <= u64::MAX / factor,
                        factor > 0,
                ;
                Ok(v * factor)
            } else {
                proof {
                    if fits {
                        assert(v * factor > u64::MAX) by (nonlinear_arith)
                            requires
                                v > u64::MAX / factor,
                                factor > 0,
                        ;
                    } else {
                        assert(digits_value(digits@) * factor >= digits_value(digits@)) by (nonlinear_arith)
                            requires
                                factor >= 1,
                        ;
                    }
                }
                Err(ParseBytesError::OutOfRange)
            },
        }
    }
}

} // verus!
