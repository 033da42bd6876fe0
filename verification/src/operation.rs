//! The operation-builder side: per-call source overrides and the
//! validation of decimal amounts in the 7-fraction-digit stroop unit.
use vstd::prelude::*;
use vstd::string::StrSliceExecFns;

use crate::decimal::dec_val;
use crate::decimal::is_dec_string;
use crate::decimal::lemma_dec_val_bounds;
use crate::decimal::lemma_dec_val_upper;
use crate::decimal::parse_u64;
use crate::decimal::pow10;

verus! {

/// Stroops in one whole unit of an asset: ten to the seventh.
pub const ONE: i64 = 10000000;

/// An operation builder: it carries the optional source-address
/// override that the built operations take unchanged.
pub struct Operation {
    pub source: Option<String>,
}

impl Operation {
    /// A builder with the given source override.
    pub fn new(source: Option<String>) -> (r: Operation)
        ensures
            r.source == source,
    {
        Operation { source }
    }
}

/// The index of the first decimal point in a string, or -1.
pub open spec fn first_dot(s: Seq<char>) -> int
    decreases s.len(),
{
    if s.len() == 0 {
        -1
    } else if s[0] == '.' {
        0
    } else if first_dot(s.skip(1)) == -1 {
        -1
    } else {
        1 + first_dot(s.skip(1))
    }
}

/// A well-formed amount string: digits, with at most one decimal point
/// followed by one to seven fraction digits.
pub open spec fn spec_valid_amount(s: Seq<char>) -> bool {
    if first_dot(s) == -1 {
        is_dec_string(s)
    } else {
        is_dec_string(s.take(first_dot(s))) && is_dec_string(s.skip(first_dot(s) + 1)) && s.skip(
            first_dot(s) + 1,
        ).len() <= 7
    }
}

/// The number of stroops an amount string denotes: the integer part
/// scaled by ten to the seventh, plus the fraction digits scaled to
/// seven places.
pub open spec fn spec_amount_stroops(s: Seq<char>) -> int {
    if first_dot(s) == -1 {
        dec_val(s) * 10000000
    } else {
        dec_val(s.take(first_dot(s))) * 10000000 + dec_val(s.skip(first_dot(s) + 1)) * pow10(
            (7 - s.skip(first_dot(s) + 1).len()) as nat,
        )
    }
}

/// An amount string the builders accept: well-formed, positive, and
/// within the signed 64-bit stroop range.
pub open spec fn amount_ok(s: Seq<char>) -> bool {
    spec_valid_amount(s) && 0 < spec_amount_stroops(s) && spec_amount_stroops(s) <= i64::MAX
}

/// If no dot stands before position `i`, the first dot of the whole
/// string is at `i` exactly when a dot stands there, and the string
/// has no dot at all when `i` is its length.
proof fn lemma_first_dot_at(s: Seq<char>, i: int)
    requires
        0 <= i <= s.len(),
        forall|j: int| 0 <= j < i ==> s[j] != '.',
    ensures
        i < s.len() && s[i] == '.' ==> first_dot(s) == i,
        i == s.len() ==> first_dot(s) == -1,
    decreases s.len(),
{
    if i == 0 {
        if s.len() > 0 && s[0] != '.' {
        }
    } else {
        assert(s[0] != '.');
        assert forall|j: int| 0 <= j < i - 1 implies s.skip(1)[j] != '.' by {
            assert(s.skip(1)[j] == s[j + 1]);
        }
        lemma_first_dot_at(s.skip(1), i - 1);
        if i < s.len() && s[i] == '.' {
            assert(s.skip(1)[i - 1] == s[i]);
            assert(first_dot(s.skip(1)) == i - 1);
        }
    }
}

fn find_dot(s: &str) -> (r: Option<usize>)
    ensures
        r matches Some(i) ==> i < s@.len() && s@[i as int] == '.' && first_dot(s@) == i,
        r is None ==> first_dot(s@) == -1,
{
    let n = s.unicode_len();
    let mut i: usize = 0;
    while i < n
        invariant
            0 <= i <= n,
            n == s@.len(),
            forall|j: int| 0 <= j < i ==> s@[j] != '.',
        decreases n - i,
    {
        if s.get_char(i) == '.' {
            proof {
                lemma_first_dot_at(s@, i as int);
            }
            return Some(i);
        }
        i = i + 1;
    }
    proof {
        lemma_first_dot_at(s@, n as int);
    }
    None
}

fn pow10_u64(e: usize) -> (r: u64)
    requires
        e <= 7,
    ensures
        r == pow10(e as nat),
        1 <= r <= 10000000,
{
    let mut r: u64 = 1;
    let mut k: usize = 0;
    while k < e
        invariant
            0 <= k <= e <= 7,
            r == pow10(k as nat),
        decreases e - k,
    {
        proof {
            lemma_pow10_monotonic(k as nat, 6);
            assert(pow10(6) == 1000000) by {
                reveal_with_fuel(pow10, 7);
            }
        }
        r = r * 10;
        k = k + 1;
    }
    proof {
        lemma_pow10_monotonic(e as nat, 7);
        assert(pow10(7) == 10000000) by {
                reveal_with_fuel(pow10, 8);
            }
    }
    r
}

/// Parses an amount string into stroops. Returns the value exactly
/// when the string is well-formed and denotes a positive number no
/// larger than the signed 64-bit range; every other input is refused.
pub fn parse_amount(s: &str) -> (r: Option<i64>)
    ensures
        r matches Some(v) ==> spec_valid_amount(s@) && 0 < v && v == spec_amount_stroops(s@),
        r is None ==> !spec_valid_amount(s@) || spec_amount_stroops(s@) <= 0
            || spec_amount_stroops(s@) > i64::MAX,
{
    let n = s.unicode_len();
    match find_dot(s) {
        Option::None => {
            let ip = match parse_u64(s) {
                Some(v) => v,
                Option::None => {
                    proof {
                        if is_dec_string(s@) {
                            lemma_dec_val_bounds(s@);
                            assert(dec_val(s@) * 10000000 >= dec_val(s@) * 1) by (nonlinear_arith)
                                requires
                                    dec_val(s@) >= 0,
                            ;
                        }
                    }
                    return None;
                },
            };
            if ip > i64::MAX as u64 {
                proof {
                    assert(ip * 10000000 > i64::MAX) by (nonlinear_arith)
                        requires
                            ip > i64::MAX as u64,
                    ;
                }
                return None;
            }
            let v = match (ip as i64).checked_mul(10000000) {
                Some(v) => v,
                Option::None => {
                    return None;
                },
            };
            proof {
                assert((ip as int) * 10000000 >= 0) by (nonlinear_arith)
                    requires
                        ip >= 0,
                ;
            }
            if v == 0 {
                return None;
            }
            Some(v)
        },
        Some(d) => {
            let fl = n - d - 1;
            if d == 0 || fl == 0 || fl > 7 {
                return None;
            }
            let ip_str = s.substring_char(0, d);
            let fp_str = s.substring_char(d + 1, n);
            proof {
                assert(ip_str@ == s@.subrange(0, d as int));
                assert(s@.subrange(0, d as int) =~= s@.take(d as int));
                assert(fp_str@ == s@.subrange(d + 1, n as int));
                assert(s@.subrange(d + 1, n as int) =~= s@.skip(d + 1));
            }
            let ip = match parse_u64(ip_str) {
                Some(v) => v,
                Option::None => {
                    proof {
                        if spec_valid_amount(s@) {
                            lemma_dec_val_bounds(s@.take(d as int));
                            lemma_dec_val_bounds(s@.skip(d + 1));
                            lemma_pow_scale_nonneg(s@.skip(d + 1));
                            assert(dec_val(s@.take(d as int)) * 10000000 > i64::MAX) by (
                            nonlinear_arith)
                                requires
                                    dec_val(s@.take(d as int)) > u64::MAX,
                            ;
                        }
                    }
                    return None;
                },
            };
            let fp = match parse_u64(fp_str) {
                Some(v) => v,
                Option::None => {
                    proof {
                        if is_dec_string(s@.skip(d + 1)) {
                            lemma_dec_val_upper(s@.skip(d + 1));
                            lemma_pow10_monotonic(s@.skip(d + 1).len() as nat, 7);
                            assert(pow10(7) == 10000000) by {
                reveal_with_fuel(pow10, 8);
            }
                        }
                    }
                    return None;
                },
            };
            proof {
                lemma_dec_val_upper(fp_str@);
                lemma_pow10_monotonic(fp_str@.len() as nat, 7);
                assert(pow10(7) == 10000000) by {
                reveal_with_fuel(pow10, 8);
            }
            }
            let scale = pow10_u64(7 - fl);
            proof {
                assert(fp * scale <= 10000000 * 10000000) by (nonlinear_arith)
                    requires
                        0 <= fp <= 10000000,
                        0 <= scale <= 10000000,
                ;
                assert(fp * scale >= 0) by (nonlinear_arith)
                    requires
                        fp >= 0,
                        scale >= 0,
                ;
            }
            let frac_scaled = fp * scale;
            if ip > i64::MAX as u64 {
                proof {
                    lemma_dec_val_bounds(fp_str@);
                    assert(ip * 10000000 > i64::MAX) by (nonlinear_arith)
                        requires
                            ip > i64::MAX as u64,
                    ;
                    assert(dec_val(fp_str@) * pow10((7 - fp_str@.len()) as nat) >= 0) by (
                    nonlinear_arith)
                        requires
                            dec_val(fp_str@) >= 0,
                            pow10((7 - fp_str@.len()) as nat) >= 1,
                    ;
                }
                return None;
            }
            let total = match (ip as i64).checked_mul(10000000) {
                Some(v) => v,
                Option::None => {
                    proof {
                        lemma_dec_val_bounds(fp_str@);
                        assert(dec_val(fp_str@) * pow10((7 - fp_str@.len()) as nat) >= 0) by (
                        nonlinear_arith)
                            requires
                                dec_val(fp_str@) >= 0,
                                pow10((7 - fp_str@.len()) as nat) >= 1,
                        ;
                    }
                    return None;
                },
            };
            let total = match total.checked_add(frac_scaled as i64) {
                Some(v) => v,
                Option::None => {
                    return None;
                },
            };
            if total == 0 {
                return None;
            }
            proof {
                lemma_dec_val_bounds(fp_str@);
                assert((ip as int) * 10000000 >= 0) by (nonlinear_arith)
                    requires
                        ip >= 0,
                ;
            }
            Some(total)
        },
    }
}

/// Powers of ten grow with the exponent.
proof fn lemma_pow10_monotonic(a: nat, b: nat)
    requires
        a <= b,
    ensures
        1 <= pow10(a) <= pow10(b),
    decreases b,
{
    if b > 0 {
        if a == b {
            lemma_pow10_monotonic((b - 1) as nat, (b - 1) as nat);
        } else {
            lemma_pow10_monotonic(a, (b - 1) as nat);
        }
    }
}

proof fn lemma_pow_scale_nonneg(s: Seq<char>)
    requires
        forall|i: int| 0 <= i < s.len() ==> crate::decimal::is_digit_char(s[i]),
        s.len() <= 7,
    ensures
        dec_val(s) * pow10((7 - s.len()) as nat) >= 0,
{
    lemma_dec_val_bounds(s);
    lemma_pow10_monotonic((7 - s.len()) as nat, 7);
    assert(dec_val(s) * pow10((7 - s.len()) as nat) >= 0) by (nonlinear_arith)
        requires
            dec_val(s) >= 0,
            pow10((7 - s.len()) as nat) >= 1,
    ;
}

/// Decides whether a string is a well-formed positive amount within
/// the 64-bit stroop range.
pub fn is_valid_amount(value: &str) -> (b: bool)
    ensures
        b == (spec_valid_amount(value@) && 0 < spec_amount_stroops(value@)
            && spec_amount_stroops(value@) <= i64::MAX),
{
    parse_amount(value).is_some()
}

/// The arguments of a payment operation.
pub struct PaymentOpts {
    pub destination: String,
    pub asset: crate::asset::Asset,
    pub amount: String,
    pub source: Option<String>,
}

} // verus!
