//! Decimal-string arithmetic for sequence numbers and sub-account ids.
//!
//! Ledger sequence counters exceed the safe integer range of some hosts,
//! so accounts carry them as decimal strings; this module gives those
//! strings an exact numeric meaning, a verified increment, and a
//! verified bounded parser.
use vstd::prelude::*;
use vstd::string::StrSliceExecFns;
use vstd::string::StringExecFns;

verus! {

/// The numeric value of a decimal digit character.
pub open spec fn digit_val(c: char) -> int {
    c as u32 - 48
}

pub open spec fn is_digit_char(c: char) -> bool {
    48 <= c as u32 <= 57
}

/// A non-empty string of decimal digits.
pub open spec fn is_dec_string(s: Seq<char>) -> bool {
    s.len() > 0 && forall|i: int| 0 <= i < s.len() ==> is_digit_char(s[i])
}

/// The number a digit string denotes, most significant digit first.
pub open spec fn dec_val(s: Seq<char>) -> int
    decreases s.len(),
{
    if s.len() == 0 {
        0
    } else {
        dec_val(s.drop_last()) * 10 + digit_val(s.last())
    }
}

/// Ten to the `n`-th power.
pub open spec fn pow10(n: nat) -> int
    decreases n,
{
    if n == 0 {
        1
    } else {
        10 * pow10((n - 1) as nat)
    }
}

/// A digit string of `n` digits denotes less than ten to the `n`-th.
pub proof fn lemma_dec_val_upper(s: Seq<char>)
    requires
        forall|i: int| 0 <= i < s.len() ==> is_digit_char(s[i]),
    ensures
        0 <= dec_val(s) < pow10(s.len()),
    decreases s.len(),
{
    if s.len() > 0 {
        lemma_dec_val_upper(s.drop_last());
        assert(is_digit_char(s[s.len() - 1]));
        assert(digit_val(s.last()) <= 9);
    }
}

/// The value of a digit string is non-negative, and every prefix
/// denotes at most what the whole string denotes.
pub proof fn lemma_dec_val_bounds(s: Seq<char>)
    requires
        forall|i: int| 0 <= i < s.len() ==> is_digit_char(s[i]),
    ensures
        dec_val(s) >= 0,
        forall|n: int| 0 <= n <= s.len() ==> #[trigger] dec_val(s.take(n)) <= dec_val(s),
    decreases s.len(),
{
    if s.len() == 0 {
        assert(s.take(0) =~= s);
    } else {
        lemma_dec_val_bounds(s.drop_last());
        assert(s.take(s.len() as int) =~= s);
        assert(s.take(s.len() - 1) =~= s.drop_last());
        assert forall|n: int| 0 <= n <= s.len() implies #[trigger] dec_val(s.take(n)) <= dec_val(
            s,
        ) by {
            if n < s.len() {
                assert(s.drop_last().take(n) =~= s.take(n));
                assert(dec_val(s.take(n)) <= dec_val(s.drop_last()));
                assert(dec_val(s) == dec_val(s.drop_last()) * 10 + digit_val(s.last()));
            }
        }
    }
}

fn digit_of_char(c: char) -> (r: Option<u8>)
    ensures
        r matches Some(d) ==> is_digit_char(c) && d == digit_val(c) && d <= 9,
        r is None ==> !is_digit_char(c),
{
    let cu = c as u32;
    if 48 <= cu && cu <= 57 {
        Some((cu - 48) as u8)
    } else {
        None
    }
}

/// Decides whether a string is a non-empty run of decimal digits.
pub fn check_dec_string(s: &str) -> (b: bool)
    ensures
        b == is_dec_string(s@),
{
    let n = s.unicode_len();
    if n == 0 {
        return false;
    }
    let mut i: usize = 0;
    while i < n
        invariant
            0 <= i <= n,
            n == s@.len(),
            forall|j: int| 0 <= j < i ==> is_digit_char(s@[j]),
        decreases n - i,
    {
        let c = s.get_char(i);
        if digit_of_char(c).is_none() {
            return false;
        }
        i = i + 1;
    }
    true
}

/// Parses a decimal string into a 64-bit value; rejects empty strings,
/// non-digit characters, and values beyond the 64-bit range.
pub fn parse_u64(s: &str) -> (r: Option<u64>)
    ensures
        r matches Some(v) ==> is_dec_string(s@) && dec_val(s@) == v,
        r is None ==> !is_dec_string(s@) || dec_val(s@) > u64::MAX,
{
    let n = s.unicode_len();
    if n == 0 {
        return None;
    }
    let mut acc: u64 = 0;
    let mut i: usize = 0;
    while i < n
        invariant
            0 <= i <= n,
            n == s@.len(),
            forall|j: int| 0 <= j < i ==> is_digit_char(s@[j]),
            acc == dec_val(s@.take(i as int)),
        decreases n - i,
    {
        let c = s.get_char(i);
        let d = match digit_of_char(c) {
            Some(d) => d,
            Option::None => {
                return None;
            },
        };
        let shifted = match acc.checked_mul(10) {
            Some(v) => v,
            Option::None => {
                proof {
                    overflow_means_whole_too_big(s@, i as int);
                }
                return None;
            },
        };
        let next = match shifted.checked_add(d as u64) {
            Some(v) => v,
            Option::None => {
                proof {
                    overflow_means_whole_too_big(s@, i as int);
                }
                return None;
            },
        };
        proof {
            assert(s@.take(i + 1).drop_last() =~= s@.take(i as int));
            assert(s@.take(i + 1).last() == s@[i as int]);
        }
        acc = next;
        i = i + 1;
    }
    proof {
        assert(s@.take(n as int) =~= s@);
    }
    Some(acc)
}

/// If one more digit pushes the running value past the 64-bit range,
/// the whole string's value, if it is a digit string at all, is past it
/// too.
proof fn overflow_means_whole_too_big(s: Seq<char>, i: int)
    requires
        0 <= i < s.len(),
        dec_val(s.take(i)) * 10 + digit_val(s[i]) > u64::MAX,
    ensures
        is_dec_string(s) ==> dec_val(s) > u64::MAX,
{
    if is_dec_string(s) {
        lemma_dec_val_bounds(s);
        assert(s.take(i + 1).drop_last() =~= s.take(i));
        assert(s.take(i + 1).last() == s[i]);
        assert(dec_val(s.take(i + 1)) == dec_val(s.take(i)) * 10 + digit_val(s[i]));
        assert(dec_val(s.take(i + 1)) <= dec_val(s));
    }
}

fn next_digit_char(c: char) -> (r: char)
    requires
        is_digit_char(c),
        digit_val(c) < 9,
    ensures
        is_digit_char(r),
        digit_val(r) == digit_val(c) + 1,
{
    match c {
        '0' => '1',
        '1' => '2',
        '2' => '3',
        '3' => '4',
        '4' => '5',
        '5' => '6',
        '6' => '7',
        '7' => '8',
        '8' => '9',
        _ => {
            proof {
                assert(false);
            }
            '0'
        },
    }
}

/// Adds one to a digit vector, most significant digit first, growing it
/// by one place when every digit is a nine.
fn inc_digits(ds: &mut Vec<char>)
    requires
        forall|i: int| 0 <= i < old(ds)@.len() ==> is_digit_char(old(ds)@[i]),
    ensures
        forall|i: int| 0 <= i < final(ds)@.len() ==> is_digit_char(final(ds)@[i]),
        final(ds)@.len() > 0,
        dec_val(final(ds)@) == dec_val(old(ds)@) + 1,
    decreases old(ds)@.len(),
{
    let popped = ds.pop();
    match popped {
        Some(last) => {
            proof {
                assert(old(ds)@.drop_last() =~= ds@);
                assert(old(ds)@.last() == last);
                assert(is_digit_char(old(ds)@[old(ds)@.len() - 1]));
                assert(dec_val(old(ds)@) == dec_val(old(ds)@.drop_last()) * 10 + digit_val(last));
            }
            let lu = last as u32;
            if lu < 57 {
                let next = next_digit_char(last);
                ds.push(next);
                proof {
                    assert(ds@.drop_last() =~= old(ds)@.drop_last());
                    assert(ds@.last() == next);
                    assert(dec_val(ds@) == dec_val(old(ds)@.drop_last()) * 10 + digit_val(next));
                }
            } else {
                proof {
                    assert(digit_val(last) == 9);
                }
                inc_digits(ds);
                let ghost mid = ds@;
                ds.push('0');
                proof {
                    assert(ds@.drop_last() =~= mid);
                    assert(ds@.last() == '0');
                    assert(digit_val('0') == 0);
                    assert(dec_val(ds@) == dec_val(mid) * 10);
                    assert(dec_val(old(ds)@) == dec_val(old(ds)@.drop_last()) * 10 + 9);
                }
            }
        },
        Option::None => {
            ds.push('1');
            proof {
                assert(ds@.drop_last() =~= Seq::<char>::empty());
                assert(ds@.last() == '1');
                assert(dec_val(Seq::<char>::empty()) == 0);
                assert(dec_val(ds@) == dec_val(ds@.drop_last()) * 10 + digit_val(ds@.last()));
                assert(digit_val('1') == 1);
            }
        },
    }
}

fn digit_char_str(c: char) -> (r: &'static str)
    requires
        is_digit_char(c),
    ensures
        r@ =~= seq![c],
{
    let r = match c {
        '0' => "0",
        '1' => "1",
        '2' => "2",
        '3' => "3",
        '4' => "4",
        '5' => "5",
        '6' => "6",
        '7' => "7",
        '8' => "8",
        '9' => "9",
        _ => {
            proof {
                assert(false);
            }
            "0"
        },
    };
    proof {
        reveal_strlit("0");
        reveal_strlit("1");
        reveal_strlit("2");
        reveal_strlit("3");
        reveal_strlit("4");
        reveal_strlit("5");
        reveal_strlit("6");
        reveal_strlit("7");
        reveal_strlit("8");
        reveal_strlit("9");
    }
    r
}

/// Adds one to a decimal string: the digit-string form of the successor
/// of the number the input denotes.
pub fn increment_dec_string(s: &str) -> (r: String)
    requires
        is_dec_string(s@),
    ensures
        is_dec_string(r@),
        dec_val(r@) == dec_val(s@) + 1,
{
    let n = s.unicode_len();
    let mut ds: Vec<char> = Vec::new();
    let mut i: usize = 0;
    while i < n
        invariant
            0 <= i <= n,
            n == s@.len(),
            is_dec_string(s@),
            ds@ == s@.take(i as int),
        decreases n - i,
    {
        ds.push(s.get_char(i));
        proof {
            assert(ds@ =~= s@.take(i + 1));
        }
        i = i + 1;
    }
    proof {
        assert(s@.take(n as int) =~= s@);
    }
    inc_digits(&mut ds);
    let mut out = String::new();
    let mut k: usize = 0;
    while k < ds.len()
        invariant
            0 <= k <= ds@.len(),
            forall|j: int| 0 <= j < ds@.len() ==> is_digit_char(ds@[j]),
            out@ == ds@.take(k as int),
        decreases ds@.len() - k,
    {
        out.append(digit_char_str(ds[k]));
        proof {
            assert(out@ =~= ds@.take(k + 1));
        }
        k = k + 1;
    }
    proof {
        assert(ds@.take(ds@.len() as int) =~= ds@);
    }
    out
}

} // verus!
