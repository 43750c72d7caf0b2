//! Resolution of the worker-pool size: an environment override when it names
//! a positive integer, otherwise the host's processor count, with a fixed
//! fallback for an unparseable override.

use vstd::prelude::*;

verus! {

/// The pool size used when the override is present but not a positive
/// integer.
pub const FALLBACK_POOL_SIZE: usize = 4;

/// Whether a character is a decimal digit.
pub open spec fn is_digit(c: char) -> bool {
    '0' as u32 <= c as u32 <= '9' as u32
}

/// The value of one decimal digit character.
pub open spec fn digit_val(c: char) -> nat {
    (c as u32 - '0' as u32) as nat
}

/// Whether every character of `s` is a decimal digit.
pub open spec fn all_digits(s: Seq<char>) -> bool {
    forall|i: int| 0 <= i < s.len() ==> is_digit(s[i])
}

/// The number a digit string denotes, most significant digit first.
pub open spec fn dec_val(s: Seq<char>) -> nat
    decreases s.len(),
{
    if s.len() == 0 {
        0
    } else {
        dec_val(s.drop_last()) * 10 + digit_val(s.last())
    }
}

/// An override value is recognized when it is a non-empty digit string
/// denoting a positive number that fits the machine's word.
pub open spec fn recognized(s: Seq<char>) -> bool {
    &&& s.len() > 0
    &&& all_digits(s)
    &&& dec_val(s) > 0
    &&& dec_val(s) <= usize::MAX
}

/// A digit string's value never shrinks as more digits are read.
proof fn lemma_dec_val_take_grows(s: Seq<char>, i: int)
    requires
        0 <= i <= s.len(),
    ensures
        dec_val(s.take(i)) <= dec_val(s),
    decreases s.len() - i,
{
    if i < s.len() {
        assert(s.take(i + 1).drop_last() =~= s.take(i));
        lemma_dec_val_take_grows(s, i + 1);
    } else {
        assert(s.take(i) =~= s);
    }
}

/// Parse a decimal string. Returns the value exactly when the string is a
/// non-empty digit string whose value fits the machine's word; the value may
/// be zero here, and positivity is the caller's test.
pub fn parse_decimal(s: &str) -> (r: Option<usize>)
    ensures
        match r {
            Some(v) => s@.len() > 0 && all_digits(s@) && v == dec_val(s@) && dec_val(s@)
                <= usize::MAX,
            None => s@.len() == 0 || !all_digits(s@) || dec_val(s@) > usize::MAX,
        },
{
    let n = s.unicode_len();
    if n == 0 {
        return None;
    }
    let mut acc: usize = 0;
    let mut i: usize = 0;
    proof {
        assert(s@.take(0) =~= Seq::<char>::empty());
    }
    while i < n
        invariant
            n == s@.len(),
            0 <= i <= n,
            all_digits(s@.take(i as int)),
            acc == dec_val(s@.take(i as int)),
        decreases n - i,
    {
        let c = s.get_char(i);
        let cu: u32 = c as u32;
        if cu < '0' as u32 || cu > '9' as u32 {
            proof {
                assert(!is_digit(s@[i as int]));
            }
            return None;
        }
        let d: usize = (cu - '0' as u32) as usize;
        proof {
            assert(s@.take(i + 1).drop_last() =~= s@.take(i as int));
            assert(s@.take(i + 1).last() == s@[i as int]);
        }
        let shifted = match acc.checked_mul(10) {
            Some(x) => x,
            None => {
                proof {
                    lemma_dec_val_take_grows(s@, i + 1);
                }
                return None;
            },
        };
        acc = match shifted.checked_add(d) {
            Some(x) => x,
            None => {
                proof {
                    lemma_dec_val_take_grows(s@, i + 1);
                }
                return None;
            },
        };
        i = i + 1;
    }
    proof {
        assert(s@.take(n as int) =~= s@);
    }
    Some(acc)
}

/// Relies on num_cpus::get: the number of available logical processors,
/// which its documentation promises is always at least 1.
#[verifier::external_body]
fn available_parallelism_units() -> (r: usize)
    ensures
        r >= 1,
{
    num_cpus::get()
}

/// Resolve the pool size from the override value, when the variable was set,
/// falling back to a fixed default for an unrecognized override and to the
/// processor count when the variable was absent. Always positive.
pub fn resolve_pool_size(override_val: Option<&str>) -> (n: usize)
    ensures
        match override_val {
            Some(s) => n == if recognized(s@) {
                dec_val(s@)
            } else {
                FALLBACK_POOL_SIZE as nat
            },
            None => n >= 1,
        },
        n >= 1,
{
    match override_val {
        Some(s) => {
            match parse_decimal(s) {
                Some(v) => if v > 0 {
                    v
                } else {
                    FALLBACK_POOL_SIZE
                },
                None => FALLBACK_POOL_SIZE,
            }
        },
        None => available_parallelism_units(),
    }
}

} // verus!
