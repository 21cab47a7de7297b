//! Decimal numerals as plain character sequences.
//!
//! [`dec_val`] gives the value of a digit string read base 10; the exec
//! helpers and [`parse_u64`] are verified against it. Both the date parser
//! and the settings parser are specified over these functions.

use vstd::prelude::*;

verus! {

/// Whether `c` is a decimal digit.
pub open spec fn is_digit_char(c: char) -> bool {
    '0' <= c && c <= '9'
}

/// The numeric value of a decimal digit character.
pub open spec fn digit_val(c: char) -> int {
    c as int - '0' as int
}

/// Whether every character of `s` is a decimal digit.
pub open spec fn all_digits(s: Seq<char>) -> bool {
    forall|i: int| 0 <= i < s.len() ==> is_digit_char(s[i])
}

/// The value of `s` read as a base-10 numeral (most significant digit
/// first); 0 for the empty sequence.
pub open spec fn dec_val(s: Seq<char>) -> int
    decreases s.len(),
{
    if s.len() == 0 {
        0
    } else {
        dec_val(s.drop_last()) * 10 + digit_val(s.last())
    }
}

/// Peeling one digit off the end of a numeral multiplies the prefix by ten.
pub proof fn lemma_dec_val_step(s: Seq<char>, lo: int, hi: int)
    requires
        0 <= lo < hi <= s.len(),
    ensures
        dec_val(s.subrange(lo, hi)) == dec_val(s.subrange(lo, hi - 1)) * 10 + digit_val(
            s[hi - 1],
        ),
{
    assert(s.subrange(lo, hi).drop_last() =~= s.subrange(lo, hi - 1));
    assert(s.subrange(lo, hi).last() == s[hi - 1]);
}

/// A digit string's value is never negative.
pub proof fn lemma_dec_val_nonneg(s: Seq<char>)
    requires
        all_digits(s),
    ensures
        dec_val(s) >= 0,
    decreases s.len(),
{
    if s.len() > 0 {
        assert(s.drop_last() =~= s.subrange(0, s.len() - 1));
        lemma_dec_val_nonneg(s.drop_last());
    }
}

/// A digit string is worth at least any of its prefixes.
pub proof fn lemma_dec_val_prefix_le(s: Seq<char>, k: int)
    requires
        all_digits(s),
        0 <= k <= s.len(),
    ensures
        dec_val(s.subrange(0, k)) <= dec_val(s),
    decreases s.len() - k,
{
    if k < s.len() {
        lemma_dec_val_step(s, 0, k + 1);
        assert(all_digits(s.subrange(0, k)));
        lemma_dec_val_nonneg(s.subrange(0, k));
        lemma_dec_val_prefix_le(s, k + 1);
    } else {
        assert(s.subrange(0, k) =~= s);
    }
}

/// The numeric value of a digit character.
pub fn char_digit(c: char) -> (r: u32)
    requires
        is_digit_char(c),
    ensures
        r == digit_val(c),
        r <= 9,
{
    (c as u32) - ('0' as u32)
}

/// Whether `c` is a decimal digit.
pub fn is_digit(c: char) -> (r: bool)
    ensures
        r == is_digit_char(c),
{
    '0' <= c && c <= '9'
}

/// Parse an unsigned decimal numeral.
///
/// Succeeds exactly on non-empty all-digit strings whose value fits in a
/// `u64`, and then returns exactly that value.
pub fn parse_u64(s: &str) -> (r: Option<u64>)
    ensures
        r matches Some(v) ==> s@.len() > 0 && all_digits(s@) && v == dec_val(s@),
        r is None <==> !(s@.len() > 0 && all_digits(s@) && dec_val(s@) <= u64::MAX),
{
    let len = s.unicode_len();
    if len == 0 {
        return None;
    }
    let mut acc: u64 = 0;
    let mut i: usize = 0;
    proof {
        assert(s@.subrange(0, 0).len() == 0);
    }
    while i < len
        invariant
            0 < len,
            len == s@.len(),
            i <= len,
            forall|j: int| 0 <= j < i ==> is_digit_char(s@[j]),
            acc == dec_val(s@.subrange(0, i as int)),
        decreases len - i,
    {
        let c = s.get_char(i);
        if !is_digit(c) {
            proof {
                assert(!all_digits(s@)) by {
                    assert(!is_digit_char(s@[i as int]));
                }
            }
            return None;
        }
        let d = char_digit(c) as u64;
        if acc > (u64::MAX - d) / 10 {
            proof {
                lemma_dec_val_step(s@, 0, i + 1);
                assert(dec_val(s@.subrange(0, i + 1)) > u64::MAX);
                if all_digits(s@) {
                    lemma_dec_val_prefix_le(s@, i + 1);
                }
            }
            return None;
        }
        acc = acc * 10 + d;
        i += 1;
        proof {
            lemma_dec_val_step(s@, 0, i as int);
        }
    }
    proof {
        assert(s@.subrange(0, len as int) =~= s@);
    }
    Some(acc)
}

} // verus!
