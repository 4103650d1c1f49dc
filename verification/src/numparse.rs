use vstd::prelude::*;

use crate::errors::IntParseError;

verus! {

/// `u64::MAX / 10`: the largest accumulator that can take one more decimal
/// digit without leaving `u64`.
pub const U64_MAX_DIV_TEN: u64 = 1844674407370955161;

/// `u64::MAX % 10`: the largest digit that may follow such an accumulator.
pub const U64_MAX_LAST_DIGIT: u64 = 5;

/// Every character of `s` is a decimal digit.
pub open spec fn all_digits(s: Seq<char>) -> bool {
    forall|i: int| 0 <= i < s.len() ==> '0' <= #[trigger] s[i] <= '9'
}

/// Numeric value of one decimal digit character.
pub open spec fn digit_value(c: char) -> int {
    c as int - '0' as int
}

/// Value of a decimal numeral, most significant digit first.
pub open spec fn dec_value(s: Seq<char>) -> int
    decreases s.len(),
{
    if s.len() == 0 {
        0
    } else {
        dec_value(s.drop_last()) * 10 + digit_value(s.last())
    }
}

/// A digit string never denotes a negative value.
proof fn lemma_dec_value_nonneg(s: Seq<char>)
    requires
        all_digits(s),
    ensures
        dec_value(s) >= 0,
    decreases s.len(),
{
    if s.len() > 0 {
        assert(all_digits(s.drop_last()));
        lemma_dec_value_nonneg(s.drop_last());
    }
}

/// Extending a digit string on the right can only increase its value.
proof fn lemma_dec_value_prefix_le(s: Seq<char>, i: int)
    requires
        all_digits(s),
        0 <= i <= s.len(),
    ensures
        dec_value(s.subrange(0, i)) <= dec_value(s),
    decreases s.len() - i,
{
    if i == s.len() {
        assert(s.subrange(0, i) =~= s);
    } else {
        let shorter = s.subrange(0, i);
        let longer = s.subrange(0, i + 1);
        assert(longer.drop_last() =~= shorter);
        assert(all_digits(shorter));
        lemma_dec_value_nonneg(shorter);
        assert(dec_value(longer) == dec_value(shorter) * 10 + digit_value(longer.last()));
        lemma_dec_value_prefix_le(s, i + 1);
    }
}

/// Parses a decimal numeral into a `u64`, reporting exactly why it cannot.
pub fn parse_u64(s: &str) -> (r: Result<u64, IntParseError>)
    ensures
        match r {
            Ok(v) => s@.len() > 0 && all_digits(s@) && v == dec_value(s@),
            Err(IntParseError::Empty) => s@.len() == 0,
            Err(IntParseError::InvalidDigit) => s@.len() > 0 && !all_digits(s@),
            Err(IntParseError::Overflow) => all_digits(s@) && dec_value(s@) > u64::MAX,
        },
{
    let n = s.unicode_len();
    if n == 0 {
        return Err(IntParseError::Empty);
    }
    let mut i: usize = 0;
    while i < n
        invariant
            n == s@.len(),
            i <= n,
            forall|j: int| 0 <= j < i ==> '0' <= #[trigger] s@[j] <= '9',
        decreases n - i,
    {
        let c = s.get_char(i);
        if !('0' <= c && c <= '9') {
            return Err(IntParseError::InvalidDigit);
        }
        i += 1;
    }
    let mut acc: u64 = 0;
    i = 0;
    while i < n
        invariant
            n == s@.len(),
            i <= n,
            all_digits(s@),
            acc == dec_value(s@.subrange(0, i as int)),
        decreases n - i,
    {
        let c = s.get_char(i);
        let d: u64 = (c as u32 - '0' as u32) as u64;
        proof {
            assert(s@.subrange(0, i + 1).drop_last() =~= s@.subrange(0, i as int));
            assert(s@.subrange(0, i + 1).last() == s@[i as int]);
        }
        if acc > U64_MAX_DIV_TEN || (acc == U64_MAX_DIV_TEN && d > U64_MAX_LAST_DIGIT) {
            proof {
                assert(dec_value(s@.subrange(0, i + 1)) > u64::MAX);
                lemma_dec_value_prefix_le(s@, i + 1);
            }
            return Err(IntParseError::Overflow);
        }
        acc = acc * 10 + d;
        i += 1;
    }
    proof {
        assert(s@.subrange(0, n as int) =~= s@);
    }
    Ok(acc)
}

/// Parses a decimal numeral into a `u8`, reporting exactly why it cannot.
pub fn parse_u8(s: &str) -> (r: Result<u8, IntParseError>)
    ensures
        match r {
            Ok(v) => s@.len() > 0 && all_digits(s@) && v == dec_value(s@),
            Err(IntParseError::Empty) => s@.len() == 0,
            Err(IntParseError::InvalidDigit) => s@.len() > 0 && !all_digits(s@),
            Err(IntParseError::Overflow) => all_digits(s@) && dec_value(s@) > u8::MAX,
        },
{
    match parse_u64(s) {
        Ok(v) => {
            if v > u8::MAX as u64 {
                Err(IntParseError::Overflow)
            } else {
                Ok(v as u8)
            }
        },
        Err(e) => Err(e),
    }
}

} // verus!
