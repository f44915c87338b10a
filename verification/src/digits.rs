//! Decimal encoding and parsing of ledger counter values.
//!
//! The remote platform stores each session counter as a string-encoded
//! integer. Encoding is canonical (no sign, no leading zeros); parsing
//! accepts exactly the non-empty all-digit strings whose value fits the
//! counter's eight-bit range.

use vstd::prelude::*;

verus! {

/// Whether a character is an ASCII decimal digit.
pub open spec fn spec_is_digit(c: char) -> bool {
    '0' <= c && c <= '9'
}

/// The numeric value of an ASCII decimal digit.
pub open spec fn spec_digit_val(c: char) -> int {
    c as int - '0' as int
}

/// Whether every character of a string is an ASCII decimal digit.
pub open spec fn spec_all_digits(s: Seq<char>) -> bool {
    forall|i: int| 0 <= i < s.len() ==> spec_is_digit(#[trigger] s[i])
}

/// The integer value of an all-digit string, most significant digit
/// first; the empty string reads as zero.
pub open spec fn spec_dec_value(s: Seq<char>) -> int
    decreases s.len(),
{
    if s.len() == 0 {
        0
    } else {
        spec_dec_value(s.drop_last()) * 10 + spec_digit_val(s.last())
    }
}

/// The digit character for a value in `0..10`.
pub open spec fn spec_digit_char(d: int) -> char {
    if d == 0 { '0' }
    else if d == 1 { '1' }
    else if d == 2 { '2' }
    else if d == 3 { '3' }
    else if d == 4 { '4' }
    else if d == 5 { '5' }
    else if d == 6 { '6' }
    else if d == 7 { '7' }
    else if d == 8 { '8' }
    else { '9' }
}

/// The canonical decimal rendering of a non-negative integer.
pub open spec fn spec_dec_str(n: int) -> Seq<char>
    decreases n,
{
    if n < 10 {
        seq![spec_digit_char(n)]
    } else {
        spec_dec_str(n / 10) + seq![spec_digit_char(n % 10)]
    }
}

fn digit_str(d: u8) -> (r: &'static str)
    requires
        d < 10,
    ensures
        r@ =~= seq![spec_digit_char(d as int)],
{
    proof {
        reveal_strlit("0");
        reveal_strlit("1");
        reveal_strlit("2");
        reveal_strlit("3");
        reveal_strlit("4");
        reveal_strlit("5");
        reveal_strlit("6");
        reveal_strlit("7");
        reveal_strlit("8");
        reveal_strlit("9");
    }
    match d {
        0 => "0",
        1 => "1",
        2 => "2",
        3 => "3",
        4 => "4",
        5 => "5",
        6 => "6",
        7 => "7",
        8 => "8",
        _ => "9",
    }
}

/// The canonical decimal string for an eight-bit counter value.
pub fn u8_to_decimal(n: u8) -> (r: String)
    ensures
        r@ == spec_dec_str(n as int),
{
    if n >= 100 {
        let mut s = String::from_str(digit_str(n / 100));
        s.append(digit_str((n / 10) % 10));
        s.append(digit_str(n % 10));
        proof {
            assert(spec_dec_str(n as int) == spec_dec_str(n as int / 10) + seq![
                spec_digit_char(n as int % 10),
            ]);
            assert(spec_dec_str(n as int / 10) == spec_dec_str(n as int / 10 / 10) + seq![
                spec_digit_char(n as int / 10 % 10),
            ]);
            assert(n as int / 10 / 10 == n as int / 100);
            assert(spec_dec_str(n as int / 100) =~= seq![spec_digit_char(n as int / 100)]);
            assert(s@ =~= spec_dec_str(n as int));
        }
        s
    } else if n >= 10 {
        let mut s = String::from_str(digit_str(n / 10));
        s.append(digit_str(n % 10));
        proof {
            assert(spec_dec_str(n as int) == spec_dec_str(n as int / 10) + seq![
                spec_digit_char(n as int % 10),
            ]);
            assert(spec_dec_str(n as int / 10) =~= seq![spec_digit_char(n as int / 10)]);
            assert(s@ =~= spec_dec_str(n as int));
        }
        s
    } else {
        let s = String::from_str(digit_str(n));
        proof {
            assert(s@ =~= spec_dec_str(n as int));
        }
        s
    }
}

/// The value of a digit string never shrinks as the string extends.
proof fn lemma_dec_value_nonneg(s: Seq<char>)
    requires
        spec_all_digits(s),
    ensures
        spec_dec_value(s) >= 0,
    decreases s.len(),
{
    if s.len() > 0 {
        assert(spec_all_digits(s.drop_last())) by {
            assert(forall|i: int| 0 <= i < s.len() - 1 ==> s.drop_last()[i] == #[trigger] s[i]);
        }
        lemma_dec_value_nonneg(s.drop_last());
    }
}

/// A prefix of an all-digit string never has a larger value than the
/// whole string.
proof fn lemma_dec_value_prefix(s: Seq<char>, i: int)
    requires
        spec_all_digits(s),
        0 <= i <= s.len(),
    ensures
        spec_dec_value(s.take(i)) <= spec_dec_value(s),
    decreases s.len() - i,
{
    if i < s.len() {
        lemma_dec_value_prefix(s, i + 1);
        assert(s.take(i + 1).drop_last() =~= s.take(i));
        assert(s.take(i + 1).last() == s[i]);
        assert(spec_all_digits(s.take(i))) by {
            assert(forall|j: int| 0 <= j < i ==> s.take(i)[j] == #[trigger] s[j]);
        }
        lemma_dec_value_nonneg(s.take(i));
        assert(spec_dec_value(s.take(i + 1)) == spec_dec_value(s.take(i)) * 10 + spec_digit_val(
            s[i],
        ));
        assert(spec_dec_value(s.take(i)) <= spec_dec_value(s.take(i)) * 10) by (nonlinear_arith)
            requires spec_dec_value(s.take(i)) >= 0;
        assert(spec_digit_val(s[i]) >= 0);
    } else {
        assert(s.take(i) =~= s);
    }
}

/// The value a string-encoded counter parses to: defined exactly for the
/// non-empty all-digit strings whose value fits in eight bits.
pub open spec fn spec_parse_counter(s: Seq<char>) -> Option<u8> {
    if s.len() > 0 && spec_all_digits(s) && spec_dec_value(s) <= 255 {
        Some(spec_dec_value(s) as u8)
    } else {
        None
    }
}

/// Parses a string-encoded counter value: accepts exactly the non-empty
/// all-digit strings whose value fits in eight bits.
pub fn parse_u8_decimal(s: &str) -> (r: Option<u8>)
    ensures
        r == spec_parse_counter(s@),
{
    let len = s.unicode_len();
    if len == 0 {
        return None;
    }
    let mut acc: u32 = 0;
    let mut i: usize = 0;
    while i < len
        invariant
            0 <= i <= len,
            len == s@.len(),
            spec_all_digits(s@.take(i as int)),
            acc as int == spec_dec_value(s@.take(i as int)),
            acc <= 255,
        decreases len - i,
    {
        let c = s.get_char(i);
        if c < '0' || c > '9' {
            return None;
        }
        let d: u32 = (c as u32) - ('0' as u32);
        acc = acc * 10 + d;
        proof {
            assert(s@.take(i + 1).drop_last() =~= s@.take(i as int));
            assert(s@.take(i + 1).last() == s@[i as int]);
            assert(spec_all_digits(s@.take(i + 1))) by {
                assert(forall|j: int|
                    0 <= j < i + 1 ==> s@.take(i + 1)[j] == #[trigger] s@[j]);
            }
        }
        if acc > 255 {
            proof {
                if spec_all_digits(s@) {
                    lemma_dec_value_prefix(s@, i as int + 1);
                }
            }
            return None;
        }
        i = i + 1;
    }
    proof {
        assert(s@.take(len as int) =~= s@);
    }
    Some(acc as u8)
}

/// Encoding then parsing a counter value gives the value back.
pub proof fn lemma_decimal_round_trip(n: int)
    requires
        0 <= n <= 255,
    ensures
        spec_all_digits(spec_dec_str(n)),
        spec_dec_str(n).len() > 0,
        spec_dec_value(spec_dec_str(n)) == n,
    decreases n,
{
    if n < 10 {
        assert(spec_dec_str(n) =~= seq![spec_digit_char(n)]);
        assert(spec_dec_str(n).drop_last() =~= Seq::<char>::empty());
        assert(spec_digit_val(spec_digit_char(n)) == n);
        assert(spec_dec_value(spec_dec_str(n)) == spec_dec_value(Seq::<char>::empty()) * 10
            + spec_digit_val(spec_dec_str(n).last()));
        assert(spec_dec_str(n).last() == spec_digit_char(n));
    } else {
        lemma_decimal_round_trip(n / 10);
        assert(spec_dec_str(n) == spec_dec_str(n / 10) + seq![spec_digit_char(n % 10)]);
        assert(spec_dec_str(n).drop_last() =~= spec_dec_str(n / 10));
        assert(spec_dec_str(n).last() == spec_digit_char(n % 10));
        assert(spec_digit_val(spec_digit_char(n % 10)) == n % 10);
        assert(spec_dec_value(spec_dec_str(n)) == spec_dec_value(spec_dec_str(n / 10)) * 10
            + spec_digit_val(spec_digit_char(n % 10)));
        assert(spec_dec_value(spec_dec_str(n)) == (n / 10) * 10 + n % 10);
        assert(n == (n / 10) * 10 + n % 10);
        assert(spec_all_digits(spec_dec_str(n))) by {
            let s = spec_dec_str(n);
            let p = spec_dec_str(n / 10);
            assert(forall|i: int| 0 <= i < p.len() ==> s[i] == #[trigger] p[i]);
            assert(s[s.len() - 1] == spec_digit_char(n % 10));
        }
    }
}

} // verus!
