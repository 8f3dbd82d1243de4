//! Decimal encoding of the backend port.
//!
//! The launcher hands the chosen port to the backend and to the GUI
//! shell through an environment variable holding its decimal digits.
//! This module renders a port as that digit string and parses such a
//! string back, and proves that the two are inverses: a consumer that
//! reads the variable recovers exactly the port the allocator chose.

use vstd::prelude::*;
use vstd::string::*;

verus! {

/// `c` is an ASCII decimal digit.
pub open spec fn is_digit_char(c: char) -> bool {
    48 <= c as u32 && c as u32 <= 57
}

/// Numeric value of a digit character.
pub open spec fn digit_val(c: char) -> nat {
    (c as u32 - 48) as nat
}

/// The digit character of a value below ten.
pub open spec fn char_of_digit(d: nat) -> char {
    if d == 0 {
        '0'
    } else if d == 1 {
        '1'
    } else if d == 2 {
        '2'
    } else if d == 3 {
        '3'
    } else if d == 4 {
        '4'
    } else if d == 5 {
        '5'
    } else if d == 6 {
        '6'
    } else if d == 7 {
        '7'
    } else if d == 8 {
        '8'
    } else {
        '9'
    }
}

/// Decimal digits of `n`, most significant first, without sign or
/// leading zeros (zero itself is the single digit `0`).
pub open spec fn decimal_chars(n: nat) -> Seq<char>
    decreases n,
{
    if n < 10 {
        seq![char_of_digit(n)]
    } else {
        decimal_chars(n / 10).push(char_of_digit(n % 10))
    }
}

/// Every character of `s` is a decimal digit.
pub open spec fn all_digits(s: Seq<char>) -> bool {
    forall|i: int| 0 <= i < s.len() ==> is_digit_char(#[trigger] s[i])
}

/// The number denoted by the digit string `s` (0 for the empty string).
pub open spec fn decimal_value(s: Seq<char>) -> nat
    decreases s.len(),
{
    if s.len() == 0 {
        0
    } else {
        decimal_value(s.drop_last()) * 10 + digit_val(s.last())
    }
}

/// A digit string denotes at least the number denoted by any of its
/// prefixes: once a prefix exceeds a bound, the whole string does.
pub proof fn lemma_decimal_value_prefix(s: Seq<char>, k: int)
    requires
        0 <= k <= s.len(),
    ensures
        decimal_value(s.take(k)) <= decimal_value(s),
    decreases s.len() - k,
{
    if k < s.len() {
        assert(s.take(k + 1).drop_last() =~= s.take(k));
        assert(decimal_value(s.take(k + 1)) == decimal_value(s.take(k)) * 10 + digit_val(
            s.take(k + 1).last(),
        ));
        lemma_decimal_value_prefix(s, k + 1);
    } else {
        assert(s.take(k) =~= s);
    }
}

/// The digit string of `n` is non-empty, consists of digits alone, and
/// denotes `n` itself.
pub proof fn lemma_decimal_chars_value(n: nat)
    ensures
        decimal_chars(n).len() >= 1,
        all_digits(decimal_chars(n)),
        decimal_value(decimal_chars(n)) == n,
    decreases n,
{
    if n < 10 {
        let s = decimal_chars(n);
        assert(s.drop_last() =~= Seq::<char>::empty());
        assert(digit_val(char_of_digit(n)) == n);
        assert(s.last() == char_of_digit(n));
        assert(decimal_value(s) == decimal_value(s.drop_last()) * 10 + digit_val(s.last()));
        assert(decimal_value(s.drop_last()) == 0);
    } else {
        lemma_decimal_chars_value(n / 10);
        vstd::arithmetic::div_mod::lemma_fundamental_div_mod(n as int, 10);
        let s = decimal_chars(n);
        assert(s.drop_last() =~= decimal_chars(n / 10));
        assert(digit_val(char_of_digit(n % 10)) == n % 10);
        assert(s.last() == char_of_digit(n % 10));
        assert(decimal_value(s) == decimal_value(s.drop_last()) * 10 + digit_val(s.last()));
        assert forall|i: int| 0 <= i < s.len() implies is_digit_char(#[trigger] s[i]) by {
            if i < s.len() - 1 {
                assert(s[i] == decimal_chars(n / 10)[i]);
            }
        }
    }
}

/// Round trip of the port value through the environment: the decimal
/// string written for a port parses back to that very port.
pub proof fn lemma_port_round_trip(p: u16)
    ensures
        decimal_chars(p as nat).len() >= 1,
        all_digits(decimal_chars(p as nat)),
        decimal_value(decimal_chars(p as nat)) == p as nat,
{
    lemma_decimal_chars_value(p as nat);
}

/// The one-character string of a digit value.
fn digit_str(d: u8) -> (r: &'static str)
    requires
        d < 10,
    ensures
        r@ == seq![char_of_digit(d as nat)],
{
    let r: &'static str = if d == 0 {
        "0"
    } else if d == 1 {
        "1"
    } else if d == 2 {
        "2"
    } else if d == 3 {
        "3"
    } else if d == 4 {
        "4"
    } else if d == 5 {
        "5"
    } else if d == 6 {
        "6"
    } else if d == 7 {
        "7"
    } else if d == 8 {
        "8"
    } else {
        "9"
    };
    proof {
        reveal_strlit("0");
        reveal_strlit("1");
        reveal_strlit("2");
        reveal_strlit("3");
        reveal_strlit("4");
        reveal_strlit("5");
        reveal_strlit("6");
        reveal_strlit("7");
        reveal_strlit("8");
        reveal_strlit("9");
        assert(r@ =~= seq![char_of_digit(d as nat)]);
    }
    r
}

/// Render `n` as its decimal digit string.
pub fn u16_to_decimal(n: u16) -> (s: String)
    ensures
        s@ == decimal_chars(n as nat),
    decreases n,
{
    if n < 10 {
        let s = String::from_str(digit_str(n as u8));
        proof {
            assert(s@ =~= decimal_chars(n as nat));
        }
        s
    } else {
        let mut s = u16_to_decimal(n / 10);
        s.append(digit_str((n % 10) as u8));
        proof {
            assert(s@ =~= decimal_chars(n as nat));
        }
        s
    }
}

/// Why a string failed to parse as a port.
#[derive(Clone, Copy, Debug, PartialEq, Eq, Structural)]
pub enum PortParseError {
    /// The string is empty.
    Empty,
    /// Some character is not a decimal digit.
    InvalidDigit,
    /// The denoted number does not fit in a port.
    OutOfRange,
}

/// Parse a decimal digit string back into a port value.  Succeeds on
/// exactly the non-empty all-digit strings denoting a number that fits
/// in sixteen bits; each error names the first reason that rules the
/// string out.
pub fn parse_port(s: &str) -> (r: Result<u16, PortParseError>)
    ensures
        match r {
            Ok(p) => s@.len() > 0 && all_digits(s@) && decimal_value(s@) == p as nat,
            Err(PortParseError::Empty) => s@.len() == 0,
            Err(PortParseError::InvalidDigit) => s@.len() > 0 && !all_digits(s@),
            Err(PortParseError::OutOfRange) => s@.len() > 0 && all_digits(s@) && decimal_value(
                s@,
            ) > u16::MAX,
        },
{
    let len = s.unicode_len();
    if len == 0 {
        return Err(PortParseError::Empty);
    }
    let mut i: usize = 0;
    while i < len
        invariant
            i <= len,
            len == s@.len(),
            forall|j: int| 0 <= j < i ==> is_digit_char(#[trigger] s@[j]),
        decreases len - i,
    {
        let c = s.get_char(i);
        let v = c as u32;
        if v < 48 || v > 57 {
            assert(!is_digit_char(s@[i as int]));
            return Err(PortParseError::InvalidDigit);
        }
        i = i + 1;
    }
    assert(all_digits(s@));
    let mut acc: u32 = 0;
    i = 0;
    while i < len
        invariant
            i <= len,
            len == s@.len(),
            all_digits(s@),
            acc == decimal_value(s@.take(i as int)),
            acc <= u16::MAX,
        decreases len - i,
    {
        let c = s.get_char(i);
        assert(is_digit_char(s@[i as int]));
        let d = (c as u32) - 48;
        let next = acc * 10 + d;
        proof {
            assert(s@.take(i as int + 1).drop_last() =~= s@.take(i as int));
            assert(s@.take(i as int + 1).last() == s@[i as int]);
        }
        if next > 65535 {
            proof {
                lemma_decimal_value_prefix(s@, i as int + 1);
            }
            return Err(PortParseError::OutOfRange);
        }
        acc = next;
        i = i + 1;
    }
    proof {
        assert(s@.take(len as int) =~= s@);
    }
    Ok(acc as u16)
}

} // verus!
