//! Decimal rendering of event identifiers.
//!
//! An event id is the ingestion instant in milliseconds, rendered as a
//! decimal string. The spec-level representation is `dec_of` / `millis_id_of`,
//! and the rendering is proved injective, which is what makes distinct
//! instants yield distinct ids.

use vstd::prelude::*;

verus! {

use vstd::string::StrSliceExecFns;
use vstd::string::StringExecFns;

/// The character for a single decimal digit.
pub open spec fn digit_char(d: nat) -> char {
    if d == 0 {
        '0'
    } else if d == 1 {
        '1'
    } else if d == 2 {
        '2'
    } else if d == 3 {
        '3'
    } else if d == 4 {
        '4'
    } else if d == 5 {
        '5'
    } else if d == 6 {
        '6'
    } else if d == 7 {
        '7'
    } else if d == 8 {
        '8'
    } else {
        '9'
    }
}

/// The decimal rendering of a natural number, most significant digit first,
/// with no leading zeros (a bare `0` for zero).
pub open spec fn dec_of(n: nat) -> Seq<char>
    decreases n,
{
    if n < 10 {
        seq![digit_char(n)]
    } else {
        dec_of(n / 10) + seq![digit_char(n % 10)]
    }
}

/// The decimal rendering of a signed number: a leading `-` before the
/// rendering of the magnitude when the number is negative.
pub open spec fn millis_id_of(n: int) -> Seq<char> {
    if n < 0 {
        seq!['-'] + dec_of((-n) as nat)
    } else {
        dec_of(n as nat)
    }
}

fn digit_str(d: u64) -> (s: &'static str)
    requires
        d < 10,
    ensures
        s@ =~= seq![digit_char(d as nat)],
{
    proof {
        reveal_strlit("0");
        reveal_strlit("1");
        reveal_strlit("2");
        reveal_strlit("3");
        reveal_strlit("4");
        reveal_strlit("5");
        reveal_strlit("6");
        reveal_strlit("7");
        reveal_strlit("8");
        reveal_strlit("9");
    }
    match d {
        0 => "0",
        1 => "1",
        2 => "2",
        3 => "3",
        4 => "4",
        5 => "5",
        6 => "6",
        7 => "7",
        8 => "8",
        _ => "9",
    }
}

/// Renders an unsigned number in decimal.
pub fn u64_to_dec(n: u64) -> (s: String)
    ensures
        s@ == dec_of(n as nat),
    decreases n,
{
    if n < 10 {
        String::from_str(digit_str(n))
    } else {
        let mut s = u64_to_dec(n / 10);
        s.append(digit_str(n % 10));
        s
    }
}

/// Renders a signed millisecond instant in decimal, as an event id.
pub fn millis_to_id(n: i64) -> (s: String)
    ensures
        s@ == millis_id_of(n as int),
{
    if n < 0 {
        // magnitude computed without overflowing at i64::MIN
        let mag: u64 = ((-(n + 1)) as u64) + 1;
        proof {
            reveal_strlit("-");
            assert(mag as int == -(n as int));
        }
        let mut s = String::from_str("-");
        let digits = u64_to_dec(mag);
        s.append(digits.as_str());
        assert(s@ =~= millis_id_of(n as int));
        s
    } else {
        u64_to_dec(n as u64)
    }
}

/// The first character of a decimal rendering is a digit.
proof fn lemma_dec_of_first_is_digit(n: nat)
    ensures
        dec_of(n).len() >= 1,
        exists|d: nat| d < 10 && dec_of(n)[0] == digit_char(d),
    decreases n,
{
    if n < 10 {
        assert(dec_of(n)[0] == digit_char(n));
    } else {
        lemma_dec_of_first_is_digit(n / 10);
        let d = choose|d: nat| d < 10 && dec_of(n / 10)[0] == digit_char(d);
        assert(dec_of(n)[0] == digit_char(d));
    }
}

/// Two digits with the same character are the same digit.
proof fn lemma_digit_char_injective(a: nat, b: nat)
    requires
        a < 10,
        b < 10,
        digit_char(a) == digit_char(b),
    ensures
        a == b,
{
}

/// A number below ten renders to one character; ten and above to more.
proof fn lemma_dec_of_len(n: nat)
    ensures
        n < 10 ==> dec_of(n).len() == 1,
        n >= 10 ==> dec_of(n).len() >= 2,
    decreases n,
{
    if n >= 10 {
        lemma_dec_of_len(n / 10);
    }
}

/// Decimal rendering is injective: distinct numbers render to distinct
/// character sequences.
pub proof fn lemma_dec_of_injective(a: nat, b: nat)
    requires
        dec_of(a) == dec_of(b),
    ensures
        a == b,
    decreases a,
{
    lemma_dec_of_len(a);
    lemma_dec_of_len(b);
    if a < 10 && b < 10 {
        assert(dec_of(a)[0] == digit_char(a));
        assert(dec_of(b)[0] == digit_char(b));
        lemma_digit_char_injective(a, b);
    } else if a >= 10 && b >= 10 {
        let la = dec_of(a).len();
        assert(dec_of(a).last() == digit_char(a % 10));
        assert(dec_of(b).last() == digit_char(b % 10));
        lemma_digit_char_injective(a % 10, b % 10);
        assert(dec_of(a).take(la - 1) =~= dec_of(a / 10));
        assert(dec_of(b).take(la - 1) =~= dec_of(b / 10));
        lemma_dec_of_injective(a / 10, b / 10);
        assert(a == 10 * (a / 10) + a % 10) by {
            vstd::arithmetic::div_mod::lemma_fundamental_div_mod(a as int, 10);
        }
        assert(b == 10 * (b / 10) + b % 10) by {
            vstd::arithmetic::div_mod::lemma_fundamental_div_mod(b as int, 10);
        }
    }
}

/// Id rendering of signed instants is injective as well: the sign character
/// can never be confused with a digit.
pub proof fn lemma_millis_id_injective(a: int, b: int)
    requires
        millis_id_of(a) == millis_id_of(b),
    ensures
        a == b,
{
    if a < 0 && b < 0 {
        assert(millis_id_of(a).skip(1) =~= dec_of((-a) as nat));
        assert(millis_id_of(b).skip(1) =~= dec_of((-b) as nat));
        lemma_dec_of_injective((-a) as nat, (-b) as nat);
    } else if a >= 0 && b >= 0 {
        lemma_dec_of_injective(a as nat, b as nat);
    } else if a < 0 && b >= 0 {
        lemma_dec_of_first_is_digit(b as nat);
        let d = choose|d: nat| d < 10 && dec_of(b as nat)[0] == digit_char(d);
        assert(millis_id_of(a)[0] == '-');
        assert(millis_id_of(b)[0] == digit_char(d));
    } else {
        lemma_dec_of_first_is_digit(a as nat);
        let d = choose|d: nat| d < 10 && dec_of(a as nat)[0] == digit_char(d);
        assert(millis_id_of(b)[0] == '-');
        assert(millis_id_of(a)[0] == digit_char(d));
    }
}

} // verus!
