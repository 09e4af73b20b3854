//! Decimal notation for the amounts that responses report.

use vstd::prelude::*;
use vstd::string::StringExecFns;

use crate::decimal::Decimal;
use crate::decimal::DECIMAL_FRACTIONAL;

verus! {

/// The character of a decimal digit.
pub open spec fn digit_char(d: nat) -> char {
    if d == 0 {
        '0'
    } else if d == 1 {
        '1'
    } else if d == 2 {
        '2'
    } else if d == 3 {
        '3'
    } else if d == 4 {
        '4'
    } else if d == 5 {
        '5'
    } else if d == 6 {
        '6'
    } else if d == 7 {
        '7'
    } else if d == 8 {
        '8'
    } else {
        '9'
    }
}

/// A whole number in decimal notation, without leading zeros.
pub open spec fn uint_text(n: nat) -> Seq<char>
    decreases n,
{
    if n < 10 {
        seq![digit_char(n)]
    } else {
        uint_text(n / 10).push(digit_char(n % 10))
    }
}

/// Ten to the power `e`.
pub open spec fn pow10(e: nat) -> nat
    decreases e,
{
    if e == 0 {
        1
    } else {
        10 * pow10((e - 1) as nat)
    }
}

/// The digits of `part / 10^places` after the decimal point, most
/// significant first, up to the last digit that is not zero.
pub open spec fn fraction_text(part: nat, places: nat) -> Seq<char>
    decreases places,
{
    if places == 0 || part == 0 {
        Seq::<char>::empty()
    } else {
        let unit = pow10((places - 1) as nat);
        seq![digit_char(part / unit)] + fraction_text(part % unit, (places - 1) as nat)
    }
}

/// A fixed-point number in decimal notation: the whole part, and, where the
/// fractional part is not zero, a point and its digits without trailing zeros.
pub open spec fn decimal_text(atomics: nat) -> Seq<char> {
    let whole = atomics / (DECIMAL_FRACTIONAL as nat);
    let part = atomics % (DECIMAL_FRACTIONAL as nat);
    if part == 0 {
        uint_text(whole)
    } else {
        uint_text(whole) + seq!['.'] + fraction_text(part, 18)
    }
}

proof fn pow10_table()
    ensures
        pow10(17) == 100_000_000_000_000_000,
        pow10(18) == 1_000_000_000_000_000_000,
        forall|e: nat| 0 < e ==> pow10(e) == 10 * #[trigger] pow10((e - 1) as nat),
{
    assert(pow10(0) == 1);
    assert(pow10(1) == 10);
    assert(pow10(2) == 100);
    assert(pow10(3) == 1000);
    assert(pow10(4) == 10000);
    assert(pow10(5) == 100000);
    assert(pow10(6) == 1000000);
    assert(pow10(7) == 10000000);
    assert(pow10(8) == 100000000);
    assert(pow10(9) == 1000000000);
    assert(pow10(10) == 10000000000);
    assert(pow10(11) == 100000000000);
    assert(pow10(12) == 1000000000000);
    assert(pow10(13) == 10000000000000);
    assert(pow10(14) == 100000000000000);
    assert(pow10(15) == 1000000000000000);
    assert(pow10(16) == 10000000000000000);
    assert(pow10(17) == 100000000000000000);
    assert(pow10(18) == 1000000000000000000);
}

fn digit_str(d: u128) -> (s: &'static str)
    requires
        d < 10,
    ensures
        s@ == seq![digit_char(d as nat)],
{
    proof {
        reveal_strlit("0");
        reveal_strlit("1");
        reveal_strlit("2");
        reveal_strlit("3");
        reveal_strlit("4");
        reveal_strlit("5");
        reveal_strlit("6");
        reveal_strlit("7");
        reveal_strlit("8");
        reveal_strlit("9");
    }
    let s = if d == 0 {
        "0"
    } else if d == 1 {
        "1"
    } else if d == 2 {
        "2"
    } else if d == 3 {
        "3"
    } else if d == 4 {
        "4"
    } else if d == 5 {
        "5"
    } else if d == 6 {
        "6"
    } else if d == 7 {
        "7"
    } else if d == 8 {
        "8"
    } else {
        "9"
    };
    assert(s@ =~= seq![digit_char(d as nat)]);
    s
}

/// Writes a whole number in decimal notation.
pub fn uint_to_string(n: u128) -> (s: String)
    ensures
        s@ == uint_text(n as nat),
    decreases n,
{
    if n < 10 {
        String::from_str(digit_str(n))
    } else {
        let mut s = uint_to_string(n / 10);
        s.append(digit_str(n % 10));
        assert(s@ =~= uint_text(n as nat));
        s
    }
}

/// Writes a fixed-point number in decimal notation.
pub fn decimal_to_string(value: Decimal) -> (s: String)
    ensures
        s@ == decimal_text(value@),
{
    let whole: u128 = value.atomics / DECIMAL_FRACTIONAL;
    let mut part: u128 = value.atomics % DECIMAL_FRACTIONAL;
    let mut s = uint_to_string(whole);
    if part == 0 {
        return s;
    }
    proof {
        reveal_strlit(".");
    }
    s.append(".");
    let mut unit: u128 = 100_000_000_000_000_000;
    let mut places: u8 = 18;
    let ghost head = s@;
    assert(head =~= uint_text(whole as nat) + seq!['.']);
    proof {
        pow10_table();
    }
    while part != 0 && places > 0
        invariant
            places <= 18,
            places > 0 ==> unit == pow10((places - 1) as nat),
            part < pow10(places as nat),
            head + fraction_text((value.atomics % DECIMAL_FRACTIONAL) as nat, 18) == s@ + fraction_text(
                part as nat,
                places as nat,
            ),
        decreases places,
    {
        let digit: u128 = part / unit;
        assert(digit < 10) by (nonlinear_arith)
            requires
                digit == part / unit,
                part < 10 * unit,
                unit > 0,
        ;
        let ghost before = s@;
        s.append(digit_str(digit));
        part = part % unit;
        places = places - 1;
        if places > 0 {
            unit = unit / 10;
        }
        proof {
            assert(before + (seq![digit_char(digit as nat)] + fraction_text(part as nat, places as nat))
                =~= s@ + fraction_text(part as nat, places as nat));
        }
    }
    assert(fraction_text(part as nat, places as nat) =~= Seq::<char>::empty());
    assert(s@ + Seq::<char>::empty() =~= s@);
    s
}

} // verus!
