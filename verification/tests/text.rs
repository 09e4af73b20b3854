use wattpeak::decimal::Decimal;
use wattpeak::text::decimal_to_string;
use wattpeak::text::uint_to_string;

fn shown_outside(atomics: u128) -> String {
    cosmwasm_std::Decimal::raw(atomics).to_string()
}

#[test]
fn whole_numbers_in_decimal_notation() {
    assert_eq!(uint_to_string(0), "0");
    assert_eq!(uint_to_string(7), "7");
    assert_eq!(uint_to_string(10), "10");
    assert_eq!(uint_to_string(574), "574");
    assert_eq!(uint_to_string(1_000_000), "1000000");
    assert_eq!(uint_to_string(u128::MAX), "340282366920938463463374607431768211455");
    for n in [1u128, 9, 99, 100, 101, 1234567890, u64::MAX as u128] {
        assert_eq!(uint_to_string(n), cosmwasm_std::Uint128::new(n).to_string());
    }
}

#[test]
fn fixed_point_numbers_in_decimal_notation() {
    assert_eq!(decimal_to_string(Decimal::zero()), "0");
    assert_eq!(decimal_to_string(Decimal::one()), "1");
    assert_eq!(decimal_to_string(Decimal::percent(5)), "0.05");
    assert_eq!(decimal_to_string(Decimal::percent(150)), "1.5");
    assert_eq!(decimal_to_string(Decimal::raw(1)), "0.000000000000000001");
    assert_eq!(decimal_to_string(Decimal::raw(100_000_000_000_000_000)), "0.1");
    assert_eq!(decimal_to_string(Decimal::raw(1_000_000_000_000_000_001)), "1.000000000000000001");
    assert_eq!(decimal_to_string(Decimal::raw(95_666_666_666_666_666_284)), "95.666666666666666284");
    assert_eq!(decimal_to_string(Decimal::raw(u128::MAX)), "340282366920938463463.374607431768211455");
    for atomics in [10u128, 1_230_000_000_000_000_000, 999_999_999_999_999_999, 20_000_000_000_000_000_000] {
        assert_eq!(decimal_to_string(Decimal::raw(atomics)), shown_outside(atomics));
    }
}
