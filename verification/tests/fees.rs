use stable_coin::Amount;
use stable_coin::FeeSpec;
use stable_coin::StableCoinConfig;
use stable_coin::config::div_rounded;

#[test]
fn test_div_rounded() {
    assert_eq!(div_rounded(Amount(0), 5), Amount(0));
    assert_eq!(div_rounded(Amount(100), 0), Amount(0));
    assert_eq!(div_rounded(Amount(100), 5), Amount(5));
    assert_eq!(div_rounded(Amount(123), 5), Amount(6));
    assert_eq!(div_rounded(Amount(130), 5), Amount(7));
}

#[test]
fn percentage_fee_rounds_half_up() {
    assert_eq!(FeeSpec::Percentage(5).calculate_fee(Amount(123)), Amount(6));
    assert_eq!(FeeSpec::Percentage(5).calculate_fee(Amount(130)), Amount(7));
    assert_eq!(FeeSpec::Percentage(0).calculate_fee(Amount(100)), Amount(0));
    assert_eq!(FeeSpec::Percentage(5).calculate_fee(Amount(0)), Amount(0));
    assert_eq!(FeeSpec::Percentage(5).calculate_fee(Amount(100)), Amount(5));
    assert_eq!(FeeSpec::Percentage(100).calculate_fee(Amount(77)), Amount(77));
}

#[test]
fn fixed_fee_is_unconditional() {
    assert_eq!(FeeSpec::Fixed(Amount(1)).calculate_fee(Amount(0)), Amount(1));
    assert_eq!(FeeSpec::Fixed(Amount(10)).calculate_fee(Amount(3)), Amount(10));
}

#[test]
fn default_config_values() {
    let config = StableCoinConfig::default();
    assert_eq!(config.transfer_fee, FeeSpec::Fixed(Amount(1)));
    assert_eq!(config.wrapped_exchange_fee, FeeSpec::Percentage(1));
    assert_eq!(config.default_exchange_limit, Amount(1000));
}

#[test]
fn amount_arithmetic() {
    assert_eq!(Amount(3).checked_add(Amount(4)), Some(Amount(7)));
    assert_eq!(Amount(i64::MAX).checked_add(Amount(1)), None);
    assert_eq!(Amount(3).checked_sub(Amount(4)), Some(Amount(-1)));
    assert_eq!(Amount(i64::MIN).checked_sub(Amount(1)), None);
    assert_eq!(Amount(i64::MIN).saturating_sub(Amount(1)), Amount(i64::MIN));
    assert_eq!(Amount(10).saturating_sub(Amount(4)), Amount(6));
    assert!(Amount(0).is_zero());
    assert!(Amount(2).is_positive());
    assert!(Amount(-2).is_negative());
    assert_eq!(Amount::new(9).value(), 9);
    assert_eq!(Amount::zero(), Amount(0));
}
