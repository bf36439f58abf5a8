use market_relay::consumer::error::ConsumerError;
use market_relay::consumer::registry::{ChannelRegistry, Registration};
use market_relay::domain::CurrencyPair;

#[test]
fn resolve_returns_the_registered_pair() {
    let mut registry = ChannelRegistry::new();
    assert_eq!(registry.register(5, CurrencyPair::XRPBTC), Registration::Fresh);
    assert_eq!(registry.resolve(5), Ok(CurrencyPair::XRPBTC));
}

#[test]
fn resolve_fails_on_a_new_registry() {
    let registry = ChannelRegistry::new();
    assert_eq!(registry.resolve(0), Err(ConsumerError::UnknownChannel(0)));
    assert_eq!(registry.resolve(5), Err(ConsumerError::UnknownChannel(5)));
}

#[test]
fn resolve_fails_on_a_channel_never_registered() {
    let mut registry = ChannelRegistry::new();
    registry.register(5, CurrencyPair::XRPBTC);
    registry.register(-3, CurrencyPair::XRPBTC);
    assert_eq!(registry.resolve(6), Err(ConsumerError::UnknownChannel(6)));
    assert_eq!(registry.resolve(3), Err(ConsumerError::UnknownChannel(3)));
    assert_eq!(registry.resolve(i32::MAX), Err(ConsumerError::UnknownChannel(i32::MAX)));
}

#[test]
fn register_twice_is_a_repetition() {
    let mut registry = ChannelRegistry::new();
    assert_eq!(registry.register(9, CurrencyPair::XRPBTC), Registration::Fresh);
    assert_eq!(registry.register(9, CurrencyPair::XRPBTC), Registration::Repeated);
    assert_eq!(registry.resolve(9), Ok(CurrencyPair::XRPBTC));
}

#[test]
fn one_pair_may_have_several_channels() {
    let mut registry = ChannelRegistry::new();
    assert_eq!(registry.register(1, CurrencyPair::XRPBTC), Registration::Fresh);
    assert_eq!(registry.register(2, CurrencyPair::XRPBTC), Registration::Fresh);
    assert_eq!(registry.resolve(1), Ok(CurrencyPair::XRPBTC));
    assert_eq!(registry.resolve(2), Ok(CurrencyPair::XRPBTC));
}
