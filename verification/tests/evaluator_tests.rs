use crypto_monitor::decimal::Decimal;
use crypto_monitor::evaluator::{
    deviation_exceeds, evaluate, find_price, ratio_deviation_exceeds, should_trigger,
};
use crypto_monitor::models::{AlertCondition, AlertType, CryptoPrice, PriceAlert};

fn dec(text: &str) -> Decimal {
    Decimal::parse(text).unwrap()
}

fn sample(symbol: &str, exchange: &str, price: &str) -> CryptoPrice {
    CryptoPrice {
        symbol: symbol.to_string(),
        price: dec(price),
        exchange: exchange.to_string(),
        timestamp: 1_700_000_000,
    }
}

fn price_alert(symbol: &str, target: &str, condition: AlertCondition) -> PriceAlert {
    PriceAlert::new(
        7,
        symbol.to_string(),
        AlertType::Price { target_price: dec(target), condition },
        1_700_000_000,
    )
}

fn depeg_alert(symbol: &str, differential: &str, exchanges: &[&str]) -> PriceAlert {
    PriceAlert::new(
        7,
        symbol.to_string(),
        AlertType::Depeg {
            target_price: dec("1.0"),
            differential: dec(differential),
            exchanges: exchanges.iter().map(|e| e.to_string()).collect(),
        },
        1_700_000_000,
    )
}

fn pair_alert(a: &str, b: &str, ratio: &str, differential: &str) -> PriceAlert {
    PriceAlert::new(
        7,
        format!("{}/{}", a, b),
        AlertType::PairDepeg {
            token1: a.to_string(),
            token2: b.to_string(),
            expected_ratio: dec(ratio),
            differential: dec(differential),
        },
        1_700_000_000,
    )
}

#[test]
fn above_fires_only_strictly_above() {
    assert!(evaluate(AlertCondition::Above, dec("45000"), dec("45000.00000001")));
    assert!(!evaluate(AlertCondition::Above, dec("45000"), dec("45000")));
    assert!(!evaluate(AlertCondition::Above, dec("45000"), dec("44999.99")));
}

#[test]
fn below_fires_only_strictly_below() {
    assert!(evaluate(AlertCondition::Below, dec("45000"), dec("44999.99999999")));
    assert!(!evaluate(AlertCondition::Below, dec("45000"), dec("45000")));
    assert!(!evaluate(AlertCondition::Below, dec("45000"), dec("45000.01")));
}

#[test]
fn equal_price_meets_neither_condition() {
    for text in ["0", "1", "0.995", "45000", "100000000"] {
        assert!(!evaluate(AlertCondition::Above, dec(text), dec(text)));
        assert!(!evaluate(AlertCondition::Below, dec(text), dec(text)));
    }
}

#[test]
fn price_alert_uses_first_sample_of_its_symbol() {
    let alert = price_alert("BTC", "45000", AlertCondition::Above);
    let samples = vec![
        sample("ETH", "binance", "99999"),
        sample("BTC", "binance", "46000"),
        sample("BTC", "coinbase", "44000"),
    ];
    assert!(should_trigger(&alert, &samples));
    let samples = vec![sample("BTC", "coinbase", "44000"), sample("BTC", "binance", "46000")];
    assert!(!should_trigger(&alert, &samples));
}

#[test]
fn price_alert_without_sample_does_not_fire() {
    let alert = price_alert("BTC", "45000", AlertCondition::Below);
    assert!(!should_trigger(&alert, &vec![]));
    assert!(!should_trigger(&alert, &vec![sample("ETH", "binance", "1")]));
}

#[test]
fn depeg_deviation_of_two_percent_fires_at_one_percent() {
    let alert = depeg_alert("USDT", "1", &["binance", "coinbase"]);
    let samples = vec![sample("USDT", "binance", "0.99"), sample("USDT", "coinbase", "1.02")];
    assert!(should_trigger(&alert, &samples));
}

#[test]
fn depeg_deviation_of_half_a_percent_does_not_fire_at_one_percent() {
    let alert = depeg_alert("USDT", "1", &["binance", "coinbase"]);
    let samples = vec![sample("USDT", "binance", "0.995"), sample("USDT", "coinbase", "1.004")];
    assert!(!should_trigger(&alert, &samples));
}

#[test]
fn depeg_deviation_equal_to_differential_does_not_fire() {
    let alert = depeg_alert("USDT", "1", &["binance"]);
    assert!(!should_trigger(&alert, &vec![sample("USDT", "binance", "0.99")]));
    assert!(!should_trigger(&alert, &vec![sample("USDT", "binance", "1.01")]));
    assert!(should_trigger(&alert, &vec![sample("USDT", "binance", "0.98999999")]));
    assert!(should_trigger(&alert, &vec![sample("USDT", "binance", "1.01000001")]));
}

#[test]
fn depeg_with_partial_data_uses_what_there_is() {
    let alert = depeg_alert("USDT", "1", &["binance", "coinbase", "kraken"]);
    assert!(should_trigger(&alert, &vec![sample("USDT", "kraken", "1.02")]));
    assert!(!should_trigger(&alert, &vec![sample("USDT", "kraken", "1.005")]));
}

#[test]
fn depeg_without_data_does_not_fire() {
    let alert = depeg_alert("USDT", "1", &["binance", "coinbase"]);
    assert!(!should_trigger(&alert, &vec![]));
    assert!(!should_trigger(&alert, &vec![sample("USDC", "binance", "0.5")]));
}

#[test]
fn depeg_ignores_venues_it_does_not_name() {
    let alert = depeg_alert("USDT", "1", &["binance"]);
    assert!(!should_trigger(&alert, &vec![sample("USDT", "coinbase", "0.5")]));
    let samples = vec![sample("USDT", "coinbase", "0.5"), sample("USDT", "binance", "1.001")];
    assert!(!should_trigger(&alert, &samples));
}

#[test]
fn depeg_takes_the_farthest_sample() {
    let alert = depeg_alert("USDT", "1", &["a", "b", "c"]);
    let samples = vec![
        sample("USDT", "a", "1.001"),
        sample("USDT", "b", "0.97"),
        sample("USDT", "c", "1.002"),
    ];
    assert!(should_trigger(&alert, &samples));
}

#[test]
fn pair_ratio_deviation_fires() {
    let alert = pair_alert("A", "B", "1.0", "1");
    let samples = vec![sample("A", "binance", "100"), sample("B", "binance", "102")];
    assert!(should_trigger(&alert, &samples));
}

#[test]
fn pair_ratio_within_differential_does_not_fire() {
    let alert = pair_alert("A", "B", "1.0", "2");
    let samples = vec![sample("A", "binance", "100"), sample("B", "binance", "102")];
    assert!(!should_trigger(&alert, &samples));
    let alert = pair_alert("ETH", "stETH", "1.0", "1");
    let samples = vec![sample("ETH", "binance", "2000"), sample("stETH", "binance", "1990")];
    assert!(!should_trigger(&alert, &samples));
}

#[test]
fn pair_needs_both_prices() {
    let alert = pair_alert("A", "B", "1.0", "1");
    assert!(!should_trigger(&alert, &vec![sample("A", "binance", "100")]));
    assert!(!should_trigger(&alert, &vec![sample("B", "binance", "100")]));
    assert!(!should_trigger(&alert, &vec![]));
}

#[test]
fn pair_with_zero_price_of_second_token_does_not_fire() {
    let alert = pair_alert("A", "B", "1.0", "1");
    let samples = vec![sample("A", "binance", "100"), sample("B", "binance", "0")];
    assert!(!should_trigger(&alert, &samples));
}

#[test]
fn pair_with_other_expected_ratio() {
    // 3000 / 1500 = 2; expected 2.1; deviation 4.76 %
    let samples = vec![sample("A", "x", "3000"), sample("B", "x", "1500")];
    assert!(should_trigger(&pair_alert("A", "B", "2.1", "4.7"), &samples));
    assert!(!should_trigger(&pair_alert("A", "B", "2.1", "4.8"), &samples));
    assert!(!should_trigger(&pair_alert("A", "B", "2", "0"), &samples));
}

#[test]
fn pair_at_the_limits_of_the_range() {
    let samples = vec![sample("A", "x", "1000000"), sample("B", "x", "0.00000001")];
    assert!(should_trigger(&pair_alert("A", "B", "1000000", "1000000"), &samples));
    let samples = vec![sample("A", "x", "1000000"), sample("B", "x", "1000000")];
    assert!(!should_trigger(&pair_alert("A", "B", "1000000", "1000000"), &samples));
    assert!(should_trigger(&pair_alert("A", "B", "1000000", "99.9998"), &samples));
    assert!(!should_trigger(&pair_alert("A", "B", "1000000", "99.9999"), &samples));
    let samples = vec![sample("A", "x", "100000000"), sample("B", "x", "0.00000001")];
    assert!(should_trigger(&pair_alert("A", "B", "100000000", "100000000"), &samples));
    assert!(!should_trigger(&pair_alert("A", "B", "0.00000001", "0"), &vec![
        sample("A", "x", "0.00000001"),
        sample("B", "x", "1"),
    ]));
    let samples = vec![sample("A", "x", "100000000"), sample("B", "x", "100000000")];
    assert!(should_trigger(&pair_alert("A", "B", "100000000", "99.999998"), &samples));
    assert!(!should_trigger(&pair_alert("A", "B", "100000000", "99.999999"), &samples));
    assert!(should_trigger(&pair_alert("A", "B", "0.00000001", "100000000"), &samples));
}

#[test]
fn deviation_is_measured_in_percent_of_the_reference() {
    assert!(deviation_exceeds(dec("102"), dec("100"), dec("1.99")));
    assert!(!deviation_exceeds(dec("102"), dec("100"), dec("2")));
    assert!(deviation_exceeds(dec("98"), dec("100"), dec("1.99")));
    assert!(!deviation_exceeds(dec("98"), dec("100"), dec("2")));
    assert!(!deviation_exceeds(dec("100"), dec("100"), dec("0")));
}

#[test]
fn ratio_deviation_is_measured_in_percent_of_the_expected_ratio() {
    // ratio 0.98039..., deviation 1.9607... %
    assert!(ratio_deviation_exceeds(dec("100"), dec("102"), dec("1"), dec("1.96")));
    assert!(!ratio_deviation_exceeds(dec("100"), dec("102"), dec("1"), dec("1.97")));
    assert!(!ratio_deviation_exceeds(dec("100"), dec("0"), dec("1"), dec("0")));
}

#[test]
fn find_price_takes_the_first_sample() {
    let samples = vec![
        sample("BTC", "binance", "46000"),
        sample("ETH", "binance", "2000"),
        sample("BTC", "coinbase", "44000"),
    ];
    assert_eq!(find_price(&samples, &"BTC".to_string()), Some(dec("46000")));
    assert_eq!(find_price(&samples, &"ETH".to_string()), Some(dec("2000")));
    assert_eq!(find_price(&samples, &"SOL".to_string()), None);
    assert_eq!(find_price(&samples, &"btc".to_string()), None);
}
