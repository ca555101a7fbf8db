use crypto_monitor::amount::Amount;
use crypto_monitor::commands::{
    below_minimum_value, is_below_minimum, parse_alert_command, parse_cancel_command, parse_connect_command,
    parse_depeg_command, parse_order_command, parse_pair_command, parse_trade_command,
    CommandError,
};
use crypto_monitor::config::{CryptoConfig, PairInfo, StablecoinInfo};
use crypto_monitor::decimal::Decimal;
use crypto_monitor::exchanges::{ExchangeType, OrderSide, OrderType};
use crypto_monitor::models::{AlertCondition, AlertType};
use crypto_monitor::text::split_words;

#[test]
fn words_are_runs_between_separators() {
    assert_eq!(split_words("BTC 45000 above"), vec!["BTC", "45000", "above"]);
    assert_eq!(split_words("  BTC\t45000\n\nabove  "), vec!["BTC", "45000", "above"]);
    assert_eq!(split_words("one"), vec!["one"]);
    assert_eq!(split_words("a b"), vec!["a", "b"]);
    assert_eq!(split_words("a\rb\u{b}c\u{c}d"), vec!["a", "b", "c", "d"]);
    assert_eq!(split_words("añ🚨 x"), vec!["añ🚨", "x"]);
}

#[test]
fn text_without_words() {
    assert!(split_words("").is_empty());
    assert!(split_words(" ").is_empty());
    assert!(split_words(" \t\n\r ").is_empty());
}

#[test]
fn every_white_space_separates() {
    assert_eq!(split_words("a\u{a0}b"), vec!["a", "b"]);
    assert_eq!(split_words("a\u{3000}b c"), vec!["a", "b", "c"]);
    assert_eq!(split_words("\u{2003}a\u{2028}"), vec!["a"]);
    assert_eq!(split_words("a\u{200b}b"), vec!["a\u{200b}b"]);
}

#[test]
fn words_agree_with_splitting_at_white_space() {
    for text in [
        "",
        "a",
        " a",
        "a ",
        "a  b",
        "\ta b\n",
        "BTC 45000 above",
        "x\ny\rz w",
        "a\u{a0}b\u{3000} c",
        "é \u{85}ß",
    ] {
        let expected: Vec<String> = text.split_whitespace().map(|w| w.to_string()).collect();
        assert_eq!(split_words(text), expected, "text {:?}", text);
    }
}

#[test]
fn line_with_three_words_is_an_alert() {
    let alert = parse_alert_command("btc 45000.5 Above", 7, 99).unwrap();
    assert_eq!(alert.id, None);
    assert_eq!(alert.user_id, 7);
    assert_eq!(alert.symbol, "BTC");
    assert_eq!(alert.created_at, 99);
    assert_eq!(alert.triggered_at, None);
    assert!(alert.is_active);
    match alert.alert_type {
        AlertType::Price { target_price, condition } => {
            assert_eq!(target_price, Decimal::parse("45000.5").unwrap());
            assert_eq!(condition, AlertCondition::Above);
        }
        other => panic!("expected a price alert, got {:?}", other),
    }
    let alert = parse_alert_command("  RUNEUSDT\t4 below ", 1, 1).unwrap();
    assert_eq!(alert.symbol, "RUNEUSDT");
    assert!(matches!(alert.alert_type, AlertType::Price { condition: AlertCondition::Below, .. }));
}

#[test]
fn line_needs_three_words() {
    for text in ["", "BTC", "BTC 45000", "BTC 45000 above now", "   "] {
        assert_eq!(parse_alert_command(text, 1, 1).err(), Some(CommandError::Usage));
    }
}

#[test]
fn line_needs_a_price() {
    for text in ["BTC abc above", "BTC -1 above", "BTC 1e3 below", "BTC 100000001 above"] {
        assert_eq!(parse_alert_command(text, 1, 1).err(), Some(CommandError::InvalidPrice));
    }
    assert_eq!(parse_alert_command("BTC x y", 1, 1).err(), Some(CommandError::InvalidPrice));
}

#[test]
fn line_needs_a_condition() {
    for text in ["BTC 1 over", "BTC 1 >", "BTC 1 aboveb"] {
        assert_eq!(parse_alert_command(text, 1, 1).err(), Some(CommandError::InvalidCondition));
    }
}

fn catalogue() -> CryptoConfig {
    let mut config = CryptoConfig::new(60);
    for symbol in ["USDT", "USDC"] {
        config.stablecoins.push((
            symbol.to_string(),
            StablecoinInfo { name: symbol.to_string(), target_price: Decimal::one() },
        ));
    }
    config.synthetic_pairs.push((
        "eth".to_string(),
        PairInfo {
            token1: "ETH".to_string(),
            token2: "STETH".to_string(),
            expected_ratio: Decimal::parse("1.05").unwrap(),
        },
    ));
    config.synthetic_pairs.push((
        "stable".to_string(),
        PairInfo {
            token1: "USDT".to_string(),
            token2: "USDC".to_string(),
            expected_ratio: Decimal::one(),
        },
    ));
    config.synthetic_pairs.push((
        "stable_again".to_string(),
        PairInfo {
            token1: "USDC".to_string(),
            token2: "USDT".to_string(),
            expected_ratio: Decimal::parse("2").unwrap(),
        },
    ));
    config.exchanges.push("binance".to_string());
    config
}

#[test]
fn depeg_line_is_an_alert_in_percent() {
    let alert =
        parse_depeg_command("usdt 0.02", &catalogue(), 5, 10).unwrap();
    assert_eq!(alert.symbol, "USDT");
    assert_eq!(alert.user_id, 5);
    assert_eq!(alert.created_at, 10);
    match alert.alert_type {
        AlertType::Depeg { target_price, differential, exchanges } => {
            assert_eq!(target_price, Decimal::one());
            assert_eq!(differential, Decimal::parse("2").unwrap());
            assert_eq!(exchanges, vec!["binance".to_string(), "coinbase".to_string()]);
        }
        other => panic!("expected a depeg alert, got {:?}", other),
    }
}

#[test]
fn depeg_line_is_checked() {
    let config = catalogue();
    for text in ["", "help", "help 1", "USDT", "USDT 1 2"] {
        assert_eq!(parse_depeg_command(text, &config, 1, 1).err(), Some(CommandError::Usage));
    }
    for text in ["USDT x", "USDT -1", "USDT 1000000.00000001", "DAI x"] {
        assert_eq!(
            parse_depeg_command(text, &config, 1, 1).err(),
            Some(CommandError::InvalidThreshold)
        );
    }
    assert_eq!(
        parse_depeg_command("DAI 0.02", &config, 1, 1).err(),
        Some(CommandError::UnsupportedSymbol)
    );
    assert!(parse_depeg_command("USDC 1000000", &config, 1, 1).is_ok());
}

#[test]
fn pair_line_is_an_alert_on_the_pair_of_the_catalogue() {
    let config = catalogue();
    for text in ["eth steth 0.01", "STETH ETH 0.01"] {
        let alert = parse_pair_command(text, &config, 5, 10).unwrap();
        assert_eq!(alert.symbol, "ETH/STETH");
        match alert.alert_type {
            AlertType::PairDepeg { token1, token2, expected_ratio, differential } => {
                assert_eq!(token1, "ETH");
                assert_eq!(token2, "STETH");
                assert_eq!(expected_ratio, Decimal::parse("1.05").unwrap());
                assert_eq!(differential, Decimal::parse("1").unwrap());
            }
            other => panic!("expected a pair alert, got {:?}", other),
        }
    }
    let alert = parse_pair_command("USDC USDT 0.5", &config, 5, 10).unwrap();
    assert_eq!(alert.symbol, "USDT/USDC");
    assert!(matches!(
        alert.alert_type,
        AlertType::PairDepeg { expected_ratio, .. } if expected_ratio == Decimal::one()
    ));
}

#[test]
fn pair_line_is_checked() {
    let config = catalogue();
    for text in ["", "help", "ETH STETH", "help STETH 1", "ETH STETH 1 2"] {
        assert_eq!(parse_pair_command(text, &config, 1, 1).err(), Some(CommandError::Usage));
    }
    assert_eq!(
        parse_pair_command("ETH STETH x", &config, 1, 1).err(),
        Some(CommandError::InvalidThreshold)
    );
    for text in ["ETH USDT 0.1", "ETH ETH 0.1", "BTC WBTC 0.1"] {
        assert_eq!(
            parse_pair_command(text, &config, 1, 1).err(),
            Some(CommandError::UnsupportedPair)
        );
    }
}

#[test]
fn pairs_are_found_in_either_order() {
    let config = catalogue();
    assert_eq!(config.find_pair("ETH", "STETH"), Some(0));
    assert_eq!(config.find_pair("STETH", "ETH"), Some(0));
    assert_eq!(config.find_pair("USDT", "USDC"), Some(1));
    assert_eq!(config.find_pair("USDC", "USDT"), Some(1));
    assert_eq!(config.find_pair("ETH", "USDT"), None);
    assert_eq!(config.find_pair("eth", "steth"), None);
}

#[test]
fn order_line_is_an_order() {
    let order = parse_order_command("runeusdt BUY Market 0.001").unwrap();
    assert_eq!(order.symbol, "RUNEUSDT");
    assert_eq!(order.side, OrderSide::Buy);
    assert_eq!(order.order_type, OrderType::Market);
    assert_eq!(order.quantity, Amount { mantissa: 1, scale: 3 });
    assert_eq!(order.price, None);
    let order = parse_order_command("RUNEUSDT sell limit 0.001 4.05").unwrap();
    assert_eq!(order.side, OrderSide::Sell);
    assert_eq!(order.order_type, OrderType::Limit);
    assert_eq!(order.price, Some(Amount { mantissa: 405, scale: 2 }));
    let order = parse_order_command("BTCUSDT buy market 1 nonsense").unwrap();
    assert_eq!(order.price, None);
}

#[test]
fn order_line_is_checked_word_by_word() {
    let err = |text: &str| parse_order_command(text).err();
    assert_eq!(err(""), Some(CommandError::Usage));
    assert_eq!(err("help"), Some(CommandError::Usage));
    assert_eq!(err("help me with this now"), Some(CommandError::Usage));
    assert_eq!(err("BTCUSDT buy market"), Some(CommandError::Usage));
    assert_eq!(err("BTCEUR buy market 1"), Some(CommandError::InvalidPair));
    assert_eq!(err("BTCUSDT hold market 1"), Some(CommandError::InvalidSide));
    assert_eq!(err("BTCUSDT buy stop 1"), Some(CommandError::InvalidType));
    assert_eq!(err("BTCUSDT buy market one"), Some(CommandError::InvalidQuantity));
    assert_eq!(err("BTCUSDT buy limit 1"), Some(CommandError::PriceRequired));
    assert_eq!(err("BTCUSDT buy limit 1 cheap"), Some(CommandError::InvalidPrice));
    assert_eq!(err("BTCEUR hold stop one"), Some(CommandError::InvalidPair));
}

#[test]
fn trade_line_is_an_order() {
    let order = parse_trade_command("btcusdt 0.5", OrderSide::Sell).unwrap();
    assert_eq!(order.symbol, "BTCUSDT");
    assert_eq!(order.side, OrderSide::Sell);
    assert_eq!(order.order_type, OrderType::Market);
    assert_eq!(order.quantity, Amount { mantissa: 5, scale: 1 });
    assert_eq!(order.price, None);
    let order = parse_trade_command("btcusdt 0.5 40000", OrderSide::Buy).unwrap();
    assert_eq!(order.side, OrderSide::Buy);
    assert_eq!(order.order_type, OrderType::Limit);
    assert_eq!(order.price, Some(Amount { mantissa: 40000, scale: 0 }));
    let order = parse_trade_command("Straße -1.50 +2", OrderSide::Buy).unwrap();
    assert_eq!(order.symbol, "STRASSE");
    assert_eq!(order.quantity, Amount { mantissa: -150, scale: 2 });
    assert_eq!(order.price, Some(Amount { mantissa: 2, scale: 0 }));
    let order = parse_trade_command("btcusdt 0.5 cheap", OrderSide::Buy).unwrap();
    assert_eq!(order.order_type, OrderType::Market);
    assert_eq!(order.price, None);
    assert_eq!(parse_trade_command("btcusdt", OrderSide::Buy).err(), Some(CommandError::Usage));
    assert_eq!(parse_trade_command("", OrderSide::Buy).err(), Some(CommandError::Usage));
    assert_eq!(
        parse_trade_command("btcusdt much", OrderSide::Buy).err(),
        Some(CommandError::InvalidQuantity)
    );
}

#[test]
fn order_worth_less_than_ten_is_too_small() {
    let a = |mantissa: i128, scale: u32| Amount { mantissa, scale };
    assert_eq!(below_minimum_value(a(1, 0), a(999_999_999, 8)), Some(true));
    assert_eq!(below_minimum_value(a(1, 0), a(10, 0)), Some(false));
    assert_eq!(below_minimum_value(a(1, 3), a(10000, 0)), Some(false));
    assert_eq!(below_minimum_value(a(1, 3), a(999_999, 2)), Some(true));
    assert_eq!(below_minimum_value(a(0, 0), a(1_000_000, 0)), Some(true));
    assert_eq!(below_minimum_value(a(-5, 0), a(100, 0)), Some(true));
    assert_eq!(below_minimum_value(a(1_000_000, 0), a(1_000_000, 0)), Some(false));
}

#[test]
fn product_that_cannot_be_held_is_not_judged() {
    let a = |mantissa: i128, scale: u32| Amount { mantissa, scale };
    let large = a(79_228_162_514_264_337_593_543_950_335, 0);
    assert_eq!(below_minimum_value(large, a(2, 0)), None);
    assert_eq!(below_minimum_value(a(1, 29), a(1, 0)), None);
    assert_eq!(below_minimum_value(a(i128::MAX, 0), a(1, 0)), None);
    assert_eq!(below_minimum_value(large, a(1, 0)), Some(false));
}

#[test]
fn worth_is_held_against_the_minimum() {
    let a = |mantissa: i128, scale: u32| Amount { mantissa, scale };
    assert!(is_below_minimum(a(9, 0)));
    assert!(!is_below_minimum(a(10, 0)));
    assert!(is_below_minimum(a(999, 2)));
    assert!(!is_below_minimum(a(1000, 2)));
    assert!(is_below_minimum(a(-1, 0)));
    assert!(is_below_minimum(a(i128::MAX, 40)));
    assert!(!is_below_minimum(a(i128::MAX, 37)));
    assert!(is_below_minimum(a(99_999_999_999_999_999_999_999_999_999, 28)));
    assert!(!is_below_minimum(a(100_000_000_000_000_000_000_000_000_000, 28)));
}

#[test]
fn amount_is_held_against_a_whole_number() {
    let a = |mantissa: i128, scale: u32| Amount { mantissa, scale };
    assert!(a(6, 0).is_below(7));
    assert!(!a(6, 0).is_below(6));
    assert!(!a(0, 0).is_below(0));
    assert!(!a(0, 5).is_below(0));
    assert!(a(-1, 5).is_below(0));
    assert!(a(25, 2).is_below(1));
    assert!(!a(100, 2).is_below(1));
    assert!(a(i128::MAX, 39).is_below(1));
    assert!(!a(i128::MAX, 0).is_below(u32::MAX));
    assert!(a(5, u32::MAX).is_below(1));
}

#[test]
fn connect_line_gives_credentials() {
    let (exchange, credentials) = parse_connect_command("Binance key secret").unwrap();
    assert_eq!(exchange, ExchangeType::Binance);
    assert_eq!(credentials.api_key, "key");
    assert_eq!(credentials.api_secret, "secret");
    assert_eq!(
        parse_connect_command("").err(),
        Some(CommandError::UnsupportedExchange)
    );
    assert_eq!(
        parse_connect_command("kraken key secret").err(),
        Some(CommandError::UnsupportedExchange)
    );
    assert_eq!(parse_connect_command("binance key").err(), Some(CommandError::Usage));
    assert_eq!(parse_connect_command("binance a b c").err(), Some(CommandError::Usage));
}

#[test]
fn cancel_line_names_pair_and_order() {
    assert_eq!(
        parse_cancel_command("runeusdt 12345"),
        Ok(("RUNEUSDT".to_string(), "12345".to_string()))
    );
    assert_eq!(parse_cancel_command("runeusdt"), Err(CommandError::Usage));
    assert_eq!(parse_cancel_command("a b c"), Err(CommandError::Usage));
    assert_eq!(parse_cancel_command(""), Err(CommandError::Usage));
}

#[test]
fn hundredfold_stays_within_range() {
    let d = |text: &str| Decimal::parse(text).unwrap();
    assert_eq!(d("0.02").hundredfold(), Some(d("2")));
    assert_eq!(d("0").hundredfold(), Some(d("0")));
    assert_eq!(d("1000000").hundredfold(), Some(d("100000000")));
    assert_eq!(d("1000000.00000001").hundredfold(), None);
    assert_eq!(d("100000000").hundredfold(), None);
}
