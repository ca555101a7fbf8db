use crypto_monitor::config::{CryptoConfig, CryptoInfo, PairInfo, StablecoinInfo};
use crypto_monitor::decimal::Decimal;
use crypto_monitor::models::{
    AlertCondition, AlertType, DepegAlertStep, PairAlertStep, PriceAlert, PriceAlertStep,
    UserState,
};
use crypto_monitor::store::AlertStore;
use crypto_monitor::wizard::{
    advance, advance_state, cancel, default_source_list, first_state, start,
    Outcome, Rejection, WizardKind, WizardStep,
};

fn dec(text: &str) -> Decimal {
    Decimal::parse(text).unwrap()
}

fn config() -> CryptoConfig {
    let mut config = CryptoConfig::new(60);
    for symbol in ["BTC", "ETH", "RUNE", "MATIC", "SOL"] {
        config.cryptocurrencies.push((
            symbol.to_string(),
            CryptoInfo { name: symbol.to_string(), coingecko_id: symbol.to_lowercase() },
        ));
    }
    for symbol in ["USDT", "USDC", "BUSD"] {
        config.stablecoins.push((
            symbol.to_string(),
            StablecoinInfo { name: symbol.to_string(), target_price: Decimal::one() },
        ));
    }
    for (a, b) in [("BTC", "WBTC"), ("ETH", "stETH")] {
        config.synthetic_pairs.push((
            format!("{}_{}", a, b),
            PairInfo {
                token1: a.to_string(),
                token2: b.to_string(),
                expected_ratio: Decimal::one(),
            },
        ));
    }
    config.exchanges.push("binance".to_string());
    config
}

fn prompt(outcome: &Outcome) -> (WizardStep, Option<Rejection>) {
    match outcome {
        Outcome::Prompt { step, reason } => (*step, *reason),
        other => panic!("expected a prompt, got {:?}", other),
    }
}

fn completed(outcome: Outcome) -> PriceAlert {
    match outcome {
        Outcome::Completed(alert) => alert,
        other => panic!("expected an alert, got {:?}", other),
    }
}

fn price_state(state: &UserState) -> (PriceAlertStep, Option<String>, Option<Decimal>) {
    match state {
        UserState::CreatingPriceAlert { step, symbol, target_price, .. } => {
            (*step, symbol.clone(), *target_price)
        }
        other => panic!("expected the price wizard, got {:?}", other),
    }
}

#[test]
fn price_wizard_happy_path() {
    let config = config();
    let mut store = AlertStore::new();
    let s = 42;

    let outcome = start(&mut store, s, "price");
    assert_eq!(prompt(&outcome), (WizardStep::Price(PriceAlertStep::SelectSymbol), None));
    let state = store.get_conversation_state(s).unwrap();
    assert_eq!(price_state(&state), (PriceAlertStep::SelectSymbol, None, None));

    let outcome = advance(&mut store, s, "BTC", &config, 1000).unwrap();
    assert_eq!(prompt(&outcome), (WizardStep::Price(PriceAlertStep::EnterPrice), None));
    let state = store.get_conversation_state(s).unwrap();
    assert_eq!(price_state(&state), (PriceAlertStep::EnterPrice, Some("BTC".to_string()), None));

    let outcome = advance(&mut store, s, "abc", &config, 1001).unwrap();
    assert_eq!(
        prompt(&outcome),
        (WizardStep::Price(PriceAlertStep::EnterPrice), Some(Rejection::InvalidNumber))
    );
    let state = store.get_conversation_state(s).unwrap();
    assert_eq!(price_state(&state), (PriceAlertStep::EnterPrice, Some("BTC".to_string()), None));

    let outcome = advance(&mut store, s, "45000", &config, 1002).unwrap();
    assert_eq!(prompt(&outcome), (WizardStep::Price(PriceAlertStep::SelectCondition), None));
    let state = store.get_conversation_state(s).unwrap();
    assert_eq!(
        price_state(&state),
        (PriceAlertStep::SelectCondition, Some("BTC".to_string()), Some(dec("45000")))
    );

    let alert = completed(advance(&mut store, s, "above", &config, 1003).unwrap());
    assert_eq!(alert.symbol, "BTC");
    match alert.alert_type {
        AlertType::Price { target_price, condition } => {
            assert_eq!(target_price, dec("45000"));
            assert_eq!(condition, AlertCondition::Above);
        }
        other => panic!("expected a price alert, got {:?}", other),
    }
    assert_eq!(alert.id, Some(1));
    assert_eq!(alert.user_id, s);
    assert_eq!(alert.created_at, 1003);
    assert_eq!(alert.triggered_at, None);
    assert!(alert.is_active);

    assert!(store.get_conversation_state(s).is_none());
    let active = store.get_active_alerts();
    assert_eq!(active.len(), 1);
    assert_eq!(active[0].id, Some(1));
    assert_eq!(active[0].symbol, "BTC");
}

#[test]
fn depeg_wizard_happy_path() {
    let config = config();
    let mut store = AlertStore::new();
    let outcome = start(&mut store, 5, "depeg");
    assert_eq!(prompt(&outcome), (WizardStep::Depeg(DepegAlertStep::SelectSymbol), None));
    let outcome = advance(&mut store, 5, "USDT", &config, 10).unwrap();
    assert_eq!(prompt(&outcome), (WizardStep::Depeg(DepegAlertStep::EnterDifferential), None));
    match store.get_conversation_state(5).unwrap() {
        UserState::CreatingDepegAlert { symbol, target_price, differential, exchanges, .. } => {
            assert_eq!(symbol, Some("USDT".to_string()));
            assert_eq!(target_price, Some(Decimal::one()));
            assert_eq!(differential, None);
            assert_eq!(exchanges, None);
        }
        other => panic!("expected the depeg wizard, got {:?}", other),
    }
    let alert = completed(advance(&mut store, 5, "0.5", &config, 11).unwrap());
    assert_eq!(alert.symbol, "USDT");
    assert_eq!(alert.user_id, 5);
    assert_eq!(alert.created_at, 11);
    match alert.alert_type {
        AlertType::Depeg { target_price, differential, exchanges } => {
            assert_eq!(target_price, dec("1.0"));
            assert_eq!(differential, dec("0.5"));
            assert_eq!(exchanges, vec!["binance".to_string(), "coinbase".to_string()]);
        }
        other => panic!("expected a depeg alert, got {:?}", other),
    }
    assert!(store.get_conversation_state(5).is_none());
}

#[test]
fn depeg_wizard_keeps_the_venues_of_the_caller() {
    let config = config();
    let state = UserState::CreatingDepegAlert {
        step: DepegAlertStep::EnterDifferential,
        symbol: Some("USDC".to_string()),
        target_price: Some(dec("0.9")),
        differential: None,
        exchanges: Some(vec!["kraken".to_string()]),
    };
    let (next, outcome) = advance_state(&state, "2", &config, 3, 99);
    assert!(matches!(next, UserState::Idle));
    let alert = completed(outcome);
    assert_eq!(alert.id, None);
    match alert.alert_type {
        AlertType::Depeg { target_price, differential, exchanges } => {
            assert_eq!(target_price, Decimal::one());
            assert_eq!(differential, dec("2"));
            assert_eq!(exchanges, vec!["kraken".to_string()]);
        }
        other => panic!("expected a depeg alert, got {:?}", other),
    }
}

#[test]
fn pair_wizard_happy_path() {
    let config = config();
    let mut store = AlertStore::new();
    let outcome = start(&mut store, 9, "pair");
    assert_eq!(prompt(&outcome), (WizardStep::Pair(PairAlertStep::SelectToken1), None));
    let outcome = advance(&mut store, 9, "BTC/WBTC", &config, 20).unwrap();
    assert_eq!(prompt(&outcome), (WizardStep::Pair(PairAlertStep::EnterRatio), None));
    let outcome = advance(&mut store, 9, "1.0", &config, 21).unwrap();
    assert_eq!(prompt(&outcome), (WizardStep::Pair(PairAlertStep::EnterDifferential), None));
    let alert = completed(advance(&mut store, 9, "2", &config, 22).unwrap());
    assert_eq!(alert.symbol, "BTC/WBTC");
    match alert.alert_type {
        AlertType::PairDepeg { token1, token2, expected_ratio, differential } => {
            assert_eq!(token1, "BTC");
            assert_eq!(token2, "WBTC");
            assert_eq!(expected_ratio, dec("1"));
            assert_eq!(differential, dec("2"));
        }
        other => panic!("expected a pair alert, got {:?}", other),
    }
    assert!(store.get_conversation_state(9).is_none());
    assert_eq!(store.alert_count(), 1);
}

#[test]
fn pair_may_be_named_in_either_order() {
    let config = config();
    let state = first_state(WizardKind::PairDepeg);
    let (next, outcome) = advance_state(&state, "stETH/ETH", &config, 1, 1);
    assert_eq!(prompt(&outcome), (WizardStep::Pair(PairAlertStep::EnterRatio), None));
    match next {
        UserState::CreatingPairAlert { token1, token2, .. } => {
            assert_eq!(token1, Some("stETH".to_string()));
            assert_eq!(token2, Some("ETH".to_string()));
        }
        other => panic!("expected the pair wizard, got {:?}", other),
    }
}

#[test]
fn unsupported_pair_is_rejected() {
    let config = config();
    let state = first_state(WizardKind::PairDepeg);
    for input in ["BTC/ETH", "BTC", "BTCWBTC", "/", "BTC/", "/WBTC", "BTC/WBTC/", "btc/wbtc", ""] {
        let (next, outcome) = advance_state(&state, input, &config, 1, 1);
        assert_eq!(
            prompt(&outcome),
            (WizardStep::Pair(PairAlertStep::SelectToken1), Some(Rejection::UnsupportedPair)),
            "input {:?}",
            input
        );
        assert!(matches!(
            next,
            UserState::CreatingPairAlert {
                step: PairAlertStep::SelectToken1,
                token1: None,
                token2: None,
                ..
            }
        ));
    }
}

#[test]
fn zero_ratio_is_rejected() {
    let config = config();
    let state = UserState::CreatingPairAlert {
        step: PairAlertStep::EnterRatio,
        token1: Some("BTC".to_string()),
        token2: Some("WBTC".to_string()),
        expected_ratio: None,
        differential: None,
    };
    let (_, outcome) = advance_state(&state, "0", &config, 1, 1);
    assert_eq!(
        prompt(&outcome),
        (WizardStep::Pair(PairAlertStep::EnterRatio), Some(Rejection::InvalidRatio))
    );
    let (_, outcome) = advance_state(&state, "0.00", &config, 1, 1);
    assert_eq!(prompt(&outcome).1, Some(Rejection::InvalidRatio));
    let (_, outcome) = advance_state(&state, "x", &config, 1, 1);
    assert_eq!(prompt(&outcome).1, Some(Rejection::InvalidNumber));
    let (_, outcome) = advance_state(&state, "0.00000001", &config, 1, 1);
    assert_eq!(prompt(&outcome), (WizardStep::Pair(PairAlertStep::EnterDifferential), None));
}

#[test]
fn unsupported_symbol_is_rejected() {
    let config = config();
    let mut store = AlertStore::new();
    start(&mut store, 1, "price");
    for input in ["DOGE", "btc", "", "USDT"] {
        let outcome = advance(&mut store, 1, input, &config, 1).unwrap();
        assert_eq!(
            prompt(&outcome),
            (WizardStep::Price(PriceAlertStep::SelectSymbol), Some(Rejection::UnsupportedSymbol))
        );
        let state = store.get_conversation_state(1).unwrap();
        assert_eq!(price_state(&state), (PriceAlertStep::SelectSymbol, None, None));
    }
    start(&mut store, 2, "depeg");
    let outcome = advance(&mut store, 2, "BTC", &config, 1).unwrap();
    assert_eq!(
        prompt(&outcome),
        (WizardStep::Depeg(DepegAlertStep::SelectSymbol), Some(Rejection::UnsupportedSymbol))
    );
}

#[test]
fn unsupported_condition_is_rejected() {
    let config = config();
    let mut store = AlertStore::new();
    start(&mut store, 1, "price");
    advance(&mut store, 1, "ETH", &config, 1).unwrap();
    advance(&mut store, 1, "2000.5", &config, 1).unwrap();
    for input in ["over", "", "abov", "above ", ">"] {
        let outcome = advance(&mut store, 1, input, &config, 1).unwrap();
        assert_eq!(
            prompt(&outcome),
            (
                WizardStep::Price(PriceAlertStep::SelectCondition),
                Some(Rejection::UnsupportedCondition)
            )
        );
    }
    assert_eq!(store.alert_count(), 0);
    let alert = completed(advance(&mut store, 1, "BELOW", &config, 1).unwrap());
    match alert.alert_type {
        AlertType::Price { condition, target_price } => {
            assert_eq!(condition, AlertCondition::Below);
            assert_eq!(target_price, dec("2000.5"));
        }
        other => panic!("expected a price alert, got {:?}", other),
    }
}

#[test]
fn state_with_missing_field_yields_no_alert() {
    let config = config();
    let state = UserState::CreatingPriceAlert {
        step: PriceAlertStep::SelectCondition,
        symbol: None,
        target_price: Some(dec("1")),
        condition: None,
    };
    let (next, outcome) = advance_state(&state, "above", &config, 1, 1);
    assert_eq!(
        prompt(&outcome),
        (WizardStep::Price(PriceAlertStep::SelectCondition), Some(Rejection::MissingField))
    );
    assert!(matches!(next, UserState::CreatingPriceAlert { symbol: None, .. }));

    let state = UserState::CreatingDepegAlert {
        step: DepegAlertStep::EnterDifferential,
        symbol: None,
        target_price: None,
        differential: None,
        exchanges: None,
    };
    let (_, outcome) = advance_state(&state, "1", &config, 1, 1);
    assert_eq!(prompt(&outcome).1, Some(Rejection::MissingField));

    let state = UserState::CreatingPairAlert {
        step: PairAlertStep::EnterDifferential,
        token1: Some("A".to_string()),
        token2: Some("B".to_string()),
        expected_ratio: None,
        differential: None,
    };
    let (_, outcome) = advance_state(&state, "1", &config, 1, 1);
    assert_eq!(prompt(&outcome).1, Some(Rejection::MissingField));
}

#[test]
fn steps_that_no_wizard_uses_take_no_input() {
    let config = config();
    let state = UserState::CreatingPriceAlert {
        step: PriceAlertStep::Confirm,
        symbol: Some("BTC".to_string()),
        target_price: Some(dec("1")),
        condition: Some(AlertCondition::Above),
    };
    let (next, outcome) = advance_state(&state, "yes", &config, 1, 1);
    assert_eq!(
        prompt(&outcome),
        (WizardStep::Price(PriceAlertStep::Confirm), Some(Rejection::UnusedStep))
    );
    assert!(matches!(next, UserState::CreatingPriceAlert { step: PriceAlertStep::Confirm, .. }));
    for step in [
        DepegAlertStep::EnterTargetPrice,
        DepegAlertStep::SelectExchanges,
        DepegAlertStep::Confirm,
    ] {
        let state = UserState::CreatingDepegAlert {
            step,
            symbol: None,
            target_price: None,
            differential: None,
            exchanges: None,
        };
        let (_, outcome) = advance_state(&state, "1", &config, 1, 1);
        assert_eq!(prompt(&outcome), (WizardStep::Depeg(step), Some(Rejection::UnusedStep)));
    }
    for step in [PairAlertStep::SelectToken2, PairAlertStep::Confirm] {
        let state = UserState::CreatingPairAlert {
            step,
            token1: None,
            token2: None,
            expected_ratio: None,
            differential: None,
        };
        let (_, outcome) = advance_state(&state, "1", &config, 1, 1);
        assert_eq!(prompt(&outcome), (WizardStep::Pair(step), Some(Rejection::UnusedStep)));
    }
}

#[test]
fn advance_without_start_asks_for_a_start() {
    let config = config();
    let mut store = AlertStore::new();
    let outcome = advance(&mut store, 1, "BTC", &config, 1).unwrap();
    assert!(matches!(outcome, Outcome::NotStarted));
    assert!(store.get_conversation_state(1).is_none());
    assert_eq!(store.alert_count(), 0);
    let (next, outcome) = advance_state(&UserState::Idle, "BTC", &config, 1, 1);
    assert!(matches!(next, UserState::Idle));
    assert!(matches!(outcome, Outcome::NotStarted));
}

#[test]
fn start_with_unknown_wizard_changes_nothing() {
    let mut store = AlertStore::new();
    assert!(matches!(start(&mut store, 1, "order"), Outcome::NotStarted));
    assert!(store.get_conversation_state(1).is_none());
    start(&mut store, 1, "depeg");
    assert!(matches!(start(&mut store, 1, ""), Outcome::NotStarted));
    assert!(matches!(
        store.get_conversation_state(1),
        Some(UserState::CreatingDepegAlert { .. })
    ));
}

#[test]
fn start_overwrites_an_unfinished_wizard() {
    let config = config();
    let mut store = AlertStore::new();
    start(&mut store, 1, "price");
    advance(&mut store, 1, "BTC", &config, 1).unwrap();
    let outcome = start(&mut store, 1, "PairDepeg");
    assert_eq!(prompt(&outcome), (WizardStep::Pair(PairAlertStep::SelectToken1), None));
    assert!(matches!(
        store.get_conversation_state(1),
        Some(UserState::CreatingPairAlert { step: PairAlertStep::SelectToken1, token1: None, .. })
    ));
}

#[test]
fn cancel_clears_the_state() {
    let config = config();
    let mut store = AlertStore::new();
    start(&mut store, 1, "price");
    start(&mut store, 2, "depeg");
    advance(&mut store, 1, "BTC", &config, 1).unwrap();
    assert!(matches!(cancel(&mut store, 1), Outcome::Cancelled));
    assert!(store.get_conversation_state(1).is_none());
    assert!(store.get_conversation_state(2).is_some());
    assert!(matches!(cancel(&mut store, 1), Outcome::Cancelled));
    assert!(matches!(cancel(&mut store, 77), Outcome::Cancelled));
    assert!(matches!(advance(&mut store, 1, "45000", &config, 1).unwrap(), Outcome::NotStarted));
}

#[test]
fn sessions_do_not_touch_each_other() {
    let config = config();
    let mut store = AlertStore::new();
    start(&mut store, 1, "price");
    start(&mut store, 2, "price");
    advance(&mut store, 1, "BTC", &config, 1).unwrap();
    advance(&mut store, 2, "ETH", &config, 1).unwrap();
    advance(&mut store, 2, "10", &config, 1).unwrap();
    let one = store.get_conversation_state(1).unwrap();
    let two = store.get_conversation_state(2).unwrap();
    assert_eq!(price_state(&one), (PriceAlertStep::EnterPrice, Some("BTC".to_string()), None));
    assert_eq!(
        price_state(&two),
        (PriceAlertStep::SelectCondition, Some("ETH".to_string()), Some(dec("10")))
    );
}

#[test]
fn wizard_kinds_by_name() {
    assert_eq!(WizardKind::from_text("price"), Some(WizardKind::Price));
    assert_eq!(WizardKind::from_text("Price"), Some(WizardKind::Price));
    assert_eq!(WizardKind::from_text("depeg"), Some(WizardKind::Depeg));
    assert_eq!(WizardKind::from_text("pair"), Some(WizardKind::PairDepeg));
    assert_eq!(WizardKind::from_text("PAIRDEPEG"), Some(WizardKind::PairDepeg));
    assert_eq!(WizardKind::from_text("prices"), None);
    assert_eq!(WizardKind::from_text(""), None);
}

#[test]
fn conditions_by_name() {
    assert_eq!(AlertCondition::from_text("above"), Some(AlertCondition::Above));
    assert_eq!(AlertCondition::from_text("Above"), Some(AlertCondition::Above));
    assert_eq!(AlertCondition::from_text("below"), Some(AlertCondition::Below));
    assert_eq!(AlertCondition::from_text("BELOW"), Some(AlertCondition::Below));
    assert_eq!(AlertCondition::from_text("equal"), None);
    assert_eq!(AlertCondition::from_text("abové"), None);
}

#[test]
fn default_sources_are_two_venues() {
    assert_eq!(default_source_list(), vec!["binance".to_string(), "coinbase".to_string()]);
}

#[test]
fn state_step_and_duplicate() {
    let state = first_state(WizardKind::Depeg);
    assert_eq!(state.step(), Some(WizardStep::Depeg(DepegAlertStep::SelectSymbol)));
    assert_eq!(UserState::Idle.step(), None);
    let state = UserState::CreatingDepegAlert {
        step: DepegAlertStep::EnterDifferential,
        symbol: Some("USDT".to_string()),
        target_price: Some(dec("1")),
        differential: None,
        exchanges: Some(vec!["a".to_string(), "b".to_string()]),
    };
    match state.duplicate() {
        UserState::CreatingDepegAlert { step, symbol, target_price, differential, exchanges } => {
            assert_eq!(step, DepegAlertStep::EnterDifferential);
            assert_eq!(symbol, Some("USDT".to_string()));
            assert_eq!(target_price, Some(dec("1")));
            assert_eq!(differential, None);
            assert_eq!(exchanges, Some(vec!["a".to_string(), "b".to_string()]));
        }
        other => panic!("expected the depeg wizard, got {:?}", other),
    }
}
