use crypto_monitor::decimal::Decimal;
use crypto_monitor::models::{AlertCondition, AlertType, CryptoPrice, PriceAlert};
use crypto_monitor::monitor::{
    backoff_delay, format_alert_message, gather, needs, plan_fetches, Answer, Phase,
    PriceRequest, RetryPolicy, Tick, TickAction, TickEvent,
};
use crypto_monitor::store::{AlertStore, StoreError};

fn dec(text: &str) -> Decimal {
    Decimal::parse(text).unwrap()
}

fn sample(symbol: &str, exchange: &str, price: &str) -> CryptoPrice {
    CryptoPrice {
        symbol: symbol.to_string(),
        price: dec(price),
        exchange: exchange.to_string(),
        timestamp: 1_700_000_000,
    }
}

fn price_alert(id: i64, owner: i64, symbol: &str, target: &str, c: AlertCondition) -> PriceAlert {
    let mut alert = PriceAlert::new(
        owner,
        symbol.to_string(),
        AlertType::Price { target_price: dec(target), condition: c },
        1,
    );
    alert.id = Some(id);
    alert
}

fn depeg_alert(id: i64, symbol: &str, differential: &str, exchanges: &[&str]) -> PriceAlert {
    let mut alert = PriceAlert::new(
        1,
        symbol.to_string(),
        AlertType::Depeg {
            target_price: dec("1"),
            differential: dec(differential),
            exchanges: exchanges.iter().map(|e| e.to_string()).collect(),
        },
        1,
    );
    alert.id = Some(id);
    alert
}

fn pair_alert(id: i64, a: &str, b: &str, ratio: &str, differential: &str) -> PriceAlert {
    let mut alert = PriceAlert::new(
        1,
        format!("{}/{}", a, b),
        AlertType::PairDepeg {
            token1: a.to_string(),
            token2: b.to_string(),
            expected_ratio: dec(ratio),
            differential: dec(differential),
        },
        1,
    );
    alert.id = Some(id);
    alert
}

fn wanted(requests: &[PriceRequest]) -> Vec<(String, Option<String>)> {
    requests.iter().map(|r| (r.symbol.clone(), r.source.clone())).collect()
}

fn pair(symbol: &str, source: Option<&str>) -> (String, Option<String>) {
    (symbol.to_string(), source.map(|s| s.to_string()))
}

fn fetch(action: &TickAction) -> (String, Option<String>, u32, u64) {
    match action {
        TickAction::Fetch { request, attempt, delay_secs } => {
            (request.symbol.clone(), request.source.clone(), *attempt, *delay_secs)
        }
        other => panic!("expected a fetch, got {:?}", other),
    }
}

fn notify(action: &TickAction) -> (i64, i64) {
    match action {
        TickAction::Notify { alert_id, owner, .. } => (*alert_id, *owner),
        other => panic!("expected a notification, got {:?}", other),
    }
}

fn mark(action: &TickAction) -> (i64, i64) {
    match action {
        TickAction::MarkTriggered { alert_id, at } => (*alert_id, *at),
        other => panic!("expected a marking, got {:?}", other),
    }
}

#[test]
fn standard_policy() {
    let policy = RetryPolicy::standard();
    assert_eq!(policy.max_attempts, 3);
    assert_eq!(policy.delay_secs, 5);
}

#[test]
fn backoff_doubles_up_to_the_longest_delay() {
    assert_eq!(backoff_delay(0, 5, 30), 5);
    assert_eq!(backoff_delay(1, 5, 30), 5);
    assert_eq!(backoff_delay(2, 5, 30), 10);
    assert_eq!(backoff_delay(3, 5, 30), 20);
    assert_eq!(backoff_delay(4, 5, 30), 30);
    assert_eq!(backoff_delay(5, 5, 30), 30);
    assert_eq!(backoff_delay(1000, 5, 30), 30);
    assert_eq!(backoff_delay(1, 50, 30), 30);
    assert_eq!(backoff_delay(3, 10, 300), 40);
    assert_eq!(backoff_delay(6, 10, 300), 300);
    assert_eq!(backoff_delay(3, 0, 30), 0);
    assert_eq!(backoff_delay(70, 1, u64::MAX), u64::MAX);
}

#[test]
fn each_symbol_and_venue_is_fetched_once() {
    let alerts = vec![
        price_alert(1, 1, "BTC", "1", AlertCondition::Above),
        depeg_alert(2, "USDT", "1", &["binance", "coinbase"]),
        price_alert(3, 2, "BTC", "2", AlertCondition::Below),
        pair_alert(4, "BTC", "WBTC", "1", "1"),
        depeg_alert(5, "USDT", "2", &["coinbase", "kraken"]),
        price_alert(6, 2, "USDT", "2", AlertCondition::Below),
    ];
    assert_eq!(
        wanted(&plan_fetches(&alerts)),
        vec![
            pair("BTC", None),
            pair("USDT", Some("binance")),
            pair("USDT", Some("coinbase")),
            pair("WBTC", None),
            pair("USDT", Some("kraken")),
            pair("USDT", None),
        ]
    );
}

#[test]
fn alerts_that_are_not_watched_need_no_price() {
    let mut fired = price_alert(1, 1, "BTC", "1", AlertCondition::Above);
    fired.mark_triggered(5);
    let mut unsaved = price_alert(2, 1, "ETH", "1", AlertCondition::Above);
    unsaved.id = None;
    let alerts = vec![fired, unsaved, depeg_alert(3, "USDT", "1", &[])];
    assert!(plan_fetches(&alerts).is_empty());
    let tick = Tick::begin(alerts, RetryPolicy::standard());
    assert!(tick.is_finished());
    assert!(matches!(tick.pending(), TickAction::Finished));
}

#[test]
fn tick_without_alerts_is_finished_at_once() {
    let mut tick = Tick::begin(vec![], RetryPolicy::standard());
    assert!(tick.is_finished());
    assert_eq!(tick.phase(), Phase::Done);
    assert!(matches!(tick.handle(TickEvent::Notified(true), 1), TickAction::Finished));
    assert!(matches!(tick.handle(TickEvent::Fetched(None), 1), TickAction::Finished));
}

#[test]
fn tick_notifies_then_marks_each_alert_that_fires() {
    let alerts = vec![
        price_alert(1, 11, "BTC", "45000", AlertCondition::Above),
        price_alert(2, 12, "ETH", "2000", AlertCondition::Below),
        price_alert(3, 13, "BTC", "47000", AlertCondition::Above),
        price_alert(4, 14, "BTC", "40000", AlertCondition::Above),
    ];
    let mut tick = Tick::begin(alerts, RetryPolicy::standard());
    assert_eq!(fetch(&tick.pending()), ("BTC".to_string(), None, 1, 0));
    let action = tick.handle(TickEvent::Fetched(Some(sample("BTC", "binance", "46000"))), 100);
    assert_eq!(fetch(&action), ("ETH".to_string(), None, 1, 0));
    let action = tick.handle(TickEvent::Fetched(Some(sample("ETH", "binance", "2100"))), 101);
    assert_eq!(notify(&action), (1, 11));
    let action = tick.handle(TickEvent::Notified(true), 102);
    assert_eq!(mark(&action), (1, 102));
    let action = tick.handle(TickEvent::Marked(true), 103);
    assert_eq!(notify(&action), (4, 14));
    let action = tick.handle(TickEvent::Notified(true), 104);
    assert_eq!(mark(&action), (4, 104));
    let action = tick.handle(TickEvent::Marked(true), 105);
    assert!(matches!(action, TickAction::Finished));
    assert!(tick.is_finished());
}

#[test]
fn source_that_succeeds_on_the_third_attempt_yields_a_sample() {
    let alerts = vec![price_alert(1, 11, "BTC", "45000", AlertCondition::Above)];
    let mut tick = Tick::begin(alerts, RetryPolicy { max_attempts: 3, delay_secs: 5 });
    assert_eq!(fetch(&tick.pending()), ("BTC".to_string(), None, 1, 0));
    let action = tick.handle(TickEvent::Fetched(None), 1);
    assert_eq!(fetch(&action), ("BTC".to_string(), None, 2, 5));
    let action = tick.handle(TickEvent::Fetched(None), 2);
    assert_eq!(fetch(&action), ("BTC".to_string(), None, 3, 5));
    let action = tick.handle(TickEvent::Fetched(Some(sample("BTC", "binance", "45000.01"))), 3);
    assert_eq!(notify(&action), (1, 11));
    let action = tick.handle(TickEvent::Notified(true), 4);
    assert_eq!(mark(&action), (1, 4));
    assert!(matches!(tick.handle(TickEvent::Marked(true), 5), TickAction::Finished));
}

#[test]
fn source_that_fails_three_times_yields_no_sample_and_the_tick_goes_on() {
    let alerts = vec![
        price_alert(1, 11, "BTC", "45000", AlertCondition::Above),
        price_alert(2, 12, "ETH", "2000", AlertCondition::Above),
    ];
    let mut tick = Tick::begin(alerts, RetryPolicy::standard());
    tick.handle(TickEvent::Fetched(None), 1);
    tick.handle(TickEvent::Fetched(None), 2);
    let action = tick.handle(TickEvent::Fetched(None), 3);
    assert_eq!(fetch(&action), ("ETH".to_string(), None, 1, 0));
    let action = tick.handle(TickEvent::Fetched(Some(sample("ETH", "binance", "2500"))), 4);
    assert_eq!(notify(&action), (2, 12));
}

#[test]
fn policy_without_attempts_still_asks_once() {
    let alerts = vec![price_alert(1, 11, "BTC", "45000", AlertCondition::Above)];
    let mut tick = Tick::begin(alerts, RetryPolicy { max_attempts: 0, delay_secs: 9 });
    assert_eq!(fetch(&tick.pending()), ("BTC".to_string(), None, 1, 0));
    assert!(matches!(tick.handle(TickEvent::Fetched(None), 1), TickAction::Finished));
    let alerts = vec![price_alert(1, 11, "BTC", "45000", AlertCondition::Above)];
    let mut tick = Tick::begin(alerts, RetryPolicy { max_attempts: 1, delay_secs: 9 });
    assert!(matches!(tick.handle(TickEvent::Fetched(None), 1), TickAction::Finished));
}

#[test]
fn failure_to_mark_one_alert_does_not_stop_the_next() {
    let mut store = AlertStore::new();
    let mut a = price_alert(0, 11, "BTC", "45000", AlertCondition::Above);
    a.id = None;
    let mut b = price_alert(0, 12, "BTC", "44000", AlertCondition::Above);
    b.id = None;
    store.save_alert(a).unwrap();
    store.save_alert(b).unwrap();

    let mut tick = Tick::begin(store.get_active_alerts(), RetryPolicy::standard());
    let mut action = tick.pending();
    let mut notified = Vec::new();
    let mut failures = Vec::new();
    loop {
        let event = match &action {
            TickAction::Fetch { .. } => {
                TickEvent::Fetched(Some(sample("BTC", "binance", "46000")))
            }
            TickAction::Notify { alert_id, owner, .. } => {
                notified.push((*alert_id, *owner));
                TickEvent::Notified(true)
            }
            TickAction::MarkTriggered { alert_id, at } => {
                // the store fails for the first alert
                let result = if *alert_id == 1 {
                    Err(StoreError::UnknownAlert)
                } else {
                    store.mark_triggered(*alert_id, *at)
                };
                if result.is_err() {
                    failures.push(*alert_id);
                }
                TickEvent::Marked(result.is_ok())
            }
            TickAction::Finished => break,
        };
        action = tick.handle(event, 700);
    }
    assert_eq!(notified, vec![(1, 11), (2, 12)]);
    assert_eq!(failures, vec![1]);
    assert!(store.get_alert(1).unwrap().is_active);
    let second = store.get_alert(2).unwrap();
    assert!(!second.is_active);
    assert_eq!(second.triggered_at, Some(700));
}

#[test]
fn failure_to_notify_does_not_stop_the_marking() {
    let alerts = vec![
        price_alert(1, 11, "BTC", "45000", AlertCondition::Above),
        price_alert(2, 12, "BTC", "44000", AlertCondition::Above),
    ];
    let mut tick = Tick::begin(alerts, RetryPolicy::standard());
    let action = tick.handle(TickEvent::Fetched(Some(sample("BTC", "binance", "46000"))), 1);
    assert_eq!(notify(&action), (1, 11));
    let action = tick.handle(TickEvent::Notified(false), 2);
    assert_eq!(mark(&action), (1, 2));
    let action = tick.handle(TickEvent::Marked(false), 3);
    assert_eq!(notify(&action), (2, 12));
}

#[test]
fn triggered_alert_is_not_notified_in_the_next_tick() {
    let mut store = AlertStore::new();
    let mut a = price_alert(0, 11, "BTC", "45000", AlertCondition::Above);
    a.id = None;
    store.save_alert(a).unwrap();
    let samples = || TickEvent::Fetched(Some(sample("BTC", "binance", "46000")));

    let mut tick = Tick::begin(store.get_active_alerts(), RetryPolicy::standard());
    let action = tick.handle(samples(), 1);
    assert_eq!(notify(&action), (1, 11));
    let action = tick.handle(TickEvent::Notified(true), 2);
    let (id, at) = mark(&action);
    store.mark_triggered(id, at).unwrap();
    assert!(matches!(tick.handle(TickEvent::Marked(true), 3), TickAction::Finished));

    let tick = Tick::begin(store.get_active_alerts(), RetryPolicy::standard());
    assert!(tick.is_finished());

    // the same snapshot again, with the alert as the store now holds it
    let snapshot = vec![store.get_alert(1).unwrap()];
    let tick = Tick::begin(snapshot, RetryPolicy::standard());
    assert!(matches!(tick.pending(), TickAction::Finished));
}

#[test]
fn event_that_the_tick_does_not_wait_for_changes_nothing() {
    let alerts = vec![price_alert(1, 11, "BTC", "45000", AlertCondition::Above)];
    let mut tick = Tick::begin(alerts, RetryPolicy::standard());
    let action = tick.handle(TickEvent::Marked(true), 1);
    assert_eq!(fetch(&action), ("BTC".to_string(), None, 1, 0));
    let action = tick.handle(TickEvent::Notified(true), 1);
    assert_eq!(fetch(&action), ("BTC".to_string(), None, 1, 0));
    assert_eq!(tick.phase(), Phase::Fetching { request: 0, failures: 0 });
    let action = tick.handle(TickEvent::Fetched(Some(sample("BTC", "binance", "46000"))), 2);
    assert_eq!(notify(&action), (1, 11));
    let action = tick.handle(TickEvent::Fetched(None), 3);
    assert_eq!(notify(&action), (1, 11));
    let action = tick.handle(TickEvent::Marked(true), 3);
    assert_eq!(notify(&action), (1, 11));
    assert_eq!(tick.phase(), Phase::Notifying { alert: 0 });
}

#[test]
fn depeg_alert_is_evaluated_on_the_venues_that_answered() {
    let alerts = vec![depeg_alert(1, "USDT", "1", &["binance", "coinbase"])];
    let mut tick = Tick::begin(alerts, RetryPolicy { max_attempts: 1, delay_secs: 0 });
    assert_eq!(
        fetch(&tick.pending()),
        ("USDT".to_string(), Some("binance".to_string()), 1, 0)
    );
    let action = tick.handle(TickEvent::Fetched(None), 1);
    assert_eq!(fetch(&action), ("USDT".to_string(), Some("coinbase".to_string()), 1, 0));
    let action = tick.handle(TickEvent::Fetched(Some(sample("USDT", "coinbase", "1.02"))), 2);
    assert_eq!(notify(&action), (1, 1));
}

#[test]
fn message_of_a_price_alert() {
    let alert = price_alert(1, 11, "BTC", "45000", AlertCondition::Above);
    let samples = vec![sample("BTC", "binance", "46000.5")];
    assert_eq!(
        format_alert_message(&alert, &samples),
        "🚨 *Alerta de Precio*\nSymbol: BTC\nCondición: mayor que 45000.00\nPrecio actual: $46000.50"
    );
    let alert = price_alert(1, 11, "ETH", "0.995", AlertCondition::Below);
    assert_eq!(
        format_alert_message(&alert, &samples),
        "🚨 *Alerta de Precio*\nSymbol: ETH\nCondición: menor que 0.995\nPrecio actual: $-"
    );
}

#[test]
fn message_of_a_depeg_alert() {
    let alert = depeg_alert(1, "USDT", "0.5", &["binance"]);
    assert_eq!(
        format_alert_message(&alert, &vec![]),
        "🚨 *Alerta de Depeg*\nSymbol: USDT\nPrecio objetivo: $1.00\nDesviación mayor que 0.50%"
    );
}

#[test]
fn message_of_a_pair_alert() {
    let alert = pair_alert(1, "ETH", "stETH", "1.0", "2");
    assert_eq!(
        format_alert_message(&alert, &vec![]),
        "🚨 *Alerta de Par*\nPar: ETH/stETH\nRatio esperado: 1.00\nDesviación mayor que 2.00%"
    );
}

#[test]
fn notification_carries_the_message() {
    let alerts = vec![price_alert(1, 11, "BTC", "45000", AlertCondition::Above)];
    let mut tick = Tick::begin(alerts, RetryPolicy::standard());
    let action = tick.handle(TickEvent::Fetched(Some(sample("BTC", "binance", "46000"))), 1);
    match action {
        TickAction::Notify { message, .. } => assert_eq!(
            message,
            "🚨 *Alerta de Precio*\nSymbol: BTC\nCondición: mayor que 45000.00\nPrecio actual: $46000.00"
        ),
        other => panic!("expected a notification, got {:?}", other),
    }
}

fn request(symbol: &str, source: Option<&str>) -> PriceRequest {
    PriceRequest { symbol: symbol.to_string(), source: source.map(|s| s.to_string()) }
}

fn answer(symbol: &str, source: Option<&str>, given: CryptoPrice) -> Answer {
    Answer { request: request(symbol, source), sample: given }
}

#[test]
fn alert_needs_the_prices_it_asks_for() {
    let price = price_alert(1, 1, "USDT", "1.01", AlertCondition::Above);
    assert!(needs(&price, &request("USDT", None)));
    assert!(!needs(&price, &request("USDT", Some("binance"))));
    assert!(!needs(&price, &request("USDC", None)));
    let depeg = depeg_alert(2, "USDT", "1", &["binance", "coinbase"]);
    assert!(needs(&depeg, &request("USDT", Some("binance"))));
    assert!(needs(&depeg, &request("USDT", Some("coinbase"))));
    assert!(!needs(&depeg, &request("USDT", Some("kraken"))));
    assert!(!needs(&depeg, &request("USDT", None)));
    assert!(!needs(&depeg, &request("USDC", Some("binance"))));
    let pair = pair_alert(3, "ETH", "STETH", "1", "1");
    assert!(needs(&pair, &request("ETH", None)));
    assert!(needs(&pair, &request("STETH", None)));
    assert!(!needs(&pair, &request("ETH/STETH", None)));
    assert!(!needs(&pair, &request("ETH", Some("binance"))));
}

#[test]
fn alert_is_handed_the_answers_to_its_own_requests() {
    let answers = vec![
        answer("USDT", Some("coinbase"), sample("USDT", "coinbase", "1.02")),
        answer("BTC", None, sample("BTC", "binance", "46000")),
        answer("USDT", None, sample("usdt", "binance", "1.00")),
        answer("USDT", Some("binance"), sample("USDT", "", "0.97")),
    ];
    let price = price_alert(1, 1, "USDT", "1.01", AlertCondition::Above);
    let got = gather(&price, &answers);
    assert_eq!(got.len(), 1);
    assert_eq!(got[0].symbol, "USDT");
    assert_eq!(got[0].exchange, "binance");
    assert_eq!(got[0].price, dec("1.00"));
    assert_eq!(got[0].timestamp, 1_700_000_000);
    let depeg = depeg_alert(2, "USDT", "1", &["binance", "coinbase"]);
    let got = gather(&depeg, &answers);
    assert_eq!(got.len(), 2);
    assert_eq!((got[0].exchange.as_str(), got[0].price), ("coinbase", dec("1.02")));
    assert_eq!((got[1].exchange.as_str(), got[1].price), ("binance", dec("0.97")));
    let other = price_alert(3, 1, "ETH", "1", AlertCondition::Above);
    assert!(gather(&other, &answers).is_empty());
    assert!(gather(&price, &Vec::new()).is_empty());
}

#[test]
fn price_alert_does_not_fire_on_the_answer_to_another_request() {
    let alerts = vec![
        depeg_alert(1, "USDT", "1", &["coinbase"]),
        price_alert(2, 22, "USDT", "1.01", AlertCondition::Above),
    ];
    let mut tick = Tick::begin(alerts, RetryPolicy { max_attempts: 1, delay_secs: 0 });
    assert_eq!(
        fetch(&tick.pending()),
        ("USDT".to_string(), Some("coinbase".to_string()), 1, 0)
    );
    let action = tick.handle(TickEvent::Fetched(Some(sample("USDT", "coinbase", "1.02"))), 1);
    assert_eq!(fetch(&action), ("USDT".to_string(), None, 1, 0));
    let action = tick.handle(TickEvent::Fetched(None), 2);
    assert_eq!(notify(&action), (1, 1));
    let action = tick.handle(TickEvent::Notified(true), 3);
    assert_eq!(mark(&action), (1, 3));
    let action = tick.handle(TickEvent::Marked(true), 4);
    assert!(matches!(action, TickAction::Finished));
}

#[test]
fn price_alert_fires_on_the_answer_to_its_own_request() {
    let alerts = vec![
        depeg_alert(1, "USDT", "5", &["coinbase"]),
        price_alert(2, 22, "USDT", "1.01", AlertCondition::Above),
    ];
    let mut tick = Tick::begin(alerts, RetryPolicy { max_attempts: 1, delay_secs: 0 });
    let action = tick.handle(TickEvent::Fetched(Some(sample("USDT", "coinbase", "1.00"))), 1);
    assert_eq!(fetch(&action), ("USDT".to_string(), None, 1, 0));
    let action = tick.handle(TickEvent::Fetched(Some(sample("USDT", "binance", "1.02"))), 2);
    assert_eq!(notify(&action), (2, 22));
}
