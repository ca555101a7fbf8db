//! The data model: users, alerts, price samples and the state of the wizard
//! that collects an alert.
//!
//! Each type that holds text has a view in which texts are `Seq<char>` and
//! decimals are their units; the contracts of the crate speak of those views.

use crate::decimal::{Decimal, MAX_UNITS};
use crate::text::texts;
use vstd::prelude::*;

verus! {

/// A registered user.
#[derive(Debug, Clone)]
pub struct User {
    pub id: i64,
    pub username: String,
    pub password_hash: String,
    pub api_key: Option<String>,
    pub telegram_chat_id: Option<i64>,
    pub created_at: i64,
    pub last_login: Option<i64>,
    pub is_active: bool,
}

/// A key that lets a user call the programmatic interface.
#[derive(Debug, Clone)]
pub struct ApiKey {
    pub id: i64,
    pub user_id: i64,
    pub key: String,
    pub created_at: i64,
    pub last_used: Option<i64>,
    pub expires_at: Option<i64>,
    pub is_active: bool,
}

/// The side of the target on which a price alert fires.
#[derive(Debug, Clone, Copy, PartialEq, Eq, Structural)]
pub enum AlertCondition {
    Above,
    Below,
}

/// What an alert watches.
#[derive(Debug, Clone)]
pub enum AlertType {
    /// The price of the symbol against a target.
    Price { target_price: Decimal, condition: AlertCondition },
    /// The deviation of a stablecoin from its peg, over the named venues.
    Depeg { target_price: Decimal, differential: Decimal, exchanges: Vec<String> },
    /// The deviation of the ratio of two prices from an expected ratio.
    PairDepeg { token1: String, token2: String, expected_ratio: Decimal, differential: Decimal },
}

/// The view of an [`AlertType`].
pub enum AlertTypeView {
    Price { target_price: nat, condition: AlertCondition },
    Depeg { target_price: nat, differential: nat, exchanges: Seq<Seq<char>> },
    PairDepeg { token1: Seq<char>, token2: Seq<char>, expected_ratio: nat, differential: nat },
}

impl View for AlertType {
    type V = AlertTypeView;

    open spec fn view(&self) -> AlertTypeView {
        match *self {
            AlertType::Price { target_price, condition } => AlertTypeView::Price {
                target_price: target_price.units(),
                condition,
            },
            AlertType::Depeg { target_price, differential, exchanges } => AlertTypeView::Depeg {
                target_price: target_price.units(),
                differential: differential.units(),
                exchanges: texts(exchanges@),
            },
            AlertType::PairDepeg {
                token1,
                token2,
                expected_ratio,
                differential,
            } => AlertTypeView::PairDepeg {
                token1: token1@,
                token2: token2@,
                expected_ratio: expected_ratio.units(),
                differential: differential.units(),
            },
        }
    }
}

impl AlertTypeView {
    /// Whether every decimal of the variant is within the range of
    /// [`Decimal`].
    pub open spec fn wf(self) -> bool {
        match self {
            AlertTypeView::Price { target_price, .. } => target_price <= MAX_UNITS,
            AlertTypeView::Depeg { target_price, differential, .. } => target_price <= MAX_UNITS
                && differential <= MAX_UNITS,
            AlertTypeView::PairDepeg { expected_ratio, differential, .. } => expected_ratio
                <= MAX_UNITS && differential <= MAX_UNITS,
        }
    }
}

/// An alert of one owner on one symbol.
#[derive(Debug, Clone)]
pub struct PriceAlert {
    /// Assigned by the store when the alert is saved; absent before.
    pub id: Option<i64>,
    /// The owner.
    pub user_id: i64,
    /// The asset watched; `A/B` for a pair.
    pub symbol: String,
    pub alert_type: AlertType,
    pub created_at: i64,
    /// Set once, when the alert fires.
    pub triggered_at: Option<i64>,
    /// Whether the alert is still to be evaluated.
    pub is_active: bool,
}

/// The view of a [`PriceAlert`].
pub struct PriceAlertView {
    pub id: Option<i64>,
    pub user_id: i64,
    pub symbol: Seq<char>,
    pub alert_type: AlertTypeView,
    pub created_at: i64,
    pub triggered_at: Option<i64>,
    pub is_active: bool,
}

impl View for PriceAlert {
    type V = PriceAlertView;

    open spec fn view(&self) -> PriceAlertView {
        PriceAlertView {
            id: self.id,
            user_id: self.user_id,
            symbol: self.symbol@,
            alert_type: self.alert_type@,
            created_at: self.created_at,
            triggered_at: self.triggered_at,
            is_active: self.is_active,
        }
    }
}

impl PriceAlertView {
    /// An alert is active exactly as long as it has not fired.
    pub open spec fn wf(self) -> bool {
        self.is_active == (self.triggered_at is None) && self.alert_type.wf()
    }

    /// The alert as a store saves it under the identifier `id`: with that
    /// identifier, active and not yet fired, everything else as it is.
    pub open spec fn saved_as(self, id: i64) -> PriceAlertView {
        PriceAlertView { id: Some(id), triggered_at: None, is_active: true, ..self }
    }

    /// The alert after it fired at `now`: no longer active, the time of
    /// firing recorded, everything else as before.
    pub open spec fn triggered(self, now: i64) -> PriceAlertView {
        PriceAlertView { triggered_at: Some(now), is_active: false, ..self }
    }
}

/// One observed price of a symbol at a venue.
#[derive(Debug, Clone)]
pub struct CryptoPrice {
    pub symbol: String,
    pub price: Decimal,
    pub exchange: String,
    pub timestamp: i64,
}

/// The view of a [`CryptoPrice`].
pub struct CryptoPriceView {
    pub symbol: Seq<char>,
    pub price: nat,
    pub exchange: Seq<char>,
    pub timestamp: i64,
}

impl View for CryptoPrice {
    type V = CryptoPriceView;

    open spec fn view(&self) -> CryptoPriceView {
        CryptoPriceView {
            symbol: self.symbol@,
            price: self.price.units(),
            exchange: self.exchange@,
            timestamp: self.timestamp,
        }
    }
}

/// The views of a sequence of samples, in the same order.
pub open spec fn sample_views(samples: Seq<CryptoPrice>) -> Seq<CryptoPriceView> {
    Seq::new(samples.len(), |i: int| samples[i]@)
}

/// The views of a sequence of alerts, in the same order.
pub open spec fn alert_views(alerts: Seq<PriceAlert>) -> Seq<PriceAlertView> {
    Seq::new(alerts.len(), |i: int| alerts[i]@)
}

/// Steps of the wizard for a price alert.
#[derive(Debug, Clone, Copy, PartialEq, Eq, Structural)]
pub enum PriceAlertStep {
    SelectSymbol,
    EnterPrice,
    SelectCondition,
    Confirm,
}

/// Steps of the wizard for a depeg alert.
#[derive(Debug, Clone, Copy, PartialEq, Eq, Structural)]
pub enum DepegAlertStep {
    SelectSymbol,
    EnterTargetPrice,
    EnterDifferential,
    SelectExchanges,
    Confirm,
}

/// Steps of the wizard for a pair alert.
#[derive(Debug, Clone, Copy, PartialEq, Eq, Structural)]
pub enum PairAlertStep {
    SelectToken1,
    SelectToken2,
    EnterRatio,
    EnterDifferential,
    Confirm,
}

/// Where a session stands in a wizard, with the fields collected so far.
#[derive(Debug, Clone)]
#[allow(inconsistent_fields)]
pub enum UserState {
    Idle,
    CreatingPriceAlert {
        step: PriceAlertStep,
        symbol: Option<String>,
        target_price: Option<Decimal>,
        condition: Option<AlertCondition>,
    },
    CreatingDepegAlert {
        step: DepegAlertStep,
        symbol: Option<String>,
        target_price: Option<Decimal>,
        differential: Option<Decimal>,
        exchanges: Option<Vec<String>>,
    },
    CreatingPairAlert {
        step: PairAlertStep,
        token1: Option<String>,
        token2: Option<String>,
        expected_ratio: Option<Decimal>,
        differential: Option<Decimal>,
    },
}

/// The view of a [`UserState`].
#[allow(inconsistent_fields)]
pub enum UserStateView {
    Idle,
    CreatingPriceAlert {
        step: PriceAlertStep,
        symbol: Option<Seq<char>>,
        target_price: Option<nat>,
        condition: Option<AlertCondition>,
    },
    CreatingDepegAlert {
        step: DepegAlertStep,
        symbol: Option<Seq<char>>,
        target_price: Option<nat>,
        differential: Option<nat>,
        exchanges: Option<Seq<Seq<char>>>,
    },
    CreatingPairAlert {
        step: PairAlertStep,
        token1: Option<Seq<char>>,
        token2: Option<Seq<char>>,
        expected_ratio: Option<nat>,
        differential: Option<nat>,
    },
}

/// The view of an optional text.
pub open spec fn text_view(s: Option<String>) -> Option<Seq<char>> {
    match s {
        Some(t) => Some(t@),
        None => None,
    }
}

/// The units of an optional decimal.
pub open spec fn units_view(d: Option<Decimal>) -> Option<nat> {
    match d {
        Some(x) => Some(x.units()),
        None => None,
    }
}

/// The views of an optional list of texts.
pub open spec fn texts_view(l: Option<Vec<String>>) -> Option<Seq<Seq<char>>> {
    match l {
        Some(v) => Some(texts(v@)),
        None => None,
    }
}

impl View for UserState {
    type V = UserStateView;

    open spec fn view(&self) -> UserStateView {
        match *self {
            UserState::Idle => UserStateView::Idle,
            UserState::CreatingPriceAlert {
                step,
                symbol,
                target_price,
                condition,
            } => UserStateView::CreatingPriceAlert {
                step,
                symbol: text_view(symbol),
                target_price: units_view(target_price),
                condition,
            },
            UserState::CreatingDepegAlert {
                step,
                symbol,
                target_price,
                differential,
                exchanges,
            } => UserStateView::CreatingDepegAlert {
                step,
                symbol: text_view(symbol),
                target_price: units_view(target_price),
                differential: units_view(differential),
                exchanges: texts_view(exchanges),
            },
            UserState::CreatingPairAlert {
                step,
                token1,
                token2,
                expected_ratio,
                differential,
            } => UserStateView::CreatingPairAlert {
                step,
                token1: text_view(token1),
                token2: text_view(token2),
                expected_ratio: units_view(expected_ratio),
                differential: units_view(differential),
            },
        }
    }
}

/// Seconds for which a key is good: thirty days.
pub const API_KEY_LIFETIME: i64 = 2_592_000;

impl ApiKey {
    /// A key issued at `now`: active, never used, and good for thirty days,
    /// or without end where the end would lie beyond the last second that
    /// can be counted.
    pub fn issue(id: i64, user_id: i64, key: String, now: i64) -> (issued: ApiKey)
        ensures
            issued.id == id,
            issued.user_id == user_id,
            issued.key@ == key@,
            issued.created_at == now,
            issued.last_used is None,
            issued.is_active,
            issued.expires_at == (if now + API_KEY_LIFETIME <= i64::MAX {
                Some((now + API_KEY_LIFETIME) as i64)
            } else {
                None
            }),
    {
        ApiKey {
            id,
            user_id,
            key,
            created_at: now,
            last_used: None,
            expires_at: now.checked_add(API_KEY_LIFETIME),
            is_active: true,
        }
    }
}

impl PriceAlert {
    /// A new alert: not yet persisted, active, never fired.
    pub fn new(user_id: i64, symbol: String, alert_type: AlertType, created_at: i64) -> (alert:
        PriceAlert)
        ensures
            alert@ == (PriceAlertView {
                id: None,
                user_id,
                symbol: symbol@,
                alert_type: alert_type@,
                created_at,
                triggered_at: None,
                is_active: true,
            }),
    {
        PriceAlert {
            id: None,
            user_id,
            symbol,
            alert_type,
            created_at,
            triggered_at: None,
            is_active: true,
        }
    }

    /// Records that the alert fired at `now`.
    pub fn mark_triggered(&mut self, now: i64)
        ensures
            final(self)@ == old(self)@.triggered(now),
    {
        self.triggered_at = Some(now);
        self.is_active = false;
    }
}

} // verus!
