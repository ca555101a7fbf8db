//! The wizard that collects an alert one field at a time.
//!
//! A wizard is a value of [`UserState`] and one function, [`advance_state`],
//! from the state and an input to the next state and an outcome.  An input
//! that does not fit the current step leaves the state as it was and asks
//! again.  The input of the last step yields the finished alert and the state
//! [`UserState::Idle`].  Keeping the state between two inputs is the caller's
//! part.

use crate::config::{CryptoConfig, CryptoConfigView};
use crate::decimal::{parse_units, Decimal, SCALE};
use crate::models::{
    text_view, texts_view, AlertCondition, AlertType, AlertTypeView, DepegAlertStep,
    PairAlertStep, PriceAlert, PriceAlertStep, PriceAlertView, UserState, UserStateView,
};
use crate::store::{AlertStore, StoreError};
use crate::text::{
    clone_texts, find_char, join_with, lowered, position_of, same_text, text_of_range, texts,
    to_chars, to_lower,
};
use vstd::prelude::*;
use vstd::string::*;

verus! {

/// The three wizards.
#[derive(Debug, Clone, Copy, PartialEq, Eq, Structural)]
pub enum WizardKind {
    Price,
    Depeg,
    PairDepeg,
}

/// A step of one of the wizards.
#[derive(Debug, Clone, Copy, PartialEq, Eq, Structural)]
pub enum WizardStep {
    Price(PriceAlertStep),
    Depeg(DepegAlertStep),
    Pair(PairAlertStep),
}

/// Why an input was not taken.
#[derive(Debug, Clone, Copy, PartialEq, Eq, Structural)]
pub enum Rejection {
    /// The symbol is not in the catalogue.
    UnsupportedSymbol,
    /// The pair is not in the catalogue, or the input names no pair.
    UnsupportedPair,
    /// The condition is neither `above` nor `below`.
    UnsupportedCondition,
    /// The input is no decimal number within range.
    InvalidNumber,
    /// The ratio is zero.
    InvalidRatio,
    /// The state lacks a field that an earlier step should have set.
    MissingField,
    /// The state stands at a step that no wizard passes through.
    UnusedStep,
}

/// What an operation of the wizard tells its caller.
#[derive(Debug, Clone)]
pub enum Outcome {
    /// Ask for the input of `step`; `reason` says why the last input was not
    /// taken, if it was not.
    Prompt { step: WizardStep, reason: Option<Rejection> },
    /// The wizard is done and this is the alert.
    Completed(PriceAlert),
    /// The wizard was abandoned.
    Cancelled,
    /// No wizard is running: start one first.
    NotStarted,
}

/// The view of an [`Outcome`].
pub enum OutcomeView {
    Prompt { step: WizardStep, reason: Option<Rejection> },
    Completed(PriceAlertView),
    Cancelled,
    NotStarted,
}

impl View for Outcome {
    type V = OutcomeView;

    open spec fn view(&self) -> OutcomeView {
        match *self {
            Outcome::Prompt { step, reason } => OutcomeView::Prompt { step, reason },
            Outcome::Completed(alert) => OutcomeView::Completed(alert@),
            Outcome::Cancelled => OutcomeView::Cancelled,
            Outcome::NotStarted => OutcomeView::NotStarted,
        }
    }
}

/// The wizard that a word names: `price`, `depeg`, `pair` or `pairdepeg`.
pub open spec fn kind_word(word: Seq<char>) -> Option<WizardKind> {
    if word == "price"@ {
        Some(WizardKind::Price)
    } else if word == "depeg"@ {
        Some(WizardKind::Depeg)
    } else if word == "pair"@ || word == "pairdepeg"@ {
        Some(WizardKind::PairDepeg)
    } else {
        None
    }
}

/// The wizard that a text names: the one that its lower-case form names.
pub open spec fn kind_of(text: Seq<char>) -> Option<WizardKind> {
    kind_word(lowered(text))
}

/// The condition that a word names: `above` or `below`.
pub open spec fn condition_word(word: Seq<char>) -> Option<AlertCondition> {
    if word == "above"@ {
        Some(AlertCondition::Above)
    } else if word == "below"@ {
        Some(AlertCondition::Below)
    } else {
        None
    }
}

/// The condition that a text names: the one that its lower-case form names.
pub open spec fn condition_of(text: Seq<char>) -> Option<AlertCondition> {
    condition_word(lowered(text))
}

/// The venues that a depeg alert watches where the state names none.
pub open spec fn default_sources() -> Seq<Seq<char>> {
    seq!["binance"@, "coinbase"@]
}

/// The state in which a wizard begins: at its first step, no field set.
pub open spec fn initial_state(kind: WizardKind) -> UserStateView {
    match kind {
        WizardKind::Price => UserStateView::CreatingPriceAlert {
            step: PriceAlertStep::SelectSymbol,
            symbol: None,
            target_price: None,
            condition: None,
        },
        WizardKind::Depeg => UserStateView::CreatingDepegAlert {
            step: DepegAlertStep::SelectSymbol,
            symbol: None,
            target_price: None,
            differential: None,
            exchanges: None,
        },
        WizardKind::PairDepeg => UserStateView::CreatingPairAlert {
            step: PairAlertStep::SelectToken1,
            token1: None,
            token2: None,
            expected_ratio: None,
            differential: None,
        },
    }
}

/// The step at which a state stands; `None` for [`UserStateView::Idle`].
pub open spec fn current_step(state: UserStateView) -> Option<WizardStep> {
    match state {
        UserStateView::Idle => None,
        UserStateView::CreatingPriceAlert { step, .. } => Some(WizardStep::Price(step)),
        UserStateView::CreatingDepegAlert { step, .. } => Some(WizardStep::Depeg(step)),
        UserStateView::CreatingPairAlert { step, .. } => Some(WizardStep::Pair(step)),
    }
}

/// Whether an input names a pair: it holds a slash.
pub open spec fn names_pair(input: Seq<char>) -> bool {
    position_of(input, '/') < input.len()
}

/// The token before the first slash of an input.
pub open spec fn first_token(input: Seq<char>) -> Seq<char> {
    input.subrange(0, position_of(input, '/'))
}

/// The token behind the first slash of an input that names a pair.
pub open spec fn second_token(input: Seq<char>) -> Seq<char> {
    input.subrange(position_of(input, '/') + 1, input.len() as int)
}

/// A new alert of `owner`, made at `now`: not persisted, active, never fired.
pub open spec fn new_alert(
    owner: i64,
    symbol: Seq<char>,
    alert_type: AlertTypeView,
    now: i64,
) -> PriceAlertView {
    PriceAlertView {
        id: None,
        user_id: owner,
        symbol,
        alert_type,
        created_at: now,
        triggered_at: None,
        is_active: true,
    }
}

/// The state left as it is, and a prompt for the same step that says why the
/// input was not taken.
pub open spec fn rejected(state: UserStateView, reason: Rejection) -> (UserStateView, OutcomeView) {
    (state, OutcomeView::Prompt { step: current_step(state)->0, reason: Some(reason) })
}

/// The state moved on, and a prompt for its step.
pub open spec fn moved_to(state: UserStateView) -> (UserStateView, OutcomeView) {
    (state, OutcomeView::Prompt { step: current_step(state)->0, reason: None })
}

/// The wizard done: the state idle, the alert handed out.
pub open spec fn completed(alert: PriceAlertView) -> (UserStateView, OutcomeView) {
    (UserStateView::Idle, OutcomeView::Completed(alert))
}

/// One step of the price wizard.
pub open spec fn price_step(
    state: UserStateView,
    input: Seq<char>,
    config: CryptoConfigView,
    owner: i64,
    now: i64,
) -> (UserStateView, OutcomeView)
    recommends
        state is CreatingPriceAlert,
{
    let step = state->CreatingPriceAlert_step;
    let symbol = state->CreatingPriceAlert_symbol;
    let target_price = state->CreatingPriceAlert_target_price;
    let condition = state->CreatingPriceAlert_condition;
    match step {
        PriceAlertStep::SelectSymbol => if config.cryptocurrencies.contains(input) {
            moved_to(
                UserStateView::CreatingPriceAlert {
                    step: PriceAlertStep::EnterPrice,
                    symbol: Some(input),
                    target_price,
                    condition,
                },
            )
        } else {
            rejected(state, Rejection::UnsupportedSymbol)
        },
        PriceAlertStep::EnterPrice => match parse_units(input) {
            Some(price) => moved_to(
                UserStateView::CreatingPriceAlert {
                    step: PriceAlertStep::SelectCondition,
                    symbol,
                    target_price: Some(price),
                    condition,
                },
            ),
            None => rejected(state, Rejection::InvalidNumber),
        },
        PriceAlertStep::SelectCondition => match condition_of(input) {
            Some(chosen) => match (symbol, target_price) {
                (Some(s), Some(t)) => completed(
                    new_alert(
                        owner,
                        s,
                        AlertTypeView::Price { target_price: t, condition: chosen },
                        now,
                    ),
                ),
                _ => rejected(state, Rejection::MissingField),
            },
            None => rejected(state, Rejection::UnsupportedCondition),
        },
        PriceAlertStep::Confirm => rejected(state, Rejection::UnusedStep),
    }
}

/// One step of the depeg wizard.
pub open spec fn depeg_step(
    state: UserStateView,
    input: Seq<char>,
    config: CryptoConfigView,
    owner: i64,
    now: i64,
) -> (UserStateView, OutcomeView)
    recommends
        state is CreatingDepegAlert,
{
    let step = state->CreatingDepegAlert_step;
    let symbol = state->CreatingDepegAlert_symbol;
    let differential = state->CreatingDepegAlert_differential;
    let exchanges = state->CreatingDepegAlert_exchanges;
    match step {
        DepegAlertStep::SelectSymbol => if config.stablecoins.contains(input) {
            moved_to(
                UserStateView::CreatingDepegAlert {
                    step: DepegAlertStep::EnterDifferential,
                    symbol: Some(input),
                    target_price: Some(SCALE as nat),
                    differential,
                    exchanges,
                },
            )
        } else {
            rejected(state, Rejection::UnsupportedSymbol)
        },
        DepegAlertStep::EnterDifferential => match parse_units(input) {
            Some(d) => match symbol {
                Some(s) => completed(
                    new_alert(
                        owner,
                        s,
                        AlertTypeView::Depeg {
                            target_price: SCALE as nat,
                            differential: d,
                            exchanges: match exchanges {
                                Some(list) => list,
                                None => default_sources(),
                            },
                        },
                        now,
                    ),
                ),
                None => rejected(state, Rejection::MissingField),
            },
            None => rejected(state, Rejection::InvalidNumber),
        },
        _ => rejected(state, Rejection::UnusedStep),
    }
}

/// One step of the pair wizard.
pub open spec fn pair_step(
    state: UserStateView,
    input: Seq<char>,
    config: CryptoConfigView,
    owner: i64,
    now: i64,
) -> (UserStateView, OutcomeView)
    recommends
        state is CreatingPairAlert,
{
    let step = state->CreatingPairAlert_step;
    let token1 = state->CreatingPairAlert_token1;
    let token2 = state->CreatingPairAlert_token2;
    let expected_ratio = state->CreatingPairAlert_expected_ratio;
    let differential = state->CreatingPairAlert_differential;
    match step {
        PairAlertStep::SelectToken1 => if names_pair(input) && config.has_pair(
            first_token(input),
            second_token(input),
        ) {
            moved_to(
                UserStateView::CreatingPairAlert {
                    step: PairAlertStep::EnterRatio,
                    token1: Some(first_token(input)),
                    token2: Some(second_token(input)),
                    expected_ratio,
                    differential,
                },
            )
        } else {
            rejected(state, Rejection::UnsupportedPair)
        },
        PairAlertStep::EnterRatio => match parse_units(input) {
            Some(ratio) => if ratio > 0 {
                moved_to(
                    UserStateView::CreatingPairAlert {
                        step: PairAlertStep::EnterDifferential,
                        token1,
                        token2,
                        expected_ratio: Some(ratio),
                        differential,
                    },
                )
            } else {
                rejected(state, Rejection::InvalidRatio)
            },
            None => rejected(state, Rejection::InvalidNumber),
        },
        PairAlertStep::EnterDifferential => match parse_units(input) {
            Some(d) => match (token1, token2, expected_ratio) {
                (Some(a), Some(b), Some(ratio)) => completed(
                    new_alert(
                        owner,
                        a.push('/') + b,
                        AlertTypeView::PairDepeg {
                            token1: a,
                            token2: b,
                            expected_ratio: ratio,
                            differential: d,
                        },
                        now,
                    ),
                ),
                _ => rejected(state, Rejection::MissingField),
            },
            None => rejected(state, Rejection::InvalidNumber),
        },
        _ => rejected(state, Rejection::UnusedStep),
    }
}

/// What an input does to a state: the next state and the outcome.
///
/// An idle state stays idle and the caller is told to start a wizard.  An
/// input that the current step does not take leaves the state unchanged.  An
/// input that it takes sets the field of that step, keeps every other field,
/// and moves to the next step, or, at the last step, yields the alert of
/// `owner` made at `now` and the idle state.
pub open spec fn step(
    state: UserStateView,
    input: Seq<char>,
    config: CryptoConfigView,
    owner: i64,
    now: i64,
) -> (UserStateView, OutcomeView) {
    match state {
        UserStateView::Idle => (UserStateView::Idle, OutcomeView::NotStarted),
        UserStateView::CreatingPriceAlert { .. } => price_step(state, input, config, owner, now),
        UserStateView::CreatingDepegAlert { .. } => depeg_step(state, input, config, owner, now),
        UserStateView::CreatingPairAlert { .. } => pair_step(state, input, config, owner, now),
    }
}

/// A copy of an optional text.
fn copy_text(text: &Option<String>) -> (copy: Option<String>)
    ensures
        text_view(copy) == text_view(*text),
{
    match text {
        Some(t) => Some(t.clone()),
        None => None,
    }
}

/// A copy of an optional list of texts.
fn copy_texts(list: &Option<Vec<String>>) -> (copy: Option<Vec<String>>)
    ensures
        texts_view(copy) == texts_view(*list),
{
    match list {
        Some(l) => Some(clone_texts(l)),
        None => None,
    }
}

impl UserState {
    /// A copy of the state.
    pub fn duplicate(&self) -> (copy: UserState)
        ensures
            copy@ == self@,
    {
        match self {
            UserState::Idle => UserState::Idle,
            UserState::CreatingPriceAlert {
                step,
                symbol,
                target_price,
                condition,
            } => UserState::CreatingPriceAlert {
                step: *step,
                symbol: copy_text(symbol),
                target_price: *target_price,
                condition: *condition,
            },
            UserState::CreatingDepegAlert {
                step,
                symbol,
                target_price,
                differential,
                exchanges,
            } => UserState::CreatingDepegAlert {
                step: *step,
                symbol: copy_text(symbol),
                target_price: *target_price,
                differential: *differential,
                exchanges: copy_texts(exchanges),
            },
            UserState::CreatingPairAlert {
                step,
                token1,
                token2,
                expected_ratio,
                differential,
            } => UserState::CreatingPairAlert {
                step: *step,
                token1: copy_text(token1),
                token2: copy_text(token2),
                expected_ratio: *expected_ratio,
                differential: *differential,
            },
        }
    }

    /// The step at which the state stands; `None` when no wizard is running.
    pub fn step(&self) -> (s: Option<WizardStep>)
        ensures
            s == current_step(self@),
    {
        match self {
            UserState::Idle => None,
            UserState::CreatingPriceAlert { step, .. } => Some(WizardStep::Price(*step)),
            UserState::CreatingDepegAlert { step, .. } => Some(WizardStep::Depeg(*step)),
            UserState::CreatingPairAlert { step, .. } => Some(WizardStep::Pair(*step)),
        }
    }
}

impl WizardKind {
    /// The wizard that a word in lower case names, if it names one.
    pub fn named(word: &str) -> (kind: Option<WizardKind>)
        ensures
            kind == kind_word(word@),
    {
        if same_text(word, "price") {
            Some(WizardKind::Price)
        } else if same_text(word, "depeg") {
            Some(WizardKind::Depeg)
        } else if same_text(word, "pair") || same_text(word, "pairdepeg") {
            Some(WizardKind::PairDepeg)
        } else {
            None
        }
    }

    /// The wizard that a text names, if it names one.
    pub fn from_text(text: &str) -> (kind: Option<WizardKind>)
        ensures
            kind == kind_of(text@),
    {
        let lower = to_lower(text);
        WizardKind::named(lower.as_str())
    }
}

impl AlertCondition {
    /// The condition that a word in lower case names, if it names one.
    pub fn named(word: &str) -> (condition: Option<AlertCondition>)
        ensures
            condition == condition_word(word@),
    {
        if same_text(word, "above") {
            Some(AlertCondition::Above)
        } else if same_text(word, "below") {
            Some(AlertCondition::Below)
        } else {
            None
        }
    }

    /// The condition that a text names, if it names one.
    pub fn from_text(text: &str) -> (condition: Option<AlertCondition>)
        ensures
            condition == condition_of(text@),
    {
        let lower = to_lower(text);
        AlertCondition::named(lower.as_str())
    }
}

/// The rule of a pair alert with the given fields: a ratio of zero is
/// refused, as the wizard refuses it.
pub open spec fn pair_rule(
    token1: Seq<char>,
    token2: Seq<char>,
    expected_ratio: nat,
    differential: nat,
) -> Result<AlertTypeView, Rejection> {
    if expected_ratio == 0 {
        Err(Rejection::InvalidRatio)
    } else {
        Ok(AlertTypeView::PairDepeg { token1, token2, expected_ratio, differential })
    }
}

/// The rule of a pair alert with the given fields, or why there is none.
pub fn pair_alert_type(
    token1: String,
    token2: String,
    expected_ratio: Decimal,
    differential: Decimal,
) -> (r: Result<AlertType, Rejection>)
    ensures
        match r {
            Ok(rule) => Ok::<AlertTypeView, Rejection>(rule@),
            Err(reason) => Err(reason),
        } == pair_rule(token1@, token2@, expected_ratio.units(), differential.units()),
{
    if expected_ratio.to_units() == 0 {
        Err(Rejection::InvalidRatio)
    } else {
        Ok(AlertType::PairDepeg { token1, token2, expected_ratio, differential })
    }
}

/// The venues that a depeg alert watches where the state names none.
pub fn default_source_list() -> (sources: Vec<String>)
    ensures
        texts(sources@) == default_sources(),
{
    let mut sources: Vec<String> = Vec::new();
    sources.push(String::from_str("binance"));
    sources.push(String::from_str("coinbase"));
    proof {
        assert(texts(sources@) =~= default_sources());
    }
    sources
}

/// The state in which the wizard `kind` begins.
pub fn first_state(kind: WizardKind) -> (state: UserState)
    ensures
        state@ == initial_state(kind),
{
    match kind {
        WizardKind::Price => UserState::CreatingPriceAlert {
            step: PriceAlertStep::SelectSymbol,
            symbol: None,
            target_price: None,
            condition: None,
        },
        WizardKind::Depeg => UserState::CreatingDepegAlert {
            step: DepegAlertStep::SelectSymbol,
            symbol: None,
            target_price: None,
            differential: None,
            exchanges: None,
        },
        WizardKind::PairDepeg => UserState::CreatingPairAlert {
            step: PairAlertStep::SelectToken1,
            token1: None,
            token2: None,
            expected_ratio: None,
            differential: None,
        },
    }
}

/// The state unchanged and a prompt that says why the input was not taken.
fn reject(state: &UserState, reason: Rejection) -> (r: (UserState, Outcome))
    requires
        !(state@ is Idle),
    ensures
        (r.0@, r.1@) == rejected(state@, reason),
{
    let step = match state.step() {
        Some(s) => s,
        None => WizardStep::Price(PriceAlertStep::Confirm),
    };
    (state.duplicate(), Outcome::Prompt { step, reason: Some(reason) })
}

/// The state moved on and a prompt for its step.
fn move_to(state: UserState) -> (r: (UserState, Outcome))
    requires
        !(state@ is Idle),
    ensures
        (r.0@, r.1@) == moved_to(state@),
{
    let step = match state.step() {
        Some(s) => s,
        None => WizardStep::Price(PriceAlertStep::Confirm),
    };
    (state, Outcome::Prompt { step, reason: None })
}

/// The wizard done.
fn complete(alert: PriceAlert) -> (r: (UserState, Outcome))
    ensures
        (r.0@, r.1@) == completed(alert@),
{
    (UserState::Idle, Outcome::Completed(alert))
}

/// One step of the price wizard.
fn advance_price(
    state: &UserState,
    input: &str,
    config: &CryptoConfig,
    owner: i64,
    now: i64,
) -> (r: (UserState, Outcome))
    requires
        state@ is CreatingPriceAlert,
    ensures
        (r.0@, r.1@) == price_step(state@, input@, config@, owner, now),
{
    match state {
        UserState::CreatingPriceAlert { step, symbol, target_price, condition } => {
            match step {
                PriceAlertStep::SelectSymbol => {
                    if config.is_supported_symbol(input) {
                        move_to(
                            UserState::CreatingPriceAlert {
                                step: PriceAlertStep::EnterPrice,
                                symbol: Some(String::from_str(input)),
                                target_price: *target_price,
                                condition: *condition,
                            },
                        )
                    } else {
                        reject(state, Rejection::UnsupportedSymbol)
                    }
                },
                PriceAlertStep::EnterPrice => {
                    match Decimal::parse(input) {
                        Some(price) => move_to(
                            UserState::CreatingPriceAlert {
                                step: PriceAlertStep::SelectCondition,
                                symbol: copy_text(symbol),
                                target_price: Some(price),
                                condition: *condition,
                            },
                        ),
                        None => reject(state, Rejection::InvalidNumber),
                    }
                },
                PriceAlertStep::SelectCondition => {
                    match AlertCondition::from_text(input) {
                        Some(chosen) => match (symbol, target_price) {
                            (Some(s), Some(t)) => complete(
                                PriceAlert::new(
                                    owner,
                                    s.clone(),
                                    AlertType::Price { target_price: *t, condition: chosen },
                                    now,
                                ),
                            ),
                            _ => reject(state, Rejection::MissingField),
                        },
                        None => reject(state, Rejection::UnsupportedCondition),
                    }
                },
                PriceAlertStep::Confirm => reject(state, Rejection::UnusedStep),
            }
        },
        _ => (UserState::Idle, Outcome::NotStarted),
    }
}

/// One step of the depeg wizard.
fn advance_depeg(
    state: &UserState,
    input: &str,
    config: &CryptoConfig,
    owner: i64,
    now: i64,
) -> (r: (UserState, Outcome))
    requires
        state@ is CreatingDepegAlert,
    ensures
        (r.0@, r.1@) == depeg_step(state@, input@, config@, owner, now),
{
    match state {
        UserState::CreatingDepegAlert { step, symbol, target_price, differential, exchanges } => {
            match step {
                DepegAlertStep::SelectSymbol => {
                    if config.is_supported_stablecoin(input) {
                        move_to(
                            UserState::CreatingDepegAlert {
                                step: DepegAlertStep::EnterDifferential,
                                symbol: Some(String::from_str(input)),
                                target_price: Some(Decimal::one()),
                                differential: *differential,
                                exchanges: copy_texts(exchanges),
                            },
                        )
                    } else {
                        reject(state, Rejection::UnsupportedSymbol)
                    }
                },
                DepegAlertStep::EnterDifferential => {
                    match Decimal::parse(input) {
                        Some(d) => match symbol {
                            Some(s) => {
                                let sources = match exchanges {
                                    Some(list) => clone_texts(list),
                                    None => default_source_list(),
                                };
                                complete(
                                    PriceAlert::new(
                                        owner,
                                        s.clone(),
                                        AlertType::Depeg {
                                            target_price: Decimal::one(),
                                            differential: d,
                                            exchanges: sources,
                                        },
                                        now,
                                    ),
                                )
                            },
                            None => reject(state, Rejection::MissingField),
                        },
                        None => reject(state, Rejection::InvalidNumber),
                    }
                },
                _ => reject(state, Rejection::UnusedStep),
            }
        },
        _ => (UserState::Idle, Outcome::NotStarted),
    }
}

/// One step of the pair wizard.
fn advance_pair(
    state: &UserState,
    input: &str,
    config: &CryptoConfig,
    owner: i64,
    now: i64,
) -> (r: (UserState, Outcome))
    requires
        state@ is CreatingPairAlert,
    ensures
        (r.0@, r.1@) == pair_step(state@, input@, config@, owner, now),
{
    match state {
        UserState::CreatingPairAlert { step, token1, token2, expected_ratio, differential } => {
            match step {
                PairAlertStep::SelectToken1 => {
                    let chars = to_chars(input);
                    let slash = find_char(&chars, '/');
                    if slash >= chars.len() {
                        return reject(state, Rejection::UnsupportedPair);
                    }
                    let first = text_of_range(&chars, 0, slash);
                    let second = text_of_range(&chars, slash + 1, chars.len());
                    if config.is_supported_pair(first.as_str(), second.as_str()) {
                        move_to(
                            UserState::CreatingPairAlert {
                                step: PairAlertStep::EnterRatio,
                                token1: Some(first),
                                token2: Some(second),
                                expected_ratio: *expected_ratio,
                                differential: *differential,
                            },
                        )
                    } else {
                        reject(state, Rejection::UnsupportedPair)
                    }
                },
                PairAlertStep::EnterRatio => {
                    match Decimal::parse(input) {
                        Some(ratio) => {
                            if ratio.to_units() > 0 {
                                move_to(
                                    UserState::CreatingPairAlert {
                                        step: PairAlertStep::EnterDifferential,
                                        token1: copy_text(token1),
                                        token2: copy_text(token2),
                                        expected_ratio: Some(ratio),
                                        differential: *differential,
                                    },
                                )
                            } else {
                                reject(state, Rejection::InvalidRatio)
                            }
                        },
                        None => reject(state, Rejection::InvalidNumber),
                    }
                },
                PairAlertStep::EnterDifferential => {
                    match Decimal::parse(input) {
                        Some(d) => match (token1, token2, expected_ratio) {
                            (Some(a), Some(b), Some(ratio)) => complete(
                                PriceAlert::new(
                                    owner,
                                    join_with(a.as_str(), '/', b.as_str()),
                                    AlertType::PairDepeg {
                                        token1: a.clone(),
                                        token2: b.clone(),
                                        expected_ratio: *ratio,
                                        differential: d,
                                    },
                                    now,
                                ),
                            ),
                            _ => reject(state, Rejection::MissingField),
                        },
                        None => reject(state, Rejection::InvalidNumber),
                    }
                },
                _ => reject(state, Rejection::UnusedStep),
            }
        },
        _ => (UserState::Idle, Outcome::NotStarted),
    }
}

/// Applies one input to a state: the next state and the outcome, as [`step`]
/// defines them.
pub fn advance_state(
    state: &UserState,
    input: &str,
    config: &CryptoConfig,
    owner: i64,
    now: i64,
) -> (r: (UserState, Outcome))
    ensures
        (r.0@, r.1@) == step(state@, input@, config@, owner, now),
{
    match state {
        UserState::Idle => (UserState::Idle, Outcome::NotStarted),
        UserState::CreatingPriceAlert { .. } => advance_price(state, input, config, owner, now),
        UserState::CreatingDepegAlert { .. } => advance_depeg(state, input, config, owner, now),
        UserState::CreatingPairAlert { .. } => advance_pair(state, input, config, owner, now),
    }
}

/// The first step of a wizard.
pub open spec fn first_step(kind: WizardKind) -> WizardStep {
    match kind {
        WizardKind::Price => WizardStep::Price(PriceAlertStep::SelectSymbol),
        WizardKind::Depeg => WizardStep::Depeg(DepegAlertStep::SelectSymbol),
        WizardKind::PairDepeg => WizardStep::Pair(PairAlertStep::SelectToken1),
    }
}

/// The view of what a wizard operation on a store returns.
pub open spec fn result_view(r: Result<Outcome, StoreError>) -> Result<OutcomeView, StoreError> {
    match r {
        Ok(outcome) => Ok(outcome@),
        Err(e) => Err(e),
    }
}

/// A store after a wizard operation, and what the operation returned.
pub struct Advanced {
    pub alerts: Seq<PriceAlertView>,
    pub sessions: Map<i64, UserStateView>,
    pub result: Result<OutcomeView, StoreError>,
}

/// What an input of `session` does to a store.
///
/// Without a state for the session nothing changes and the caller is told to
/// start a wizard.  Otherwise [`step`] is applied to the state, with the
/// session as the owner of the alert.  An input that is not taken changes
/// nothing.  An input that is taken and leads to another step replaces the
/// state.  The input of the last step saves the alert and removes the state,
/// both or, where the store is full, neither.
pub open spec fn advanced(
    alerts: Seq<PriceAlertView>,
    sessions: Map<i64, UserStateView>,
    session: i64,
    input: Seq<char>,
    config: CryptoConfigView,
    now: i64,
) -> Advanced {
    if !sessions.dom().contains(session) {
        Advanced { alerts, sessions, result: Ok(OutcomeView::NotStarted) }
    } else {
        let (next, outcome) = step(sessions[session], input, config, session, now);
        match outcome {
            OutcomeView::Prompt { reason: None, .. } => Advanced {
                alerts,
                sessions: sessions.insert(session, next),
                result: Ok(outcome),
            },
            OutcomeView::Completed(alert) => if alerts.len() + 1 < i64::MAX {
                let saved = alert.saved_as((alerts.len() + 1) as i64);
                Advanced {
                    alerts: alerts.push(saved),
                    sessions: sessions.remove(session),
                    result: Ok(OutcomeView::Completed(saved)),
                }
            } else {
                Advanced { alerts, sessions, result: Err(StoreError::Full) }
            },
            _ => Advanced { alerts, sessions, result: Ok(outcome) },
        }
    }
}

/// Starts the wizard that `kind` names for `session`, in place of any wizard
/// that was running for it.  A text that names no wizard changes nothing.
pub fn start(store: &mut AlertStore, session: i64, kind: &str) -> (outcome: Outcome)
    ensures
        final(store).alerts() == old(store).alerts(),
        kind_of(kind@) matches Some(k) ==> final(store).sessions() == old(store).sessions().insert(
            session,
            initial_state(k),
        ) && outcome@ == (OutcomeView::Prompt { step: first_step(k), reason: None }),
        kind_of(kind@) is None ==> final(store).sessions() == old(store).sessions() && outcome@
            == OutcomeView::NotStarted,
{
    match WizardKind::from_text(kind) {
        Some(k) => {
            let state = first_state(k);
            let step = match state.step() {
                Some(s) => s,
                None => WizardStep::Price(PriceAlertStep::SelectSymbol),
            };
            store.save_conversation_state(session, state);
            Outcome::Prompt { step, reason: None }
        },
        None => Outcome::NotStarted,
    }
}

/// What the caller of [`decide`] is to do to the store it keeps.
#[derive(Debug, Clone)]
pub enum Effect {
    /// Nothing.
    Nothing,
    /// Make this the state of the session.
    SaveState(UserState),
    /// Save this alert and remove the state of the session: both, or
    /// neither.
    SaveAlert(PriceAlert),
}

/// The view of an [`Effect`].
pub enum EffectView {
    Nothing,
    SaveState(UserStateView),
    SaveAlert(PriceAlertView),
}

impl View for Effect {
    type V = EffectView;

    open spec fn view(&self) -> EffectView {
        match *self {
            Effect::Nothing => EffectView::Nothing,
            Effect::SaveState(state) => EffectView::SaveState(state@),
            Effect::SaveAlert(alert) => EffectView::SaveAlert(alert@),
        }
    }
}

/// The view of an optional state.
pub open spec fn state_view(state: Option<&UserState>) -> Option<UserStateView> {
    match state {
        Some(s) => Some(s@),
        None => None,
    }
}

/// What an input of `session` leads to, given the state that the store holds
/// for the session: what the caller is told, and what is to be done to the
/// store.
///
/// Without a state the caller is told to start a wizard.  Otherwise [`step`]
/// is applied, with the session as the owner of the alert: an input that is
/// not taken leaves the store alone, an input that leads to another step has
/// the new state saved, and the input of the last step has the alert saved
/// and the state removed.
pub open spec fn decided(
    state: Option<UserStateView>,
    input: Seq<char>,
    config: CryptoConfigView,
    session: i64,
    now: i64,
) -> (OutcomeView, EffectView) {
    match state {
        None => (OutcomeView::NotStarted, EffectView::Nothing),
        Some(current) => {
            let (next, outcome) = step(current, input, config, session, now);
            match outcome {
                OutcomeView::Prompt { reason: None, .. } => (outcome, EffectView::SaveState(next)),
                OutcomeView::Completed(alert) => (outcome, EffectView::SaveAlert(alert)),
                _ => (outcome, EffectView::Nothing),
            }
        },
    }
}

/// Decides what an input of `session` leads to, at the time `now`, given the
/// state that the caller's store holds for the session.
pub fn decide(
    state: Option<&UserState>,
    input: &str,
    config: &CryptoConfig,
    session: i64,
    now: i64,
) -> (r: (Outcome, Effect))
    ensures
        (r.0@, r.1@) == decided(state_view(state), input@, config@, session, now),
{
    let current = match state {
        Some(s) => s,
        None => {
            return (Outcome::NotStarted, Effect::Nothing);
        },
    };
    let (next, outcome) = advance_state(current, input, config, session, now);
    match outcome {
        Outcome::Prompt { step, reason } => {
            let effect = if reason.is_none() {
                Effect::SaveState(next)
            } else {
                Effect::Nothing
            };
            (Outcome::Prompt { step, reason }, effect)
        },
        Outcome::Completed(alert) => {
            let copy = alert.duplicate();
            (Outcome::Completed(alert), Effect::SaveAlert(copy))
        },
        Outcome::Cancelled => (Outcome::Cancelled, Effect::Nothing),
        Outcome::NotStarted => (Outcome::NotStarted, Effect::Nothing),
    }
}

/// Applies an input of `session` to its wizard, at the time `now`, as
/// [`advanced`] defines it.
pub fn advance(
    store: &mut AlertStore,
    session: i64,
    input: &str,
    config: &CryptoConfig,
    now: i64,
) -> (r: Result<Outcome, StoreError>)
    ensures
        (Advanced {
            alerts: final(store).alerts(),
            sessions: final(store).sessions(),
            result: result_view(r),
        }) == advanced(old(store).alerts(), old(store).sessions(), session, input@, config@, now),
{
    let state = store.get_conversation_state(session);
    let (outcome, effect) = decide(state.as_ref(), input, config, session, now);
    match effect {
        Effect::Nothing => Ok(outcome),
        Effect::SaveState(next) => {
            store.save_conversation_state(session, next);
            Ok(outcome)
        },
        Effect::SaveAlert(alert) => {
            match store.save_alert(alert) {
                Ok(id) => {
                    store.clear_conversation_state(session);
                    match outcome {
                        Outcome::Completed(unsaved) => {
                            let mut saved = unsaved;
                            saved.id = Some(id);
                            saved.triggered_at = None;
                            saved.is_active = true;
                            Ok(Outcome::Completed(saved))
                        },
                        other => Ok(other),
                    }
                },
                Err(e) => Err(e),
            }
        },
    }
}

/// Abandons the wizard of `session`, if one is running.
pub fn cancel(store: &mut AlertStore, session: i64) -> (outcome: Outcome)
    ensures
        final(store).alerts() == old(store).alerts(),
        final(store).sessions() == old(store).sessions().remove(session),
        outcome@ == OutcomeView::Cancelled,
{
    store.clear_conversation_state(session);
    Outcome::Cancelled
}

/// An input that is not taken leaves the state as it was.
pub proof fn law_rejection_keeps_state(
    state: UserStateView,
    input: Seq<char>,
    config: CryptoConfigView,
    owner: i64,
    now: i64,
)
    ensures
        step(state, input, config, owner, now).1 matches OutcomeView::Prompt { reason: Some(_), .. }
            ==> step(state, input, config, owner, now).0 == state,
{
}

/// A wizard hands out an alert exactly when it ends: the state after the
/// input is idle and the state before it was not.  The alert belongs to
/// `owner`, was made at `now`, is active, has not fired and is not yet
/// persisted.
pub proof fn law_completion(
    state: UserStateView,
    input: Seq<char>,
    config: CryptoConfigView,
    owner: i64,
    now: i64,
)
    ensures
        step(state, input, config, owner, now).1 is Completed <==> !(state is Idle) && step(
            state,
            input,
            config,
            owner,
            now,
        ).0 is Idle,
        step(state, input, config, owner, now).1 matches OutcomeView::Completed(alert) ==> {
            &&& alert.user_id == owner
            &&& alert.created_at == now
            &&& alert.is_active
            &&& alert.triggered_at is None
            &&& alert.id is None
        },
        state is Idle ==> step(state, input, config, owner, now) == (
            UserStateView::Idle,
            OutcomeView::NotStarted,
        ),
{
}

/// A field that was set stays set, with the same value unless the input is
/// the one that sets it, for as long as the wizard runs.
pub proof fn law_fields_survive(
    state: UserStateView,
    input: Seq<char>,
    config: CryptoConfigView,
    owner: i64,
    now: i64,
)
    ensures
        ({
            let next = step(state, input, config, owner, now).0;
            match (state, next) {
                (
                    UserStateView::CreatingPriceAlert { symbol, target_price, condition, .. },
                    UserStateView::CreatingPriceAlert {
                        symbol: symbol2,
                        target_price: target_price2,
                        condition: condition2,
                        ..
                    },
                ) => {
                    &&& symbol is Some ==> symbol2 is Some
                    &&& target_price is Some ==> target_price2 is Some
                    &&& condition is Some ==> condition2 == condition
                },
                (
                    UserStateView::CreatingDepegAlert {
                        symbol,
                        target_price,
                        differential,
                        exchanges,
                        ..
                    },
                    UserStateView::CreatingDepegAlert {
                        symbol: symbol2,
                        target_price: target_price2,
                        differential: differential2,
                        exchanges: exchanges2,
                        ..
                    },
                ) => {
                    &&& symbol is Some ==> symbol2 is Some
                    &&& target_price is Some ==> target_price2 is Some
                    &&& differential is Some ==> differential2 == differential
                    &&& exchanges is Some ==> exchanges2 == exchanges
                },
                (
                    UserStateView::CreatingPairAlert {
                        token1,
                        token2,
                        expected_ratio,
                        differential,
                        ..
                    },
                    UserStateView::CreatingPairAlert {
                        token1: token1b,
                        token2: token2b,
                        expected_ratio: expected_ratio2,
                        differential: differential2,
                        ..
                    },
                ) => {
                    &&& token1 is Some ==> token1b is Some
                    &&& token2 is Some ==> token2b is Some
                    &&& expected_ratio is Some ==> expected_ratio2 is Some
                    &&& differential is Some ==> differential2 == differential
                },
                (_, UserStateView::Idle) => true,
                _ => false,
            }
        }),
{
}

/// The price wizard, given a symbol of the catalogue, a price and a
/// condition, one after the other, ends with the price alert on that symbol,
/// price and condition, and leaves the idle state.
pub proof fn law_price_wizard_completes(
    config: CryptoConfigView,
    symbol: Seq<char>,
    price: Seq<char>,
    condition: Seq<char>,
    owner: i64,
    now: i64,
)
    requires
        config.cryptocurrencies.contains(symbol),
        parse_units(price) is Some,
        condition_of(condition) is Some,
    ensures
        ({
            let first = step(initial_state(WizardKind::Price), symbol, config, owner, now).0;
            let second = step(first, price, config, owner, now).0;
            step(second, condition, config, owner, now) == completed(
                new_alert(
                    owner,
                    symbol,
                    AlertTypeView::Price {
                        target_price: parse_units(price)->0,
                        condition: condition_of(condition)->0,
                    },
                    now,
                ),
            )
        }),
{
}

/// The depeg wizard, given a stablecoin of the catalogue and a
/// differential, ends with the depeg alert on that stablecoin, pegged at
/// one, over the default venues.
pub proof fn law_depeg_wizard_completes(
    config: CryptoConfigView,
    symbol: Seq<char>,
    differential: Seq<char>,
    owner: i64,
    now: i64,
)
    requires
        config.stablecoins.contains(symbol),
        parse_units(differential) is Some,
    ensures
        ({
            let first = step(initial_state(WizardKind::Depeg), symbol, config, owner, now).0;
            step(first, differential, config, owner, now) == completed(
                new_alert(
                    owner,
                    symbol,
                    AlertTypeView::Depeg {
                        target_price: SCALE as nat,
                        differential: parse_units(differential)->0,
                        exchanges: default_sources(),
                    },
                    now,
                ),
            )
        }),
{
}

/// The pair wizard, given a pair of the catalogue, a ratio above zero and a
/// differential, ends with the pair alert on those.
pub proof fn law_pair_wizard_completes(
    config: CryptoConfigView,
    pair: Seq<char>,
    ratio: Seq<char>,
    differential: Seq<char>,
    owner: i64,
    now: i64,
)
    requires
        names_pair(pair),
        config.has_pair(first_token(pair), second_token(pair)),
        parse_units(ratio) is Some,
        parse_units(ratio)->0 > 0,
        parse_units(differential) is Some,
    ensures
        ({
            let first = step(initial_state(WizardKind::PairDepeg), pair, config, owner, now).0;
            let second = step(first, ratio, config, owner, now).0;
            step(second, differential, config, owner, now) == completed(
                new_alert(
                    owner,
                    first_token(pair).push('/') + second_token(pair),
                    AlertTypeView::PairDepeg {
                        token1: first_token(pair),
                        token2: second_token(pair),
                        expected_ratio: parse_units(ratio)->0,
                        differential: parse_units(differential)->0,
                    },
                    now,
                ),
            )
        }),
{
}

} // verus!
