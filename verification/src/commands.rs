//! Commands written in one line: what the words behind the name of a command
//! ask for.
//!
//! A line is split into words at white space.  Each function reads the words of
//! one command and returns what the command asks for, or why the line is no
//! such command.

use crate::amount::{amount_of, multiply, product_of, read_amount, Amount};
use crate::config::{CryptoConfig, CryptoConfigView};
use crate::decimal::{parse_units, Decimal, MAX_UNITS, SCALE};
use crate::exchanges::{ExchangeCredentials, ExchangeType, OrderSide, OrderType};
use crate::models::{AlertCondition, AlertType, AlertTypeView, PriceAlert, PriceAlertView};
use crate::symbols::{is_valid_pair, trading_pairs};
use crate::text::{
    join_with, lowered, raised, same_text, split_words, texts, to_lower, to_upper, words,
};
use crate::wizard::{condition_of, default_source_list, default_sources, new_alert};
use vstd::prelude::*;

verus! {

/// The least value of an order that is sold, in the currency of the quote.
pub const MIN_ORDER_VALUE: u32 = 10;

/// Why a line is not the command it should be.
#[derive(Debug, Clone, Copy, PartialEq, Eq, Structural)]
pub enum CommandError {
    /// The line has too few or too many words, or asks for help.
    Usage,
    /// The price is no decimal number that can be held.
    InvalidPrice,
    /// The condition is neither `above` nor `below`.
    InvalidCondition,
    /// The differential is no decimal number, or more than a million.
    InvalidThreshold,
    /// The stablecoin is not in the catalogue.
    UnsupportedSymbol,
    /// The pair of tokens is not in the catalogue.
    UnsupportedPair,
    /// The symbol is no trading pair.
    InvalidPair,
    /// The side is neither `buy` nor `sell`.
    InvalidSide,
    /// The kind of order is neither `market` nor `limit`.
    InvalidType,
    /// The quantity is no decimal number.
    InvalidQuantity,
    /// A limit order names no price.
    PriceRequired,
    /// The venue is not `binance`.
    UnsupportedExchange,
}

/// The view of a command that yields an alert.
pub open spec fn command_view(r: Result<PriceAlert, CommandError>) -> Result<
    PriceAlertView,
    CommandError,
> {
    match r {
        Ok(alert) => Ok(alert@),
        Err(e) => Err(e),
    }
}

/// The price alert that a line asks for: of `owner`, made at `now`, on the
/// symbol of the first word in upper case, with the price of the second word
/// as target and the condition of the third.
pub open spec fn alert_command(text: Seq<char>, owner: i64, now: i64) -> Result<
    PriceAlertView,
    CommandError,
> {
    let w = words(text);
    if w.len() != 3 {
        Err(CommandError::Usage)
    } else {
        match parse_units(w[1]) {
            None => Err(CommandError::InvalidPrice),
            Some(target_price) => match condition_of(w[2]) {
                None => Err(CommandError::InvalidCondition),
                Some(condition) => Ok(
                    new_alert(
                        owner,
                        raised(w[0]),
                        AlertTypeView::Price { target_price, condition },
                        now,
                    ),
                ),
            },
        }
    }
}

/// Reads a line of the form `<symbol> <price> <above|below>` as a price alert
/// of `owner`, made at `now`.
pub fn parse_alert_command(text: &str, owner: i64, now: i64) -> (r: Result<PriceAlert, CommandError>)
    ensures
        command_view(r) == alert_command(text@, owner, now),
{
    let list = split_words(text);
    if list.len() != 3 {
        return Err(CommandError::Usage);
    }
    proof {
        assert(texts(list@)[0] == list@[0]@);
        assert(texts(list@)[1] == list@[1]@);
        assert(texts(list@)[2] == list@[2]@);
    }
    let target_price = match Decimal::parse(list[1].as_str()) {
        Some(price) => price,
        None => {
            return Err(CommandError::InvalidPrice);
        },
    };
    let condition = match AlertCondition::from_text(list[2].as_str()) {
        Some(condition) => condition,
        None => {
            return Err(CommandError::InvalidCondition);
        },
    };
    Ok(
        PriceAlert::new(
            owner,
            to_upper(list[0].as_str()),
            AlertType::Price { target_price, condition },
            now,
        ),
    )
}

/// The differential, in percent, that a word gives as a fraction of one: a
/// hundred times the number that the word writes, if that is within range.
pub open spec fn threshold_of(word: Seq<char>) -> Option<nat> {
    match parse_units(word) {
        Some(fraction) => if 100 * fraction <= MAX_UNITS {
            Some(100 * fraction)
        } else {
            None
        },
        None => None,
    }
}

/// The differential, in percent, that a word gives as a fraction of one.
fn read_threshold(word: &str) -> (r: Option<Decimal>)
    ensures
        r is Some <==> threshold_of(word@) is Some,
        r is Some ==> r->0.units() == threshold_of(word@)->0,
{
    match Decimal::parse(word) {
        Some(fraction) => fraction.hundredfold(),
        None => None,
    }
}

/// The depeg alert that a line asks for: of `owner`, made at `now`, on the
/// stablecoin of the first word in upper case, pegged at one, with the
/// differential that the second word gives as a fraction of one, over the
/// default venues.
pub open spec fn depeg_command(
    text: Seq<char>,
    config: CryptoConfigView,
    owner: i64,
    now: i64,
) -> Result<PriceAlertView, CommandError> {
    let w = words(text);
    if w.len() != 2 || w[0] == "help"@ {
        Err(CommandError::Usage)
    } else {
        match threshold_of(w[1]) {
            None => Err(CommandError::InvalidThreshold),
            Some(differential) => if config.stablecoins.contains(raised(w[0])) {
                Ok(
                    new_alert(
                        owner,
                        raised(w[0]),
                        AlertTypeView::Depeg {
                            target_price: SCALE as nat,
                            differential,
                            exchanges: default_sources(),
                        },
                        now,
                    ),
                )
            } else {
                Err(CommandError::UnsupportedSymbol)
            },
        }
    }
}

/// Reads a line of the form `<stablecoin> <differential>`, as in
/// `USDT 0.02` for two percent, as a depeg alert of `owner`, made at `now`.
pub fn parse_depeg_command(text: &str, config: &CryptoConfig, owner: i64, now: i64) -> (r: Result<
    PriceAlert,
    CommandError,
>)
    ensures
        command_view(r) == depeg_command(text@, config@, owner, now),
{
    let list = split_words(text);
    if list.len() != 2 {
        return Err(CommandError::Usage);
    }
    proof {
        assert(texts(list@)[0] == list@[0]@);
        assert(texts(list@)[1] == list@[1]@);
    }
    if same_text(list[0].as_str(), "help") {
        return Err(CommandError::Usage);
    }
    let differential = match read_threshold(list[1].as_str()) {
        Some(d) => d,
        None => {
            return Err(CommandError::InvalidThreshold);
        },
    };
    let symbol = to_upper(list[0].as_str());
    if !config.is_supported_stablecoin(symbol.as_str()) {
        return Err(CommandError::UnsupportedSymbol);
    }
    Ok(
        PriceAlert::new(
            owner,
            symbol,
            AlertType::Depeg {
                target_price: Decimal::one(),
                differential,
                exchanges: default_source_list(),
            },
            now,
        ),
    )
}

/// The pair alert that a line asks for: of `owner`, made at `now`, on the
/// first pair of the catalogue that is made of the tokens of the first two
/// words in upper case, in either order, with the tokens and the ratio as
/// the catalogue has them and the differential that the third word gives as
/// a fraction of one.
pub open spec fn pair_command(
    text: Seq<char>,
    config: CryptoConfigView,
    owner: i64,
    now: i64,
) -> Result<PriceAlertView, CommandError> {
    let w = words(text);
    if w.len() != 3 || w[0] == "help"@ {
        Err(CommandError::Usage)
    } else {
        match threshold_of(w[2]) {
            None => Err(CommandError::InvalidThreshold),
            Some(differential) => match config.pair_index(raised(w[0]), raised(w[1])) {
                Some(i) => Ok(
                    new_alert(
                        owner,
                        config.pairs[i].0.push('/') + config.pairs[i].1,
                        AlertTypeView::PairDepeg {
                            token1: config.pairs[i].0,
                            token2: config.pairs[i].1,
                            expected_ratio: config.pair_ratios[i],
                            differential,
                        },
                        now,
                    ),
                ),
                None => Err(CommandError::UnsupportedPair),
            },
        }
    }
}

/// Reads a line of the form `<token1> <token2> <differential>`, as in
/// `USDT USDC 0.01` for one percent, as a pair alert of `owner`, made at
/// `now`.
pub fn parse_pair_command(text: &str, config: &CryptoConfig, owner: i64, now: i64) -> (r: Result<
    PriceAlert,
    CommandError,
>)
    ensures
        command_view(r) == pair_command(text@, config@, owner, now),
{
    let list = split_words(text);
    if list.len() != 3 {
        return Err(CommandError::Usage);
    }
    proof {
        assert(texts(list@)[0] == list@[0]@);
        assert(texts(list@)[1] == list@[1]@);
        assert(texts(list@)[2] == list@[2]@);
    }
    if same_text(list[0].as_str(), "help") {
        return Err(CommandError::Usage);
    }
    let differential = match read_threshold(list[2].as_str()) {
        Some(d) => d,
        None => {
            return Err(CommandError::InvalidThreshold);
        },
    };
    let first = to_upper(list[0].as_str());
    let second = to_upper(list[1].as_str());
    let index = match config.find_pair(first.as_str(), second.as_str()) {
        Some(i) => i,
        None => {
            return Err(CommandError::UnsupportedPair);
        },
    };
    let info = &config.synthetic_pairs[index].1;
    proof {
        assert(config@.pairs[index as int] == (info.token1@, info.token2@));
        assert(config@.pair_ratios[index as int] == info.expected_ratio.units());
    }
    Ok(
        PriceAlert::new(
            owner,
            join_with(info.token1.as_str(), '/', info.token2.as_str()),
            AlertType::PairDepeg {
                token1: info.token1.clone(),
                token2: info.token2.clone(),
                expected_ratio: info.expected_ratio,
                differential,
            },
            now,
        ),
    )
}

/// An order that a line asks for.
#[derive(Debug, Clone)]
pub struct OrderCommand {
    pub symbol: String,
    pub side: OrderSide,
    pub order_type: OrderType,
    pub quantity: Amount,
    pub price: Option<Amount>,
}

/// The view of an [`OrderCommand`].
pub struct OrderCommandView {
    pub symbol: Seq<char>,
    pub side: OrderSide,
    pub order_type: OrderType,
    pub quantity: Amount,
    pub price: Option<Amount>,
}

impl View for OrderCommand {
    type V = OrderCommandView;

    open spec fn view(&self) -> OrderCommandView {
        OrderCommandView {
            symbol: self.symbol@,
            side: self.side,
            order_type: self.order_type,
            quantity: self.quantity,
            price: self.price,
        }
    }
}

/// The view of a command that yields an order.
pub open spec fn order_view(r: Result<OrderCommand, CommandError>) -> Result<
    OrderCommandView,
    CommandError,
> {
    match r {
        Ok(order) => Ok(order@),
        Err(e) => Err(e),
    }
}

/// The side that a word names: `buy` or `sell`.
pub open spec fn side_word(word: Seq<char>) -> Option<OrderSide> {
    if word == "buy"@ {
        Some(OrderSide::Buy)
    } else if word == "sell"@ {
        Some(OrderSide::Sell)
    } else {
        None
    }
}

/// The side that a text names: the one that its lower-case form names.
pub open spec fn side_named(text: Seq<char>) -> Option<OrderSide> {
    side_word(lowered(text))
}

/// The kind of order that a word names: `market` or `limit`.
pub open spec fn kind_word(word: Seq<char>) -> Option<OrderType> {
    if word == "market"@ {
        Some(OrderType::Market)
    } else if word == "limit"@ {
        Some(OrderType::Limit)
    } else {
        None
    }
}

/// The kind of order that a text names: the one that its lower-case form
/// names.
pub open spec fn kind_named(text: Seq<char>) -> Option<OrderType> {
    kind_word(lowered(text))
}

/// The side that a word in lower case names.
pub fn side_from_word(word: &str) -> (side: Option<OrderSide>)
    ensures
        side == side_word(word@),
{
    if same_text(word, "buy") {
        Some(OrderSide::Buy)
    } else if same_text(word, "sell") {
        Some(OrderSide::Sell)
    } else {
        None
    }
}

/// The kind of order that a word in lower case names.
pub fn kind_from_word(word: &str) -> (kind: Option<OrderType>)
    ensures
        kind == kind_word(word@),
{
    if same_text(word, "market") {
        Some(OrderType::Market)
    } else if same_text(word, "limit") {
        Some(OrderType::Limit)
    } else {
        None
    }
}

/// The side that a text names.
fn read_side(text: &str) -> (side: Option<OrderSide>)
    ensures
        side == side_named(text@),
{
    let lower = to_lower(text);
    side_from_word(lower.as_str())
}

/// The kind of order that a text names.
fn read_kind(text: &str) -> (kind: Option<OrderType>)
    ensures
        kind == kind_named(text@),
{
    let lower = to_lower(text);
    kind_from_word(lower.as_str())
}

/// The order that a line of the form
/// `<symbol> <side> <type> <quantity> [price]` asks for.
///
/// The symbol is taken in upper case and is a trading pair.  A limit order
/// names its price in the fifth word; a market order has no price, whatever
/// follows the quantity.
pub open spec fn order_command(text: Seq<char>) -> Result<OrderCommandView, CommandError> {
    let w = words(text);
    if w.len() < 4 || w[0] == "help"@ {
        Err(CommandError::Usage)
    } else if !trading_pairs().contains(raised(w[0])) {
        Err(CommandError::InvalidPair)
    } else {
        match side_named(w[1]) {
            None => Err(CommandError::InvalidSide),
            Some(side) => match kind_named(w[2]) {
                None => Err(CommandError::InvalidType),
                Some(order_type) => match amount_of(w[3]) {
                    None => Err(CommandError::InvalidQuantity),
                    Some(quantity) => if order_type == OrderType::Limit {
                        if w.len() < 5 {
                            Err(CommandError::PriceRequired)
                        } else {
                            match amount_of(w[4]) {
                                None => Err(CommandError::InvalidPrice),
                                Some(price) => Ok(
                                    OrderCommandView {
                                        symbol: raised(w[0]),
                                        side,
                                        order_type,
                                        quantity,
                                        price: Some(price),
                                    },
                                ),
                            }
                        }
                    } else {
                        Ok(
                            OrderCommandView {
                                symbol: raised(w[0]),
                                side,
                                order_type,
                                quantity,
                                price: None,
                            },
                        )
                    },
                },
            },
        }
    }
}

/// Reads a line of the form `<symbol> <side> <type> <quantity> [price]` as an
/// order.
pub fn parse_order_command(text: &str) -> (r: Result<OrderCommand, CommandError>)
    ensures
        order_view(r) == order_command(text@),
{
    let list = split_words(text);
    if list.len() < 4 {
        return Err(CommandError::Usage);
    }
    proof {
        assert(texts(list@)[0] == list@[0]@);
        assert(texts(list@)[1] == list@[1]@);
        assert(texts(list@)[2] == list@[2]@);
        assert(texts(list@)[3] == list@[3]@);
    }
    if same_text(list[0].as_str(), "help") {
        return Err(CommandError::Usage);
    }
    let symbol = to_upper(list[0].as_str());
    if !is_valid_pair(symbol.as_str()) {
        return Err(CommandError::InvalidPair);
    }
    let side = match read_side(list[1].as_str()) {
        Some(side) => side,
        None => {
            return Err(CommandError::InvalidSide);
        },
    };
    let order_type = match read_kind(list[2].as_str()) {
        Some(kind) => kind,
        None => {
            return Err(CommandError::InvalidType);
        },
    };
    let quantity = match read_amount(list[3].as_str()) {
        Some(quantity) => quantity,
        None => {
            return Err(CommandError::InvalidQuantity);
        },
    };
    let price = match order_type {
        OrderType::Limit => {
            if list.len() < 5 {
                return Err(CommandError::PriceRequired);
            }
            proof {
                assert(texts(list@)[4] == list@[4]@);
            }
            match read_amount(list[4].as_str()) {
                Some(price) => Some(price),
                None => {
                    return Err(CommandError::InvalidPrice);
                },
            }
        },
        _ => None,
    };
    Ok(OrderCommand { symbol, side, order_type, quantity, price })
}

/// The order that a line of the form `<symbol> <quantity> [price]` asks for
/// on the side `side`: a limit order at the price of the third word if that
/// is a price, else a market order.
pub open spec fn trade_command(text: Seq<char>, side: OrderSide) -> Result<
    OrderCommandView,
    CommandError,
> {
    let w = words(text);
    if w.len() < 2 {
        Err(CommandError::Usage)
    } else {
        match amount_of(w[1]) {
            None => Err(CommandError::InvalidQuantity),
            Some(quantity) => {
                let price = if w.len() >= 3 {
                    amount_of(w[2])
                } else {
                    None
                };
                Ok(
                    OrderCommandView {
                        symbol: raised(w[0]),
                        side,
                        order_type: if price is Some {
                            OrderType::Limit
                        } else {
                            OrderType::Market
                        },
                        quantity,
                        price,
                    },
                )
            },
        }
    }
}

/// Reads a line of the form `<symbol> <quantity> [price]` as an order on the
/// side `side`.
pub fn parse_trade_command(text: &str, side: OrderSide) -> (r: Result<OrderCommand, CommandError>)
    ensures
        order_view(r) == trade_command(text@, side),
{
    let list = split_words(text);
    if list.len() < 2 {
        return Err(CommandError::Usage);
    }
    proof {
        assert(texts(list@)[0] == list@[0]@);
        assert(texts(list@)[1] == list@[1]@);
    }
    let quantity = match read_amount(list[1].as_str()) {
        Some(quantity) => quantity,
        None => {
            return Err(CommandError::InvalidQuantity);
        },
    };
    let price = if list.len() >= 3 {
        proof {
            assert(texts(list@)[2] == list@[2]@);
        }
        read_amount(list[2].as_str())
    } else {
        None
    };
    let order_type = match price {
        Some(_) => OrderType::Limit,
        None => OrderType::Market,
    };
    Ok(OrderCommand { symbol: to_upper(list[0].as_str()), side, order_type, quantity, price })
}

/// Whether an order worth `total` is worth less than [`MIN_ORDER_VALUE`] and
/// so too small to be sold.
pub fn is_below_minimum(total: Amount) -> (below: bool)
    ensures
        below == total.below(MIN_ORDER_VALUE as nat),
{
    total.is_below(MIN_ORDER_VALUE)
}

/// Whether an order of `quantity` at `price` is worth less than
/// [`MIN_ORDER_VALUE`] and so too small to be sold; `None` where the product
/// of the two cannot be held.
pub fn below_minimum_value(quantity: Amount, price: Amount) -> (below: Option<bool>)
    ensures
        below == match product_of(quantity, price) {
            Some(total) => Some(total.below(MIN_ORDER_VALUE as nat)),
            None => None,
        },
{
    match multiply(quantity, price) {
        Some(total) => Some(is_below_minimum(total)),
        None => None,
    }
}

/// The venue and the credentials that a line of the form
/// `binance <api_key> <api_secret>` gives.
pub open spec fn connect_command(text: Seq<char>) -> Result<
    (ExchangeType, Seq<char>, Seq<char>),
    CommandError,
> {
    let w = words(text);
    if w.len() == 0 || lowered(w[0]) != "binance"@ {
        Err(CommandError::UnsupportedExchange)
    } else if w.len() != 3 {
        Err(CommandError::Usage)
    } else {
        Ok((ExchangeType::Binance, w[1], w[2]))
    }
}

/// The view of a parsed connection line.
pub open spec fn connect_view(r: Result<(ExchangeType, ExchangeCredentials), CommandError>) -> Result<
    (ExchangeType, Seq<char>, Seq<char>),
    CommandError,
> {
    match r {
        Ok((exchange, credentials)) => Ok((exchange, credentials.api_key@, credentials.api_secret@)),
        Err(e) => Err(e),
    }
}

/// Reads a line of the form `binance <api_key> <api_secret>`.
pub fn parse_connect_command(text: &str) -> (r: Result<
    (ExchangeType, ExchangeCredentials),
    CommandError,
>)
    ensures
        connect_view(r) == connect_command(text@),
{
    let list = split_words(text);
    if list.len() == 0 {
        return Err(CommandError::UnsupportedExchange);
    }
    proof {
        assert(texts(list@)[0] == list@[0]@);
    }
    let venue = to_lower(list[0].as_str());
    if !same_text(venue.as_str(), "binance") {
        return Err(CommandError::UnsupportedExchange);
    }
    if list.len() != 3 {
        return Err(CommandError::Usage);
    }
    proof {
        assert(texts(list@)[1] == list@[1]@);
        assert(texts(list@)[2] == list@[2]@);
    }
    Ok(
        (
            ExchangeType::Binance,
            ExchangeCredentials { api_key: list[1].clone(), api_secret: list[2].clone() },
        ),
    )
}

/// The trading pair, in upper case, and the order that a line of the form
/// `<symbol> <order_id>` names.
pub open spec fn cancel_command(text: Seq<char>) -> Result<(Seq<char>, Seq<char>), CommandError> {
    let w = words(text);
    if w.len() != 2 {
        Err(CommandError::Usage)
    } else {
        Ok((raised(w[0]), w[1]))
    }
}

/// The view of a parsed cancellation line.
pub open spec fn cancel_view(r: Result<(String, String), CommandError>) -> Result<
    (Seq<char>, Seq<char>),
    CommandError,
> {
    match r {
        Ok((symbol, order)) => Ok((symbol@, order@)),
        Err(e) => Err(e),
    }
}

/// Reads a line of the form `<symbol> <order_id>`.
pub fn parse_cancel_command(text: &str) -> (r: Result<(String, String), CommandError>)
    ensures
        cancel_view(r) == cancel_command(text@),
{
    let list = split_words(text);
    if list.len() != 2 {
        return Err(CommandError::Usage);
    }
    proof {
        assert(texts(list@)[0] == list@[0]@);
        assert(texts(list@)[1] == list@[1]@);
    }
    Ok((to_upper(list[0].as_str()), list[1].clone()))
}

} // verus!
