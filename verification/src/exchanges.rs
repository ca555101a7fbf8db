//! Venues and orders: the names under which a venue, the side, the kind and
//! the state of an order go over the wire, and the errors of a venue.

use crate::text::{lowered, same_text, to_lower};
use vstd::prelude::*;
use vstd::string::*;

verus! {

/// What went wrong at a venue.
#[derive(Debug, Clone)]
pub enum ExchangeError {
    Network(String),
    Api(String),
    Exchange(String),
    ParseError(String),
    Authentication(String),
    RateLimit(String),
    Format(String),
    AssetNotFound(String),
    InsufficientFunds,
    MissingCredentials(String),
    NotFound(String),
}

/// The view of an [`ExchangeError`].
pub enum ExchangeErrorView {
    Network(Seq<char>),
    Api(Seq<char>),
    Exchange(Seq<char>),
    ParseError(Seq<char>),
    Authentication(Seq<char>),
    RateLimit(Seq<char>),
    Format(Seq<char>),
    AssetNotFound(Seq<char>),
    InsufficientFunds,
    MissingCredentials(Seq<char>),
    NotFound(Seq<char>),
}

impl View for ExchangeError {
    type V = ExchangeErrorView;

    open spec fn view(&self) -> ExchangeErrorView {
        match *self {
            ExchangeError::Network(m) => ExchangeErrorView::Network(m@),
            ExchangeError::Api(m) => ExchangeErrorView::Api(m@),
            ExchangeError::Exchange(m) => ExchangeErrorView::Exchange(m@),
            ExchangeError::ParseError(m) => ExchangeErrorView::ParseError(m@),
            ExchangeError::Authentication(m) => ExchangeErrorView::Authentication(m@),
            ExchangeError::RateLimit(m) => ExchangeErrorView::RateLimit(m@),
            ExchangeError::Format(m) => ExchangeErrorView::Format(m@),
            ExchangeError::AssetNotFound(m) => ExchangeErrorView::AssetNotFound(m@),
            ExchangeError::InsufficientFunds => ExchangeErrorView::InsufficientFunds,
            ExchangeError::MissingCredentials(m) => ExchangeErrorView::MissingCredentials(m@),
            ExchangeError::NotFound(m) => ExchangeErrorView::NotFound(m@),
        }
    }
}

/// How an error is shown: what kind of error it is, then its own words.
pub open spec fn error_text(error: ExchangeErrorView) -> Seq<char> {
    match error {
        ExchangeErrorView::Network(m) => "Error de red: "@ + m,
        ExchangeErrorView::Api(m) => "Error de API: "@ + m,
        ExchangeErrorView::Exchange(m) => "Error del exchange: "@ + m,
        ExchangeErrorView::ParseError(m) => "Error de parseo: "@ + m,
        ExchangeErrorView::Authentication(m) => "Error de autenticación: "@ + m,
        ExchangeErrorView::RateLimit(m) => "Error de límite de tasa: "@ + m,
        ExchangeErrorView::Format(m) => "Error de formato: "@ + m,
        ExchangeErrorView::AssetNotFound(m) => "Asset no encontrado: "@ + m,
        ExchangeErrorView::InsufficientFunds => "Fondos insuficientes"@,
        ExchangeErrorView::MissingCredentials(m) => "Credenciales faltantes: "@ + m,
        ExchangeErrorView::NotFound(m) => "No encontrado: "@ + m,
    }
}

impl ExchangeError {
    /// The error as text.
    pub fn message(&self) -> (text: String)
        ensures
            text@ == error_text(self@),
    {
        match self {
            ExchangeError::Network(m) => String::from_str("Error de red: ").concat(m.as_str()),
            ExchangeError::Api(m) => String::from_str("Error de API: ").concat(m.as_str()),
            ExchangeError::Exchange(m) => String::from_str("Error del exchange: ").concat(
                m.as_str(),
            ),
            ExchangeError::ParseError(m) => String::from_str("Error de parseo: ").concat(
                m.as_str(),
            ),
            ExchangeError::Authentication(m) => String::from_str("Error de autenticación: ").concat(
                m.as_str(),
            ),
            ExchangeError::RateLimit(m) => String::from_str("Error de límite de tasa: ").concat(
                m.as_str(),
            ),
            ExchangeError::Format(m) => String::from_str("Error de formato: ").concat(m.as_str()),
            ExchangeError::AssetNotFound(m) => String::from_str("Asset no encontrado: ").concat(
                m.as_str(),
            ),
            ExchangeError::InsufficientFunds => String::from_str("Fondos insuficientes"),
            ExchangeError::MissingCredentials(m) => String::from_str(
                "Credenciales faltantes: ",
            ).concat(m.as_str()),
            ExchangeError::NotFound(m) => String::from_str("No encontrado: ").concat(m.as_str()),
        }
    }
}

/// The venues at which orders can be placed.
#[derive(Debug, Clone, Copy, PartialEq, Eq, Hash, Structural)]
pub enum ExchangeType {
    Binance,
}

impl ExchangeType {
    /// The name of the venue.
    pub fn name(&self) -> (name: &'static str)
        ensures
            name@ == "binance"@,
    {
        "binance"
    }

    /// The venue that a word in lower case names.
    pub fn named(word: &str) -> (r: Result<ExchangeType, ExchangeError>)
        ensures
            word@ == "binance"@ ==> r == Ok::<ExchangeType, ExchangeError>(ExchangeType::Binance),
            word@ != "binance"@ ==> r is Err && r->Err_0@ == ExchangeErrorView::Exchange(
                "Exchange no soportado"@,
            ),
    {
        if same_text(word, "binance") {
            Ok(ExchangeType::Binance)
        } else {
            Err(ExchangeError::Exchange(String::from_str("Exchange no soportado")))
        }
    }

    /// The venue that a text names, whatever the case of its letters.
    pub fn from_text(text: &str) -> (r: Result<ExchangeType, ExchangeError>)
        ensures
            lowered(text@) == "binance"@ ==> r == Ok::<ExchangeType, ExchangeError>(
                ExchangeType::Binance,
            ),
            lowered(text@) != "binance"@ ==> r is Err && r->Err_0@ == ExchangeErrorView::Exchange(
                "Exchange no soportado"@,
            ),
    {
        let lower = to_lower(text);
        ExchangeType::named(lower.as_str())
    }
}

/// The key and the secret with which a venue is called.
#[derive(Debug, Clone)]
pub struct ExchangeCredentials {
    pub api_key: String,
    pub api_secret: String,
}

/// Whether an order buys or sells.
#[derive(Debug, Clone, Copy, PartialEq, Eq, Structural)]
pub enum OrderSide {
    Buy,
    Sell,
}

/// The kind of an order.
#[derive(Debug, Clone, Copy, PartialEq, Eq, Structural)]
pub enum OrderType {
    Market,
    Limit,
    StopLoss,
    StopLossLimit,
    TakeProfit,
    TakeProfitLimit,
}

/// The state of an order.
#[derive(Debug, Clone, Copy, PartialEq, Eq, Structural)]
pub enum OrderStatus {
    New,
    PartiallyFilled,
    Filled,
    Canceled,
    Rejected,
    Expired,
}

/// The word under which a side goes over the wire.
pub open spec fn side_word(side: OrderSide) -> Seq<char> {
    match side {
        OrderSide::Buy => "BUY"@,
        OrderSide::Sell => "SELL"@,
    }
}

/// The side that a word from the wire names.
pub open spec fn side_of(name: Seq<char>) -> Option<OrderSide> {
    if name == "BUY"@ {
        Some(OrderSide::Buy)
    } else if name == "SELL"@ {
        Some(OrderSide::Sell)
    } else {
        None
    }
}

/// The word under which a kind of order goes over the wire.
pub open spec fn kind_name(order_type: OrderType) -> Seq<char> {
    match order_type {
        OrderType::Market => "MARKET"@,
        OrderType::Limit => "LIMIT"@,
        OrderType::StopLoss => "STOP_LOSS"@,
        OrderType::StopLossLimit => "STOP_LOSS_LIMIT"@,
        OrderType::TakeProfit => "TAKE_PROFIT"@,
        OrderType::TakeProfitLimit => "TAKE_PROFIT_LIMIT"@,
    }
}

/// The kind of order that a word from the wire names.
pub open spec fn kind_of_order(name: Seq<char>) -> Option<OrderType> {
    if name == "MARKET"@ {
        Some(OrderType::Market)
    } else if name == "LIMIT"@ {
        Some(OrderType::Limit)
    } else if name == "STOP_LOSS"@ {
        Some(OrderType::StopLoss)
    } else if name == "STOP_LOSS_LIMIT"@ {
        Some(OrderType::StopLossLimit)
    } else if name == "TAKE_PROFIT"@ {
        Some(OrderType::TakeProfit)
    } else if name == "TAKE_PROFIT_LIMIT"@ {
        Some(OrderType::TakeProfitLimit)
    } else {
        None
    }
}

/// The state that a word from the wire names; an unknown word counts as
/// cancelled.
pub open spec fn status_of(name: Seq<char>) -> OrderStatus {
    if name == "NEW"@ {
        OrderStatus::New
    } else if name == "PARTIALLY_FILLED"@ {
        OrderStatus::PartiallyFilled
    } else if name == "FILLED"@ {
        OrderStatus::Filled
    } else {
        OrderStatus::Canceled
    }
}

impl OrderSide {
    /// The word under which the side goes over the wire.
    pub fn wire_name(&self) -> (name: &'static str)
        ensures
            name@ == side_word(*self),
    {
        match self {
            OrderSide::Buy => "BUY",
            OrderSide::Sell => "SELL",
        }
    }

    /// The side that a word from the wire names, or the error that says it
    /// names none.
    pub fn from_wire(name: &str) -> (r: Result<OrderSide, ExchangeError>)
        ensures
            side_of(name@) matches Some(side) ==> r == Ok::<OrderSide, ExchangeError>(side),
            side_of(name@) is None ==> r is Err && r->Err_0@ == ExchangeErrorView::Exchange(
                "Invalid order side"@,
            ),
    {
        if same_text(name, "BUY") {
            Ok(OrderSide::Buy)
        } else if same_text(name, "SELL") {
            Ok(OrderSide::Sell)
        } else {
            Err(ExchangeError::Exchange(String::from_str("Invalid order side")))
        }
    }
}

impl OrderType {
    /// The word under which the kind goes over the wire.
    pub fn wire_name(&self) -> (name: &'static str)
        ensures
            name@ == kind_name(*self),
    {
        match self {
            OrderType::Market => "MARKET",
            OrderType::Limit => "LIMIT",
            OrderType::StopLoss => "STOP_LOSS",
            OrderType::StopLossLimit => "STOP_LOSS_LIMIT",
            OrderType::TakeProfit => "TAKE_PROFIT",
            OrderType::TakeProfitLimit => "TAKE_PROFIT_LIMIT",
        }
    }

    /// The kind that a word from the wire names, or the error that says it
    /// names none.
    pub fn from_wire(name: &str) -> (r: Result<OrderType, ExchangeError>)
        ensures
            kind_of_order(name@) matches Some(t) ==> r == Ok::<OrderType, ExchangeError>(t),
            kind_of_order(name@) is None ==> r is Err && r->Err_0@ == ExchangeErrorView::Exchange(
                "Invalid order type"@,
            ),
    {
        if same_text(name, "MARKET") {
            Ok(OrderType::Market)
        } else if same_text(name, "LIMIT") {
            Ok(OrderType::Limit)
        } else if same_text(name, "STOP_LOSS") {
            Ok(OrderType::StopLoss)
        } else if same_text(name, "STOP_LOSS_LIMIT") {
            Ok(OrderType::StopLossLimit)
        } else if same_text(name, "TAKE_PROFIT") {
            Ok(OrderType::TakeProfit)
        } else if same_text(name, "TAKE_PROFIT_LIMIT") {
            Ok(OrderType::TakeProfitLimit)
        } else {
            Err(ExchangeError::Exchange(String::from_str("Invalid order type")))
        }
    }
}

impl OrderStatus {
    /// The state that a word from the wire names.
    pub fn from_wire(name: &str) -> (status: OrderStatus)
        ensures
            status == status_of(name@),
    {
        if same_text(name, "NEW") {
            OrderStatus::New
        } else if same_text(name, "PARTIALLY_FILLED") {
            OrderStatus::PartiallyFilled
        } else if same_text(name, "FILLED") {
            OrderStatus::Filled
        } else {
            OrderStatus::Canceled
        }
    }
}

} // verus!
