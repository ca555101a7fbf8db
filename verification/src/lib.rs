//! Price-watch alerts on crypto assets.
//!
//! An alert watches the price of a symbol, the peg of a stablecoin over
//! several venues, or the ratio of two prices.  This crate holds the rules:
//!
//! - [`models`]: users, alerts, price samples and the state of a wizard;
//! - [`decimal`]: the exact decimals in which prices are held;
//! - [`amount`]: the quantities and prices of orders;
//! - [`wizard`]: the wizard that collects an alert one field at a time;
//! - [`evaluator`]: the decision whether an alert fires on the prices
//!   gathered for it;
//! - [`monitor`]: the decisions of one monitoring cycle, which asks for
//!   prices, notifies the owners of the alerts that fire and has them marked;
//! - [`store`]: a store of alerts and wizard states in memory;
//! - [`commands`]: alerts and orders written in one line;
//! - [`config`], [`symbols`], [`exchanges`], [`timer`], [`text`]: the
//!   catalogue, the trading pairs, the words of the venues, and helpers.
//!
//! What functions return and change is stated in their contracts and proved.
//! Nothing here reads a file, the network, the environment or the clock:
//! the caller hands the time over.

pub mod amount;
pub mod commands;
pub mod config;
pub mod decimal;
pub mod evaluator;
pub mod exchanges;
pub mod models;
pub mod monitor;
pub mod store;
pub mod symbols;
pub mod text;
pub mod timer;
pub mod wizard;
