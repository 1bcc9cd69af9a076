//! Personal bookkeeping: transactions in several currencies, restated in a
//! base currency, filtered, summed and ranked. Amounts are whole numbers of
//! hundredths and rates whole numbers of millionths, so that every sum is
//! exact.

pub mod amount;
pub mod amount_converter;
pub mod calculator;
pub mod calendar;
pub mod chart;
pub mod commands;
pub mod currency;
pub mod date;
pub mod decimal;
pub mod display;
pub mod duplicate_check;
pub mod error;
pub mod exchange_rate;
pub mod file;
pub mod file_reader;
pub mod filter;
pub mod import;
pub mod invoice;
pub mod invoice_type;
pub mod month;
pub mod notes;
pub mod numbers;
pub mod patterns;
pub mod persistence;
pub mod ranking;
pub mod rate_map;
pub mod rate_provider;
pub mod request;
pub mod rounding;
pub mod stable_sort;
pub mod text;
pub mod transaction;
pub mod transaction_parser;
pub mod transaction_type;
pub mod verbosity;
pub mod wizard;
