//! The logic of a small currency converter: the form a user fills in, the
//! request sent to the exchange-rate provider, the reading of its reply and
//! the text shown afterwards. Network access, number parsing and number
//! formatting are left to the program that drives this library.

pub mod display;
pub mod error;
pub mod number;
pub mod provider;
pub mod rates;
pub mod state;
