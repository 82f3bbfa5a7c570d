//! Search logic of a radio-station browser: how a search string becomes a
//! directory query, which of the fetched stations are kept, and what is handed
//! to the user interface.
//!
//! Everything here works on plain values. Talking to the directory service and
//! to the user interface is left to the program built around this library.

pub mod text;
pub mod record;
pub mod filter;
pub mod query;
pub mod command;
