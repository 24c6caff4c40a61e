//! Client-side access to a key-value store: the decisions of a native
//! binding (status codes, a grow-and-retry lookup, a handle released once)
//! and of a line-oriented socket client (read outcomes, line decoding).
pub mod error;
pub mod database;
pub mod text;
pub mod lookup;
pub mod transport;
