//! A stock-price service core: ticker validation, per-ticker price history,
//! client connection bookkeeping, idle shutdown decisions and the decisions
//! of a price-streaming session. Transport, timers and channels live outside.

pub mod client;
pub mod config;
pub mod error;
pub mod random;
pub mod registry;
pub mod service;
pub mod session;
pub mod shutdown;
pub mod text;
pub mod ticker;
pub mod tracker;
