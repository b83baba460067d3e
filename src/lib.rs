//! A terminal notes manager's core: the interaction state machine, the
//! directory lister, the fuzzy filter and the text helpers behind them,
//! each stated and proved with Verus.

pub mod cursor;
pub mod text;
pub mod listing;
pub mod fuzzy;
pub mod markdown;
pub mod mode;
pub mod theme;
pub mod config;
pub mod state;
