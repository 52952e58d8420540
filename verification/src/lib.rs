//! Wagered, multi-round rock-paper-scissors matches between two parties,
//! settled by commit and reveal.
//!
//! The library holds the records (`GlobalState`, `PlayerProfile`, `Game`) as
//! plain values and every transition on them as a verified function. Time and
//! balances come in as arguments; moving value between accounts and storing
//! the records is left to the caller.

pub mod errors;
pub mod identity;
pub mod state;
pub mod commitment;
pub mod utils;
pub mod player_logic;
pub mod admin_logic;
pub mod game_logic;
pub mod laws;
