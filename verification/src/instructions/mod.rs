//! One module per instruction: its accounts, as the data the handler reads,
//! and the handler.

pub mod close_table;
pub mod initialize;
pub mod open_table;
pub mod place_bet;
pub mod refund_bet;
pub mod resolve_bet;
pub mod reveal_marker;

pub use close_table::CloseTable;
pub use initialize::Initialize;
pub use open_table::{OpenTable, OpenTableBumps};
pub use place_bet::{PlaceBet, PlaceBetBumps};
pub use refund_bet::{RefundBet, RefundBetBumps};
pub use resolve_bet::{ResolveBet, ResolveBetBumps, SysvarAccount};
pub use reveal_marker::Reveal;
