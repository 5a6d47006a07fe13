//! Rules engine of a two-player chess game: move legality, move resolution,
//! turn bookkeeping, captured-piece accounting and position export.

pub mod fen;
pub mod laws;
pub mod ledger;
pub mod model;
pub mod resolver;
pub mod rules;
pub mod start;
pub mod ui;

pub use fen::{board_grid, export_position, to_fen};
pub use ledger::{sort_captured, CapturedLedger};
pub use model::{Piece, PieceColor, PieceType, Square, Turn};
pub use resolver::{game_winner, promoted_kind, resolve_move, select_piece, MoveOutcome, MoveReport};
pub use rules::{color_of_piece, is_path_empty};
pub use start::{starting_kind, starting_pieces};
pub use ui::{turn_label, update_enable_ai_button_ui, AIEnabled, ButtonInteraction, ButtonShade, ButtonUpdate};
