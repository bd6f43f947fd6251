//! The core of a small terminal text editor: a grapheme-aware text model,
//! a read-only document, and the cursor, scrolling and screen-layout rules
//! of the editor; beside it, the pieces, squares and move notation of chess.
pub mod chess;
mod document;
mod editor;
mod row;
mod text;

pub use chess::board::Board;
pub use chess::game::{Game, Point};
pub use chess::notation::Notation;
pub use chess::piece::{Color, Kind, Piece};
pub use chess::square::{File, Rank, Square};
pub use document::Document;
pub use editor::{
    after_keys, cursor_in_document, cursor_in_view, goto_coordinates, goto_of, lemma_moves_stay_in_document, lemma_reachable_in_document,
    lemma_scroll_shows_cursor, lemma_wrap_between_rows, moved, name_shown, screen_line, scrolled,
    status_line, target, welcome, Editor, Key, Position, Size, FILE_NAME_WIDTH,
    MESSAGE_TIMEOUT_MS, QUIT_CHORD, STATUS_LINE_HEIGHT,
};
pub use row::{
    cell_of, clamped_end, clamped_start, graphemes_of, lemma_render_width, render_clusters, rendered, visible_cells,
    Row,
};
pub use text::{decimal, decimal_string, prefix, prefix_string, space_string, spaces};
