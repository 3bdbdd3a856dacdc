//! A verified bridge between an embedded script interpreter and an
//! immediate-mode UI: script values, shared borrow-checked cells, frame-scoped
//! drawing contexts and the per-frame dispatcher.

mod bridge;
mod cell;
mod dispatch;
mod frame;
mod surface;

pub use bridge::{
    display_text, label_text, text_of, ConversionError, ScriptConvert, ScriptVal, ScriptValue,
    PLACEHOLDER,
};
pub use cell::{
    change_of, lemma_borrow_exclusive, lemma_change_precision, lemma_round_trip, let_go, reported, lemma_second_write_refused, live, read_borrow,
    read_value, released, with_borrow, write_borrow, write_value, BorrowConflict, BorrowState,
    CellError, CellState, CellStore, Change, Ref,
};
pub use dispatch::{
    begun, ended, frame_step, invalidated, is_current, lemma_context_expires, lemma_error_kept,
    lemma_error_persists, lemma_invalidate_idempotent, lemma_stale_context_stays_stale, planned,
    run_frames, Fallback, Vapo, VapoState, ERROR_BANNER, QUIT_LABEL,
};
pub use frame::{GUIData, OutOfContext};
