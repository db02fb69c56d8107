//! Graliffer is an exotic programming language using a two-dimensional grid
//! to hold code and data.
//!
//! The grid is 64 by 64 cells, each holding at most 3 grapheme clusters of
//! text, representing code or data. A head walks the grid, interprets cell
//! contents as opcodes or operands, and works on an operand stack. Every
//! mutation flows through a reversible action system, so a host can offer
//! unlimited undo and redo over both program edits and execution steps.

mod cell;
mod console;
mod direction;
mod error;
mod frame;
mod grid;
mod head;
mod history;
mod opcode;
mod operand;
mod position;
mod stack;
mod state;
pub mod text;
mod word;

pub use cell::{byte_index_from_char_index, cell_text_bounded, deleted_range, inserted_at, Cell};
pub use console::Console;
pub use direction::Direction;
pub use error::GralifferError;
pub use frame::{
    apply_action, apply_opt, lemma_apply_keeps_grid_valid, lemma_undo_for_reverses, step_eval,
    undo_for, Frame, FrameAction, RunDescriptor,
};
pub use grid::{grid_map_valid, grid_text, lemma_grid_view_valid, Grid};
pub use head::Head;
pub use history::{
    history_valid, lemma_artifact_reciprocity, lemma_history_reciprocity,
    lemma_redo_all_congruent, lemma_redo_run_congruent, lemma_undo_run_congruent,
    lemma_valid_from_concat, ra_valid, redo_all, redo_run, undo_all, undo_run, valid_from,
    Artifact, History, ReciprocalAction,
};
pub use opcode::{
    arith_result, bool_text, cmp_result, opcode_body_eval, opcode_eval, opcode_of_chars,
    opcode_of_text, skips_trailing_step, spec_pop, spec_pop_address, spec_pop_bool_default,
    spec_pop_bool_strict, spec_pop_literal, spec_pop_numeric_default, Opcode,
};
pub use operand::{
    bool_of_text, chase, is_address_text, is_pointer_text, num_text, operand_of_text,
    operand_text, resolved_address, resolved_literal, Address, Literal, Operand, OperandModel,
    Pointer, MAX_POINTER_DEPTH,
};
pub use position::{
    axis_char_of, axis_num_of, can_step_by, is_axis_char, lemma_axis_numeric_round_trip,
    lemma_axis_textual_round_trip, lemma_pos_key_injective, lemma_position_of_chars,
    lemma_stepped_by, pos_key, position_of_chars, stepped_by, valid_position, Position,
    PositionAxis,
};
pub use stack::Stack;
pub use state::{obs_eq, FrameState};
pub use word::Word;
