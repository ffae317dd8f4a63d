pub mod actions;
pub mod buffer;
pub mod keys;
pub mod normal;
pub mod render;
pub mod vim;

pub use actions::{apply_text_edit_action, TextEditAction};
pub use buffer::{
    byte_index_for_column, clamp_char_boundary, cursor_column, line_end_index, line_start_index,
    move_cursor_vertical, next_char_boundary, prev_char_boundary,
};
pub use normal::{handle_vim_normal_key, VimKeyOutcome, VimStatus};
pub use vim::{next_word_start, prev_word_start, ComposerEditorMode, VimMode, VimOperator};
