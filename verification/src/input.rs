pub mod editor;
pub mod keys;
pub mod keymap;
pub mod navigation;
pub mod terminal;

pub use editor::{map_text_input_key, TextInputEvent, TextInputOptions};

pub use keys::{KeyCode, KeyEvent, KeyEventKind, KeyModifiers};
pub use navigation::{next_focus, prev_focus};

pub use keymap::{map_app_key, AppIntent};
pub use terminal::{map_terminal_key, TerminalInput};
