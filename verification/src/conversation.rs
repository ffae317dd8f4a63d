pub mod anchor;
pub mod history;
pub mod markdown;
pub mod order;
pub mod render;
pub mod wrap;

pub use history::{initial_conversation_process_ids, process_prompt};
pub use wrap::chat_window_bounds;
pub mod state;
