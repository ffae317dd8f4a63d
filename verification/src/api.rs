pub mod terminal;
pub mod transport;

pub use transport::{base_url_from, detect_base_url, envelope_result, truncate_for_log, ws_base};

use vstd::prelude::*;

verus! {

/// What the terminal pane sends down its stream.
#[derive(Debug, Clone)]
pub enum TerminalCommand {
    /// Bytes typed into the terminal.
    Input(Vec<u8>),
    /// A new size, in columns and rows.
    Resize(u16, u16),
}

} // verus!
