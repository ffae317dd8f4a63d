//! Keys pressed while typing into the embedded terminal: which bytes each
//! one sends, or whether it leaves terminal input mode.
use vstd::prelude::*;

use crate::input::keys::{KeyCode, KeyEvent};
use crate::text::string_of;

verus! {

#[derive(Debug, Clone, PartialEq, Eq)]
pub enum TerminalInput {
    ExitInputMode,
    SendBytes(Vec<u8>),
}

/// The terminal key table, as `None` (key ignored), `Some(None)` (leave
/// terminal input mode) or `Some(Some(bytes))` (send these bytes). Escape,
/// control-] and control-g leave; enter, backspace, tab and the arrows send
/// their terminal codes; a control char sends its control code (the low five
/// bits); any other char sends its UTF-8 encoding.
pub open spec fn terminal_response(key: KeyEvent) -> Option<Option<Seq<u8>>> {
    match key.code {
        KeyCode::Esc => Some(None),
        KeyCode::Enter => Some(Some(seq![13u8])),
        KeyCode::Backspace => Some(Some(seq![0x7fu8])),
        KeyCode::Tab => Some(Some(seq![9u8])),
        KeyCode::Left => Some(Some(seq![0x1bu8, 0x5bu8, 0x44u8])),
        KeyCode::Right => Some(Some(seq![0x1bu8, 0x5bu8, 0x43u8])),
        KeyCode::Up => Some(Some(seq![0x1bu8, 0x5bu8, 0x41u8])),
        KeyCode::Down => Some(Some(seq![0x1bu8, 0x5bu8, 0x42u8])),
        KeyCode::Char(ch) => if key.modifiers.control {
            if ch == ']' || ch == 'g' {
                Some(None)
            } else {
                Some(Some(seq![((ch as u32) & 0x1f) as u8]))
            }
        } else {
            Some(Some(vstd::utf8::encode_utf8(seq![ch])))
        },
        _ => None,
    }
}

fn send(bytes: Vec<u8>) -> (r: Option<TerminalInput>)
    ensures
        r == Some(TerminalInput::SendBytes(bytes)),
{
    Some(TerminalInput::SendBytes(bytes))
}

/// Maps a key press in terminal input mode to what it does, if anything.
pub fn map_terminal_key(key: KeyEvent) -> (r: Option<TerminalInput>)
    ensures
        match terminal_response(key) {
            None => r is None,
            Some(None) => r == Some(TerminalInput::ExitInputMode),
            Some(Some(bytes)) => r matches Some(TerminalInput::SendBytes(b)) && b@ == bytes,
        },
{
    match key.code {
        KeyCode::Esc => Some(TerminalInput::ExitInputMode),
        KeyCode::Enter => send(vec![13u8]),
        KeyCode::Backspace => send(vec![0x7fu8]),
        KeyCode::Tab => send(vec![9u8]),
        KeyCode::Left => send(vec![0x1bu8, 0x5bu8, 0x44u8]),
        KeyCode::Right => send(vec![0x1bu8, 0x5bu8, 0x43u8]),
        KeyCode::Up => send(vec![0x1bu8, 0x5bu8, 0x41u8]),
        KeyCode::Down => send(vec![0x1bu8, 0x5bu8, 0x42u8]),
        KeyCode::Char(ch) => {
            if key.modifiers.control {
                if ch == ']' || ch == 'g' {
                    Some(TerminalInput::ExitInputMode)
                } else {
                    let code = ch as u32;
                    send(vec![(code & 0x1f) as u8])
                }
            } else {
                let chars = [ch];
                let text = string_of(&chars);
                proof {
                    assert(chars@ =~= seq![ch]);
                }
                send(text.as_str().as_bytes_vec())
            }
        },
        _ => None,
    }
}

/// The terminal's new size after the screen was resized to `width` by
/// `height` (each at least one), if it differs from `current`.
pub fn terminal_resize(current: (u16, u16), width: u16, height: u16) -> (r: Option<(u16, u16)>)
    ensures
        ({
            let cols = if width > 0 {
                width
            } else {
                1
            };
            let rows = if height > 0 {
                height
            } else {
                1
            };
            r == if (cols, rows) != current {
                Some((cols, rows))
            } else {
                None
            }
        }),
{
    let cols = if width > 0 {
        width
    } else {
        1
    };
    let rows = if height > 0 {
        height
    } else {
        1
    };
    if cols != current.0 || rows != current.1 {
        Some((cols, rows))
    } else {
        None
    }
}

} // verus!
