//! The messages of the terminal's websocket: where it connects, what a text
//! message from the backend means, and the text of what goes back.
use vstd::prelude::*;

use crate::api::transport::{json_str_member, json_str_member_of, ws_base, ws_base_text};
use crate::codec::{base64_decode, base64_encode, decode_base64, encode_base64, format_uuid, uuid_hyphenated};
use crate::text::{decimal, push_decimal, push_str};

verus! {

/// What a text message of the terminal's websocket says.
#[derive(Debug, Clone, PartialEq, Eq)]
pub enum TerminalFrame {
    /// Bytes the terminal wrote.
    Output(Vec<u8>),
    /// An error the backend reports.
    Error(String),
    /// A message of no meaning to the terminal.
    Ignored,
}

/// What a text message means: not JSON, or a `data` member that is not
/// Base64, ends the stream (`Err`); a string `data` member is output;
/// otherwise a string `message` member is an error; anything else is
/// ignored.
pub fn terminal_frame(text: &str) -> (r: Result<TerminalFrame, ()>)
    ensures
        json_str_member(text@, "data"@) is None ==> r is Err,
        json_str_member(text@, "data"@) matches Some(Some(d)) ==> match base64_decode(d) {
            Some(b) => r matches Ok(TerminalFrame::Output(v)) && v@ == b,
            None => r is Err,
        },
        json_str_member(text@, "data"@) == Some(None::<Seq<char>>) ==> match json_str_member(
            text@,
            "message"@,
        ) {
            Some(Some(m)) => r matches Ok(TerminalFrame::Error(e)) && e@ == m,
            _ => r matches Ok(TerminalFrame::Ignored),
        },
{
    match json_str_member_of(text, "data") {
        None => Err(()),
        Some(Some(data)) => match decode_base64(data.as_str()) {
            Some(bytes) => Ok(TerminalFrame::Output(bytes)),
            None => Err(()),
        },
        Some(None) => match json_str_member_of(text, "message") {
            Some(Some(message)) => Ok(TerminalFrame::Error(message)),
            _ => Ok(TerminalFrame::Ignored),
        },
    }
}

/// The message that sends typed bytes to the terminal: a JSON object with
/// the Base64 of the bytes as `data` and `type` `input`, keys in order.
pub fn terminal_input_frame(bytes: &[u8]) -> (r: String)
    requires
        bytes@.len() <= isize::MAX,
    ensures
        r@ == "{\"data\":\""@ + base64_encode(bytes@) + "\",\"type\":\"input\"}"@,
{
    let data = encode_base64(bytes);
    let mut out = String::new();
    push_str(&mut out, "{\"data\":\"");
    push_str(&mut out, data.as_str());
    push_str(&mut out, "\",\"type\":\"input\"}");
    out
}

/// The message that gives the terminal a new size: a JSON object with
/// `cols`, `rows` and `type` `resize`, keys in order.
pub fn terminal_resize_frame(cols: u16, rows: u16) -> (r: String)
    ensures
        r@ == "{\"cols\":"@ + decimal(cols as nat) + ",\"rows\":"@ + decimal(rows as nat)
            + ",\"type\":\"resize\"}"@,
{
    let mut out = String::new();
    push_str(&mut out, "{\"cols\":");
    push_decimal(&mut out, cols as u64);
    push_str(&mut out, ",\"rows\":");
    push_decimal(&mut out, rows as u64);
    push_str(&mut out, ",\"type\":\"resize\"}");
    out
}

/// Where the terminal of a workspace connects, at a size.
pub open spec fn terminal_endpoint_text(base: Seq<char>, workspace_id: u128, cols: u16, rows: u16) -> Seq<
    char,
> {
    ws_base_text(base) + "/api/terminal/ws?workspace_id="@ + uuid_hyphenated(workspace_id)
        + "&cols="@ + decimal(cols as nat) + "&rows="@ + decimal(rows as nat)
}

/// The websocket address of a workspace's terminal.
pub fn terminal_endpoint(base: &str, workspace_id: u128, cols: u16, rows: u16) -> (r: String)
    ensures
        r@ == terminal_endpoint_text(base@, workspace_id, cols, rows),
{
    let mut out = ws_base(base);
    let id = format_uuid(workspace_id);
    push_str(&mut out, "/api/terminal/ws?workspace_id=");
    push_str(&mut out, id.as_str());
    push_str(&mut out, "&cols=");
    push_decimal(&mut out, cols as u64);
    push_str(&mut out, "&rows=");
    push_decimal(&mut out, rows as u64);
    out
}

} // verus!
