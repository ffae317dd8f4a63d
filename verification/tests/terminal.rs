use serde_json::Value;
use tui::api::terminal::{
    terminal_endpoint, terminal_frame, terminal_input_frame, terminal_resize_frame, TerminalFrame,
};

#[test]
fn data_messages_carry_decoded_output() {
    assert_eq!(terminal_frame("{\"data\":\"aGk=\"}"), Ok(TerminalFrame::Output(b"hi".to_vec())));
    assert_eq!(
        terminal_frame("{\"data\":\"\",\"message\":\"m\"}"),
        Ok(TerminalFrame::Output(Vec::new()))
    );
}

#[test]
fn message_members_become_errors_and_the_rest_is_ignored() {
    assert_eq!(
        terminal_frame("{\"data\":5,\"message\":\"boom\"}"),
        Ok(TerminalFrame::Error("boom".to_string()))
    );
    assert_eq!(terminal_frame("{\"message\":7}"), Ok(TerminalFrame::Ignored));
    assert_eq!(terminal_frame("[1,2]"), Ok(TerminalFrame::Ignored));
}

#[test]
fn malformed_messages_end_the_stream() {
    assert_eq!(terminal_frame("not json"), Err(()));
    assert_eq!(terminal_frame("{\"data\":\"!!\"}"), Err(()));
}

#[test]
fn outgoing_messages_match_the_json_writer() {
    let input = terminal_input_frame(b"hi");
    assert_eq!(input, "{\"data\":\"aGk=\",\"type\":\"input\"}");
    let mut map = serde_json::Map::new();
    map.insert("type".to_string(), Value::String("input".to_string()));
    map.insert("data".to_string(), Value::String("aGk=".to_string()));
    assert_eq!(input, Value::Object(map).to_string());

    let resize = terminal_resize_frame(80, 24);
    assert_eq!(resize, "{\"cols\":80,\"rows\":24,\"type\":\"resize\"}");
    let mut map = serde_json::Map::new();
    map.insert("type".to_string(), Value::String("resize".to_string()));
    map.insert("cols".to_string(), Value::from(80u16));
    map.insert("rows".to_string(), Value::from(24u16));
    assert_eq!(resize, Value::Object(map).to_string());

    assert_eq!(terminal_input_frame(&[]), "{\"data\":\"\",\"type\":\"input\"}");
}

#[test]
fn endpoint_names_workspace_and_size() {
    assert_eq!(
        terminal_endpoint("http://127.0.0.1:3001", 0x0123456789abcdef0123456789abcdef, 80, 24),
        "ws://127.0.0.1:3001/api/terminal/ws?workspace_id=01234567-89ab-cdef-0123-456789abcdef&cols=80&rows=24"
    );
}
