//! Addresses and responses of the backend: the base URL, the websocket
//! base, API envelopes, and log excerpts.
use vstd::prelude::*;

use crate::model::dto::ApiEnvelope;
use crate::text::{
    byte_len, chars_of, decimal, floor_char, floor_index, is_boundary, lemma_floor_char,
    occurs_at, occurs_at_index, push_decimal, push_str, string_of, sub_chars, trim, trim_chars,
};

verus! {

/// The websocket base for an HTTP base URL: `https://` becomes `wss://`,
/// `http://` becomes `ws://`, anything else is kept.
pub open spec fn ws_base_text(base: Seq<char>) -> Seq<char> {
    if occurs_at(base, 0, "https://"@) {
        "wss://"@ + base.skip(8)
    } else if occurs_at(base, 0, "http://"@) {
        "ws://"@ + base.skip(7)
    } else {
        base
    }
}

/// The websocket base URL for the backend's base URL.
pub fn ws_base(base: &str) -> (r: String)
    ensures
        r@ == ws_base_text(base@),
{
    proof {
        reveal_strlit("https://");
        reveal_strlit("http://");
    }
    let v = chars_of(base);
    let https = chars_of("https://");
    let http = chars_of("http://");
    let mut out = String::new();
    if occurs_at_index(&v, 0, &https) {
        let rest = sub_chars(&v, 8, v.len());
        let rest_text = string_of(rest.as_slice());
        push_str(&mut out, "wss://");
        push_str(&mut out, rest_text.as_str());
        proof {
            assert(rest@ =~= v@.skip(8));
        }
    } else if occurs_at_index(&v, 0, &http) {
        let rest = sub_chars(&v, 7, v.len());
        let rest_text = string_of(rest.as_slice());
        push_str(&mut out, "ws://");
        push_str(&mut out, rest_text.as_str());
        proof {
            assert(rest@ =~= v@.skip(7));
        }
    } else {
        push_str(&mut out, base);
    }
    out
}

/// Longest excerpt of a response body written to the log, in bytes.
pub const LOG_BODY_LIMIT: usize = 400;

/// A body as the log shows it: whole up to the limit, else its first
/// `LOG_BODY_LIMIT` bytes and an ellipsis.
pub open spec fn log_excerpt(body: Seq<char>) -> Seq<char> {
    if byte_len(body) <= LOG_BODY_LIMIT {
        body
    } else {
        body.take(floor_char(body, LOG_BODY_LIMIT as int) as int) + "..."@
    }
}

/// Cuts a response body down for the log. A body over the limit must have a
/// char boundary at the limit, where it is cut.
pub fn truncate_for_log(body: &str) -> (r: String)
    requires
        byte_len(body@) > LOG_BODY_LIMIT ==> is_boundary(body@, LOG_BODY_LIMIT as int),
    ensures
        r@ == log_excerpt(body@),
{
    let v = chars_of(body);
    let total = body.as_bytes().len();
    proof {
        crate::text::lemma_byte_len_is_encoded_len(body@);
    }
    let mut out = String::new();
    if total <= LOG_BODY_LIMIT {
        push_str(&mut out, body);
    } else {
        let k = floor_index(&v, LOG_BODY_LIMIT);
        proof {
            lemma_floor_char(v@, LOG_BODY_LIMIT as int);
        }
        let head = sub_chars(&v, 0, k);
        let head_text = string_of(head.as_slice());
        push_str(&mut out, head_text.as_str());
        push_str(&mut out, "...");
        proof {
            assert(head@ =~= v@.take(k as int));
        }
    }
    out
}

/// What an API call yields from the HTTP status and the envelope: the
/// data when both report success and data came; otherwise the envelope's
/// message, or one naming the status.
pub open spec fn envelope_outcome<T>(
    status_success: bool,
    status_text: Seq<char>,
    envelope: ApiEnvelope<T>,
) -> Result<T, Seq<char>> {
    if !status_success || !envelope.success {
        Err(
            match envelope.message {
                Some(m) => m@,
                None => "request failed with status "@ + status_text,
            },
        )
    } else {
        match envelope.data {
            Some(d) => Ok(d),
            None => Err("API response did not include data"@),
        }
    }
}

/// Turns a decoded API envelope into the call's result.
pub fn envelope_result<T>(status_success: bool, status_text: &str, envelope: ApiEnvelope<T>) -> (r:
    Result<T, String>)
    ensures
        match (r, envelope_outcome(status_success, status_text@, envelope)) {
            (Ok(d), Ok(e)) => d == e,
            (Err(m), Err(e)) => m@ == e,
            _ => false,
        },
{
    if !status_success || !envelope.success {
        match envelope.message {
            Some(m) => Err(m),
            None => {
                let mut m = String::new();
                push_str(&mut m, "request failed with status ");
                push_str(&mut m, status_text);
                Err(m)
            },
        }
    } else {
        match envelope.data {
            Some(d) => Ok(d),
            None => Err(String::from_str("API response did not include data")),
        }
    }
}

/// The backend's base URL: the explicit one when set, else the local port
/// given (trimmed), else the backend port that the dev-ports file names,
/// else the default local port.
pub open spec fn base_url_text(explicit: Option<Seq<char>>, port: Option<Seq<char>>, dev_port: Option<
    u64,
>) -> Seq<char> {
    match explicit {
        Some(b) => b,
        None => match port {
            Some(p) => "http://127.0.0.1:"@ + trim(p),
            None => match dev_port {
                Some(n) => "http://127.0.0.1:"@ + decimal(n as nat),
                None => "http://127.0.0.1:3001"@,
            },
        },
    }
}

/// Chooses the backend's base URL from what the environment and the
/// dev-ports file gave.
pub fn base_url_from(explicit: Option<String>, port: Option<String>, dev_port: Option<u64>) -> (r:
    String)
    ensures
        r@ == base_url_text(
            match explicit {
                Some(b) => Some(b@),
                None => None,
            },
            match port {
                Some(p) => Some(p@),
                None => None,
            },
            dev_port,
        ),
{
    match explicit {
        Some(b) => b,
        None => match port {
            Some(p) => {
                let v = chars_of(p.as_str());
                let t = trim_chars(&v);
                let t_text = string_of(t.as_slice());
                let mut out = String::new();
                push_str(&mut out, "http://127.0.0.1:");
                push_str(&mut out, t_text.as_str());
                out
            },
            None => match dev_port {
                Some(n) => {
                    let mut out = String::new();
                    push_str(&mut out, "http://127.0.0.1:");
                    push_decimal(&mut out, n);
                    out
                },
                None => String::from_str("http://127.0.0.1:3001"),
            },
        },
    }
}

/// What `serde_json` reads of `text`: `None` when it is not JSON; else the
/// top-level member `key` when that is an unsigned integer that fits a
/// `u64`.
pub uninterp spec fn json_u64_member(text: Seq<char>, key: Seq<char>) -> Option<Option<u64>>;

/// Parses `text` with `serde_json::from_str` into a `serde_json::Value` and
/// takes its member `key` (`Value::get`) as an unsigned integer
/// (`Value::as_u64`). The contract names the result; what the JSON parser
/// accepts is not written out here.
#[verifier::external_body]
pub(crate) fn json_u64_member_of(text: &str, key: &str) -> (r: Option<Option<u64>>)
    ensures
        r == json_u64_member(text@, key@),
{
    match serde_json::from_str::<serde_json::Value>(text) {
        Ok(json) => Some(json.get(key).and_then(serde_json::Value::as_u64)),
        Err(_) => None,
    }
}

/// What `serde_json` reads of `text`: `None` when it is not JSON; else the
/// top-level member `key` when that is a string.
pub uninterp spec fn json_str_member(text: Seq<char>, key: Seq<char>) -> Option<Option<Seq<char>>>;

/// Parses `text` with `serde_json::from_str` into a `serde_json::Value` and
/// takes its member `key` (`Value::get`) as a string (`Value::as_str`). The
/// contract names the result; what the JSON parser accepts is not written
/// out here.
#[verifier::external_body]
pub(crate) fn json_str_member_of(text: &str, key: &str) -> (r: Option<Option<String>>)
    ensures
        (match r {
            None => None,
            Some(None) => Some(None),
            Some(Some(s)) => Some(Some(s@)),
        }) == json_str_member(text@, key@),
{
    match serde_json::from_str::<serde_json::Value>(text) {
        Ok(json) => Some(json.get(key).and_then(serde_json::Value::as_str).map(String::from)),
        Err(_) => None,
    }
}

/// The port that the dev-ports file `text` names for the backend: its
/// `backend` member, when it is JSON and that member is an unsigned integer.
pub open spec fn dev_ports_backend(text: Seq<char>) -> Option<u64> {
    match json_u64_member(text, "backend"@) {
        Some(Some(p)) => Some(p),
        _ => None,
    }
}

fn backend_port_of(text: &str) -> (r: Option<u64>)
    ensures
        r == dev_ports_backend(text@),
{
    match json_u64_member_of(text, "backend") {
        Some(Some(p)) => Some(p),
        _ => None,
    }
}

/// The backend port that the first of the dev-ports files (from index `i`
/// on) names.
pub open spec fn first_dev_port(files: Seq<String>, i: int) -> Option<u64>
    decreases files.len() - i,
{
    if i < 0 || i >= files.len() {
        None
    } else {
        match dev_ports_backend(files[i]@) {
            Some(p) => Some(p),
            None => first_dev_port(files, i + 1),
        }
    }
}

fn first_port(files: &Vec<String>) -> (r: Option<u64>)
    ensures
        r == first_dev_port(files@, 0),
{
    let mut i: usize = 0;
    while i < files.len()
        invariant
            i <= files@.len(),
            first_dev_port(files@, 0) == first_dev_port(files@, i as int),
        decreases files@.len() - i,
    {
        match backend_port_of(files[i].as_str()) {
            Some(p) => {
                return Some(p);
            },
            None => {},
        }
        i = i + 1;
    }
    None
}

/// Finds the backend's base URL: the explicit URL (`VK_TUI_BASE_URL`), else
/// the local port from the environment (`BACKEND_PORT`, else `PORT`), else
/// the backend port named by the first dev-ports file that names one
/// (`dev_ports_files`: the contents of the `.dev-ports.json` files found
/// from the working directory upward, nearest first), else the default.
pub fn detect_base_url(explicit: Option<String>, port: Option<String>, dev_ports_files: &Vec<String>) -> (r: String)
    ensures
        r@ == base_url_text(
            match explicit {
                Some(b) => Some(b@),
                None => None,
            },
            match port {
                Some(p) => Some(p@),
                None => None,
            },
            first_dev_port(dev_ports_files@, 0),
        ),
{
    let dev_port = first_port(dev_ports_files);
    base_url_from(explicit, port, dev_port)
}

} // verus!
