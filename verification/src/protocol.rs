//! The request protocol codec.
//!
//! Clients send one text frame per request: a JSON object with a string
//! `action` field and a string `content` field. A frame that does not carry
//! both is malformed and is dropped silently by the caller; the connection
//! lives on.

use vstd::prelude::*;

verus! {

/// The action a request asks for. An unrecognized tag is `Unknown`, which is
/// a no-op for the connection, never an error.
#[derive(PartialEq, Eq, Structural, Clone, Copy, Debug)]
pub enum Action {
    Translate,
    Show,
    Unknown,
}

/// One decoded request: the action and the raw markup text it applies to.
pub struct Request {
    pub action: Action,
    pub content: String,
}

/// The `action` and `content` string fields of the JSON object that the
/// frame `s` encodes, or `None` when `s` is not a JSON object carrying both
/// fields as strings. The JSON grammar itself is the parser crate's affair;
/// only this projection of it is relied upon.
pub uninterp spec fn wire_fields(s: Seq<char>) -> Option<(Seq<char>, Seq<char>)>;

/// Relies on `serde_json::from_str` to parse the frame as a JSON value, and
/// on `serde_json::Value::get` and `Value::as_str` to hand out the `action`
/// and `content` string fields. The outcome is a function of the text alone.
#[verifier::external_body]
fn parse_wire_fields(text: &str) -> (r: Option<(String, String)>)
    ensures
        r is Some <==> wire_fields(text@) is Some,
        r matches Some(p) ==> wire_fields(text@) == Some((p.0@, p.1@)),
{
    let value: serde_json::Value = match serde_json::from_str(text) {
        Ok(v) => v,
        Err(_) => return None,
    };
    let action = value.get("action")?.as_str()?.to_string();
    let content = value.get("content")?.as_str()?.to_string();
    Some((action, content))
}

/// The action a tag string names on the wire.
pub open spec fn action_of_tag(tag: Seq<char>) -> Action {
    if tag == "translate"@ {
        Action::Translate
    } else if tag == "show"@ {
        Action::Show
    } else {
        Action::Unknown
    }
}

/// The action named by one decoded tag.
fn tag_action(tag: &String) -> (a: Action)
    ensures
        a == action_of_tag(tag@),
{
    let translate_tag: String = "translate".to_owned();
    let show_tag: String = "show".to_owned();
    if *tag == translate_tag {
        Action::Translate
    } else if *tag == show_tag {
        Action::Show
    } else {
        Action::Unknown
    }
}

/// Decodes one text frame into a request. `None` is a malformed frame; the
/// caller drops it and the connection continues.
pub fn decode_request(text: &str) -> (r: Option<Request>)
    ensures
        r is Some <==> wire_fields(text@) is Some,
        r matches Some(req) ==> (wire_fields(text@) matches Some(f) && req.action
            == action_of_tag(f.0) && req.content@ == f.1),
{
    match parse_wire_fields(text) {
        Some((tag, content)) => {
            let action = tag_action(&tag);
            Some(Request { action, content })
        },
        None => None,
    }
}

} // verus!
