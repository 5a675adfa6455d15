//! The JSON wire record of an action:
//! `{"kind":<name>,"value":<token string | {"x":<number>,"y":<number>}>}`.
use vstd::prelude::*;
use crate::event::{Action, ActionKind, ActionModel, ActionValue, ValueModel};

verus! {

#[verifier::external_type_specification]
#[verifier::external_body]
pub struct ExJsonError(serde_json::Error);

/// The JSON string literal, quotes and escapes included, that serde_json
/// writes for the text `s`.
pub uninterp spec fn json_string_of(s: Seq<char>) -> Seq<char>;

/// Relies on serde_json::to_string on a `str`: on success, the JSON string
/// literal for the text.
#[verifier::external_body]
fn json_string(s: &str) -> (r: Result<String, serde_json::Error>)
    ensures
        r matches Ok(t) ==> t@ == json_string_of(s@),
{
    serde_json::to_string(s)
}

/// The record text for a kind and the JSON text of its value.
pub open spec fn record_text(kind: ActionKind, value_json: Seq<char>) -> Seq<char> {
    "{\"kind\":\""@ + kind.spec_name() + "\",\"value\":"@ + value_json + "}"@
}

/// The JSON object text of a position, from the JSON texts of its coordinates.
pub open spec fn point_text(x_json: Seq<char>, y_json: Seq<char>) -> Seq<char> {
    "{\"x\":"@ + x_json + ",\"y\":"@ + y_json + "}"@
}

/// The wire record of an action. A position's coordinates are written with the
/// given number texts; a token is written as serde_json's string literal.
pub open spec fn wire_text(a: ActionModel, x_json: Seq<char>, y_json: Seq<char>) -> Seq<char> {
    match a.value {
        ValueModel::Token(t) => record_text(a.kind, json_string_of(t)),
        ValueModel::Coords(_) => record_text(a.kind, point_text(x_json, y_json)),
    }
}

/// Frames a record from a kind and the JSON text of its value.
pub fn frame_record(kind: ActionKind, value_json: &str) -> (r: String)
    ensures
        r@ == record_text(kind, value_json@),
{
    let mut out = String::from_str("{\"kind\":\"");
    out.append(kind.name());
    out.append("\",\"value\":");
    out.append(value_json);
    out.append("}");
    out
}

/// Frames a position object from the JSON texts of its coordinates.
pub fn frame_point(x_json: &str, y_json: &str) -> (r: String)
    ensures
        r@ == point_text(x_json@, y_json@),
{
    let mut out = String::from_str("{\"x\":");
    out.append(x_json);
    out.append(",\"y\":");
    out.append(y_json);
    out.append("}");
    out
}

/// Encodes an action as its wire record. `x_json` and `y_json` are the JSON
/// number texts of the action's coordinates and are used only for a position.
/// A position always encodes; a token encodes unless serde_json refuses it,
/// and then the result is `None`.
pub fn encode_action(action: &Action, x_json: &str, y_json: &str) -> (r: Option<String>)
    ensures
        match r {
            Some(s) => s@ == wire_text(action@, x_json@, y_json@),
            None => action.value is Token,
        },
        action.value is Coords ==> r is Some,
{
    match &action.value {
        ActionValue::Token(t) => match json_string(t.as_str()) {
            Ok(lit) => Some(frame_record(action.kind, lit.as_str())),
            Err(_) => None,
        },
        ActionValue::Coords(_) => {
            let point = frame_point(x_json, y_json);
            Some(frame_record(action.kind, point.as_str()))
        },
    }
}

} // verus!
