//! The calls this library makes into other crates, each with what is taken for
//! granted about it.

use vstd::prelude::*;
use crate::json::Json;
use crate::time::{Span, Timestamp};
use crossterm::event::KeyEvent;
use dtg_credentials::DTGCredential;
use serde_json::Value;
use tui_input::backend::crossterm::EventHandler;
use tui_input::Input;

verus! {

/// A line editor of `tui-input`.
#[verifier::external_type_specification]
#[verifier::external_body]
pub struct ExInput(tui_input::Input);

/// A key press as `crossterm` reports it.
#[verifier::external_type_specification]
#[verifier::external_body]
pub struct ExKeyEvent(crossterm::event::KeyEvent);

/// A JSON value of `serde_json`.
#[verifier::external_type_specification]
#[verifier::external_body]
pub struct ExValue(serde_json::Value);

/// The reason `serde_json` gives for refusing a text.
#[verifier::external_type_specification]
#[verifier::external_body]
pub struct ExJsonError(serde_json::Error);

/// The reason `std` gives where one time is before another.
#[verifier::external_type_specification]
#[verifier::external_body]
pub struct ExSystemTimeError(std::time::SystemTimeError);

/// A credential of `dtg-credentials`.
#[verifier::external_type_specification]
#[verifier::external_body]
pub struct ExCredential(dtg_credentials::DTGCredential);

/// `Input::clone` is derived: the copy is the same editor.
pub assume_specification[ <tui_input::Input as Clone>::clone ](input: &tui_input::Input) -> (copy:
    tui_input::Input)
    ensures
        copy == *input,
;

/// `Value::clone` is derived: the copy is the same value.
pub assume_specification[ <serde_json::Value as Clone>::clone ](value: &serde_json::Value) -> (copy:
    serde_json::Value)
    ensures
        copy == *value,
;

/// What `Input::value` returns: the text in the editor.
pub uninterp spec fn input_text(input: tui_input::Input) -> Seq<char>;

/// What `Input::new` returns for a text.
pub uninterp spec fn input_holding(text: Seq<char>) -> tui_input::Input;

/// The editor that `handle_event` leaves behind when it is given a key press.
pub uninterp spec fn input_after_key(
    input: tui_input::Input,
    key: crossterm::event::KeyEvent,
) -> tui_input::Input;

/// Calls `tui_input::Input::new`. It returns an editor that depends on the text
/// alone and that holds exactly that text.
#[verifier::external_body]
pub(crate) fn new_input(text: String) -> (input: Input)
    ensures
        input == input_holding(text@),
        input_text(input) == text@,
{
    Input::new(text)
}

/// Calls `tui_input::Input::value`, which returns the text in the editor.
#[verifier::external_body]
pub(crate) fn input_value(input: &Input) -> (text: String)
    ensures
        text@ == input_text(*input),
{
    input.value().to_string()
}

/// Calls `handle_event` of `tui_input` with a key press. What the editor becomes
/// depends on the editor and the key alone; how each key edits is not stated.
#[verifier::external_body]
pub(crate) fn press_key(input: &mut Input, key: KeyEvent)
    ensures
        *final(input) == input_after_key(*old(input), key),
{
    input.handle_event(&crossterm::event::Event::Key(key));
}

/// A `serde_json` value, member for member, as the library's own JSON.
pub uninterp spec fn json_tree(value: serde_json::Value) -> Json;

/// Reads a `serde_json::Value` through its variants. Each variant becomes the
/// library's variant of the same name, and a number what `Number::as_u64` makes
/// of it; the tree depends on the value alone. It goes as deep into the value as
/// that is nested.
#[verifier::external_body]
pub(crate) fn json_of(value: &Value) -> (tree: Json)
    ensures
        tree == json_tree(*value),
{
    match value {
        Value::Null => Json::Null,
        Value::Bool(b) => Json::Bool(*b),
        Value::Number(n) => Json::Number(n.as_u64()),
        Value::String(s) => Json::Text(s.clone()),
        Value::Array(items) => Json::Array(items.iter().map(json_of).collect()),
        Value::Object(members) => {
            Json::Object(members.iter().map(|(k, v)| (k.clone(), json_of(v))).collect())
        },
    }
}

/// What `serde_json::from_str` makes of a text.
pub uninterp spec fn json_parsed(text: Seq<char>) -> Result<serde_json::Value, serde_json::Error>;

/// Calls `serde_json::from_str` for a `Value`. Whether the text is JSON, the
/// value it stands for and the reason it is refused depend on the text alone.
#[verifier::external_body]
pub(crate) fn parse_json(text: &str) -> (parsed: Result<Value, serde_json::Error>)
    ensures
        parsed == json_parsed(text@),
{
    serde_json::from_str(text)
}

/// How a `serde_json::Error` reads.
pub uninterp spec fn json_error_words(error: serde_json::Error) -> Seq<char>;

/// Calls `to_string` on a `serde_json::Error`; its words depend on the error
/// alone.
#[verifier::external_body]
pub(crate) fn json_error_text(error: &serde_json::Error) -> (words: String)
    ensures
        words@ == json_error_words(*error),
{
    error.to_string()
}

/// What `serde_json::to_string_pretty` writes for a value, if it can.
pub uninterp spec fn pretty_value(value: serde_json::Value) -> Option<Seq<char>>;

/// Calls `serde_json::to_string_pretty` on a JSON value. The text, or that there
/// is none, depends on the value alone.
#[verifier::external_body]
pub(crate) fn pretty_json(value: &Value) -> (text: Option<String>)
    ensures
        crate::text::optional(text) == pretty_value(*value),
{
    serde_json::to_string_pretty(value).ok()
}

/// What `serde_json::to_string_pretty` writes for the body of a credential, if
/// it can.
pub uninterp spec fn pretty_credential(
    credential: dtg_credentials::DTGCredential,
) -> Option<Seq<char>>;

/// Calls `serde_json::to_string_pretty` on `DTGCredential::credential`. The
/// text, or that there is none, depends on the credential alone.
#[verifier::external_body]
pub(crate) fn pretty_vrc(credential: &DTGCredential) -> (text: Option<String>)
    ensures
        crate::text::optional(text) == pretty_credential(*credential),
{
    serde_json::to_string_pretty(credential.credential()).ok()
}

/// Calls `chrono::Utc::now`. Nothing is said of the time it reads.
#[verifier::external_body]
pub(crate) fn utc_now() -> (now: Timestamp) {
    let now = chrono::Utc::now();
    Timestamp { secs: now.timestamp(), nanos: now.timestamp_subsec_nanos() }
}

/// Calls `SystemTime::elapsed` on the Unix epoch, in whole seconds: the error of
/// that call where the clock stands before the epoch. Nothing is said of the time
/// it reads.
#[verifier::external_body]
pub(crate) fn seconds_since_epoch() -> (seconds: Result<u64, std::time::SystemTimeError>) {
    std::time::SystemTime::UNIX_EPOCH.elapsed().map(|d| d.as_secs())
}

/// Calls `uuid::Uuid::new_v4` and writes the result out. Nothing is said of the
/// identifier it draws.
#[verifier::external_body]
pub(crate) fn random_id() -> (id: String) {
    uuid::Uuid::new_v4().to_string()
}

/// A span in seconds with one digit after the point, as `{:.1}` writes it.
pub uninterp spec fn tenths(secs: u64, nanos: u32) -> Seq<char>;

/// Writes `Duration::as_secs_f64` with `{:.1}`. The text depends on the span
/// alone.
#[verifier::external_body]
pub(crate) fn tenths_text(span: Span) -> (text: String)
    requires
        span.valid(),
    ensures
        text@ == tenths(span.secs, span.nanos),
{
    format!("{:.1}", std::time::Duration::new(span.secs, span.nanos).as_secs_f64())
}

/// A span as `{:?}` writes a `Duration`.
pub uninterp spec fn duration_words(secs: u64, nanos: u32) -> Seq<char>;

/// Writes a `Duration` with `{:?}`. The text depends on the span alone.
#[verifier::external_body]
pub(crate) fn duration_text(span: Span) -> (text: String)
    requires
        span.valid(),
    ensures
        text@ == duration_words(span.secs, span.nanos),
{
    format!("{:?}", std::time::Duration::new(span.secs, span.nanos))
}

} // verus!
