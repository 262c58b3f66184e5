//! The names of the default devices, as the metadata of the server gives them.

use vstd::prelude::*;

use crate::kind::DeviceKind;
use crate::text::same_text;

verus! {

/// A JSON value, as far as the name of a device is looked up in it.
pub enum Json {
    Text(Seq<char>),
    Object(Map<Seq<char>, Json>),
    /// A value of any other type.
    Other,
}

/// A parsed JSON value of `serde_json`.
#[verifier::external_type_specification]
#[verifier::external_body]
pub struct ExJsonValue(serde_json::Value);

/// The reason why `serde_json` refused a text.
#[verifier::external_type_specification]
#[verifier::external_body]
pub struct ExJsonError(serde_json::Error);

/// What a parsed value holds: the text of a string, the members of an object.
pub uninterp spec fn json_content(value: serde_json::Value) -> Json;

/// What `serde_json::from_str` reads a text as, if it accepts it as a JSON value.
pub uninterp spec fn json_document(text: Seq<char>) -> Option<Json>;

/// A hexadecimal digit.
pub open spec fn hex_digit(n: int) -> char {
    if n < 10 {
        (48 + n) as char
    } else {
        (87 + n) as char
    }
}

/// A character inside a JSON string: quotes, backslashes and control characters are escaped.
pub open spec fn escaped_char(c: char) -> Seq<char> {
    let code = c as int;
    if c == '"' || c == '\\' {
        seq!['\\', c]
    } else if code == 8 {
        seq!['\\', 'b']
    } else if code == 9 {
        seq!['\\', 't']
    } else if code == 10 {
        seq!['\\', 'n']
    } else if code == 12 {
        seq!['\\', 'f']
    } else if code == 13 {
        seq!['\\', 'r']
    } else if code < 32 {
        seq!['\\', 'u', '0', '0', hex_digit(code / 16), hex_digit(code % 16)]
    } else {
        seq![c]
    }
}

/// A text inside a JSON string.
pub open spec fn escaped(text: Seq<char>) -> Seq<char>
    decreases text.len(),
{
    if text.len() == 0 {
        Seq::empty()
    } else {
        escaped(text.drop_last()) + escaped_char(text.last())
    }
}

/// The JSON text of an object with a device name in its member `name` and no other member.
pub open spec fn name_json(name: Seq<char>) -> Seq<char> {
    "{\"name\":\""@ + escaped(name) + "\"}"@
}

/// Calls `serde_json::from_str` for a `serde_json::Value`. Whether the text is accepted, and what
/// the value then holds, depends on the text alone and goes by the name [`json_document`]. The
/// JSON text of an object whose one member `name` is a string is accepted as that object, with
/// the escapes in the string undone. What other texts are read as is left to the name.
#[verifier::external_body]
fn parse_json(text: &str) -> (parsed: Result<serde_json::Value, serde_json::Error>)
    ensures
        match parsed {
            Ok(value) => json_document(text@) == Some(json_content(value)),
            Err(_) => json_document(text@) is None,
        },
        forall|name: Seq<char>| #[trigger]
            name_json(name) == text@ ==> match parsed {
                Ok(value) => json_content(value) == Json::Object(
                    map!["name"@ => Json::Text(name)],
                ),
                Err(_) => false,
            },
{
    serde_json::from_str::<serde_json::Value>(text)
}

/// Calls `serde_json::Value::get` with a string. The result is the member of that name if the
/// value is an object that has one, and `None` otherwise.
#[verifier::external_body]
fn json_member<'a>(value: &'a serde_json::Value, key: &str) -> (member: Option<
    &'a serde_json::Value,
>)
    ensures
        match member {
            Some(found) => match json_content(*value) {
                Json::Object(members) => members.contains_key(key@) && json_content(*found)
                    == members[key@],
                _ => false,
            },
            None => match json_content(*value) {
                Json::Object(members) => !members.contains_key(key@),
                _ => true,
            },
        },
{
    value.get(key)
}

/// Calls `serde_json::Value::as_str`. The result is the text if the value is a string, and `None`
/// otherwise.
#[verifier::external_body]
fn json_text(value: &serde_json::Value) -> (text: Option<&str>)
    ensures
        match text {
            Some(found) => json_content(*value) == Json::Text(found@),
            None => !(json_content(*value) is Text),
        },
{
    value.as_str()
}

/// The text of the member `name` of a JSON value, if the value is an object in which `name` is a
/// string.
pub open spec fn name_member(json: Json) -> Option<Seq<char>> {
    match json {
        Json::Object(members) => if members.contains_key("name"@) {
            match members["name"@] {
                Json::Text(name) => Some(name),
                _ => None,
            }
        } else {
            None
        },
        _ => None,
    }
}

/// The device name that a metadata value gives: the name found in it, or else the whole value.
pub open spec fn name_or_value(found: Option<Seq<char>>, value: Seq<char>) -> Seq<char> {
    match found {
        Some(name) => name,
        None => value,
    }
}

/// The device name that a metadata value gives.
pub open spec fn default_name(value: Seq<char>) -> Seq<char> {
    match json_document(value) {
        Some(json) => name_or_value(name_member(json), value),
        None => value,
    }
}

/// The model of an optional text.
pub open spec fn str_view(text: Option<&str>) -> Option<Seq<char>> {
    match text {
        Some(text) => Some(text@),
        None => None,
    }
}

/// The model of an optional owned text.
pub open spec fn string_view(text: Option<String>) -> Option<Seq<char>> {
    match text {
        Some(text) => Some(text@),
        None => None,
    }
}

/// The names of the default devices, where they are known.
#[derive(Debug)]
pub struct Defaults {
    pub sink: Option<String>,
    pub source: Option<String>,
}

/// The model of [`Defaults`].
pub struct DefaultsView {
    pub sink: Option<Seq<char>>,
    pub source: Option<Seq<char>>,
}

impl View for Defaults {
    type V = DefaultsView;

    open spec fn view(&self) -> DefaultsView {
        DefaultsView { sink: string_view(self.sink), source: string_view(self.source) }
    }
}

impl DefaultsView {
    /// No default device is known.
    pub open spec fn unknown() -> DefaultsView {
        DefaultsView { sink: None, source: None }
    }

    /// The name of the default device of a kind.
    pub open spec fn of_kind(self, kind: DeviceKind) -> Option<Seq<char>> {
        match kind {
            DeviceKind::Sink => self.sink,
            DeviceKind::Source => self.source,
        }
    }

    /// The names after a metadata key has been given a device name. Any key but the two that
    /// stand for a default device changes nothing.
    pub open spec fn with(self, key: Option<Seq<char>>, name: Seq<char>) -> DefaultsView {
        if key == Some("default.audio.sink"@) {
            DefaultsView { sink: Some(name), ..self }
        } else if key == Some("default.audio.source"@) {
            DefaultsView { source: Some(name), ..self }
        } else {
            self
        }
    }
}

impl Defaults {
    /// No default device is known.
    pub fn unknown() -> (defaults: Defaults)
        ensures
            defaults@ == DefaultsView::unknown(),
    {
        Defaults { sink: None, source: None }
    }

    /// The name of the default device of a kind.
    pub fn of_kind(&self, kind: DeviceKind) -> (name: Option<&String>)
        ensures
            match name {
                Some(name) => self@.of_kind(kind) == Some(name@),
                None => self@.of_kind(kind) is None,
            },
    {
        match kind {
            DeviceKind::Sink => self.sink.as_ref(),
            DeviceKind::Source => self.source.as_ref(),
        }
    }

    /// Takes over the device name that a metadata key was given.
    pub fn set(&mut self, key: Option<&str>, name: String)
        ensures
            final(self)@ == old(self)@.with(str_view(key), name@),
    {
        if let Some(key) = key {
            if same_text(key, "default.audio.sink") {
                self.sink = Some(name);
            } else if same_text(key, "default.audio.source") {
                self.source = Some(name);
            }
        }
    }
}

/// The device name in a parsed metadata value: the member `name`, if the value is an object in
/// which that is a string.
pub fn name_in_json(json: &serde_json::Value) -> (name: Option<&str>)
    ensures
        str_view(name) == name_member(json_content(*json)),
{
    match json_member(json, "name") {
        Some(member) => json_text(member),
        None => None,
    }
}

/// The device name that a metadata value gives, once the value has been searched for one.
pub fn name_or_whole_value(found: Option<&str>, value: &str) -> (name: String)
    ensures
        name@ == name_or_value(str_view(found), value@),
{
    match found {
        Some(name) => name.to_string(),
        None => value.to_string(),
    }
}

/// The device name that a metadata value gives: the member `name` if the value is a JSON object
/// in which that is a string, and the whole value otherwise. A name that was written as JSON is
/// given back as it was.
pub fn parse_default_name(value: &str) -> (name: String)
    ensures
        name@ == default_name(value@),
        forall|written: Seq<char>| #[trigger] name_json(written) == value@ ==> name@ == written,
{
    match parse_json(value) {
        Ok(json) => name_or_whole_value(name_in_json(&json), value),
        Err(_) => name_or_whole_value(None, value),
    }
}

} // verus!
