use vstd::prelude::*;

use crate::error::CswitchError;
use serde_json::{Map as JsonMap, Value};

verus! {

#[verifier::external_type_specification]
#[verifier::external_body]
pub struct ExJsonValue(serde_json::Value);

#[verifier::external_type_specification]
#[verifier::external_body]
#[verifier::reject_recursive_types(K)]
#[verifier::reject_recursive_types(V)]
pub struct ExJsonMap<K, V>(serde_json::Map<K, V>);

#[verifier::external_type_specification]
#[verifier::external_body]
pub struct ExJsonError(serde_json::Error);

/// The JSON value that `text` parses to, if it is a JSON document.
pub uninterp spec fn parsed_json(text: Seq<char>) -> Option<Value>;

/// The fields of `v` where it is a JSON object.
pub uninterp spec fn object_fields(v: Value) -> Option<Map<Seq<char>, Value>>;

/// The fields held by a JSON object map.
pub uninterp spec fn map_fields(m: JsonMap<String, Value>) -> Map<Seq<char>, Value>;

/// The JSON string whose characters are `s`.
pub uninterp spec fn json_string_value(s: Seq<char>) -> Value;

/// The pretty-printed JSON text of `v`.
pub uninterp spec fn pretty_json(v: Value) -> Seq<char>;

/// Relies on serde_json::from_str: it parses `text` as one JSON value, or
/// fails.
#[verifier::external_body]
fn parse_json(text: &str) -> (r: Result<Value, serde_json::Error>)
    ensures
        r is Ok <==> parsed_json(text@) is Some,
        r is Ok ==> r->Ok_0 == parsed_json(text@)->Some_0,
{
    serde_json::from_str(text)
}

/// Relies on the Display impl of serde_json::Error, for the message.
#[verifier::external_body]
fn json_error_text(e: &serde_json::Error) -> String {
    e.to_string()
}

/// Relies on the variant Value::Object: the map of an object, none for any
/// other value.
#[verifier::external_body]
fn into_object(v: Value) -> (r: Option<JsonMap<String, Value>>)
    ensures
        r is Some <==> object_fields(v) is Some,
        r is Some ==> object_fields(v) == Some(map_fields(r->Some_0)),
{
    match v {
        Value::Object(m) => Some(m),
        _ => None,
    }
}

/// Relies on the variant Value::Object: the object that holds `m`.
#[verifier::external_body]
fn from_object(m: JsonMap<String, Value>) -> (r: Value)
    ensures
        object_fields(r) == Some(map_fields(m)),
{
    Value::Object(m)
}

/// Relies on the variant Value::String: the JSON string of `s`.
#[verifier::external_body]
fn json_string(s: String) -> (r: Value)
    ensures
        r == json_string_value(s@),
{
    Value::String(s)
}

/// Relies on serde_json::Map::new: a map with no field.
#[verifier::external_body]
fn empty_object_map() -> (r: JsonMap<String, Value>)
    ensures
        map_fields(r).dom().len() == 0,
        map_fields(r).dom().finite(),
{
    JsonMap::new()
}

/// Relies on serde_json::Map::insert: sets field `key` to `value`, replacing
/// what was there.
#[verifier::external_body]
fn map_insert(m: &mut JsonMap<String, Value>, key: String, value: Value)
    ensures
        map_fields(*final(m)) == map_fields(*old(m)).insert(key@, value),
{
    m.insert(key, value);
}

/// Relies on serde_json::Map::remove: drops field `key`, if present.
#[verifier::external_body]
fn map_remove(m: &mut JsonMap<String, Value>, key: &str)
    ensures
        map_fields(*final(m)) == map_fields(*old(m)).remove(key@),
{
    m.remove(key);
}

/// Relies on serde_json::Value::get with a string index: a field of an
/// object, and nothing for any other value.
#[verifier::external_body]
fn has_field(v: &Value, key: &str) -> (r: bool)
    ensures
        r == (object_fields(*v) is Some && object_fields(*v)->Some_0.contains_key(key@)),
{
    v.get(key).is_some()
}

/// Relies on serde_json::to_string_pretty: the pretty-printed text of `v`.
/// It fails only where a `Serialize` impl fails or a map key is not a string;
/// the impl for `Value` does neither, and the output buffer is a `Vec`.
#[verifier::external_body]
fn to_pretty_text(v: &Value) -> (r: Result<String, serde_json::Error>)
    ensures
        r is Ok,
        r->Ok_0@ == pretty_json(*v),
{
    serde_json::to_string_pretty(v)
}

/// The settings field that names the key-helper command.
pub open spec fn helper_field() -> Seq<char> {
    "apiKeyHelper"@
}

/// The command the host application runs to obtain the active API key.
pub open spec fn helper_command() -> Seq<char> {
    "cswitch emit-key"@
}

/// The fields of a settings object once the key helper is enabled.
pub open spec fn with_helper(fields: Map<Seq<char>, Value>) -> Map<Seq<char>, Value> {
    fields.insert(helper_field(), json_string_value(helper_command()))
}

/// The fields of a settings object once the key helper is disabled.
pub open spec fn without_helper(fields: Map<Seq<char>, Value>) -> Map<Seq<char>, Value> {
    fields.remove(helper_field())
}

/// The settings document held in `contents`, the text of the settings file;
/// an absent file (`None`) is an empty object. Fails where the text is not
/// JSON.
pub fn read_settings(contents: Option<String>) -> (r: Result<Value, CswitchError>)
    ensures
        contents is None ==> r is Ok && object_fields(r->Ok_0) == Some(
            Map::<Seq<char>, Value>::empty(),
        ),
        contents is Some ==> (r is Ok <==> parsed_json(contents->Some_0@) is Some),
        contents is Some && r is Ok ==> r->Ok_0 == parsed_json(contents->Some_0@)->Some_0,
        r is Err ==> r->Err_0 is ClaudeSettings,
{
    match contents {
        None => Ok(from_object(empty_object_map())),
        Some(text) => match parse_json(text.as_str()) {
            Ok(v) => Ok(v),
            Err(e) => Err(
                CswitchError::ClaudeSettings(
                    String::from_str("parse error: ").concat(json_error_text(&e).as_str()),
                ),
            ),
        },
    }
}

/// The text of the settings document as it is written back.
pub fn render_settings(settings: &Value) -> (r: Result<String, CswitchError>)
    ensures
        r is Ok,
        r->Ok_0@ == pretty_json(*settings),
{
    match to_pretty_text(settings) {
        Ok(t) => Ok(t),
        Err(e) => Err(
            CswitchError::ClaudeSettings(
                String::from_str("serialize error: ").concat(json_error_text(&e).as_str()),
            ),
        ),
    }
}

fn not_an_object() -> (r: CswitchError)
    ensures
        r is ClaudeSettings,
{
    CswitchError::ClaudeSettings(String::from_str("settings.json is not an object"))
}

/// `settings` with the key helper set to the command that prints the active
/// API key; every other field is kept. Fails where `settings` is not a JSON
/// object.
pub fn enable_api_key_helper(settings: Value) -> (r: Result<Value, CswitchError>)
    ensures
        r is Ok <==> object_fields(settings) is Some,
        r is Ok ==> object_fields(r->Ok_0) == Some(with_helper(object_fields(settings)->Some_0)),
        r is Err ==> r->Err_0 is ClaudeSettings,
{
    match into_object(settings) {
        Some(mut m) => {
            map_insert(
                &mut m,
                String::from_str("apiKeyHelper"),
                json_string(String::from_str("cswitch emit-key")),
            );
            Ok(from_object(m))
        },
        None => Err(not_an_object()),
    }
}

/// `settings` without the key helper; every other field is kept, and a
/// document without the helper is left as it is. Fails where `settings` is
/// not a JSON object.
pub fn disable_api_key_helper(settings: Value) -> (r: Result<Value, CswitchError>)
    ensures
        r is Ok <==> object_fields(settings) is Some,
        r is Ok ==> object_fields(r->Ok_0) == Some(without_helper(object_fields(settings)->Some_0)),
        r is Err ==> r->Err_0 is ClaudeSettings,
{
    match into_object(settings) {
        Some(mut m) => {
            map_remove(&mut m, "apiKeyHelper");
            Ok(from_object(m))
        },
        None => Err(not_an_object()),
    }
}

/// Whether `settings` is an object that sets the key helper.
pub fn has_api_key_helper(settings: &Value) -> (r: bool)
    ensures
        r == (object_fields(*settings) is Some && object_fields(
            *settings,
        )->Some_0.contains_key(helper_field())),
{
    has_field(settings, "apiKeyHelper")
}

/// Enabling the key helper sets that one field and keeps every other;
/// disabling it afterwards gives back the fields as they were before the
/// helper was set, so a document that lacked it comes back unchanged.
pub proof fn law_enable_then_disable(fields: Map<Seq<char>, Value>)
    ensures
        with_helper(fields).contains_key(helper_field()),
        with_helper(fields)[helper_field()] == json_string_value(helper_command()),
        forall|k: Seq<char>|
            k != helper_field() ==> (#[trigger] with_helper(fields).contains_key(k)
                <==> fields.contains_key(k)) && (fields.contains_key(k) ==> with_helper(fields)[k]
                == fields[k]),
        without_helper(with_helper(fields)) == without_helper(fields),
        !fields.contains_key(helper_field()) ==> without_helper(with_helper(fields)) == fields,
{
    assert(without_helper(with_helper(fields)) =~= without_helper(fields));
    if !fields.contains_key(helper_field()) {
        assert(without_helper(fields) =~= fields);
    }
}

} // verus!
