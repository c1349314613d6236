//! Classification of the raw payloads that the gateway delivers to a shard.
use vstd::prelude::*;

verus! {

/// A JSON value, held opaque: only serde_json looks inside it.
#[verifier::external_type_specification]
#[verifier::external_body]
pub struct ExJsonValue(serde_json::Value);

/// Whether serde_json reads the bytes as one JSON document.
pub uninterp spec fn json_accepts(bytes: Seq<u8>) -> bool;

/// The JSON value that serde_json reads from the bytes, when it accepts them.
pub uninterp spec fn json_document(bytes: Seq<u8>) -> serde_json::Value;

/// The field of a JSON object under a key: `None` when the object has no
/// such key, and for every value that is not an object.
pub uninterp spec fn json_field_of(v: serde_json::Value, key: Seq<char>) -> Option<serde_json::Value>;

/// The text of a JSON string; `None` for every other JSON value.
pub uninterp spec fn json_str_of(v: serde_json::Value) -> Option<Seq<char>>;

/// `serde_json::from_slice::<Value>(bytes)`, its error dropped: a value
/// comes back exactly when serde_json accepts the bytes, and it is the one
/// value those bytes parse to.
#[verifier::external_body]
fn parse_json(bytes: &[u8]) -> (r: Option<serde_json::Value>)
    ensures
        r is Some == json_accepts(bytes@),
        r matches Some(v) ==> v == json_document(bytes@),
{
    serde_json::from_slice::<serde_json::Value>(bytes).ok()
}

/// `Value::get(key)` with the field cloned out: serde_json returns the field
/// of an object under the key, and `None` for an object without the key and
/// for every value that is not an object.
#[verifier::external_body]
fn json_field(v: &serde_json::Value, key: &str) -> (r: Option<serde_json::Value>)
    ensures
        r == json_field_of(*v, key@),
{
    v.get(key).cloned()
}

/// `Value::as_str`, the text copied out: the text of a JSON string, `None`
/// for any other value.
#[verifier::external_body]
fn json_text(v: &serde_json::Value) -> (r: Option<String>)
    ensures
        match r {
            Some(s) => json_str_of(*v) == Some(s@),
            None => json_str_of(*v) is None,
        },
{
    match v.as_str() {
        Some(s) => Some(s.to_owned()),
        None => None,
    }
}

/// The name of the event a JSON payload carries: the text of its "t" field,
/// when that field is a string.
pub open spec fn event_name_of(doc: serde_json::Value) -> Option<Seq<char>> {
    match json_field_of(doc, "t"@) {
        Some(t) => json_str_of(t),
        None => None,
    }
}

/// What a raw gateway payload is to the bot.
#[derive(Debug)]
pub enum RawEvent {
    /// The bytes are not JSON; the payload is dropped.
    Malformed,
    /// A payload without event data and a textual event name, such as a
    /// heartbeat acknowledgement; the payload is dropped.
    Control,
    /// A dispatched event: its name and its data, to hand to the event manager.
    Dispatch { name: String, data: serde_json::Value },
}

/// The event that a payload's data (its "d" field) and name (its "t" field,
/// when that is a string) make: a dispatch when both are there, else a
/// control payload.
pub fn dispatch_from_parts(data: Option<serde_json::Value>, name: Option<String>) -> (r: RawEvent)
    ensures
        (data is Some && name is Some) ==> r == (RawEvent::Dispatch { name: name->0, data: data->0 }),
        !(data is Some && name is Some) ==> r is Control,
{
    match (data, name) {
        (Some(data), Some(name)) => RawEvent::Dispatch { name, data },
        _ => RawEvent::Control,
    }
}

/// Classifies a raw payload: malformed when it is not JSON; a dispatch of
/// its "t" text with its "d" field when the "d" field is there and the "t"
/// field is a string; a control payload otherwise.
pub fn classify_payload(bytes: &[u8]) -> (r: RawEvent)
    ensures
        r is Malformed <==> !json_accepts(bytes@),
        json_accepts(bytes@) ==> {
            let doc = json_document(bytes@);
            let data = json_field_of(doc, "d"@);
            let name = event_name_of(doc);
            &&& (data is Some && name is Some) ==> (r matches RawEvent::Dispatch { name: n, data: d }
                && n@ == name->0 && d == data->0)
            &&& !(data is Some && name is Some) ==> r is Control
        },
        json_accepts(bytes@) ==> {
            let doc = json_document(bytes@);
            forall|t: serde_json::Value, n: Seq<char>|
                json_field_of(doc, "d"@) is Some && json_field_of(doc, "t"@) == Some(t) && json_str_of(t)
                    == Some(n) ==> (r matches RawEvent::Dispatch { name: nm, data: d } && nm@ == n && d
                    == json_field_of(doc, "d"@)->0)
        },
{
    match parse_json(bytes) {
        None => RawEvent::Malformed,
        Some(parsed) => {
            let data = json_field(&parsed, "d");
            let name = match json_field(&parsed, "t") {
                Some(t) => json_text(&t),
                None => None,
            };
            dispatch_from_parts(data, name)
        },
    }
}

/// The event name is the text of the "t" field alone: whatever the "d"
/// field holds, a document whose "t" field is a string is named by that
/// text, and one without a string "t" field has no name.
pub proof fn lemma_event_name_is_t_text(doc: serde_json::Value, t: serde_json::Value)
    ensures
        json_field_of(doc, "t"@) == Some(t) ==> event_name_of(doc) == json_str_of(t),
        json_field_of(doc, "t"@) is None ==> event_name_of(doc) is None,
{
}

} // verus!
