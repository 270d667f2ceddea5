use std::collections::BTreeMap;
use std::fmt;

use rjsend::codec::WireEnvelope;
use rjsend::wire::{WireField, WireKey, WireObject, WireValue};
use rjsend::RJSend;
use serde::de::DeserializeOwned;
use serde::ser::SerializeStruct;
use serde::{de, ser, Deserialize, Deserializer, Serialize, Serializer};
use serde_json::{Number, Value};

/// An envelope that serde writes and reads.
#[derive(Debug, Clone, PartialEq)]
struct Envelope<D, FD, Msg = &'static str, ED = Value>(RJSend<D, FD, Msg, ED>);

/// A JSON value as the wire value that stands for it.
fn wire_value(value: Value) -> WireValue<Value> {
    match value {
        Value::String(text) => WireValue::Text(text),
        Value::Number(number) => WireValue::Number(number),
        other => WireValue::Other(other),
    }
}

/// A wire value as the JSON value that it stands for.
fn json_value(value: WireValue<Value>) -> Value {
    match value {
        WireValue::Text(text) => Value::String(text),
        WireValue::Number(number) => Value::Number(number),
        WireValue::Other(other) => other,
    }
}

fn encoded<T: Serialize>(payload: &T) -> Result<WireValue<Value>, serde_json::Error> {
    serde_json::to_value(payload).map(wire_value)
}

fn decoded<T: DeserializeOwned>(payload: WireValue<Value>) -> Result<T, serde_json::Error> {
    serde_json::from_value(json_value(payload))
}

/// The envelope with each payload encoded and the message as a text.
fn to_wire<D, FD, Msg, ED>(
    envelope: &RJSend<D, FD, Msg, ED>,
) -> Result<WireEnvelope<Value>, serde_json::Error>
where
    D: Serialize,
    FD: Serialize,
    Msg: AsRef<str>,
    ED: Serialize,
{
    Ok(match envelope {
        RJSend::Success { data } => RJSend::Success { data: encoded(data)? },
        RJSend::Fail { data } => RJSend::Fail { data: encoded(data)? },
        RJSend::Error { message, code, data } => RJSend::Error {
            message: message.as_ref().to_owned(),
            code: code.clone(),
            data: data.as_ref().map(encoded).transpose()?,
        },
    })
}

/// The envelope with each payload and the message decoded.
fn from_wire<D, FD, Msg, ED>(
    envelope: WireEnvelope<Value>,
) -> Result<RJSend<D, FD, Msg, ED>, serde_json::Error>
where
    D: DeserializeOwned,
    FD: DeserializeOwned,
    Msg: DeserializeOwned,
    ED: DeserializeOwned,
{
    Ok(match envelope {
        RJSend::Success { data } => RJSend::Success { data: decoded(data)? },
        RJSend::Fail { data } => RJSend::Fail { data: decoded(data)? },
        RJSend::Error { message, code, data } => RJSend::Error {
            message: serde_json::from_value(Value::String(message))?,
            code,
            data: data.map(decoded).transpose()?,
        },
    })
}

impl<D, FD, Msg, ED> Serialize for Envelope<D, FD, Msg, ED>
where
    D: Serialize,
    FD: Serialize,
    Msg: AsRef<str>,
    ED: Serialize,
{
    fn serialize<S>(&self, serializer: S) -> Result<S::Ok, S::Error>
    where
        S: Serializer,
    {
        let envelope = to_wire(&self.0).map_err(ser::Error::custom)?;
        let is_error = envelope.is_error();
        let object = envelope.serialize();
        let mut state = serializer.serialize_struct("RJSend", object.fields.len())?;
        let mut fields = object.fields.into_iter().peekable();
        for key in [WireKey::Status, WireKey::Message, WireKey::Code, WireKey::Data] {
            match fields.next_if(|field| field.key == key.name()) {
                Some(field) => match field.value {
                    WireValue::Text(text) => state.serialize_field(key.name(), &text)?,
                    WireValue::Number(number) => state.serialize_field(key.name(), &number)?,
                    WireValue::Other(other) => state.serialize_field(key.name(), &other)?,
                },
                None if is_error && matches!(key, WireKey::Code | WireKey::Data) => {
                    state.skip_field(key.name())?
                }
                None => {}
            }
        }
        state.end()
    }
}

impl<'de, D, FD, Msg, ED> Deserialize<'de> for Envelope<D, FD, Msg, ED>
where
    D: DeserializeOwned,
    FD: DeserializeOwned,
    Msg: fmt::Display + DeserializeOwned,
    ED: DeserializeOwned,
{
    fn deserialize<R>(deserializer: R) -> Result<Self, R::Error>
    where
        R: Deserializer<'de>,
    {
        let map = serde_json::Map::<String, Value>::deserialize(deserializer)?;
        let fields = map
            .into_iter()
            .map(|(key, value)| WireField { key, value: wire_value(value) })
            .collect();
        let envelope = WireEnvelope::<Value>::deserialize(WireObject { fields })
            .map_err(|error| de::Error::custom(error.message()))?;
        from_wire(envelope).map(Envelope).map_err(de::Error::custom)
    }
}

type Typed = Envelope<i32, BTreeMap<String, String>, String, Value>;

fn one_entry(key: &str, value: &str) -> BTreeMap<String, String> {
    let mut entries = BTreeMap::new();
    entries.insert(String::from(key), String::from(value));
    entries
}

fn to_text(envelope: &Typed) -> String {
    serde_json::to_string(envelope).unwrap()
}

fn from_text(text: &str) -> Result<Typed, serde_json::Error> {
    serde_json::from_str(text)
}

fn bad_request() -> Typed {
    Envelope(RJSend::Error {
        message: String::from("Bad request"),
        code: Some(Number::from(400)),
        data: Some(serde_json::from_str(r#"{"reason":"x"}"#).unwrap()),
    })
}

#[test]
fn serde_writes_a_success() {
    let v: Typed = Envelope(RJSend::Success { data: 42 });
    assert_eq!(to_text(&v), r#"{"status":"success","data":42}"#);
}

#[test]
fn serde_writes_a_failure() {
    let v: Typed = Envelope(RJSend::Fail { data: one_entry("field", "is required") });
    assert_eq!(to_text(&v), r#"{"status":"fail","data":{"field":"is required"}}"#);
}

#[test]
fn serde_writes_an_error_without_optional_fields() {
    let v: Typed = Envelope(RJSend::new_error(String::from("Internal error")));
    assert_eq!(to_text(&v), r#"{"status":"error","message":"Internal error"}"#);
}

#[test]
fn serde_writes_an_error_with_code_and_data() {
    assert_eq!(
        to_text(&bad_request()),
        r#"{"status":"error","message":"Bad request","code":400,"data":{"reason":"x"}}"#
    );
}

#[test]
fn serde_writes_a_borrowed_message() {
    let v: Envelope<i32, i32, &str, i32> =
        Envelope(RJSend::Error { message: "m", code: None, data: Some(7) });
    assert_eq!(serde_json::to_string(&v).unwrap(), r#"{"status":"error","message":"m","data":7}"#);
}

#[test]
fn serde_reads_a_success() {
    assert_eq!(
        from_text(r#"{"status":"success","data":42}"#).unwrap(),
        Envelope(RJSend::Success { data: 42 })
    );
}

#[test]
fn serde_reads_an_error_with_a_message_only() {
    assert_eq!(
        from_text(r#"{"status":"error","message":"oops"}"#).unwrap(),
        Envelope(RJSend::Error { message: String::from("oops"), code: None, data: None })
    );
}

#[test]
fn serde_refuses_an_unknown_status() {
    let refused = from_text(r#"{"status":"bogus"}"#).unwrap_err();
    assert_eq!(
        refused.to_string(),
        "unknown status, expected one of `success`, `fail`, `error`"
    );
}

#[test]
fn serde_refuses_a_payload_of_another_type() {
    assert!(from_text(r#"{"status":"success","data":"forty-two"}"#).is_err());
    assert!(from_text(r#"{"status":"fail","data":[1]}"#).is_err());
}

#[test]
fn serde_refuses_what_is_no_object() {
    assert!(from_text("[]").is_err());
    assert!(from_text(r#""success""#).is_err());
}

#[test]
fn serde_reads_back_what_it_wrote() {
    let values: Vec<Typed> = vec![
        Envelope(RJSend::Success { data: -1 }),
        Envelope(RJSend::Fail { data: one_entry("field", "is required") }),
        Envelope(RJSend::new_error(String::from("Internal error"))),
        bad_request(),
    ];
    for v in values {
        assert_eq!(from_text(&to_text(&v)).unwrap(), v);
    }
}
