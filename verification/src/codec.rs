//! The mapping between envelopes and wire objects.

use vstd::prelude::*;
use vstd::string::StringExecFns;
use crate::envelope::{ErrorFields, RJSend};
use crate::wire::{lemma_key_names_differ, lemma_lookup_any_order, lemma_tokens_differ};
use crate::wire::{lookup, no_key_twice, ObjectView};
use crate::wire::{Status, WireField, WireKey, WireObject, WireValue, WireValueView};

verus! {

/// An envelope as the codec takes and gives it: the message is a text, and
/// each payload is a wire value.
pub type WireEnvelope<P> = RJSend<WireValue<P>, WireValue<P>, String, WireValue<P>>;

/// What a [`WireEnvelope`] holds.
pub type EnvelopeView<P> = RJSend<WireValueView<P>, WireValueView<P>, Seq<char>, WireValueView<P>>;

/// Why a wire object is no envelope.
#[derive(Debug, Clone, Copy, PartialEq, Eq)]
pub enum DecodeError {
    /// No field stands under a key that the state requires.
    MissingField(WireKey),
    /// The first field under the key holds a value of another kind than the
    /// format asks for.
    WrongKind(WireKey),
    /// The text under `status` is none of the three tokens.
    UnknownStatus,
}

impl DecodeError {
    /// The refusal in words.
    pub open spec fn text(self) -> Seq<char> {
        match self {
            DecodeError::MissingField(key) => "missing field `"@ + key.text() + "`"@,
            DecodeError::WrongKind(key) => "invalid type for field `"@ + key.text() + "`"@,
            DecodeError::UnknownStatus =>
                "unknown status, expected one of `success`, `fail`, `error`"@,
        }
    }

    /// Whether any wire object is refused for this reason: no state requires
    /// `code`, and `data` may be of any kind.
    pub open spec fn occurs(self) -> bool {
        match self {
            DecodeError::MissingField(key) => key != WireKey::Code,
            DecodeError::WrongKind(key) => key != WireKey::Data,
            DecodeError::UnknownStatus => true,
        }
    }

    /// The refusal in words, for a reader of the wire object.
    pub fn message(&self) -> (r: String)
        ensures
            r@ == self.text(),
    {
        match self {
            DecodeError::MissingField(key) => {
                let mut message = String::from_str("missing field `");
                message.append(key.name());
                message.append("`");
                message
            },
            DecodeError::WrongKind(key) => {
                let mut message = String::from_str("invalid type for field `");
                message.append(key.name());
                message.append("`");
                message
            },
            DecodeError::UnknownStatus => String::from_str(
                "unknown status, expected one of `success`, `fail`, `error`",
            ),
        }
    }
}

impl<D, FD, Msg, ED> RJSend<D, FD, Msg, ED> {
    /// The state that the envelope is in.
    pub open spec fn state(self) -> Status {
        match self {
            RJSend::Success { .. } => Status::Success,
            RJSend::Fail { .. } => Status::Fail,
            RJSend::Error { .. } => Status::Error,
        }
    }

    /// The number of fields that the envelope is written with: two, and one
    /// more for each of `code` and `data` that an error holds.
    pub open spec fn fields_written(self) -> nat {
        match self {
            RJSend::Error { code, data, .. } => {
                2 + (if code is Some { 1nat } else { 0nat }) + (if data is Some { 1nat } else { 0nat })
            },
            _ => 2,
        }
    }

    /// The state that the envelope is in.
    pub fn status(&self) -> (r: Status)
        ensures
            r == self.state(),
    {
        match self {
            RJSend::Success { .. } => Status::Success,
            RJSend::Fail { .. } => Status::Fail,
            RJSend::Error { .. } => Status::Error,
        }
    }

    /// The number of fields that the envelope is written with, known before
    /// the first is written.
    pub fn field_count(&self) -> (n: usize)
        ensures
            n == self.fields_written(),
    {
        match self {
            RJSend::Error { code, data, .. } => {
                let with_code: usize = if code.is_some() { 1 } else { 0 };
                let with_data: usize = if data.is_some() { 1 } else { 0 };
                2 + with_code + with_data
            },
            _ => 2,
        }
    }
}

/// The field that tells the state.
pub open spec fn status_field<P>(status: Status) -> (Seq<char>, WireValueView<P>) {
    (WireKey::Status.text(), WireValueView::Text(status.text()))
}

/// The field under `key`, where there is a value to write; no field where
/// there is none.
pub open spec fn optional_field<P>(key: WireKey, value: Option<WireValueView<P>>) -> ObjectView<P> {
    match value {
        Some(value) => seq![(key.text(), value)],
        None => Seq::empty(),
    }
}

/// The wire value of a code.
pub open spec fn code_value<P>(code: Option<serde_json::Number>) -> Option<WireValueView<P>> {
    match code {
        Some(number) => Some(WireValueView::Number(number)),
        None => None,
    }
}

/// The wire object of an envelope. A success and a failure are written as
/// `status` and `data`; an error as `status`, `message`, then `code` and
/// `data` as far as it holds them.
pub open spec fn encode<P>(envelope: EnvelopeView<P>) -> ObjectView<P> {
    match envelope {
        RJSend::Success { data } => seq![status_field(Status::Success), (WireKey::Data.text(), data)],
        RJSend::Fail { data } => seq![status_field(Status::Fail), (WireKey::Data.text(), data)],
        RJSend::Error { message, code, data } => seq![
            status_field(Status::Error),
            (WireKey::Message.text(), WireValueView::Text(message)),
        ] + optional_field(WireKey::Code, code_value(code)) + optional_field(WireKey::Data, data),
    }
}

/// The envelope that the fields of an error make. `message` is required and
/// a text; `code`, where a field stands under the key, a number.
pub open spec fn decode_error<P>(object: ObjectView<P>) -> Result<EnvelopeView<P>, DecodeError> {
    match lookup(object, WireKey::Message.text()) {
        None => Err(DecodeError::MissingField(WireKey::Message)),
        Some(WireValueView::Text(message)) => match lookup(object, WireKey::Code.text()) {
            None => Ok(
                RJSend::Error { message, code: None, data: lookup(object, WireKey::Data.text()) },
            ),
            Some(WireValueView::Number(number)) => Ok(
                RJSend::Error {
                    message,
                    code: Some(number),
                    data: lookup(object, WireKey::Data.text()),
                },
            ),
            Some(_) => Err(DecodeError::WrongKind(WireKey::Code)),
        },
        Some(_) => Err(DecodeError::WrongKind(WireKey::Message)),
    }
}

/// The payload that a success or a failure requires under `data`.
pub open spec fn decode_data<P>(object: ObjectView<P>) -> Result<WireValueView<P>, DecodeError> {
    match lookup(object, WireKey::Data.text()) {
        Some(data) => Ok(data),
        None => Err(DecodeError::MissingField(WireKey::Data)),
    }
}

/// The envelope of a wire object, or why it is none. Under each key the
/// first field counts, wherever it stands; fields under other keys, and
/// under keys that the state does not ask for, are passed over.
pub open spec fn decode<P>(object: ObjectView<P>) -> Result<EnvelopeView<P>, DecodeError> {
    match lookup(object, WireKey::Status.text()) {
        None => Err(DecodeError::MissingField(WireKey::Status)),
        Some(WireValueView::Text(token)) => match Status::of_token(token) {
            None => Err(DecodeError::UnknownStatus),
            Some(Status::Success) => match decode_data(object) {
                Ok(data) => Ok(RJSend::Success { data }),
                Err(error) => Err(error),
            },
            Some(Status::Fail) => match decode_data(object) {
                Ok(data) => Ok(RJSend::Fail { data }),
                Err(error) => Err(error),
            },
            Some(Status::Error) => decode_error(object),
        },
        Some(_) => Err(DecodeError::WrongKind(WireKey::Status)),
    }
}

/// What the outcome of a decoding holds.
pub open spec fn outcome_view<P>(outcome: Result<WireEnvelope<P>, DecodeError>) -> Result<
    EnvelopeView<P>,
    DecodeError,
> {
    match outcome {
        Ok(envelope) => Ok(envelope@),
        Err(error) => Err(error),
    }
}

/// What a slot holds that a pass over a wire object has filled.
spec fn slot_view<P>(slot: Option<WireValue<P>>) -> Option<WireValueView<P>> {
    match slot {
        Some(value) => Some(value@),
        None => None,
    }
}

/// The field under `key` with this value.
fn field_of<P>(key: WireKey, value: WireValue<P>) -> (field: WireField<P>)
    ensures
        field@ == (key.text(), value@),
{
    WireField { key: String::from_str(key.name()), value }
}

impl<P> RJSend<WireValue<P>, WireValue<P>, String, WireValue<P>> {
    /// Writes the envelope as a wire object.
    pub fn serialize(self) -> (object: WireObject<P>)
        ensures
            object@ == encode(self@),
            object.fields@.len() == self.fields_written(),
    {
        let mut fields: Vec<WireField<P>> = Vec::with_capacity(self.field_count());
        match self {
            RJSend::Success { data } => {
                fields.push(
                    field_of(WireKey::Status, WireValue::Text(String::from_str(Status::Success.token()))),
                );
                fields.push(field_of(WireKey::Data, data));
            },
            RJSend::Fail { data } => {
                fields.push(
                    field_of(WireKey::Status, WireValue::Text(String::from_str(Status::Fail.token()))),
                );
                fields.push(field_of(WireKey::Data, data));
            },
            RJSend::Error { message, code, data } => {
                fields.push(
                    field_of(WireKey::Status, WireValue::Text(String::from_str(Status::Error.token()))),
                );
                fields.push(field_of(WireKey::Message, WireValue::Text(message)));
                match code {
                    Some(code) => fields.push(field_of(WireKey::Code, WireValue::Number(code))),
                    None => {},
                }
                match data {
                    Some(data) => fields.push(field_of(WireKey::Data, data)),
                    None => {},
                }
            },
        }
        let object = WireObject { fields };
        assert(object@ =~= encode(self@));
        object
    }

    /// Reads a wire object as an envelope, or says why it is none.
    pub fn deserialize(object: WireObject<P>) -> (outcome: Result<Self, DecodeError>)
        ensures
            outcome_view(outcome) == decode(object@),
    {
        let ghost all = object@;
        let mut fields = object.fields;
        let mut status: Option<WireValue<P>> = None;
        let mut message: Option<WireValue<P>> = None;
        let mut code: Option<WireValue<P>> = None;
        let mut data: Option<WireValue<P>> = None;
        assert(all.subrange(all.len() as int, all.len() as int) =~= Seq::empty());
        while fields.len() > 0
            invariant
                fields@.len() <= all.len(),
                forall|i: int| 0 <= i < fields@.len() ==> (#[trigger] fields@[i])@ == all[i],
                slot_view(status) == lookup(
                    all.subrange(fields@.len() as int, all.len() as int),
                    WireKey::Status.text(),
                ),
                slot_view(message) == lookup(
                    all.subrange(fields@.len() as int, all.len() as int),
                    WireKey::Message.text(),
                ),
                slot_view(code) == lookup(
                    all.subrange(fields@.len() as int, all.len() as int),
                    WireKey::Code.text(),
                ),
                slot_view(data) == lookup(
                    all.subrange(fields@.len() as int, all.len() as int),
                    WireKey::Data.text(),
                ),
            decreases fields@.len(),
        {
            let ghost rest = all.subrange(fields@.len() as int, all.len() as int);
            let ghost from_here = all.subrange(fields@.len() - 1, all.len() as int);
            let field = fields.pop().unwrap();
            proof {
                lemma_key_names_differ();
                assert(from_here[0] == field@);
                assert(from_here.drop_first() =~= rest);
            }
            let WireField { key, value } = field;
            match WireKey::from_name(key.as_str()) {
                Some(WireKey::Status) => {
                    status = Some(value);
                },
                Some(WireKey::Message) => {
                    message = Some(value);
                },
                Some(WireKey::Code) => {
                    code = Some(value);
                },
                Some(WireKey::Data) => {
                    data = Some(value);
                },
                None => {},
            }
        }
        assert(all.subrange(0, all.len() as int) =~= all);
        let token = match status {
            None => {
                return Err(DecodeError::MissingField(WireKey::Status));
            },
            Some(WireValue::Text(token)) => token,
            Some(_) => {
                return Err(DecodeError::WrongKind(WireKey::Status));
            },
        };
        match Status::from_token(token.as_str()) {
            None => Err(DecodeError::UnknownStatus),
            Some(Status::Success) => match data {
                Some(data) => Ok(RJSend::Success { data }),
                None => Err(DecodeError::MissingField(WireKey::Data)),
            },
            Some(Status::Fail) => match data {
                Some(data) => Ok(RJSend::Fail { data }),
                None => Err(DecodeError::MissingField(WireKey::Data)),
            },
            Some(Status::Error) => {
                let message = match message {
                    None => {
                        return Err(DecodeError::MissingField(WireKey::Message));
                    },
                    Some(WireValue::Text(message)) => message,
                    Some(_) => {
                        return Err(DecodeError::WrongKind(WireKey::Message));
                    },
                };
                let code = match code {
                    None => None,
                    Some(WireValue::Number(number)) => Some(number),
                    Some(_) => {
                        return Err(DecodeError::WrongKind(WireKey::Code));
                    },
                };
                Ok(RJSend::from_error_fields(ErrorFields { message, code, data }))
            },
        }
    }
}

/// What was written is read back: the wire object of an envelope decodes to
/// that envelope.
pub proof fn lemma_round_trip<P>(envelope: EnvelopeView<P>)
    ensures
        decode(encode(envelope)) == Ok::<EnvelopeView<P>, DecodeError>(envelope),
{
    lemma_encoded_fields(envelope);
    lemma_tokens_differ();
}

/// A key stands in the wire object of an envelope if and only if the
/// envelope holds a value for it, and then with that value: `status` always,
/// `message` for an error, `code` for an error that has one, `data` for a
/// success, a failure and an error that has some. Nothing else is written.
pub proof fn lemma_encoded_fields<P>(envelope: EnvelopeView<P>)
    ensures
        encode(envelope).len() == envelope.fields_written(),
        no_key_twice(encode(envelope)),
        forall|i: int|
            0 <= i < encode(envelope).len() ==> WireKey::named(
                (#[trigger] encode(envelope)[i]).0,
            ) is Some,
        lookup(encode(envelope), WireKey::Status.text()) == Some(
            WireValueView::<P>::Text(envelope.state().text()),
        ),
        lookup(encode(envelope), WireKey::Message.text()) == (match envelope {
            RJSend::Error { message, .. } => Some(WireValueView::<P>::Text(message)),
            _ => None,
        }),
        lookup(encode(envelope), WireKey::Code.text()) == (match envelope {
            RJSend::Error { code, .. } => code_value::<P>(code),
            _ => None,
        }),
        lookup(encode(envelope), WireKey::Data.text()) == (match envelope {
            RJSend::Success { data } => Some(data),
            RJSend::Fail { data } => Some(data),
            RJSend::Error { data, .. } => data,
        }),
{
    lemma_key_names_differ();
    reveal_with_fuel(lookup, 5);
    let object = encode(envelope);
    assert(object.drop_first().len() == object.len() - 1);
    if object.len() > 2 {
        assert(object.drop_first().drop_first().len() == object.len() - 2);
    }
    if object.len() > 3 {
        assert(object.drop_first().drop_first().drop_first().len() == object.len() - 3);
    }
}

/// The state of a decoded envelope is the one that the token under `status`
/// tells: where there is no such token, there is no envelope.
pub proof fn lemma_status_decides<P>(object: ObjectView<P>)
    requires
        decode(object) is Ok,
    ensures
        lookup(object, WireKey::Status.text()) == Some(
            WireValueView::<P>::Text(decode(object)->Ok_0.state().text()),
        ),
{
    lemma_tokens_differ();
    let found = lookup(object, WireKey::Status.text());
    match found {
        Some(WireValueView::Text(token)) => {
            assert(Status::of_token(token) is Some);
            assert(token == Status::of_token(token)->0.text());
        },
        _ => {},
    }
}

/// A wire object is refused for one of seven reasons: it lacks `status`, the
/// `data` of a success or failure, or the `message` of an error; `status` or
/// `message` is no text, or `code` no number; or the status is unknown.
pub proof fn lemma_refusals<P>(object: ObjectView<P>)
    ensures
        decode(object) matches Err(error) ==> error.occurs(),
{
}

/// Decoding reads the first field under each of the four keys and nothing
/// else: two wire objects that agree there decode alike, in whatever order
/// their fields stand and whatever other fields they hold.
pub proof fn lemma_decode_reads_four_keys<P>(first: ObjectView<P>, second: ObjectView<P>)
    requires
        forall|key: WireKey| lookup(first, #[trigger] key.text()) == lookup(second, key.text()),
    ensures
        decode(first) == decode(second),
{
    assert(lookup(first, WireKey::Status.text()) == lookup(second, WireKey::Status.text()));
    assert(lookup(first, WireKey::Message.text()) == lookup(second, WireKey::Message.text()));
    assert(lookup(first, WireKey::Code.text()) == lookup(second, WireKey::Code.text()));
    assert(lookup(first, WireKey::Data.text()) == lookup(second, WireKey::Data.text()));
}

/// The order of the fields does not count: two wire objects in which no key
/// stands twice and which hold the same fields decode alike.
pub proof fn lemma_order_does_not_count<P>(first: ObjectView<P>, second: ObjectView<P>)
    requires
        no_key_twice(first),
        no_key_twice(second),
        forall|field: (Seq<char>, WireValueView<P>)|
            first.contains(field) <==> second.contains(field),
    ensures
        decode(first) == decode(second),
{
    assert forall|key: WireKey| lookup(first, #[trigger] key.text()) == lookup(
        second,
        key.text(),
    ) by {
        lemma_lookup_any_order(first, second, key.text());
    }
    lemma_decode_reads_four_keys(first, second);
}

} // verus!
