//! The envelope and its construction, inspection and extraction.

use vstd::prelude::*;
use core::fmt::Debug;
use core::fmt::Display;
use vstd::std_specs::convert::FromSpecImpl;
use crate::report::unwrap_failed;

verus! {

/// A response in one of three states.
#[derive(Debug, Clone, PartialEq)]
pub enum RJSend<D, FD, Msg = &'static str, ED = serde_json::Value> {
    /// The request succeeded.
    Success { data: D },
    /// The request was refused for a reason that the caller can act on.
    Fail { data: FD },
    /// The server could not handle the request.
    Error { message: Msg, code: Option<serde_json::Number>, data: Option<ED> },
}

/// The fields of an error, free of the two other payload types.
#[derive(Debug, Clone, PartialEq)]
pub struct ErrorFields<Msg, ED> {
    pub message: Msg,
    pub code: Option<serde_json::Number>,
    pub data: Option<ED>,
}

impl<D: View, FD: View, Msg: View, ED: View> View for RJSend<D, FD, Msg, ED> {
    type V = RJSend<D::V, FD::V, Msg::V, ED::V>;

    /// The envelope in the same state, over what its payloads and its
    /// message hold.
    open spec fn view(&self) -> RJSend<D::V, FD::V, Msg::V, ED::V> {
        match *self {
            RJSend::Success { data } => RJSend::Success { data: data@ },
            RJSend::Fail { data } => RJSend::Fail { data: data@ },
            RJSend::Error { message, code, data } => RJSend::Error {
                message: message@,
                code,
                data: match data {
                    Some(data) => Some(data@),
                    None => None,
                },
            },
        }
    }
}

impl<D, FD, Msg, ED> RJSend<D, FD, Msg, ED> {
    /// The fields of an error; meaningful on an error only.
    pub open spec fn error_fields(self) -> ErrorFields<Msg, ED>
        recommends
            self is Error,
    {
        ErrorFields { message: self->message, code: self->code, data: self->Error_data }
    }

    /// The error that holds these fields.
    pub open spec fn of_error_fields(fields: ErrorFields<Msg, ED>) -> Self {
        RJSend::Error { message: fields.message, code: fields.code, data: fields.data }
    }

    /// An error with this message, without code or data.
    pub fn new_error(message: Msg) -> (r: Self)
        ensures
            r == (RJSend::<D, FD, Msg, ED>::Error { message, code: None, data: None }),
    {
        RJSend::Error { message, code: None, data: None }
    }

    /// The error that holds these fields, each as it is.
    pub fn from_error_fields(fields: ErrorFields<Msg, ED>) -> (r: Self)
        ensures
            r == Self::of_error_fields(fields),
    {
        let ErrorFields { message, code, data } = fields;
        RJSend::Error { message, code, data }
    }
}

impl<D, FD, Msg, ED> RJSend<D, FD, Msg, ED> {
    /// The payload of a success. The value must be one: a caller that Verus
    /// has not checked and that hands in another value is stopped with a
    /// report of what the value held.
    pub fn unwrap(self) -> (r: D) where FD: Debug, Msg: Debug, ED: Debug
        requires
            self is Success,
        ensures
            r == self->Success_data,
    {
        match self {
            RJSend::Success { data } => data,
            RJSend::Fail { data } => {
                let report = unwrap_failed("called `RJSend::unwrap()` on a `Fail` value", &data);
                None.expect(report.as_str())
            },
            RJSend::Error { message, code, data } => {
                let report = unwrap_failed(
                    "called `RJSend::unwrap()` on an `Error` value",
                    &ErrorFields { message, code, data },
                );
                None.expect(report.as_str())
            },
        }
    }

    /// The payload of a failure, which the value must be; see
    /// [`RJSend::unwrap`].
    pub fn unwrap_fail(self) -> (r: FD) where D: Debug, Msg: Debug, ED: Debug
        requires
            self is Fail,
        ensures
            r == self->Fail_data,
    {
        match self {
            RJSend::Fail { data } => data,
            RJSend::Success { data } => {
                let report = unwrap_failed(
                    "called `RJSend::unwrap_fail()` on a `Success` value",
                    &data,
                );
                None.expect(report.as_str())
            },
            RJSend::Error { message, code, data } => {
                let report = unwrap_failed(
                    "called `RJSend::unwrap_fail` on an `Error` value",
                    &ErrorFields { message, code, data },
                );
                None.expect(report.as_str())
            },
        }
    }

    /// The fields of an error, which the value must be; see
    /// [`RJSend::unwrap`].
    pub fn unwrap_error(self) -> (r: ErrorFields<Msg, ED>) where D: Debug, FD: Debug
        requires
            self is Error,
        ensures
            r == self.error_fields(),
    {
        match self {
            RJSend::Error { message, code, data } => ErrorFields { message, code, data },
            RJSend::Success { data } => {
                let report = unwrap_failed(
                    "called `RJSend::unwrap_error()` on a `Success` value",
                    &data,
                );
                None.expect(report.as_str())
            },
            RJSend::Fail { data } => {
                let report = unwrap_failed(
                    "called `RJSend::unwrap_error()` on a `Fail` value",
                    &data,
                );
                None.expect(report.as_str())
            },
        }
    }

    /// The payload of a success, or `default`.
    pub fn unwrap_or(self, default: D) -> (r: D)
        ensures
            self is Success ==> r == self->Success_data,
            !(self is Success) ==> r == default,
    {
        match self {
            RJSend::Success { data } => data,
            _ => default,
        }
    }

    /// The payload of a success, or what `f` gives. `f` is called on no
    /// success, and once on every other value.
    pub fn unwrap_or_else<F>(self, f: F) -> (r: D) where F: FnOnce() -> D
        requires
            !(self is Success) ==> f.requires(()),
        ensures
            self is Success ==> r == self->Success_data,
            !(self is Success) ==> f.ensures((), r),
    {
        match self {
            RJSend::Success { data } => data,
            _ => f(),
        }
    }

    /// The payload of a success, or the default of its type.
    pub fn unwrap_or_default(self) -> (r: D) where D: Default
        ensures
            self is Success ==> r == self->Success_data,
            !(self is Success) ==> D::default.ensures((), r),
    {
        self.unwrap_or_else(Default::default)
    }
}

impl<D, FD, Msg, ED> RJSend<D, FD, Msg, ED> {
    /// The payload of a success, which the value must be. A caller that
    /// Verus has not checked and that hands in another value is stopped
    /// with `msg` and a rendering of what the value held.
    pub fn expect(self, msg: &str) -> (r: D) where FD: Debug, Msg: Debug, ED: Debug
        requires
            self is Success,
        ensures
            r == self->Success_data,
    {
        match self {
            RJSend::Success { data } => data,
            RJSend::Fail { data } => {
                let report = unwrap_failed(msg, &data);
                None.expect(report.as_str())
            },
            RJSend::Error { message, code, data } => {
                let report = unwrap_failed(msg, &ErrorFields { message, code, data });
                None.expect(report.as_str())
            },
        }
    }

    /// The payload of a failure, which the value must be; `msg` is as in
    /// [`RJSend::expect`].
    pub fn expect_fail(self, msg: &str) -> (r: FD) where D: Debug, Msg: Debug, ED: Debug
        requires
            self is Fail,
        ensures
            r == self->Fail_data,
    {
        match self {
            RJSend::Fail { data } => data,
            RJSend::Success { data } => {
                let report = unwrap_failed(msg, &data);
                None.expect(report.as_str())
            },
            RJSend::Error { message, code, data } => {
                let report = unwrap_failed(msg, &ErrorFields { message, code, data });
                None.expect(report.as_str())
            },
        }
    }

    /// The fields of an error, which the value must be; `msg` is as in
    /// [`RJSend::expect`].
    pub fn expect_error(self, msg: &str) -> (r: ErrorFields<Msg, ED>) where D: Debug, FD: Debug
        requires
            self is Error,
        ensures
            r == self.error_fields(),
    {
        match self {
            RJSend::Error { message, code, data } => ErrorFields { message, code, data },
            RJSend::Success { data } => {
                let report = unwrap_failed(msg, &data);
                None.expect(report.as_str())
            },
            RJSend::Fail { data } => {
                let report = unwrap_failed(msg, &data);
                None.expect(report.as_str())
            },
        }
    }
}

impl<D, FD, Msg, ED> RJSend<D, FD, Msg, ED> {
    /// The payload of a success, if this is one.
    pub fn success(self) -> (r: Option<D>)
        ensures
            self is Success ==> r == Some(self->Success_data),
            !(self is Success) ==> r is None,
    {
        match self {
            RJSend::Success { data } => Some(data),
            _ => None,
        }
    }

    /// The payload of a failure, if this is one.
    pub fn fail(self) -> (r: Option<FD>)
        ensures
            self is Fail ==> r == Some(self->Fail_data),
            !(self is Fail) ==> r is None,
    {
        match self {
            RJSend::Fail { data } => Some(data),
            _ => None,
        }
    }

    /// The fields of an error, if this is one.
    pub fn error(self) -> (r: Option<ErrorFields<Msg, ED>>)
        ensures
            self is Error ==> r == Some(self.error_fields()),
            !(self is Error) ==> r is None,
    {
        match self {
            RJSend::Error { message, code, data } => Some(ErrorFields { message, code, data }),
            _ => None,
        }
    }
}

impl<D, FD, Msg, ED> RJSend<D, FD, Msg, ED> {
    /// Whether this is a success.
    #[must_use]
    pub fn is_success(&self) -> (r: bool)
        ensures
            r == (self is Success),
    {
        matches!(self, RJSend::Success { .. })
    }

    /// Whether this is a success whose payload `f` accepts.
    #[must_use]
    pub fn is_success_and<F: FnOnce(D) -> bool>(self, f: F) -> (r: bool)
        requires
            self is Success ==> f.requires((self->Success_data,)),
        ensures
            self is Success ==> f.ensures((self->Success_data,), r),
            !(self is Success) ==> !r,
    {
        match self {
            RJSend::Success { data } => f(data),
            _ => false,
        }
    }
    /// Whether this is a failure.
    #[must_use]
    pub fn is_fail(&self) -> (r: bool)
        ensures
            r == (self is Fail),
    {
        matches!(self, RJSend::Fail { .. })
    }

    /// Whether this is a failure whose payload `f` accepts.
    #[must_use]
    pub fn is_fail_and<F: FnOnce(FD) -> bool>(self, f: F) -> (r: bool)
        requires
            self is Fail ==> f.requires((self->Fail_data,)),
        ensures
            self is Fail ==> f.ensures((self->Fail_data,), r),
            !(self is Fail) ==> !r,
    {
        match self {
            RJSend::Fail { data } => f(data),
            _ => false,
        }
    }

    /// Whether this is an error.
    #[must_use]
    pub fn is_error(&self) -> (r: bool)
        ensures
            r == (self is Error),
    {
        matches!(self, RJSend::Error { .. })
    }

    /// Whether this is an error whose fields `f` accepts.
    #[must_use]
    pub fn is_error_and<F: FnOnce(ErrorFields<Msg, ED>) -> bool>(self, f: F) -> (r: bool)
        requires
            self is Error ==> f.requires((self.error_fields(),)),
        ensures
            self is Error ==> f.ensures((self.error_fields(),), r),
            !(self is Error) ==> !r,
    {
        match self {
            RJSend::Error { message, code, data } => f(ErrorFields { message, code, data }),
            _ => false,
        }
    }
}

impl<D, FD, ED> RJSend<D, FD, String, ED> {
    /// The error that `data` describes: its message is what `data` displays,
    /// and `data` itself goes along. It has no code.
    pub fn from_error(data: ED) -> (r: Self) where ED: Display
        ensures
            r is Error,
            vstd::string::to_string_from_display_ensures::<ED>(&data, r->message),
            r->code is None,
            r->Error_data == Some(data),
    {
        let message = data.to_string();
        RJSend::Error { message, code: None, data: Some(data) }
    }
}

impl<D, FD, Msg, ED> From<ErrorFields<Msg, ED>> for RJSend<D, FD, Msg, ED> {
    fn from(fields: ErrorFields<Msg, ED>) -> (r: Self) {
        Self::from_error_fields(fields)
    }
}

impl<D, FD, Msg, ED> FromSpecImpl<ErrorFields<Msg, ED>> for RJSend<D, FD, Msg, ED> {
    open spec fn obeys_from_spec() -> bool {
        true
    }

    open spec fn from_spec(fields: ErrorFields<Msg, ED>) -> Self {
        Self::of_error_fields(fields)
    }
}

impl<D, FD, ED> From<ED> for RJSend<D, FD, String, ED> where ED: Display {
    fn from(data: ED) -> (r: Self)
        ensures
            r is Error,
            vstd::string::to_string_from_display_ensures::<ED>(&data, r->message),
            r->code is None,
            r->Error_data == Some(data),
    {
        Self::from_error(data)
    }
}

impl<D, FD, ED> FromSpecImpl<ED> for RJSend<D, FD, String, ED> where ED: Display {
    open spec fn obeys_from_spec() -> bool {
        false
    }

    open spec fn from_spec(data: ED) -> Self {
        RJSend::Error { message: arbitrary(), code: None, data: Some(data) }
    }
}

/// Error fields and the error that holds them are two forms of one thing:
/// to lift fields into an error and take them out again, or the other way
/// round, changes nothing.
pub proof fn lemma_error_fields_lossless<D, FD, Msg, ED>(
    fields: ErrorFields<Msg, ED>,
    envelope: RJSend<D, FD, Msg, ED>,
)
    ensures
        RJSend::<D, FD, Msg, ED>::of_error_fields(fields) is Error,
        RJSend::<D, FD, Msg, ED>::of_error_fields(fields).error_fields() == fields,
        envelope is Error ==> RJSend::<D, FD, Msg, ED>::of_error_fields(envelope.error_fields())
            == envelope,
{
}

} // verus!
