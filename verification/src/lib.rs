//! A typed envelope for three-state API responses, and its mapping to a
//! JSON-compatible wire object.
//!
//! - [`envelope`]: the envelope, its constructors, extractions and
//!   predicates.
//! - [`codec`]: how an envelope is written as a wire object and read from
//!   one, and what holds of the two together.
//! - [`wire`]: wire objects, their keys and the tokens of the three states.
//! - [`report`]: the text with which a failed unwrap is reported.
//! - [`json`]: what the library takes from `serde_json`.

pub mod json;
pub mod report;
pub mod envelope;
pub mod wire;
pub mod codec;

pub use codec::{DecodeError, WireEnvelope};
pub use envelope::{ErrorFields, RJSend};
pub use report::unwrap_failed;
pub use wire::{Status, WireField, WireKey, WireObject, WireValue};
