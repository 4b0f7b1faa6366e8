//! Typed model of the Alexa skill request/response wire protocol.
//!
//! The protocol exchanges JSON envelopes whose enumerated fields are open:
//! a fixed set of known wire strings plus arbitrary unrecognized values that
//! must round-trip losslessly.  Every enumeration here therefore carries an
//! `Other(String)` variant, and encoding/decoding is specified and proved
//! against the [`codec::OpenEnum`] contract.  The composite [`locale::Locale`]
//! splits a `language[-region]` string into two such enumerations and is
//! proved to format back to the exact string it was parsed from.

pub mod audioplayer;
pub mod codec;
pub mod display;
pub mod kv;
pub mod locale;
pub mod request;
pub mod response;

pub use self::request::RequestEnvelope;
pub use self::response::ResponseEnvelope;
