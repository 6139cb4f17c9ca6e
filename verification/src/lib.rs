//! Client library for the AirParif pollution-index HTTP API.
//!
//! The heart of the library is the defensive mapping from the service's
//! loosely structured JSON responses to a small set of typed records
//! ([`objects::Index`] and [`objects::Episode`]), with a precise error for
//! every malformed input. The decoding logic is verified; the network call
//! itself lives outside this crate and hands the decoders a status code and
//! a body.

pub mod client;
pub mod dates;
pub mod error;
pub mod jsonval;
pub mod objects;
pub mod strutil;

pub use dates::CivilDate;
