//! Runtime configuration of loggers: configuration values of open-ended kinds
//! are read from self-describing documents and turned into loggers by the
//! factory registered for their exact kind.
use vstd::prelude::*;

pub mod common;
pub mod decode;
pub mod factory;
pub mod identity;
pub mod levels;
pub mod output;
pub mod tagged;
pub mod ty;
pub mod value;

use crate::identity::ConfigId;

pub use crate::ty::plain::{Config as PlainConfig, Factory as PlainFactory};
pub use crate::ty::{build, deserializers, factories};

verus! {

/// Relies on `std::io::Error` as an opaque value that a failed build carries.
#[verifier::external_type_specification]
#[verifier::external_body]
pub struct ExIoError(std::io::Error);

/// An error that can occur when building a logger.
#[derive(Debug)]
pub enum Error {
    /// No factory is registered for the identity of the configuration.
    Unsupported(ConfigId),
    /// An I/O error.
    Io(std::io::Error),
    /// An unspecified error with a message describing the failure.
    Msg(String),
}

impl Error {
    /// Creates a new, unspecified error with the provided message.
    pub fn msg(msg: &str) -> (r: Error)
        ensures
            r matches Error::Msg(m) && m@ == msg@,
    {
        Error::Msg(msg.to_owned())
    }
}

impl From<std::io::Error> for Error {
    fn from(error: std::io::Error) -> (r: Error) {
        Error::Io(error)
    }
}

impl vstd::std_specs::convert::FromSpecImpl<std::io::Error> for Error {
    open spec fn obeys_from_spec() -> bool {
        true
    }

    open spec fn from_spec(v: std::io::Error) -> Error {
        Error::Io(v)
    }
}

/// The name of the field that holds the type tag of a serialized
/// configuration.
///
/// Configuration types must not have a field of this name.
pub const TYPE_KEY: &'static str = "type";

/// The tags of the configuration types of this crate.
pub const SUPPORTED_TYPES: [&'static str; 4] = ["plain", "term", "json", "null"];

/// The characters of `TYPE_KEY`.
pub open spec fn type_key() -> Seq<char> {
    seq!['t', 'y', 'p', 'e']
}

/// `TYPE_KEY`, with what it holds made known to the verifier.
pub fn type_key_str() -> (r: &'static str)
    ensures
        r@ == type_key(),
{
    proof {
        reveal_strlit("type");
    }
    TYPE_KEY
}

} // verus!
