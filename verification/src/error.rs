//! The error type shared by the collector.

use vstd::prelude::*;
use vstd::std_specs::convert::FromSpecImpl;
use vstd::string::*;

verus! {

/// `std::io::Error`, carried through as an opaque value.
#[verifier::external_type_specification]
#[verifier::external_body]
pub struct ExIoError(std::io::Error);

/// What can end a task of the collector.
#[derive(Debug)]
pub enum Error {
    /// An input/output failure reported by the operating system.
    Io(std::io::Error),
    /// A failure described in words, such as one reported by the container
    /// runtime.
    Custom(String),
}

impl From<std::io::Error> for Error {
    fn from(err: std::io::Error) -> (out: Self) {
        Error::Io(err)
    }
}

impl FromSpecImpl<std::io::Error> for Error {
    open spec fn obeys_from_spec() -> bool {
        true
    }

    open spec fn from_spec(err: std::io::Error) -> Self {
        Error::Io(err)
    }
}

impl Error {
    /// The text of a `Custom` error; empty for the other variants.
    pub open spec fn text(&self) -> Seq<char> {
        match self {
            Error::Custom(message) => message@,
            Error::Io(_) => Seq::<char>::empty(),
        }
    }

    /// A `Custom` error that reads `context` followed by `detail`.
    pub fn described(context: &str, detail: &str) -> (err: Self)
        ensures
            err is Custom,
            err.text() == context@ + detail@,
    {
        let mut message = String::from_str(context);
        message.append(detail);
        Error::Custom(message)
    }
}

} // verus!
