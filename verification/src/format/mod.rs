//! The wire formats a record can be written in.

pub mod csv;

use crate::text::same_text;
use vstd::prelude::*;
use vstd::string::*;

verus! {

/// A wire format, as chosen on the command line.
#[derive(Debug, Clone, Copy, PartialEq, Eq, Structural)]
pub enum Format {
    Json,
    Csv,
}

impl Default for Format {
    fn default() -> (format: Self)
        ensures
            format == Format::Json,
    {
        Format::Json
    }
}

/// How `{:?}` renders a string: in double quotes, with escapes.
pub uninterp spec fn debug_quoted(text: Seq<char>) -> Seq<char>;

/// Renders `text` with the standard library's `Debug` formatting of `str`.
/// The result is named, not described: it is the same for the same text.
#[verifier::external_body]
fn debug_quote(text: &str) -> (out: String)
    ensures
        out@ == debug_quoted(text@),
{
    format!("{:?}", text)
}

impl Format {
    /// The format a name stands for, if any.
    pub open spec fn named(input: Seq<char>) -> Option<Format> {
        if input == "json"@ {
            Some(Format::Json)
        } else if input == "csv"@ {
            Some(Format::Csv)
        } else {
            None
        }
    }

    /// Reads a format from its name: `json` or `csv`, in lower case.
    ///
    /// Any other input is rejected with a message that quotes it.
    pub fn from_str(input: &str) -> (parsed: Result<Format, String>)
        ensures
            match Self::named(input@) {
                Some(format) => parsed == Ok::<Format, String>(format),
                None => parsed is Err && parsed->Err_0@ == "unknown format "@ + debug_quoted(
                    input@,
                ),
            },
    {
        if same_text(input, "json") {
            Ok(Format::Json)
        } else if same_text(input, "csv") {
            Ok(Format::Csv)
        } else {
            let mut message = String::from_str("unknown format ");
            let quoted = debug_quote(input);
            message.append(quoted.as_str());
            Err(message)
        }
    }

    /// The format to use where none was chosen.
    pub fn or_default(chosen: Option<Format>) -> (format: Format)
        ensures
            format == match chosen {
                Some(format) => format,
                None => Format::Json,
            },
    {
        match chosen {
            Some(format) => format,
            None => Format::Json,
        }
    }
}

} // verus!
