//! Where the records go: the sinks a user can choose, and the framing of a
//! formatted record into a line.

use crate::format::Format;
use vstd::prelude::*;
use vstd::string::*;

verus! {

/// Append the records to a file.
#[derive(Debug, Clone)]
pub struct FileOutput {
    /// Format of the output records.
    pub format: Option<Format>,
    /// Path of the file.
    pub output: String,
}

/// Send the records to a Unix socket.
#[derive(Debug, Clone)]
pub struct UnixSocketOutput {
    /// Format of the output records.
    pub format: Option<Format>,
    /// Path of the socket.
    pub output: String,
}

/// Send the records to a TCP server.
#[derive(Debug, Clone)]
pub struct TcpSocketOutput {
    /// Format of the output records.
    pub format: Option<Format>,
    /// Address of the server.
    pub address: String,
}

/// Print the records on standard output.
#[derive(Debug, Clone)]
pub struct StdOutOutput {
    /// Format of the output records.
    pub format: Option<Format>,
}

/// The sink chosen for the records.
#[derive(Debug, Clone)]
pub enum Output {
    File(FileOutput),
    UnixSocket(UnixSocketOutput),
    TcpSocket(TcpSocketOutput),
    Stdout(StdOutOutput),
}

impl Output {
    /// The format chosen for the sink, where one was.
    pub open spec fn chosen_format(&self) -> Option<Format> {
        match self {
            Output::File(sink) => sink.format,
            Output::UnixSocket(sink) => sink.format,
            Output::TcpSocket(sink) => sink.format,
            Output::Stdout(sink) => sink.format,
        }
    }

    /// The format the sink writes in: the one chosen, else the default.
    pub fn format(&self) -> (format: Format)
        ensures
            format == match self.chosen_format() {
                Some(format) => format,
                None => Format::Json,
            },
    {
        match self {
            Output::File(sink) => Format::or_default(sink.format),
            Output::UnixSocket(sink) => Format::or_default(sink.format),
            Output::TcpSocket(sink) => Format::or_default(sink.format),
            Output::Stdout(sink) => Format::or_default(sink.format),
        }
    }
}

/// The line that is written for a formatted record: the text, then one
/// line feed.
pub fn frame_line(formatted: String) -> (line: String)
    ensures
        line@ == formatted@.push('\n'),
{
    let mut line = formatted;
    proof {
        reveal_strlit("\n");
        assert("\n"@ =~= seq!['\n']);
        assert(line@ + seq!['\n'] =~= line@.push('\n'));
    }
    line.append("\n");
    line
}

} // verus!
