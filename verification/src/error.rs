//! The ways in which locating a manifest fails.

use crate::decode::{lossy_text, rejected_bytes, string_from_utf8_lossy};
use vstd::prelude::*;
use vstd::string::{to_string_from_display_ensures, StringExecFns};

verus! {

/// With what the message of an [`ErrorKind::Io`] begins.
pub const IO_MESSAGE: &'static str =
    "An I/O error occurred while trying to execute `cargo locate-project`: ";

/// With what the message of an [`ErrorKind::CargoExecution`] begins.
pub const EXECUTION_MESSAGE: &'static str =
    "The command `cargo locate-project` did not exit successfully.\nStderr: ";

/// With what the message of an [`ErrorKind::StringConversion`] begins.
pub const CONVERSION_MESSAGE: &'static str =
    "The output of `cargo locate-project` was not valid UTF-8: ";

/// With what the message of an [`ErrorKind::ParseJson`] begins.
pub const PARSE_MESSAGE: &'static str =
    "The output of `cargo locate-project` was not valid JSON: ";

/// The message of an [`ErrorKind::NoRoot`].
pub const NO_ROOT_MESSAGE: &'static str =
    "The JSON output of `cargo locate-project` did not contain the expected \"root\" string.";

/// The error of the operating system, carried through unopened.
#[verifier::external_type_specification]
#[verifier::external_body]
pub struct ExIoError(std::io::Error);

/// Errors that can occur while retrieving the cargo manifest path.
#[derive(Debug)]
pub enum LocateManifestError {
    /// An I/O error that occurred while trying to execute `cargo locate-project`.
    Io(std::io::Error),
    /// The command `cargo locate-project` did not exit successfully.
    CargoExecution {
        /// The standard error output of `cargo locate-project`.
        stderr: Vec<u8>,
    },
    /// The output of `cargo locate-project` was not valid UTF-8.
    StringConversion(std::string::FromUtf8Error),
    /// An error occurred while parsing the output of `cargo locate-project` as JSON.
    ParseJson(json::Error),
    /// The JSON output of `cargo locate-project` did not contain the expected "root" string.
    NoRoot,
}

/// What an error is to a contract: its kind, and with it what it carries.
pub enum Failure {
    /// The program could not be run; the cause is that of the operating system.
    Io(std::io::Error),
    /// The program ran and reported failure; these are the bytes of its standard error.
    CargoExecution(Seq<u8>),
    /// The program's output is not UTF-8; these are the bytes of that output.
    StringConversion(Seq<u8>),
    /// The program's output is no JSON; the cause is that of the parser.
    ParseJson(json::Error),
    /// The JSON holds no string named `root`.
    NoRoot,
}

impl View for LocateManifestError {
    type V = Failure;

    open spec fn view(&self) -> Failure {
        match *self {
            LocateManifestError::Io(cause) => Failure::Io(cause),
            LocateManifestError::CargoExecution { stderr } => Failure::CargoExecution(stderr@),
            LocateManifestError::StringConversion(cause) => Failure::StringConversion(
                rejected_bytes(cause),
            ),
            LocateManifestError::ParseJson(cause) => Failure::ParseJson(cause),
            LocateManifestError::NoRoot => Failure::NoRoot,
        }
    }
}

/// The five ways of failing, without what they carry.
#[derive(Debug, Clone, Copy, PartialEq, Eq, Structural)]
pub enum ErrorKind {
    /// The program could not be run.
    Io,
    /// The program ran and reported failure.
    CargoExecution,
    /// The program's output is not UTF-8.
    StringConversion,
    /// The program's output is no JSON.
    ParseJson,
    /// The JSON holds no string named `root`.
    NoRoot,
}

/// With what the message of each kind begins; for [`ErrorKind::NoRoot`] it is the whole
/// message.
pub open spec fn message_head(kind: ErrorKind) -> Seq<char> {
    match kind {
        ErrorKind::Io => IO_MESSAGE@,
        ErrorKind::CargoExecution => EXECUTION_MESSAGE@,
        ErrorKind::StringConversion => CONVERSION_MESSAGE@,
        ErrorKind::ParseJson => PARSE_MESSAGE@,
        ErrorKind::NoRoot => NO_ROOT_MESSAGE@,
    }
}

/// The message of an error of the given kind whose cause reads `detail`: the head of the
/// kind, followed by the detail unless the kind carries nothing.
pub open spec fn message_text(kind: ErrorKind, detail: Seq<char>) -> Seq<char> {
    if kind == ErrorKind::NoRoot {
        message_head(kind)
    } else {
        message_head(kind) + detail
    }
}

/// Writes the message of an error of the given kind whose cause reads `detail`.
pub fn compose_message(kind: ErrorKind, detail: &str) -> (text: String)
    ensures
        text@ == message_text(kind, detail@),
{
    match kind {
        ErrorKind::Io => with_detail(IO_MESSAGE, detail),
        ErrorKind::CargoExecution => with_detail(EXECUTION_MESSAGE, detail),
        ErrorKind::StringConversion => with_detail(CONVERSION_MESSAGE, detail),
        ErrorKind::ParseJson => with_detail(PARSE_MESSAGE, detail),
        ErrorKind::NoRoot => NO_ROOT_MESSAGE.to_owned(),
    }
}

fn with_detail(head: &str, detail: &str) -> (text: String)
    ensures
        text@ == head@ + detail@,
{
    let mut text = head.to_owned();
    text.append(detail);
    text
}

impl LocateManifestError {
    /// The kind of this error.
    pub open spec fn spec_kind(&self) -> ErrorKind {
        match *self {
            LocateManifestError::Io(_) => ErrorKind::Io,
            LocateManifestError::CargoExecution { .. } => ErrorKind::CargoExecution,
            LocateManifestError::StringConversion(_) => ErrorKind::StringConversion,
            LocateManifestError::ParseJson(_) => ErrorKind::ParseJson,
            LocateManifestError::NoRoot => ErrorKind::NoRoot,
        }
    }

    /// The kind of this error.
    #[verifier::when_used_as_spec(spec_kind)]
    pub fn kind(&self) -> (kind: ErrorKind)
        ensures
            kind == self.spec_kind(),
    {
        match self {
            LocateManifestError::Io(_) => ErrorKind::Io,
            LocateManifestError::CargoExecution { .. } => ErrorKind::CargoExecution,
            LocateManifestError::StringConversion(_) => ErrorKind::StringConversion,
            LocateManifestError::ParseJson(_) => ErrorKind::ParseJson,
            LocateManifestError::NoRoot => ErrorKind::NoRoot,
        }
    }

    /// Whether `detail` is how the cause of this error reads: for the three kinds that wrap
    /// a cause, what that cause displays; for a failed run, its standard error read
    /// leniently as UTF-8; nothing for a missing root.
    pub open spec fn reads(&self, detail: String) -> bool {
        match *self {
            LocateManifestError::Io(cause) => to_string_from_display_ensures::<std::io::Error>(
                &cause,
                detail,
            ),
            LocateManifestError::CargoExecution { stderr } => detail@ == lossy_text(stderr@),
            LocateManifestError::StringConversion(cause) => to_string_from_display_ensures::<
                std::string::FromUtf8Error,
            >(&cause, detail),
            LocateManifestError::ParseJson(cause) => to_string_from_display_ensures::<
                json::Error,
            >(&cause, detail),
            LocateManifestError::NoRoot => detail@ == Seq::<char>::empty(),
        }
    }

    /// The message of this error: what [`compose_message`] writes for its kind and for how
    /// its cause reads.
    pub fn message(&self) -> (text: String)
        ensures
            exists|detail: String| #[trigger]
                self.reads(detail) && text@ == message_text(self.spec_kind(), detail@),
    {
        let detail = match self {
            LocateManifestError::Io(cause) => cause.to_string(),
            LocateManifestError::CargoExecution { stderr } => string_from_utf8_lossy(stderr),
            LocateManifestError::StringConversion(cause) => cause.to_string(),
            LocateManifestError::ParseJson(cause) => cause.to_string(),
            LocateManifestError::NoRoot => String::new(),
        };
        let text = compose_message(self.kind(), detail.as_str());
        assert(self.reads(detail));
        text
    }
}

impl From<std::io::Error> for LocateManifestError {
    fn from(source: std::io::Error) -> (error: Self) {
        LocateManifestError::Io(source)
    }
}

impl vstd::std_specs::convert::FromSpecImpl<std::io::Error> for LocateManifestError {
    open spec fn obeys_from_spec() -> bool {
        true
    }

    open spec fn from_spec(source: std::io::Error) -> Self {
        LocateManifestError::Io(source)
    }
}

impl From<std::string::FromUtf8Error> for LocateManifestError {
    fn from(source: std::string::FromUtf8Error) -> (error: Self) {
        LocateManifestError::StringConversion(source)
    }
}

impl vstd::std_specs::convert::FromSpecImpl<std::string::FromUtf8Error>
    for LocateManifestError {
    open spec fn obeys_from_spec() -> bool {
        true
    }

    open spec fn from_spec(source: std::string::FromUtf8Error) -> Self {
        LocateManifestError::StringConversion(source)
    }
}

impl From<json::Error> for LocateManifestError {
    fn from(source: json::Error) -> (error: Self) {
        LocateManifestError::ParseJson(source)
    }
}

impl vstd::std_specs::convert::FromSpecImpl<json::Error> for LocateManifestError {
    open spec fn obeys_from_spec() -> bool {
        true
    }

    open spec fn from_spec(source: json::Error) -> Self {
        LocateManifestError::ParseJson(source)
    }
}

} // verus!
