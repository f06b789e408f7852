//! From a run of `cargo locate-project` to the path of the manifest.

use crate::decode::string_from_utf8;
use crate::document::{
    as_str, digit_runs_fit, has_fitting_digit_runs, index, member_text, parse, parsed, reading,
};
use crate::error::{Failure, LocateManifestError};
use vstd::prelude::*;
use vstd::utf8::{decode_utf8, decode_utf8_encode_utf8, encode_utf8, valid_utf8};

verus! {

/// The name of the member of the printed JSON object that holds the manifest's path.
pub const ROOT_KEY: &'static str = "root";

/// What a finished run of the tool left behind.
#[derive(Debug, Clone)]
pub struct Invocation {
    /// Whether the tool reported success by its exit status.
    pub success: bool,
    /// All that the tool wrote to its standard output.
    pub stdout: Vec<u8>,
    /// All that the tool wrote to its standard error.
    pub stderr: Vec<u8>,
}

/// A finished run as plain values.
pub struct InvocationView {
    /// Whether the tool reported success by its exit status.
    pub success: bool,
    /// The bytes of its standard output.
    pub stdout: Seq<u8>,
    /// The bytes of its standard error.
    pub stderr: Seq<u8>,
}

impl View for Invocation {
    type V = InvocationView;

    open spec fn view(&self) -> InvocationView {
        InvocationView { success: self.success, stdout: self.stdout@, stderr: self.stderr@ }
    }
}

/// An attempt to run the tool as plain values: the finished run, or the reason why the tool
/// could not be run.
pub open spec fn attempt(run: Result<Invocation, std::io::Error>) -> Result<
    InvocationView,
    std::io::Error,
> {
    match run {
        Ok(finished) => Ok(finished@),
        Err(cause) => Err(cause),
    }
}

/// A result as plain values: the characters of the path, or the failure.
pub open spec fn outcome(result: Result<String, LocateManifestError>) -> Result<
    Seq<char>,
    Failure,
> {
    match result {
        Ok(path) => Ok(path@),
        Err(error) => Err(error@),
    }
}

/// The text that an attempt yields: the output of a run that reported success, read as
/// UTF-8.
pub open spec fn output_text(run: Result<InvocationView, std::io::Error>) -> Result<
    Seq<char>,
    Failure,
> {
    match run {
        Err(cause) => Err(Failure::Io(cause)),
        Ok(finished) => if !finished.success {
            Err(Failure::CargoExecution(finished.stderr))
        } else if !valid_utf8(finished.stdout) {
            Err(Failure::StringConversion(finished.stdout))
        } else {
            Ok(decode_utf8(finished.stdout))
        },
    }
}

/// The path that the looked-up root yields: the string as it stands, and no path where
/// there is no string.
pub open spec fn root_path(root: Option<Seq<char>>) -> Result<Seq<char>, Failure> {
    match root {
        Some(path) => Ok(path),
        None => Err(Failure::NoRoot),
    }
}

/// The path that a parse yields: the string that stands under [`ROOT_KEY`] among the
/// members of the parsed value.
pub open spec fn document_path(
    document: Result<Map<Seq<char>, Seq<char>>, json::Error>,
) -> Result<Seq<char>, Failure> {
    match document {
        Ok(members) => root_path(member_text(members, ROOT_KEY@)),
        Err(cause) => Err(Failure::ParseJson(cause)),
    }
}

/// The path that an attempt to run the tool yields.
pub open spec fn located(run: Result<InvocationView, std::io::Error>) -> Result<
    Seq<char>,
    Failure,
> {
    match output_text(run) {
        Ok(text) => document_path(parsed(text)),
        Err(failure) => Err(failure),
    }
}

/// What was found under [`ROOT_KEY`], as plain values.
pub open spec fn found(root: Option<&str>) -> Option<Seq<char>> {
    match root {
        Some(text) => Some(text@),
        None => None,
    }
}

/// Turns what was found under [`ROOT_KEY`] into the result: a string is the path, unchanged,
/// and anything else means that there is no root.
pub fn manifest_from_root(root: Option<&str>) -> (result: Result<String, LocateManifestError>)
    ensures
        outcome(result) == root_path(found(root)),
{
    match root {
        Some(text) => Ok(text.to_owned()),
        None => Err(LocateManifestError::NoRoot),
    }
}

/// Turns what the JSON parser returned into the result: a parse error is passed on, and in
/// a parsed value the member named [`ROOT_KEY`] is looked up and must be a string.
pub fn manifest_from_document(
    document: Result<json::JsonValue, json::Error>,
) -> (result: Result<String, LocateManifestError>)
    ensures
        outcome(result) == document_path(reading(document)),
{
    match document {
        Ok(value) => {
            let found = index(&value, ROOT_KEY);
            manifest_from_root(as_str(found))
        },
        Err(cause) => Err(LocateManifestError::ParseJson(cause)),
    }
}

/// Reads the output of an attempt to run the tool as text. Fails where the tool could not
/// be run, where it reported failure (the error then carries its standard error, byte for
/// byte) and where its output is not UTF-8 (the error then holds that output).
pub fn text_from_run(run: Result<Invocation, std::io::Error>) -> (result: Result<
    String,
    LocateManifestError,
>)
    ensures
        outcome(result) == output_text(attempt(run)),
{
    match run {
        Err(cause) => Err(LocateManifestError::Io(cause)),
        Ok(finished) => {
            if !finished.success {
                Err(LocateManifestError::CargoExecution { stderr: finished.stderr })
            } else {
                match string_from_utf8(finished.stdout) {
                    Ok(text) => Ok(text),
                    Err(cause) => Err(LocateManifestError::StringConversion(cause)),
                }
            }
        },
    }
}

/// Whether what this attempt printed can be handed to the JSON parser, should locating come
/// that far: the output of a run that succeeded, where it is UTF-8, holds no more digits in
/// a row than the parser can count (see [`digit_runs_fit`]).
pub open spec fn readable(run: Result<InvocationView, std::io::Error>) -> bool {
    run matches Ok(finished) ==> (finished.success && valid_utf8(finished.stdout)
        ==> digit_runs_fit(finished.stdout))
}

/// Parses the text and turns the parse into the result.
fn manifest_from_text(text: &str) -> (result: Result<String, LocateManifestError>)
    requires
        digit_runs_fit(encode_utf8(text@)),
    ensures
        outcome(result) == document_path(parsed(text@)),
{
    manifest_from_document(parse(text))
}

/// Returns the path of the manifest that a run of `cargo locate-project` reported.
///
/// The steps, each of which ends the call where it fails: the tool must have run, and with
/// success; its output must be UTF-8, and JSON; the JSON must hold a string named `root`.
/// That string is the path, character for character.
///
/// The attempt must be [`readable`]; [`try_locate_manifest`] asks nothing.
pub fn locate_manifest(run: Result<Invocation, std::io::Error>) -> (result: Result<
    String,
    LocateManifestError,
>)
    requires
        readable(attempt(run)),
    ensures
        outcome(result) == located(attempt(run)),
{
    match text_from_run(run) {
        Ok(text) => {
            proof {
                decode_utf8_encode_utf8(run->Ok_0.stdout@);
            }
            manifest_from_text(text.as_str())
        },
        Err(error) => Err(error),
    }
}

/// Does what [`locate_manifest`] does wherever the attempt is [`readable`], and returns
/// `None`, with the parser not called, wherever it is not.
pub fn try_locate_manifest(run: Result<Invocation, std::io::Error>) -> (result: Option<
    Result<String, LocateManifestError>,
>)
    ensures
        result is Some <==> readable(attempt(run)),
        result matches Some(located_path) ==> outcome(located_path) == located(attempt(run)),
{
    match text_from_run(run) {
        Ok(text) => {
            proof {
                decode_utf8_encode_utf8(run->Ok_0.stdout@);
            }
            if has_fitting_digit_runs(text.as_str().as_bytes()) {
                Some(manifest_from_text(text.as_str()))
            } else {
                None
            }
        },
        Err(error) => Some(Err(error)),
    }
}

/// Locating has no memory: two attempts that ended alike (the same failure to run the tool,
/// or the same exit status and the same bytes on both streams) give results that are alike,
/// in the path as in the failure and what it carries.
pub proof fn lemma_alike_runs_locate_alike(
    first_run: Result<Invocation, std::io::Error>,
    second_run: Result<Invocation, std::io::Error>,
    first: Result<String, LocateManifestError>,
    second: Result<String, LocateManifestError>,
)
    requires
        attempt(first_run) == attempt(second_run),
        outcome(first) == located(attempt(first_run)),
        outcome(second) == located(attempt(second_run)),
    ensures
        outcome(first) == outcome(second),
{
}

} // verus!
