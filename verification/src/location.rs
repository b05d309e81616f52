//! Where the project's manifest is: read from what the build tool reports
//! when asked to locate the project, a JSON object whose member `root` is the
//! path of the manifest.

use vstd::prelude::*;
use crate::failure::{failure, failure_about, outcome, ErrorKind, Failure, FailureModel};
use crate::report_limits::{report_is_within_limits, report_within_limits};
use crate::process::{command_output, exec_cargo, ProcessEvent, BUILD_TOOL};
use crate::text::views;

verus! {

/// `rustc_serialize::json::Json`, a JSON value. It is carried through as it
/// is: nothing is known of what it holds but what the functions below tell.
#[verifier::external_type_specification]
#[verifier::external_body]
pub struct ExJson(rustc_serialize::json::Json);

/// `rustc_serialize::json::ParserError`, the error of the parser. Nothing is
/// read from it.
#[verifier::external_type_specification]
#[verifier::external_body]
pub struct ExJsonParserError(rustc_serialize::json::ParserError);

/// The value that `text` parses to, where it is valid JSON.
pub uninterp spec fn json_document(text: Seq<char>) -> Option<rustc_serialize::json::Json>;

/// The value that the object `value` holds under `key`.
pub uninterp spec fn json_member(value: rustc_serialize::json::Json, key: Seq<char>) -> Option<
    rustc_serialize::json::Json,
>;

/// The text of `value`, where it is a string.
pub uninterp spec fn json_text(value: rustc_serialize::json::Json) -> Option<Seq<char>>;

/// Parses a JSON value with `Json::from_str`. The outcome depends on the text
/// alone: it succeeds exactly where `json_document` names a value, and gives
/// that value. The parser is sound only on part of its input (it has no limit
/// on nesting, keeps the places of keys in sixteen bits, loses track of the
/// object it is in after a comma before `}`, and computes exponents with a
/// power function of unfixed precision), so only a report within the limits
/// of [`report_within_limits`] is handed to it.
#[verifier::external_body]
fn parse_json(text: &str) -> (r: Result<
    rustc_serialize::json::Json,
    rustc_serialize::json::ParserError,
>)
    requires
        report_within_limits(text@),
    ensures
        match r {
            Ok(document) => json_document(text@) == Some(document),
            Err(_) => json_document(text@) is None,
        },
{
    rustc_serialize::json::Json::from_str(text)
}

/// Looks `key` up with `Json::find`, which gives the member of an object
/// under that key, and nothing where the value is no object or has no such
/// key.
#[verifier::external_body]
fn json_find<'a>(value: &'a rustc_serialize::json::Json, key: &str) -> (r: Option<
    &'a rustc_serialize::json::Json,
>)
    ensures
        match r {
            Some(member) => json_member(*value, key@) == Some(*member),
            None => json_member(*value, key@) is None,
        },
{
    value.find(key)
}

/// Reads a string with `Json::as_string`, which gives the text of a string
/// value and nothing for a value of any other type.
#[verifier::external_body]
fn json_as_string<'a>(value: &'a rustc_serialize::json::Json) -> (r: Option<&'a str>)
    ensures
        match r {
            Some(text) => json_text(*value) == Some(text@),
            None => json_text(*value) is None,
        },
{
    value.as_string()
}

/// The path that the report `text` gives for the manifest: the text of the
/// member `root` of the object that it parses to. A report beyond the limits
/// of the parser gives none.
pub open spec fn reported_root(text: Seq<char>) -> Option<Seq<char>> {
    if !report_within_limits(text) {
        None
    } else {
        match json_document(text) {
            None => None,
            Some(document) => match json_member(document, "root"@) {
                None => None,
                Some(root) => json_text(root),
            },
        }
    }
}

/// The message for a report that names no manifest.
pub open spec fn no_root_message(report: Seq<char>) -> Seq<char> {
    "Cannot find the project root in "@ + report
}

/// The path of the manifest, given the member `root` that was found in
/// `report`, if any: a report without one is a configuration error.
pub open spec fn manifest_path_given(report: Seq<char>, root: Option<Seq<char>>) -> Result<
    Seq<char>,
    FailureModel,
> {
    match root {
        Some(path) => Ok(path),
        None => Err(failure(ErrorKind::Configuration, no_root_message(report))),
    }
}

/// The text of an optional string.
pub open spec fn optional_view(text: Option<String>) -> Option<Seq<char>> {
    match text {
        Some(t) => Some(t@),
        None => None,
    }
}

/// The path of the manifest, given the member `root` that was found in the
/// report, if any.
pub fn manifest_path_from(report: &str, root: Option<String>) -> (r: Result<String, Failure>)
    ensures
        outcome(r) == manifest_path_given(report@, optional_view(root)),
{
    match root {
        Some(path) => Ok(path),
        None => Err(failure_about(ErrorKind::Configuration, "Cannot find the project root in ", report)),
    }
}

/// The path of the manifest, read from the report of the build tool.
pub fn manifest_path(report: &str) -> (r: Result<String, Failure>)
    ensures
        outcome(r) == manifest_path_given(report@, reported_root(report@)),
{
    if !report_is_within_limits(report) {
        return manifest_path_from(report, None);
    }
    let root = match parse_json(report) {
        Err(_) => None,
        Ok(document) => match json_find(&document, "root") {
            None => None,
            Some(root) => match json_as_string(root) {
                None => None,
                Some(path) => Some(path.to_owned()),
            },
        },
    };
    manifest_path_from(report, root)
}

/// The arguments that make the build tool report where the project is.
pub open spec fn locate_arguments_of() -> Seq<Seq<char>> {
    seq!["locate-project"@]
}

/// The arguments of the request to locate the project.
pub fn locate_arguments() -> (args: Vec<String>)
    ensures
        views(args@) == locate_arguments_of(),
{
    let mut args: Vec<String> = Vec::new();
    args.push("locate-project".to_owned());
    assert(views(args@) =~= locate_arguments_of());
    args
}

/// The path of the manifest, given what asking the build tool to locate the
/// project gave: a process error where the request failed, otherwise what
/// its report names.
pub open spec fn located(event: ProcessEvent) -> Result<Seq<char>, FailureModel> {
    match command_output(BUILD_TOOL@, locate_arguments_of(), event) {
        Err(f) => Err(f),
        Ok(streams) => manifest_path_given(streams.0, reported_root(streams.0)),
    }
}

/// The path of the manifest, given what asking the build tool to locate the
/// project gave.
pub fn location(event: ProcessEvent) -> (r: Result<String, Failure>)
    ensures
        outcome(r) == located(event),
{
    let args = locate_arguments();
    match exec_cargo(&args, event) {
        Ok(streams) => manifest_path(streams.0.as_str()),
        Err(f) => Err(f),
    }
}

} // verus!
