//! Reading the project manifest: the TOML document, and in it the section
//! `package.metadata.testjs` with its settings.

use vstd::prelude::*;
use crate::config::{
    resolve_config, resolved, Config, ConfigModel, Metadata, MetadataModel, Setting, SettingModel,
};
use crate::failure::{failure, failure_about, outcome, ErrorKind, Failure, FailureModel};
use crate::manifest_limits::{manifest_is_within_limits, manifest_within_limits};
use crate::reading::{read_text, text_read, ReadOutcome};

verus! {

/// `toml::Value`, a value of a TOML document. It is carried through as it
/// is: nothing is known of what it holds but what the functions below tell.
#[verifier::external_type_specification]
#[verifier::external_body]
pub struct ExTomlValue(toml::Value);

/// `toml::de::Error`, the error of the parser. Nothing is read from it.
#[verifier::external_type_specification]
#[verifier::external_body]
pub struct ExTomlError(toml::de::Error);

/// The document that `text` parses to, where it is valid TOML.
pub uninterp spec fn toml_document(text: Seq<char>) -> Option<toml::Value>;

/// The value that the table `value` holds under `key`.
pub uninterp spec fn toml_member(value: toml::Value, key: Seq<char>) -> Option<toml::Value>;

/// The text of `value`, where it is a string.
pub uninterp spec fn toml_text(value: toml::Value) -> Option<Seq<char>>;

/// Parses a TOML document with `str::parse::<toml::Value>`, which is
/// `toml::Value::from_str`. The outcome depends on the text alone: it succeeds
/// exactly where `toml_document` names a document, and gives that document.
/// The parser descends once for each level of nesting and has no limit of
/// its own, so only a manifest within the limit of
/// [`manifest_within_limits`] is handed to it.
#[verifier::external_body]
fn parse_toml(text: &str) -> (r: Result<toml::Value, toml::de::Error>)
    requires
        manifest_within_limits(text@),
    ensures
        match r {
            Ok(document) => toml_document(text@) == Some(document),
            Err(_) => toml_document(text@) is None,
        },
{
    text.parse::<toml::Value>()
}

/// Looks `key` up with `toml::Value::get`, which gives the member of a table
/// under a string key, and nothing where the value is no table or has no
/// such key.
#[verifier::external_body]
fn toml_get<'a>(value: &'a toml::Value, key: &str) -> (r: Option<&'a toml::Value>)
    ensures
        match r {
            Some(member) => toml_member(*value, key@) == Some(*member),
            None => toml_member(*value, key@) is None,
        },
{
    value.get(key)
}

/// Reads a string with `toml::Value::as_str`, which gives the text of a
/// string value and nothing for a value of any other type.
#[verifier::external_body]
fn toml_as_str<'a>(value: &'a toml::Value) -> (r: Option<&'a str>)
    ensures
        match r {
            Some(text) => toml_text(*value) == Some(text@),
            None => toml_text(*value) is None,
        },
{
    value.as_str()
}

/// What the table `section` holds under `key`.
pub open spec fn setting_in(section: toml::Value, key: Seq<char>) -> SettingModel {
    match toml_member(section, key) {
        None => SettingModel::Absent,
        Some(value) => match toml_text(value) {
            Some(text) => SettingModel::Text(text),
            None => SettingModel::Other,
        },
    }
}

/// The settings that the table `section` holds.
pub open spec fn metadata_in(section: toml::Value) -> MetadataModel {
    MetadataModel {
        node: setting_in(section, "node"@),
        target: setting_in(section, "target"@),
        prelude: setting_in(section, "prelude"@),
    }
}

/// The value under `package.metadata.testjs`, where the document has one.
pub open spec fn section_of(document: toml::Value) -> Option<toml::Value> {
    match toml_member(document, "package"@) {
        None => None,
        Some(package) => match toml_member(package, "metadata"@) {
            None => None,
            Some(metadata) => toml_member(metadata, "testjs"@),
        },
    }
}

/// The settings of the document's metadata section, where it has one.
pub open spec fn metadata_of(document: toml::Value) -> Option<MetadataModel> {
    match section_of(document) {
        Some(section) => Some(metadata_in(section)),
        None => None,
    }
}

fn read_setting(section: &toml::Value, key: &str) -> (setting: Setting)
    ensures
        setting@ == setting_in(*section, key@),
{
    match toml_get(section, key) {
        None => Setting::Absent,
        Some(value) => match toml_as_str(value) {
            Some(text) => Setting::Text(text.to_owned()),
            None => Setting::Other,
        },
    }
}

fn read_metadata(document: &toml::Value) -> (section: Option<Metadata>)
    ensures
        optional_metadata(section) == metadata_of(*document),
{
    let package = match toml_get(document, "package") {
        Some(package) => package,
        None => {
            return None;
        },
    };
    let metadata = match toml_get(package, "metadata") {
        Some(metadata) => metadata,
        None => {
            return None;
        },
    };
    let section = match toml_get(metadata, "testjs") {
        Some(section) => section,
        None => {
            return None;
        },
    };
    Some(
        Metadata {
            node: read_setting(section, "node"),
            target: read_setting(section, "target"),
            prelude: read_setting(section, "prelude"),
        },
    )
}

/// The message for a manifest that is no valid TOML.
pub open spec fn unable_to_parse_message(path: Seq<char>) -> Seq<char> {
    "Unable to parse "@ + path
}

/// The message for a manifest that nests more deeply than can be parsed.
pub open spec fn too_deep_message(path: Seq<char>) -> Seq<char> {
    "Unable to parse "@ + path + ": nested too deeply"@
}

/// The settings of the metadata section of the manifest `text`, which was
/// read from `path`: none where the manifest has no such section, and a
/// configuration error where it is beyond the limits of the parser or no
/// valid TOML.
pub open spec fn parsed_manifest(path: Seq<char>, text: Seq<char>) -> Result<
    Option<MetadataModel>,
    FailureModel,
> {
    if !manifest_within_limits(text) {
        Err(failure(ErrorKind::Configuration, too_deep_message(path)))
    } else {
        match toml_document(text) {
            None => Err(failure(ErrorKind::Configuration, unable_to_parse_message(path))),
            Some(document) => Ok(metadata_of(document)),
        }
    }
}

/// The configuration that the manifest `text` gives: the defaults, overridden
/// by the settings of its metadata section.
pub open spec fn loaded(path: Seq<char>, text: Seq<char>) -> Result<ConfigModel, FailureModel> {
    match parsed_manifest(path, text) {
        Err(f) => Err(f),
        Ok(section) => resolved(section),
    }
}

/// The configuration that the manifest at `path` gives, given what reading
/// it gave. A manifest that cannot be read as text is a configuration error.
pub open spec fn loaded_file(path: Seq<char>, read: ReadOutcome) -> Result<
    ConfigModel,
    FailureModel,
> {
    match text_read(path, read, ErrorKind::Configuration) {
        Err(f) => Err(f),
        Ok(text) => loaded(path, text),
    }
}

/// The model of an optional section.
pub open spec fn optional_metadata(section: Option<Metadata>) -> Option<MetadataModel> {
    match section {
        Some(metadata) => Some(metadata@),
        None => None,
    }
}

/// Reads the settings of the metadata section from the manifest `text`, which
/// was read from `path`.
pub fn parse_manifest(path: &str, text: &str) -> (r: Result<Option<Metadata>, Failure>)
    ensures
        match r {
            Ok(section) => parsed_manifest(path@, text@) == Ok::<
                Option<MetadataModel>,
                FailureModel,
            >(optional_metadata(section)),
            Err(f) => parsed_manifest(path@, text@) == Err::<Option<MetadataModel>, FailureModel>(
                f@,
            ),
        },
{
    if !manifest_is_within_limits(text) {
        let mut message = "Unable to parse ".to_owned();
        message.append(path);
        message.append(": nested too deeply");
        return Err(Failure::new(ErrorKind::Configuration, message));
    }
    match parse_toml(text) {
        Ok(document) => Ok(read_metadata(&document)),
        Err(_) => Err(failure_about(ErrorKind::Configuration, "Unable to parse ", path)),
    }
}

/// Loads the configuration from the manifest `text`, which was read from
/// `path`.
pub fn load_config(path: &str, text: &str) -> (r: Result<Config, Failure>)
    ensures
        outcome(r) == loaded(path@, text@),
{
    match parse_manifest(path, text) {
        Ok(section) => resolve_config(section.as_ref()),
        Err(f) => Err(f),
    }
}

/// Loads the configuration from what reading the manifest at `path` gave.
pub fn load_config_file(path: &str, read: ReadOutcome) -> (r: Result<Config, Failure>)
    ensures
        outcome(r) == loaded_file(path@, read),
{
    match read_text(path, read, ErrorKind::Configuration) {
        Ok(text) => load_config(path, text.as_str()),
        Err(f) => Err(f),
    }
}

} // verus!
