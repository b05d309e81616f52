//! The configuration of a run: built-in defaults, overridden by what the
//! manifest's metadata section holds.

use vstd::prelude::*;
use crate::failure::{failure, failure_about, outcome, ErrorKind, Failure, FailureModel};

verus! {

/// The runtime that executes the script where the manifest names none.
pub const DEFAULT_RUNTIME: &'static str = "node";

/// The target that is built where the manifest names none.
pub const DEFAULT_TARGET: &'static str = "asmjs-unknown-emscripten";

/// A resolved configuration. It is made once and never changed.
#[derive(Clone, Debug, PartialEq, Eq)]
pub struct Config {
    pub runtime_path: String,
    pub target_id: String,
    pub prelude_path: Option<String>,
}

/// What a [`Config`] stands for.
pub struct ConfigModel {
    pub runtime_path: Seq<char>,
    pub target_id: Seq<char>,
    pub prelude_path: Option<Seq<char>>,
}

impl View for Config {
    type V = ConfigModel;

    open spec fn view(&self) -> ConfigModel {
        ConfigModel {
            runtime_path: self.runtime_path@,
            target_id: self.target_id@,
            prelude_path: match self.prelude_path {
                Some(path) => Some(path@),
                None => None,
            },
        }
    }
}

/// What the metadata section holds under one key.
#[derive(Clone, Debug, PartialEq, Eq)]
pub enum Setting {
    /// The section has no such key.
    Absent,
    /// The key holds a string.
    Text(String),
    /// The key holds a value that is no string.
    Other,
}

/// What a [`Setting`] stands for.
pub enum SettingModel {
    Absent,
    Text(Seq<char>),
    Other,
}

impl View for Setting {
    type V = SettingModel;

    open spec fn view(&self) -> SettingModel {
        match self {
            Setting::Absent => SettingModel::Absent,
            Setting::Text(text) => SettingModel::Text(text@),
            Setting::Other => SettingModel::Other,
        }
    }
}

/// The settings of the manifest's metadata section.
#[derive(Clone, Debug, PartialEq, Eq)]
pub struct Metadata {
    pub node: Setting,
    pub target: Setting,
    pub prelude: Setting,
}

/// What a [`Metadata`] stands for.
pub struct MetadataModel {
    pub node: SettingModel,
    pub target: SettingModel,
    pub prelude: SettingModel,
}

impl View for Metadata {
    type V = MetadataModel;

    open spec fn view(&self) -> MetadataModel {
        MetadataModel { node: self.node@, target: self.target@, prelude: self.prelude@ }
    }
}

/// The configuration that holds where the manifest overrides nothing.
pub open spec fn default_config() -> ConfigModel {
    ConfigModel {
        runtime_path: DEFAULT_RUNTIME@,
        target_id: DEFAULT_TARGET@,
        prelude_path: None,
    }
}

/// The text of `setting`, or `fallback` where the key is absent.
pub open spec fn text_or(setting: SettingModel, fallback: Seq<char>) -> Seq<char> {
    match setting {
        SettingModel::Text(text) => text,
        _ => fallback,
    }
}

/// The text of `setting`, where the key is present.
pub open spec fn text_of(setting: SettingModel) -> Option<Seq<char>> {
    match setting {
        SettingModel::Text(text) => Some(text),
        _ => None,
    }
}

/// The message for a key whose value is no string.
pub open spec fn invalid_setting_message(key: Seq<char>) -> Seq<char> {
    "Invalid config for "@ + key
}

/// The configuration error for a key whose value is no string.
pub open spec fn invalid_setting(key: Seq<char>) -> FailureModel {
    failure(ErrorKind::Configuration, invalid_setting_message(key))
}

/// The configuration that `section` resolves to: the defaults, each
/// overridden by the key that is present. A key whose value is no string is a
/// configuration error, which names the first such key of `node`, `target`
/// and `prelude`.
pub open spec fn resolved(section: Option<MetadataModel>) -> Result<ConfigModel, FailureModel> {
    match section {
        None => Ok(default_config()),
        Some(metadata) => {
            if metadata.node is Other {
                Err(invalid_setting("node"@))
            } else if metadata.target is Other {
                Err(invalid_setting("target"@))
            } else if metadata.prelude is Other {
                Err(invalid_setting("prelude"@))
            } else {
                Ok(
                    ConfigModel {
                        runtime_path: text_or(metadata.node, DEFAULT_RUNTIME@),
                        target_id: text_or(metadata.target, DEFAULT_TARGET@),
                        prelude_path: text_of(metadata.prelude),
                    },
                )
            }
        },
    }
}

/// The model of an optional section.
pub open spec fn section_model(section: Option<&Metadata>) -> Option<MetadataModel> {
    match section {
        Some(metadata) => Some(metadata@),
        None => None,
    }
}

/// Resolves the configuration from the manifest's metadata section, or from
/// the defaults alone where the manifest has no such section. A key that is
/// present with a value that is no string is a configuration error.
pub fn resolve_config(section: Option<&Metadata>) -> (r: Result<Config, Failure>)
    ensures
        outcome(r) == resolved(section_model(section)),
{
    let mut config = Config {
        runtime_path: DEFAULT_RUNTIME.to_owned(),
        target_id: DEFAULT_TARGET.to_owned(),
        prelude_path: None,
    };
    if let Some(metadata) = section {
        match &metadata.node {
            Setting::Absent => {},
            Setting::Text(text) => {
                config.runtime_path = text.clone();
            },
            Setting::Other => {
                return Err(failure_about(ErrorKind::Configuration, "Invalid config for ", "node"));
            },
        }
        match &metadata.target {
            Setting::Absent => {},
            Setting::Text(text) => {
                config.target_id = text.clone();
            },
            Setting::Other => {
                return Err(failure_about(ErrorKind::Configuration, "Invalid config for ", "target"));
            },
        }
        match &metadata.prelude {
            Setting::Absent => {},
            Setting::Text(text) => {
                config.prelude_path = Some(text.clone());
            },
            Setting::Other => {
                return Err(failure_about(ErrorKind::Configuration, "Invalid config for ", "prelude"));
            },
        }
    }
    Ok(config)
}

/// An empty metadata section changes nothing: the runtime and the target are
/// the built-in defaults and there is no prelude.
pub proof fn lemma_empty_section_gives_defaults()
    ensures
        resolved(
            Some(
                MetadataModel {
                    node: SettingModel::Absent,
                    target: SettingModel::Absent,
                    prelude: SettingModel::Absent,
                },
            ),
        ) == Ok::<ConfigModel, FailureModel>(default_config()),
        resolved(None) == Ok::<ConfigModel, FailureModel>(default_config()),
{
}

/// A section that sets the target alone gives that target, and leaves the
/// runtime at its default.
pub proof fn lemma_target_override_keeps_runtime(target: Seq<char>)
    ensures
        resolved(
            Some(
                MetadataModel {
                    node: SettingModel::Absent,
                    target: SettingModel::Text(target),
                    prelude: SettingModel::Absent,
                },
            ),
        ) == Ok::<ConfigModel, FailureModel>(
            ConfigModel { runtime_path: DEFAULT_RUNTIME@, target_id: target, prelude_path: None },
        ),
{
}

/// Each key is resolved on its own: where no key has a value of the wrong
/// type, a present key overrides its default and an absent key keeps it.
pub proof fn lemma_keys_resolve_independently(metadata: MetadataModel)
    requires
        !(metadata.node is Other),
        !(metadata.target is Other),
        !(metadata.prelude is Other),
    ensures
        resolved(Some(metadata)) matches Ok(config) && {
            &&& config.runtime_path == match metadata.node {
                SettingModel::Text(text) => text,
                _ => DEFAULT_RUNTIME@,
            }
            &&& config.target_id == match metadata.target {
                SettingModel::Text(text) => text,
                _ => DEFAULT_TARGET@,
            }
            &&& config.prelude_path == match metadata.prelude {
                SettingModel::Text(text) => Some(text),
                _ => None::<Seq<char>>,
            }
        },
{
}

} // verus!
