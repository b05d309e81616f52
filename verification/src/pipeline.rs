//! The run as a whole: locate the project, load its configuration, build,
//! discover the artifact, assemble the script, execute it.
//!
//! Each stage is a value that only the stage before it gives, so the order
//! of the stages is fixed by their types. A stage says what has to be done
//! outside (a command to run, a file to read, a directory to list), takes
//! what that gave, and gives the next stage or the failure that ends the run.

use vstd::prelude::*;
use crate::artifact::{
    build_output_dir, listing_model, locate_artifact, located_artifact, output_dir_of,
    DirectoryEntry, Selection, SelectionModel,
};
use crate::config::{Config, ConfigModel};
use crate::failure::{failure, failure_about, outcome, ErrorKind, Failure, FailureModel};
use crate::location::{located, location};
use crate::manifest::{load_config_file, loaded_file};
use crate::process::{build_outcome, built, exec_nodejs, ran, ProcessEvent};
use crate::reading::{read_text, text_read, ReadOutcome};
use crate::script::{assemble_script, assembled};
use crate::text::{join_path, joined_path, parent_dir, parent_of};

verus! {

/// The project has been located: its manifest and its root directory.
#[derive(Clone, Debug, PartialEq, Eq)]
pub struct Located {
    pub manifest: String,
    pub root: String,
}

/// What a [`Located`] stands for.
pub struct LocatedModel {
    pub manifest: Seq<char>,
    pub root: Seq<char>,
}

impl View for Located {
    type V = LocatedModel;

    open spec fn view(&self) -> LocatedModel {
        LocatedModel { manifest: self.manifest@, root: self.root@ }
    }
}

/// The configuration has been resolved.
#[derive(Clone, Debug, PartialEq, Eq)]
pub struct Configured {
    pub root: String,
    pub config: Config,
}

/// The tests have been built.
#[derive(Clone, Debug, PartialEq, Eq)]
pub struct Built {
    pub root: String,
    pub config: Config,
}

/// What a [`Configured`] or a [`Built`] stands for.
pub struct ProjectModel {
    pub root: Seq<char>,
    pub config: ConfigModel,
}

impl View for Configured {
    type V = ProjectModel;

    open spec fn view(&self) -> ProjectModel {
        ProjectModel { root: self.root@, config: self.config@ }
    }
}

impl View for Built {
    type V = ProjectModel;

    open spec fn view(&self) -> ProjectModel {
        ProjectModel { root: self.root@, config: self.config@ }
    }
}

/// The artifact has been chosen.
#[derive(Clone, Debug, PartialEq, Eq)]
pub struct Discovered {
    pub root: String,
    pub config: Config,
    pub selection: Selection,
}

/// What a [`Discovered`] stands for.
pub struct DiscoveredModel {
    pub root: Seq<char>,
    pub config: ConfigModel,
    pub selection: SelectionModel,
}

impl View for Discovered {
    type V = DiscoveredModel;

    open spec fn view(&self) -> DiscoveredModel {
        DiscoveredModel { root: self.root@, config: self.config@, selection: self.selection@ }
    }
}

/// The script has been assembled: it is handed to the runtime as it is.
#[derive(Clone, Debug, PartialEq, Eq)]
pub struct Assembled {
    pub runtime_path: String,
    pub script: String,
}

/// What an [`Assembled`] stands for.
pub struct AssembledModel {
    pub runtime_path: Seq<char>,
    pub script: Seq<char>,
}

impl View for Assembled {
    type V = AssembledModel;

    open spec fn view(&self) -> AssembledModel {
        AssembledModel { runtime_path: self.runtime_path@, script: self.script@ }
    }
}

/// The message for a manifest whose path names no directory.
pub open spec fn no_parent_message(manifest: Seq<char>) -> Seq<char> {
    "Cannot find the directory of "@ + manifest
}

/// What locating the project gives, given what asking the build tool for
/// it gave: the manifest it reports and the directory that holds it.
pub open spec fn project_located(event: ProcessEvent) -> Result<LocatedModel, FailureModel> {
    match located(event) {
        Err(f) => Err(f),
        Ok(manifest) => match parent_of(manifest) {
            Some(root) => Ok(LocatedModel { manifest, root }),
            None => Err(failure(ErrorKind::Configuration, no_parent_message(manifest))),
        },
    }
}

/// First stage: the project is located from what the build tool reported.
/// The request to make is the build tool run with
/// [`crate::location::locate_arguments`], its output captured.
pub fn locate_project(event: ProcessEvent) -> (r: Result<Located, Failure>)
    ensures
        outcome(r) == project_located(event),
{
    match location(event) {
        Err(f) => Err(f),
        Ok(manifest) => match parent_dir(manifest.as_str()) {
            Some(root) => Ok(Located { manifest, root }),
            None => Err(
                failure_about(
                    ErrorKind::Configuration,
                    "Cannot find the directory of ",
                    manifest.as_str(),
                ),
            ),
        },
    }
}

/// What loading the configuration of a located project gives, given what
/// reading its manifest gave.
pub open spec fn project_configured(project: LocatedModel, read: ReadOutcome) -> Result<
    ProjectModel,
    FailureModel,
> {
    match loaded_file(project.manifest, read) {
        Err(f) => Err(f),
        Ok(config) => Ok(ProjectModel { root: project.root, config }),
    }
}

/// What building the tests gives, given how the build tool ended.
pub open spec fn project_built(project: ProjectModel, event: ProcessEvent) -> Result<
    ProjectModel,
    FailureModel,
> {
    match built(project.config.target_id, event) {
        Err(f) => Err(f),
        Ok(_) => Ok(project),
    }
}

/// What discovering the artifact gives, given the listing of the
/// build-output directory.
pub open spec fn project_discovered(
    project: ProjectModel,
    listing: Option<Seq<crate::artifact::EntryModel>>,
) -> Result<DiscoveredModel, FailureModel> {
    match located_artifact(project.root, project.config.target_id, listing) {
        Err(f) => Err(f),
        Ok(selection) => Ok(
            DiscoveredModel { root: project.root, config: project.config, selection },
        ),
    }
}

/// The file that holds the prelude, where one is configured: its path,
/// resolved against the root of the project.
pub open spec fn prelude_file_of(project: DiscoveredModel) -> Option<Seq<char>> {
    match project.config.prelude_path {
        Some(path) => Some(joined_path(project.root, path)),
        None => None,
    }
}

/// The text of the prelude, where one is configured, given what reading its
/// file gave. The prelude goes by the path that the manifest gives it. A
/// configured prelude that was not read counts as one that could not be
/// opened; what was read where none is configured is passed over.
pub open spec fn prelude_text(project: DiscoveredModel, prelude: Option<ReadOutcome>) -> Result<
    Option<Seq<char>>,
    FailureModel,
> {
    match project.config.prelude_path {
        None => Ok(None),
        Some(path) => {
            let read = match prelude {
                Some(read) => read,
                None => ReadOutcome::NotOpened,
            };
            match text_read(path, read, ErrorKind::Io) {
                Err(f) => Err(f),
                Ok(text) => Ok(Some(text)),
            }
        },
    }
}

/// What assembling the script gives, given what reading the prelude and the
/// artifact gave. The prelude is read first, so its failure comes first.
pub open spec fn project_assembled(
    project: DiscoveredModel,
    prelude: Option<ReadOutcome>,
    artifact: ReadOutcome,
) -> Result<AssembledModel, FailureModel> {
    match prelude_text(project, prelude) {
        Err(f) => Err(f),
        Ok(setup) => match text_read(project.selection.path, artifact, ErrorKind::Io) {
            Err(f) => Err(f),
            Ok(text) => Ok(
                AssembledModel {
                    runtime_path: project.config.runtime_path,
                    script: assembled(setup, text),
                },
            ),
        },
    }
}

impl Located {
    /// Second stage: the configuration is loaded from what reading the
    /// manifest gave. The file to read is `self.manifest`.
    pub fn configure(self, read: ReadOutcome) -> (r: Result<Configured, Failure>)
        ensures
            outcome(r) == project_configured(self@, read),
    {
        match load_config_file(self.manifest.as_str(), read) {
            Err(f) => Err(f),
            Ok(config) => Ok(Configured { root: self.root, config }),
        }
    }
}

impl Configured {
    /// The arguments with which the build tool is to be run, its output
    /// passed through.
    pub fn build_arguments(&self) -> (args: Vec<String>)
        ensures
            crate::text::views(args@) == crate::process::build_arguments_of(self@.config.target_id),
    {
        crate::process::build_arguments(self.config.target_id.as_str())
    }

    /// Third stage: the build is judged by how the build tool ended.
    pub fn build(self, event: ProcessEvent) -> (r: Result<Built, Failure>)
        ensures
            outcome(r) == project_built(self@, event),
    {
        match build_outcome(self.config.target_id.as_str(), event) {
            Err(f) => Err(f),
            Ok(_) => Ok(Built { root: self.root, config: self.config }),
        }
    }
}

impl Built {
    /// The directory to list: the build-output directory of the target.
    pub fn output_dir(&self) -> (dir: String)
        ensures
            dir@ == output_dir_of(self@.root, self@.config.target_id),
    {
        build_output_dir(self.root.as_str(), self.config.target_id.as_str())
    }

    /// Fourth stage: the artifact is chosen from the listing of the
    /// build-output directory, or the run fails where that directory could
    /// not be listed.
    pub fn discover(self, listing: Option<&Vec<DirectoryEntry>>) -> (r: Result<Discovered, Failure>)
        ensures
            outcome(r) == project_discovered(self@, listing_model(listing)),
    {
        match locate_artifact(self.root.as_str(), self.config.target_id.as_str(), listing) {
            Err(f) => Err(f),
            Ok(selection) => Ok(Discovered { root: self.root, config: self.config, selection }),
        }
    }
}

impl Discovered {
    /// The file to read for the prelude, where one is configured.
    pub fn prelude_file(&self) -> (file: Option<String>)
        ensures
            match file {
                Some(path) => prelude_file_of(self@) == Some(path@),
                None => prelude_file_of(self@) is None,
            },
    {
        match &self.config.prelude_path {
            Some(path) => Some(join_path(self.root.as_str(), path.as_str())),
            None => None,
        }
    }

    /// Fifth stage: the script is assembled from what reading the prelude and
    /// the artifact gave. The artifact to read is `self.selection.path`.
    pub fn assemble(self, prelude: Option<ReadOutcome>, artifact: ReadOutcome) -> (r: Result<
        Assembled,
        Failure,
    >)
        ensures
            outcome(r) == project_assembled(self@, prelude, artifact),
    {
        let setup = match &self.config.prelude_path {
            None => None,
            Some(path) => {
                let read = match prelude {
                    Some(read) => read,
                    None => ReadOutcome::NotOpened,
                };
                match read_text(path.as_str(), read, ErrorKind::Io) {
                    Err(f) => {
                        return Err(f);
                    },
                    Ok(text) => Some(text),
                }
            },
        };
        match read_text(self.selection.path.as_str(), artifact, ErrorKind::Io) {
            Err(f) => Err(f),
            Ok(text) => {
                let script = match &setup {
                    Some(before) => assemble_script(Some(before.as_str()), text.as_str()),
                    None => assemble_script(None, text.as_str()),
                };
                Ok(Assembled { runtime_path: self.config.runtime_path, script })
            },
        }
    }
}

impl Assembled {
    /// Last stage: the run ends with the exit status of the runtime, or fails
    /// where the runtime could not be run to its end. The runtime to run is
    /// `self.runtime_path`, with `self.script` written to its input.
    pub fn finish(self, event: ProcessEvent) -> (r: Result<i32, Failure>)
        ensures
            outcome(r) == ran(self@.runtime_path, event),
    {
        exec_nodejs(self.runtime_path.as_str(), event)
    }
}

/// With the configuration that the defaults give, the script that is handed
/// to the default runtime is the text of the artifact and nothing else,
/// whatever was read for a prelude.
pub proof fn lemma_defaults_run_the_artifact_alone(
    project: DiscoveredModel,
    prelude: Option<ReadOutcome>,
    artifact: ReadOutcome,
)
    requires
        project.config == crate::config::default_config(),
    ensures
        project_assembled(project, prelude, artifact) == match text_read(
            project.selection.path,
            artifact,
            ErrorKind::Io,
        ) {
            Ok(text) => Ok::<AssembledModel, FailureModel>(
                AssembledModel { runtime_path: crate::config::DEFAULT_RUNTIME@, script: text },
            ),
            Err(f) => Err::<AssembledModel, FailureModel>(f),
        },
{
}

/// A run that fails at one stage gives that failure and no later stage: the
/// failure of locating, of configuring, of building and of discovering is
/// the failure of the function that the stage rests on.
pub proof fn lemma_failure_ends_the_run(
    located_project: LocatedModel,
    project: ProjectModel,
    event: ProcessEvent,
    read: ReadOutcome,
    listing: Option<Seq<crate::artifact::EntryModel>>,
)
    ensures
        located(event) matches Err(f) ==> project_located(event) == Err::<
            LocatedModel,
            FailureModel,
        >(f),
        loaded_file(located_project.manifest, read) matches Err(f) ==> project_configured(
            located_project,
            read,
        ) == Err::<ProjectModel, FailureModel>(f),
        built(project.config.target_id, event) matches Err(f) ==> project_built(project, event)
            == Err::<ProjectModel, FailureModel>(f),
        located_artifact(project.root, project.config.target_id, listing) matches Err(f)
            ==> project_discovered(project, listing) == Err::<DiscoveredModel, FailureModel>(f),
{
}

} // verus!
