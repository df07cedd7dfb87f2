//! The snapshot resolver: a state machine whose decisions are verified.
//!
//! The resolver never touches the repository or the disk itself. Each step
//! hands back an [`Action`] naming the one observation it needs (a disk
//! probe, a repository discovery, a HEAD-tree lookup, a file read); a driver
//! performs it and answers with the matching [`Event`]. The contract of
//! [`Resolver::step`] pins every transition to the spec-level model
//! [`step_model`], so the resolution order, the error mapping and the
//! assembled snapshot are all proved, for every possible observation.
//!
//! Resolution order: the file path is made absolute (joined onto the project
//! path when relative); if the file exists on disk, the repository is
//! discovered upward from the file's parent directory and the lookup path is
//! the file's path relative to that repository's working directory; when
//! discovery finds nothing, or the file is not on disk, the repository is
//! opened directly at the project path and the given file path serves
//! literally as the lookup path. HEAD must peel to a commit with a readable
//! tree; a missing tree entry is the one tolerated absence ("new file"),
//! while a non-blob entry is an error. The disk side is probed again and
//! read only if present.

use vstd::prelude::*;

use crate::decode::lossy_decode;
use crate::decode::lossy_utf8;
use crate::paths::is_absolute_path;
use crate::paths::join_path;
use crate::paths::parent_dir;
use crate::paths::spec_is_absolute;
use crate::paths::spec_join;
use crate::paths::spec_parent;
use crate::paths::spec_strip_prefix;
use crate::paths::strip_path_prefix;
use crate::snapshot::GitFileDiff;
use crate::snapshot::SnapshotModel;

verus! {

/// Which repository the resolver settled on: the one discovered upward from
/// the file's location, or the one opened directly at the project path.
#[derive(Clone, Copy, PartialEq, Eq, Structural, Debug)]
pub enum RepoChoice {
    Discovered,
    Project,
}

/// Why a resolution failed. Each variant carries the underlying cause.
pub enum GitDiffError {
    /// No repository could be discovered or opened by any tier.
    RepositoryResolution { cause: String },
    /// HEAD could not be resolved or did not peel to a commit.
    HeadResolution { cause: String },
    /// The HEAD commit's tree could not be loaded.
    TreeAccess { cause: String },
    /// The tree entry is not a readable blob.
    ObjectRead { cause: String },
    /// The on-disk file exists but could not be read as text.
    WorkdirRead { cause: String },
}

/// The mathematical value of an error.
pub enum ErrorModel {
    RepositoryResolution { cause: Seq<char> },
    HeadResolution { cause: Seq<char> },
    TreeAccess { cause: Seq<char> },
    ObjectRead { cause: Seq<char> },
    WorkdirRead { cause: Seq<char> },
}

impl View for GitDiffError {
    type V = ErrorModel;

    open spec fn view(&self) -> ErrorModel {
        match self {
            GitDiffError::RepositoryResolution { cause } => ErrorModel::RepositoryResolution {
                cause: cause@,
            },
            GitDiffError::HeadResolution { cause } => ErrorModel::HeadResolution { cause: cause@ },
            GitDiffError::TreeAccess { cause } => ErrorModel::TreeAccess { cause: cause@ },
            GitDiffError::ObjectRead { cause } => ErrorModel::ObjectRead { cause: cause@ },
            GitDiffError::WorkdirRead { cause } => ErrorModel::WorkdirRead { cause: cause@ },
        }
    }
}

/// The display text of an error: a label for its kind, then the underlying
/// cause.
pub open spec fn spec_message(e: ErrorModel) -> Seq<char> {
    match e {
        ErrorModel::RepositoryResolution { cause } => "Failed to open repository: "@ + cause,
        ErrorModel::HeadResolution { cause } => "Failed to get HEAD: "@ + cause,
        ErrorModel::TreeAccess { cause } => "Failed to get HEAD tree: "@ + cause,
        ErrorModel::ObjectRead { cause } => "Failed to get object: "@ + cause,
        ErrorModel::WorkdirRead { cause } => "Failed to read current file: "@ + cause,
    }
}

impl GitDiffError {
    /// The error as one line of text, for display.
    pub fn message(&self) -> (r: String)
        ensures
            r@ == spec_message(self@),
    {
        match self {
            GitDiffError::RepositoryResolution { cause } => String::from_str(
                "Failed to open repository: ",
            ).concat(cause.as_str()),
            GitDiffError::HeadResolution { cause } => String::from_str(
                "Failed to get HEAD: ",
            ).concat(cause.as_str()),
            GitDiffError::TreeAccess { cause } => String::from_str(
                "Failed to get HEAD tree: ",
            ).concat(cause.as_str()),
            GitDiffError::ObjectRead { cause } => String::from_str("Failed to get object: ").concat(
                cause.as_str(),
            ),
            GitDiffError::WorkdirRead { cause } => String::from_str(
                "Failed to read current file: ",
            ).concat(cause.as_str()),
        }
    }
}

/// What the resolver asks its driver to do next.
pub enum Action {
    /// Report whether `path` exists on disk.
    CheckFileExists { path: String },
    /// Search upward from directory `dir` for the nearest enclosing
    /// repository.
    DiscoverRepository { dir: String },
    /// Open the repository at exactly `path`, without an upward search.
    OpenRepository { path: String },
    /// Resolve HEAD of the chosen repository to a commit and load its tree.
    ResolveHeadTree { repo: RepoChoice },
    /// Look `rel_path` up in the loaded HEAD tree and fetch the blob bytes.
    LookupInHeadTree { rel_path: String },
    /// Read the on-disk file at `path` as text.
    ReadWorkdirFile { path: String },
}

/// The mathematical value of an action.
pub enum ActionModel {
    CheckFileExists { path: Seq<char> },
    DiscoverRepository { dir: Seq<char> },
    OpenRepository { path: Seq<char> },
    ResolveHeadTree { repo: RepoChoice },
    LookupInHeadTree { rel_path: Seq<char> },
    ReadWorkdirFile { path: Seq<char> },
}

impl View for Action {
    type V = ActionModel;

    open spec fn view(&self) -> ActionModel {
        match self {
            Action::CheckFileExists { path } => ActionModel::CheckFileExists { path: path@ },
            Action::DiscoverRepository { dir } => ActionModel::DiscoverRepository { dir: dir@ },
            Action::OpenRepository { path } => ActionModel::OpenRepository { path: path@ },
            Action::ResolveHeadTree { repo } => ActionModel::ResolveHeadTree { repo: *repo },
            Action::LookupInHeadTree { rel_path } => ActionModel::LookupInHeadTree {
                rel_path: rel_path@,
            },
            Action::ReadWorkdirFile { path } => ActionModel::ReadWorkdirFile { path: path@ },
        }
    }
}

/// What the driver observed in answer to the pending action.
pub enum Event {
    /// Answer to `CheckFileExists`.
    FileExists { exists: bool },
    /// Answer to `DiscoverRepository`: a repository was found and has the
    /// given working-directory root.
    Discovered { workdir: String },
    /// Answer to `DiscoverRepository`: a repository was found but has no
    /// working directory (it is bare).
    DiscoveredBare,
    /// Answer to `DiscoverRepository`: no repository was found.
    DiscoverFailed,
    /// Answer to `OpenRepository`: the repository opened.
    Opened,
    /// Answer to `OpenRepository`: it could not be opened.
    OpenFailed { cause: String },
    /// Answer to `ResolveHeadTree`: HEAD peeled to a commit whose tree is
    /// loaded.
    HeadTreeReady,
    /// Answer to `ResolveHeadTree`: HEAD could not be resolved to a commit
    /// (for instance an unborn branch with no commits).
    HeadFailed { cause: String },
    /// Answer to `ResolveHeadTree`: the commit's tree could not be loaded.
    TreeFailed { cause: String },
    /// Answer to `LookupInHeadTree`: no entry at that path.
    LookupNotFound,
    /// Answer to `LookupInHeadTree`: the entry is a blob with these bytes.
    LookupBlob { bytes: Vec<u8> },
    /// Answer to `LookupInHeadTree`: the entry is not a blob (a tree or a
    /// submodule link).
    LookupNotBlob,
    /// Answer to `LookupInHeadTree`: the entry's object could not be read.
    LookupObjectFailed { cause: String },
    /// Answer to `ReadWorkdirFile`: the file's text.
    FileRead { content: String },
    /// Answer to `ReadWorkdirFile`: the file could not be read.
    FileReadFailed { cause: String },
}

/// The mathematical value of an event.
pub enum EventModel {
    FileExists { exists: bool },
    Discovered { workdir: Seq<char> },
    DiscoveredBare,
    DiscoverFailed,
    Opened,
    OpenFailed { cause: Seq<char> },
    HeadTreeReady,
    HeadFailed { cause: Seq<char> },
    TreeFailed { cause: Seq<char> },
    LookupNotFound,
    LookupBlob { bytes: Seq<u8> },
    LookupNotBlob,
    LookupObjectFailed { cause: Seq<char> },
    FileRead { content: Seq<char> },
    FileReadFailed { cause: Seq<char> },
}

impl View for Event {
    type V = EventModel;

    open spec fn view(&self) -> EventModel {
        match self {
            Event::FileExists { exists } => EventModel::FileExists { exists: *exists },
            Event::Discovered { workdir } => EventModel::Discovered { workdir: workdir@ },
            Event::DiscoveredBare => EventModel::DiscoveredBare,
            Event::DiscoverFailed => EventModel::DiscoverFailed,
            Event::Opened => EventModel::Opened,
            Event::OpenFailed { cause } => EventModel::OpenFailed { cause: cause@ },
            Event::HeadTreeReady => EventModel::HeadTreeReady,
            Event::HeadFailed { cause } => EventModel::HeadFailed { cause: cause@ },
            Event::TreeFailed { cause } => EventModel::TreeFailed { cause: cause@ },
            Event::LookupNotFound => EventModel::LookupNotFound,
            Event::LookupBlob { bytes } => EventModel::LookupBlob { bytes: bytes@ },
            Event::LookupNotBlob => EventModel::LookupNotBlob,
            Event::LookupObjectFailed { cause } => EventModel::LookupObjectFailed {
                cause: cause@,
            },
            Event::FileRead { content } => EventModel::FileRead { content: content@ },
            Event::FileReadFailed { cause } => EventModel::FileReadFailed { cause: cause@ },
        }
    }
}

/// Where the resolver stands, and what it remembers.
pub enum Phase {
    /// Waiting to hear whether the file exists on disk.
    ProbingDisk,
    /// Waiting for the upward repository search from the file's parent.
    Discovering,
    /// Waiting for the repository at the project path to open; `rel_path`
    /// is the path the tree lookup will use.
    Opening { rel_path: String },
    /// Waiting for HEAD to peel to a commit with a tree.
    ResolvingHead { repo: RepoChoice, rel_path: String },
    /// Waiting for the tree lookup.
    LookingUp { repo: RepoChoice, rel_path: String },
    /// HEAD side settled; waiting for the second disk probe.
    ProbingWorkdir { original: String, exists_at_head: bool },
    /// Waiting for the on-disk file's text.
    Reading { original: String, exists_at_head: bool },
}

/// The mathematical value of a phase.
pub enum PhaseModel {
    ProbingDisk,
    Discovering,
    Opening { rel_path: Seq<char> },
    ResolvingHead { repo: RepoChoice, rel_path: Seq<char> },
    LookingUp { repo: RepoChoice, rel_path: Seq<char> },
    ProbingWorkdir { original: Seq<char>, exists_at_head: bool },
    Reading { original: Seq<char>, exists_at_head: bool },
}

impl View for Phase {
    type V = PhaseModel;

    open spec fn view(&self) -> PhaseModel {
        match self {
            Phase::ProbingDisk => PhaseModel::ProbingDisk,
            Phase::Discovering => PhaseModel::Discovering,
            Phase::Opening { rel_path } => PhaseModel::Opening { rel_path: rel_path@ },
            Phase::ResolvingHead { repo, rel_path } => PhaseModel::ResolvingHead {
                repo: *repo,
                rel_path: rel_path@,
            },
            Phase::LookingUp { repo, rel_path } => PhaseModel::LookingUp {
                repo: *repo,
                rel_path: rel_path@,
            },
            Phase::ProbingWorkdir { original, exists_at_head } => PhaseModel::ProbingWorkdir {
                original: original@,
                exists_at_head: *exists_at_head,
            },
            Phase::Reading { original, exists_at_head } => PhaseModel::Reading {
                original: original@,
                exists_at_head: *exists_at_head,
            },
        }
    }
}

/// The resolver for one `(project_path, file_path)` pair.
pub struct Resolver {
    project_path: String,
    file_path: String,
    actual_path: String,
    phase: Phase,
}

/// The mathematical value of a resolver.
pub struct StateModel {
    pub project: Seq<char>,
    pub file: Seq<char>,
    pub actual: Seq<char>,
    pub phase: PhaseModel,
}

impl View for Resolver {
    type V = StateModel;

    closed spec fn view(&self) -> StateModel {
        StateModel {
            project: self.project_path@,
            file: self.file_path@,
            actual: self.actual_path@,
            phase: self.phase@,
        }
    }
}

/// What one step of the resolver produced.
pub enum StepResult {
    /// The resolver needs one more observation: perform `action` and hand
    /// the matching event back to `resolver`.
    Pending { resolver: Resolver, action: Action },
    /// The snapshot is assembled.
    Finished { snapshot: GitFileDiff },
    /// The resolution failed; the error says why.
    Failed { error: GitDiffError },
    /// The event does not answer the pending action. A driver that performs
    /// each requested action and answers it never sees this.
    Rejected,
}

/// The mathematical value of a step result.
pub enum StepModel {
    Pending { state: StateModel, action: ActionModel },
    Finished { snapshot: SnapshotModel },
    Failed { error: ErrorModel },
    Rejected,
}

impl View for StepResult {
    type V = StepModel;

    open spec fn view(&self) -> StepModel {
        match self {
            StepResult::Pending { resolver, action } => StepModel::Pending {
                state: resolver@,
                action: action@,
            },
            StepResult::Finished { snapshot } => StepModel::Finished { snapshot: snapshot@ },
            StepResult::Failed { error } => StepModel::Failed { error: error@ },
            StepResult::Rejected => StepModel::Rejected,
        }
    }
}

/// The absolute disk path of the file: `file` as given when absolute, else
/// `file` joined onto `project`.
pub open spec fn spec_actual_path(project: Seq<char>, file: Seq<char>) -> Seq<char> {
    if spec_is_absolute(file) {
        file
    } else {
        spec_join(project, file)
    }
}

/// The path used for the HEAD-tree lookup once a repository was discovered:
/// the file's path relative to the discovered working directory, or the
/// given file path taken literally when the prefix cannot be stripped.
pub open spec fn spec_rel_for_workdir(actual: Seq<char>, workdir: Seq<char>, file: Seq<char>) -> Seq<
    char,
> {
    match spec_strip_prefix(actual, workdir) {
        Some(rel) => rel,
        None => file,
    }
}

/// The state a fresh resolver starts in.
pub open spec fn init_model(project: Seq<char>, file: Seq<char>) -> StateModel {
    StateModel {
        project: project,
        file: file,
        actual: spec_actual_path(project, file),
        phase: PhaseModel::ProbingDisk,
    }
}

/// The whole transition relation of the resolver, as one total function:
/// what each event makes of each state. `Rejected` answers an event that
/// does not fit the phase.
pub open spec fn step_model(s: StateModel, e: EventModel) -> StepModel {
    match s.phase {
        PhaseModel::ProbingDisk => match e {
            EventModel::FileExists { exists } => if exists {
                StepModel::Pending {
                    state: StateModel { phase: PhaseModel::Discovering, ..s },
                    action: ActionModel::DiscoverRepository { dir: spec_parent(s.actual) },
                }
            } else {
                StepModel::Pending {
                    state: StateModel { phase: PhaseModel::Opening { rel_path: s.file }, ..s },
                    action: ActionModel::OpenRepository { path: s.project },
                }
            },
            _ => StepModel::Rejected,
        },
        PhaseModel::Discovering => match e {
            EventModel::Discovered { workdir } => StepModel::Pending {
                state: StateModel {
                    phase: PhaseModel::ResolvingHead {
                        repo: RepoChoice::Discovered,
                        rel_path: spec_rel_for_workdir(s.actual, workdir, s.file),
                    },
                    ..s
                },
                action: ActionModel::ResolveHeadTree { repo: RepoChoice::Discovered },
            },
            EventModel::DiscoveredBare => StepModel::Failed {
                error: ErrorModel::RepositoryResolution {
                    cause: "Repository has no working directory"@,
                },
            },
            EventModel::DiscoverFailed => StepModel::Pending {
                state: StateModel { phase: PhaseModel::Opening { rel_path: s.file }, ..s },
                action: ActionModel::OpenRepository { path: s.project },
            },
            _ => StepModel::Rejected,
        },
        PhaseModel::Opening { rel_path } => match e {
            EventModel::Opened => StepModel::Pending {
                state: StateModel {
                    phase: PhaseModel::ResolvingHead { repo: RepoChoice::Project, rel_path },
                    ..s
                },
                action: ActionModel::ResolveHeadTree { repo: RepoChoice::Project },
            },
            EventModel::OpenFailed { cause } => StepModel::Failed {
                error: ErrorModel::RepositoryResolution { cause },
            },
            _ => StepModel::Rejected,
        },
        PhaseModel::ResolvingHead { repo, rel_path } => match e {
            EventModel::HeadTreeReady => StepModel::Pending {
                state: StateModel { phase: PhaseModel::LookingUp { repo, rel_path }, ..s },
                action: ActionModel::LookupInHeadTree { rel_path },
            },
            EventModel::HeadFailed { cause } => StepModel::Failed {
                error: ErrorModel::HeadResolution { cause },
            },
            EventModel::TreeFailed { cause } => StepModel::Failed {
                error: ErrorModel::TreeAccess { cause },
            },
            _ => StepModel::Rejected,
        },
        PhaseModel::LookingUp { repo, rel_path } => match e {
            EventModel::LookupNotFound => StepModel::Pending {
                state: StateModel {
                    phase: PhaseModel::ProbingWorkdir {
                        original: Seq::<char>::empty(),
                        exists_at_head: false,
                    },
                    ..s
                },
                action: ActionModel::CheckFileExists { path: s.actual },
            },
            EventModel::LookupBlob { bytes } => StepModel::Pending {
                state: StateModel {
                    phase: PhaseModel::ProbingWorkdir {
                        original: lossy_utf8(bytes),
                        exists_at_head: true,
                    },
                    ..s
                },
                action: ActionModel::CheckFileExists { path: s.actual },
            },
            EventModel::LookupNotBlob => StepModel::Failed {
                error: ErrorModel::ObjectRead { cause: "Entry is not a blob"@ },
            },
            EventModel::LookupObjectFailed { cause } => StepModel::Failed {
                error: ErrorModel::ObjectRead { cause },
            },
            _ => StepModel::Rejected,
        },
        PhaseModel::ProbingWorkdir { original, exists_at_head } => match e {
            EventModel::FileExists { exists } => if exists {
                StepModel::Pending {
                    state: StateModel {
                        phase: PhaseModel::Reading { original, exists_at_head },
                        ..s
                    },
                    action: ActionModel::ReadWorkdirFile { path: s.actual },
                }
            } else {
                StepModel::Finished {
                    snapshot: SnapshotModel {
                        original,
                        current: Seq::<char>::empty(),
                        exists_at_head,
                        exists_in_workdir: false,
                    },
                }
            },
            _ => StepModel::Rejected,
        },
        PhaseModel::Reading { original, exists_at_head } => match e {
            EventModel::FileRead { content } => StepModel::Finished {
                snapshot: SnapshotModel {
                    original,
                    current: content,
                    exists_at_head,
                    exists_in_workdir: true,
                },
            },
            EventModel::FileReadFailed { cause } => StepModel::Failed {
                error: ErrorModel::WorkdirRead { cause },
            },
            _ => StepModel::Rejected,
        },
    }
}

impl Resolver {
    /// Begin resolving `(project_path, file_path)`. The returned action is
    /// the first observation the driver must make: a probe of the file's
    /// absolute disk path.
    pub fn start(project_path: String, file_path: String) -> (r: (Resolver, Action))
        ensures
            r.0@ == init_model(project_path@, file_path@),
            r.1@ == (ActionModel::CheckFileExists {
                path: spec_actual_path(project_path@, file_path@),
            }),
    {
        let actual_path = if is_absolute_path(file_path.as_str()) {
            file_path.clone()
        } else {
            join_path(project_path.as_str(), file_path.as_str())
        };
        let probe = actual_path.clone();
        (
            Resolver { project_path, file_path, actual_path, phase: Phase::ProbingDisk },
            Action::CheckFileExists { path: probe },
        )
    }

    /// Feed the answer to the pending action in and take the next step. The
    /// result is exactly what the model [`step_model`] says.
    pub fn step(self, event: Event) -> (r: StepResult)
        ensures
            r@ == step_model(self@, event@),
    {
        let Resolver { project_path, file_path, actual_path, phase } = self;
        match (phase, event) {
            (Phase::ProbingDisk, Event::FileExists { exists }) => {
                if exists {
                    let dir = parent_dir(actual_path.as_str());
                    StepResult::Pending {
                        resolver: Resolver {
                            project_path,
                            file_path,
                            actual_path,
                            phase: Phase::Discovering,
                        },
                        action: Action::DiscoverRepository { dir },
                    }
                } else {
                    let target = project_path.clone();
                    let rel_path = file_path.clone();
                    StepResult::Pending {
                        resolver: Resolver {
                            project_path,
                            file_path,
                            actual_path,
                            phase: Phase::Opening { rel_path },
                        },
                        action: Action::OpenRepository { path: target },
                    }
                }
            },
            (Phase::Discovering, Event::Discovered { workdir }) => {
                let rel_path = match strip_path_prefix(actual_path.as_str(), workdir.as_str()) {
                    Some(rel) => rel,
                    None => file_path.clone(),
                };
                StepResult::Pending {
                    resolver: Resolver {
                        project_path,
                        file_path,
                        actual_path,
                        phase: Phase::ResolvingHead {
                            repo: RepoChoice::Discovered,
                            rel_path,
                        },
                    },
                    action: Action::ResolveHeadTree { repo: RepoChoice::Discovered },
                }
            },
            (Phase::Discovering, Event::DiscoveredBare) => StepResult::Failed {
                error: GitDiffError::RepositoryResolution {
                    cause: String::from_str("Repository has no working directory"),
                },
            },
            (Phase::Discovering, Event::DiscoverFailed) => {
                let target = project_path.clone();
                let rel_path = file_path.clone();
                StepResult::Pending {
                    resolver: Resolver {
                        project_path,
                        file_path,
                        actual_path,
                        phase: Phase::Opening { rel_path },
                    },
                    action: Action::OpenRepository { path: target },
                }
            },
            (Phase::Opening { rel_path }, Event::Opened) => {
                let lookup = rel_path.clone();
                StepResult::Pending {
                    resolver: Resolver {
                        project_path,
                        file_path,
                        actual_path,
                        phase: Phase::ResolvingHead { repo: RepoChoice::Project, rel_path: lookup },
                    },
                    action: Action::ResolveHeadTree { repo: RepoChoice::Project },
                }
            },
            (Phase::Opening { .. }, Event::OpenFailed { cause }) => StepResult::Failed {
                error: GitDiffError::RepositoryResolution { cause },
            },
            (Phase::ResolvingHead { repo, rel_path }, Event::HeadTreeReady) => {
                let lookup = rel_path.clone();
                StepResult::Pending {
                    resolver: Resolver {
                        project_path,
                        file_path,
                        actual_path,
                        phase: Phase::LookingUp { repo, rel_path },
                    },
                    action: Action::LookupInHeadTree { rel_path: lookup },
                }
            },
            (Phase::ResolvingHead { .. }, Event::HeadFailed { cause }) => StepResult::Failed {
                error: GitDiffError::HeadResolution { cause },
            },
            (Phase::ResolvingHead { .. }, Event::TreeFailed { cause }) => StepResult::Failed {
                error: GitDiffError::TreeAccess { cause },
            },
            (Phase::LookingUp { .. }, Event::LookupNotFound) => {
                let probe = actual_path.clone();
                StepResult::Pending {
                    resolver: Resolver {
                        project_path,
                        file_path,
                        actual_path,
                        phase: Phase::ProbingWorkdir {
                            original: String::new(),
                            exists_at_head: false,
                        },
                    },
                    action: Action::CheckFileExists { path: probe },
                }
            },
            (Phase::LookingUp { .. }, Event::LookupBlob { bytes }) => {
                let original = lossy_decode(&bytes);
                let probe = actual_path.clone();
                StepResult::Pending {
                    resolver: Resolver {
                        project_path,
                        file_path,
                        actual_path,
                        phase: Phase::ProbingWorkdir { original, exists_at_head: true },
                    },
                    action: Action::CheckFileExists { path: probe },
                }
            },
            (Phase::LookingUp { .. }, Event::LookupNotBlob) => StepResult::Failed {
                error: GitDiffError::ObjectRead {
                    cause: String::from_str("Entry is not a blob"),
                },
            },
            (Phase::LookingUp { .. }, Event::LookupObjectFailed { cause }) => StepResult::Failed {
                error: GitDiffError::ObjectRead { cause },
            },
            (Phase::ProbingWorkdir { original, exists_at_head }, Event::FileExists { exists }) => {
                if exists {
                    let target = actual_path.clone();
                    StepResult::Pending {
                        resolver: Resolver {
                            project_path,
                            file_path,
                            actual_path,
                            phase: Phase::Reading { original, exists_at_head },
                        },
                        action: Action::ReadWorkdirFile { path: target },
                    }
                } else {
                    StepResult::Finished {
                        snapshot: GitFileDiff {
                            original,
                            current: String::new(),
                            exists_at_head,
                            exists_in_workdir: false,
                        },
                    }
                }
            },
            (Phase::Reading { original, exists_at_head }, Event::FileRead { content }) => {
                StepResult::Finished {
                    snapshot: GitFileDiff {
                        original,
                        current: content,
                        exists_at_head,
                        exists_in_workdir: true,
                    },
                }
            },
            (Phase::Reading { .. }, Event::FileReadFailed { cause }) => StepResult::Failed {
                error: GitDiffError::WorkdirRead { cause },
            },
            _ => StepResult::Rejected,
        }
    }
}

} // verus!
