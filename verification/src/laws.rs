//! What holds of whole runs of the resolver.
//!
//! [`run_model`] folds [`step_model`] over a sequence of observations, so a
//! law can speak about a run from any state to its outcome. The proof
//! functions here state the library's laws: the outcome is a function of the
//! inputs and the observations alone; a finished snapshot is well formed;
//! each combination of "present at HEAD" and "present on disk" yields
//! exactly the snapshot it should; the discovered repository is preferred
//! over the project's; a missing file falls back to the project repository
//! with the literal path; and the two hard error paths end the run at once.

use vstd::prelude::*;

use crate::decode::lossy_utf8;
use crate::resolver::ActionModel;
use crate::resolver::ErrorModel;
use crate::resolver::EventModel;
use crate::resolver::PhaseModel;
use crate::resolver::RepoChoice;
use crate::resolver::StateModel;
use crate::resolver::StepModel;
use crate::resolver::init_model;
use crate::resolver::spec_rel_for_workdir;
use crate::resolver::step_model;
use crate::snapshot::SnapshotModel;
use crate::snapshot::snapshot_wf;

verus! {

/// Where a run of the resolver ended.
pub enum RunResult {
    /// The observations ran out with the resolver still waiting.
    Pending { state: StateModel },
    /// The snapshot was assembled; later observations are ignored.
    Finished { snapshot: SnapshotModel },
    /// The run failed; later observations are ignored.
    Failed { error: ErrorModel },
    /// An observation did not answer the pending action.
    Rejected,
}

/// A run: [`step_model`] folded over the observations, from state `s`.
pub open spec fn run_model(s: StateModel, evs: Seq<EventModel>) -> RunResult
    decreases evs.len(),
{
    if evs.len() == 0 {
        RunResult::Pending { state: s }
    } else {
        match step_model(s, evs[0]) {
            StepModel::Pending { state, action } => run_model(state, evs.drop_first()),
            StepModel::Finished { snapshot } => RunResult::Finished { snapshot },
            StepModel::Failed { error } => RunResult::Failed { error },
            StepModel::Rejected => RunResult::Rejected,
        }
    }
}

/// The one fact the resolver carries between phases: once the HEAD side is
/// settled, an absent HEAD side means empty `original`.
pub open spec fn state_wf(s: StateModel) -> bool {
    match s.phase {
        PhaseModel::ProbingWorkdir { original, exists_at_head } => !exists_at_head
            ==> original.len() == 0,
        PhaseModel::Reading { original, exists_at_head } => !exists_at_head ==> original.len()
            == 0,
        _ => true,
    }
}

proof fn lemma_step_preserves_wf(s: StateModel, e: EventModel)
    requires
        state_wf(s),
    ensures
        step_model(s, e) matches StepModel::Pending { state, .. } ==> state_wf(state),
        step_model(s, e) matches StepModel::Finished { snapshot } ==> snapshot_wf(snapshot),
{
}

/// A finished run hands back a well-formed snapshot, whatever the
/// observations were: a side on which the file does not exist carries empty
/// content.
pub proof fn lemma_finished_snapshot_wf(s: StateModel, evs: Seq<EventModel>, snap: SnapshotModel)
    requires
        state_wf(s),
        run_model(s, evs) == (RunResult::Finished { snapshot: snap }),
    ensures
        snapshot_wf(snap),
    decreases evs.len(),
{
    if evs.len() > 0 {
        lemma_step_preserves_wf(s, evs[0]);
        match step_model(s, evs[0]) {
            StepModel::Pending { state, action } => {
                lemma_finished_snapshot_wf(state, evs.drop_first(), snap);
            },
            _ => {},
        }
    }
}

/// Two runs from the same inputs on the same observations end alike: the
/// resolver holds no hidden state, so with no intervening mutation of the
/// repository or the disk (the observations being equal), the snapshot is
/// the same.
pub proof fn lemma_run_deterministic(
    project: Seq<char>,
    file: Seq<char>,
    evs1: Seq<EventModel>,
    evs2: Seq<EventModel>,
)
    requires
        evs1 == evs2,
    ensures
        run_model(init_model(project, file), evs1) == run_model(init_model(project, file), evs2),
{
}

/// A file present at HEAD as a blob and present and readable on disk yields
/// a snapshot with both flags set, the decoded blob as `original` and the
/// disk content as `current`.
pub proof fn lemma_present_on_both_sides(
    s: StateModel,
    repo: RepoChoice,
    rel: Seq<char>,
    bytes: Seq<u8>,
    content: Seq<char>,
)
    requires
        s.phase == (PhaseModel::LookingUp { repo, rel_path: rel }),
    ensures
        run_model(
            s,
            seq![
                EventModel::LookupBlob { bytes },
                EventModel::FileExists { exists: true },
                EventModel::FileRead { content },
            ],
        ) == (RunResult::Finished {
            snapshot: SnapshotModel {
                original: lossy_utf8(bytes),
                current: content,
                exists_at_head: true,
                exists_in_workdir: true,
            },
        }),
{
    let e0 = EventModel::LookupBlob { bytes };
    let e1 = EventModel::FileExists { exists: true };
    let e2 = EventModel::FileRead { content };
    let s1 = StateModel {
        phase: PhaseModel::ProbingWorkdir { original: lossy_utf8(bytes), exists_at_head: true },
        ..s
    };
    let s2 = StateModel {
        phase: PhaseModel::Reading { original: lossy_utf8(bytes), exists_at_head: true },
        ..s
    };
    assert(seq![e0, e1, e2].drop_first() =~= seq![e1, e2]);
    assert(seq![e1, e2].drop_first() =~= seq![e2]);
    assert(run_model(s, seq![e0, e1, e2]) == run_model(s1, seq![e1, e2]));
    assert(run_model(s1, seq![e1, e2]) == run_model(s2, seq![e2]));
}

/// A file absent at HEAD (a new file, not yet committed) but present and
/// readable on disk yields empty `original`, a cleared HEAD flag, and the
/// disk content as `current`.
pub proof fn lemma_new_file(
    s: StateModel,
    repo: RepoChoice,
    rel: Seq<char>,
    content: Seq<char>,
)
    requires
        s.phase == (PhaseModel::LookingUp { repo, rel_path: rel }),
    ensures
        run_model(
            s,
            seq![
                EventModel::LookupNotFound,
                EventModel::FileExists { exists: true },
                EventModel::FileRead { content },
            ],
        ) == (RunResult::Finished {
            snapshot: SnapshotModel {
                original: Seq::<char>::empty(),
                current: content,
                exists_at_head: false,
                exists_in_workdir: true,
            },
        }),
{
    let e0 = EventModel::LookupNotFound;
    let e1 = EventModel::FileExists { exists: true };
    let e2 = EventModel::FileRead { content };
    let s1 = StateModel {
        phase: PhaseModel::ProbingWorkdir {
            original: Seq::<char>::empty(),
            exists_at_head: false,
        },
        ..s
    };
    let s2 = StateModel {
        phase: PhaseModel::Reading { original: Seq::<char>::empty(), exists_at_head: false },
        ..s
    };
    assert(seq![e0, e1, e2].drop_first() =~= seq![e1, e2]);
    assert(seq![e1, e2].drop_first() =~= seq![e2]);
    assert(run_model(s, seq![e0, e1, e2]) == run_model(s1, seq![e1, e2]));
    assert(run_model(s1, seq![e1, e2]) == run_model(s2, seq![e2]));
}

/// A file present at HEAD but deleted from disk yields the committed
/// content as `original`, a set HEAD flag, empty `current` and a cleared
/// disk flag.
pub proof fn lemma_deleted_file(s: StateModel, repo: RepoChoice, rel: Seq<char>, bytes: Seq<u8>)
    requires
        s.phase == (PhaseModel::LookingUp { repo, rel_path: rel }),
    ensures
        run_model(
            s,
            seq![EventModel::LookupBlob { bytes }, EventModel::FileExists { exists: false }],
        ) == (RunResult::Finished {
            snapshot: SnapshotModel {
                original: lossy_utf8(bytes),
                current: Seq::<char>::empty(),
                exists_at_head: true,
                exists_in_workdir: false,
            },
        }),
{
    let e0 = EventModel::LookupBlob { bytes };
    let e1 = EventModel::FileExists { exists: false };
    let s1 = StateModel {
        phase: PhaseModel::ProbingWorkdir { original: lossy_utf8(bytes), exists_at_head: true },
        ..s
    };
    assert(seq![e0, e1].drop_first() =~= seq![e1]);
    assert(run_model(s, seq![e0, e1]) == run_model(s1, seq![e1]));
}

/// When the upward search from the file's location finds a repository, the
/// resolver uses that repository — not the project's — and looks the file
/// up under its path relative to that repository's working directory (the
/// literal file path only when the prefix cannot be stripped).
pub proof fn lemma_discovered_repository_wins(s: StateModel, workdir: Seq<char>)
    requires
        s.phase == PhaseModel::Discovering,
    ensures
        step_model(s, EventModel::Discovered { workdir }) == (StepModel::Pending {
            state: StateModel {
                phase: PhaseModel::ResolvingHead {
                    repo: RepoChoice::Discovered,
                    rel_path: spec_rel_for_workdir(s.actual, workdir, s.file),
                },
                ..s
            },
            action: ActionModel::ResolveHeadTree { repo: RepoChoice::Discovered },
        }),
{
}

/// When the file does not exist on disk, the resolver opens the repository
/// at the project path directly and the HEAD-tree lookup uses the given
/// file path literally as the relative path.
pub proof fn lemma_fallback_uses_literal_path(s: StateModel)
    requires
        s.phase == PhaseModel::ProbingDisk,
    ensures
        ({
            let s1 = StateModel { phase: PhaseModel::Opening { rel_path: s.file }, ..s };
            let s2 = StateModel {
                phase: PhaseModel::ResolvingHead { repo: RepoChoice::Project, rel_path: s.file },
                ..s
            };
            let s3 = StateModel {
                phase: PhaseModel::LookingUp { repo: RepoChoice::Project, rel_path: s.file },
                ..s
            };
            &&& step_model(s, EventModel::FileExists { exists: false }) == (StepModel::Pending {
                state: s1,
                action: ActionModel::OpenRepository { path: s.project },
            })
            &&& step_model(s1, EventModel::Opened) == (StepModel::Pending {
                state: s2,
                action: ActionModel::ResolveHeadTree { repo: RepoChoice::Project },
            })
            &&& step_model(s2, EventModel::HeadTreeReady) == (StepModel::Pending {
                state: s3,
                action: ActionModel::LookupInHeadTree { rel_path: s.file },
            })
        }),
{
}

/// When no repository encloses the file and the project path is not a
/// repository either, the run fails with a repository-resolution error —
/// whether the file was on disk (discovery tried and failed) or not
/// (discovery skipped).
pub proof fn lemma_no_repository_anywhere_fails(s: StateModel, cause: Seq<char>)
    requires
        s.phase == PhaseModel::ProbingDisk,
    ensures
        run_model(
            s,
            seq![
                EventModel::FileExists { exists: true },
                EventModel::DiscoverFailed,
                EventModel::OpenFailed { cause },
            ],
        ) == (RunResult::Failed { error: ErrorModel::RepositoryResolution { cause } }),
        run_model(
            s,
            seq![EventModel::FileExists { exists: false }, EventModel::OpenFailed { cause }],
        ) == (RunResult::Failed { error: ErrorModel::RepositoryResolution { cause } }),
{
    let e_yes = EventModel::FileExists { exists: true };
    let e_no = EventModel::FileExists { exists: false };
    let e_disc = EventModel::DiscoverFailed;
    let e_open = EventModel::OpenFailed { cause };
    let s_disc = StateModel { phase: PhaseModel::Discovering, ..s };
    let s_open = StateModel { phase: PhaseModel::Opening { rel_path: s.file }, ..s };
    assert(seq![e_yes, e_disc, e_open].drop_first() =~= seq![e_disc, e_open]);
    assert(seq![e_disc, e_open].drop_first() =~= seq![e_open]);
    assert(seq![e_no, e_open].drop_first() =~= seq![e_open]);
    assert(run_model(s, seq![e_yes, e_disc, e_open]) == run_model(s_disc, seq![e_disc, e_open]));
    assert(run_model(s_disc, seq![e_disc, e_open]) == run_model(s_open, seq![e_open]));
    assert(run_model(s, seq![e_no, e_open]) == run_model(s_open, seq![e_open]));
}

/// A HEAD that cannot be resolved to a commit — an unborn branch in a
/// repository with no commits — is a hard error that ends the run at once,
/// regardless of the file's on-disk state: no later observation changes the
/// outcome.
pub proof fn lemma_unborn_head_fails(
    s: StateModel,
    repo: RepoChoice,
    rel: Seq<char>,
    cause: Seq<char>,
    rest: Seq<EventModel>,
)
    requires
        s.phase == (PhaseModel::ResolvingHead { repo, rel_path: rel }),
    ensures
        step_model(s, EventModel::HeadFailed { cause }) == (StepModel::Failed {
            error: ErrorModel::HeadResolution { cause },
        }),
        run_model(s, seq![EventModel::HeadFailed { cause }] + rest) == (RunResult::Failed {
            error: ErrorModel::HeadResolution { cause },
        }),
{
    let evs = seq![EventModel::HeadFailed { cause }] + rest;
    assert(evs[0] == (EventModel::HeadFailed { cause }));
}

} // verus!
