use git_file_diff::resolver::Action;
use git_file_diff::resolver::Event;
use git_file_diff::resolver::GitDiffError;
use git_file_diff::resolver::RepoChoice;
use git_file_diff::resolver::Resolver;
use git_file_diff::resolver::StepResult;
use git_file_diff::snapshot::GitFileDiff;

fn pending(r: StepResult) -> (Resolver, Action) {
    match r {
        StepResult::Pending { resolver, action } => (resolver, action),
        _ => panic!("expected the resolver to ask for one more observation"),
    }
}

fn finished(r: StepResult) -> GitFileDiff {
    match r {
        StepResult::Finished { snapshot } => snapshot,
        _ => panic!("expected the resolver to finish"),
    }
}

fn failed(r: StepResult) -> GitDiffError {
    match r {
        StepResult::Failed { error } => error,
        _ => panic!("expected the resolver to fail"),
    }
}

/// Drive one full resolution and return its snapshot.
fn run_to_snapshot(project: &str, file: &str, events: Vec<Event>) -> GitFileDiff {
    let (mut resolver, _action) = Resolver::start(project.to_string(), file.to_string());
    let mut events = events.into_iter();
    loop {
        let event = events.next().expect("ran out of scripted observations");
        match resolver.step(event) {
            StepResult::Pending { resolver: next, action: _ } => resolver = next,
            StepResult::Finished { snapshot } => return snapshot,
            StepResult::Failed { error } => {
                panic!("unexpected failure: {}", error.message())
            }
            StepResult::Rejected => panic!("event did not answer the pending action"),
        }
    }
}

#[test]
fn relative_file_path_is_joined_onto_the_project() {
    let (_resolver, action) = Resolver::start("/p".to_string(), "f.txt".to_string());
    match action {
        Action::CheckFileExists { path } => assert_eq!(path, "/p/f.txt"),
        _ => panic!("expected a disk probe first"),
    }
}

#[test]
fn absolute_file_path_is_taken_as_given() {
    let (_resolver, action) = Resolver::start("/p".to_string(), "/elsewhere/f.txt".to_string());
    match action {
        Action::CheckFileExists { path } => assert_eq!(path, "/elsewhere/f.txt"),
        _ => panic!("expected a disk probe first"),
    }
}

#[test]
fn file_present_on_both_sides() {
    let snapshot = run_to_snapshot(
        "/p",
        "f.txt",
        vec![
            Event::FileExists { exists: true },
            Event::Discovered { workdir: "/p/".to_string() },
            Event::HeadTreeReady,
            Event::LookupBlob { bytes: b"committed text".to_vec() },
            Event::FileExists { exists: true },
            Event::FileRead { content: "edited text".to_string() },
        ],
    );
    assert!(snapshot.exists_at_head);
    assert!(snapshot.exists_in_workdir);
    assert_eq!(snapshot.original, "committed text");
    assert_eq!(snapshot.current, "edited text");
}

#[test]
fn new_uncommitted_file() {
    let snapshot = run_to_snapshot(
        "/p",
        "fresh.txt",
        vec![
            Event::FileExists { exists: true },
            Event::Discovered { workdir: "/p/".to_string() },
            Event::HeadTreeReady,
            Event::LookupNotFound,
            Event::FileExists { exists: true },
            Event::FileRead { content: "brand new".to_string() },
        ],
    );
    assert!(!snapshot.exists_at_head);
    assert_eq!(snapshot.original, "");
    assert!(snapshot.exists_in_workdir);
    assert_eq!(snapshot.current, "brand new");
}

#[test]
fn file_deleted_from_disk() {
    let snapshot = run_to_snapshot(
        "/p",
        "gone.txt",
        vec![
            Event::FileExists { exists: true },
            Event::Discovered { workdir: "/p/".to_string() },
            Event::HeadTreeReady,
            Event::LookupBlob { bytes: b"still at HEAD".to_vec() },
            Event::FileExists { exists: false },
        ],
    );
    assert!(snapshot.exists_at_head);
    assert_eq!(snapshot.original, "still at HEAD");
    assert!(!snapshot.exists_in_workdir);
    assert_eq!(snapshot.current, "");
}

#[test]
fn same_observations_give_the_same_snapshot() {
    let events = || {
        vec![
            Event::FileExists { exists: true },
            Event::Discovered { workdir: "/p/".to_string() },
            Event::HeadTreeReady,
            Event::LookupBlob { bytes: b"same".to_vec() },
            Event::FileExists { exists: true },
            Event::FileRead { content: "same too".to_string() },
        ]
    };
    let first = run_to_snapshot("/p", "f.txt", events());
    let second = run_to_snapshot("/p", "f.txt", events());
    assert_eq!(first.original, second.original);
    assert_eq!(first.current, second.current);
    assert_eq!(first.exists_at_head, second.exists_at_head);
    assert_eq!(first.exists_in_workdir, second.exists_in_workdir);
}

#[test]
fn nested_repository_wins_over_the_project() {
    let (resolver, action) = Resolver::start(
        "/work/outer".to_string(),
        "/work/outer/vendor/inner/lib.txt".to_string(),
    );
    match action {
        Action::CheckFileExists { path } => assert_eq!(path, "/work/outer/vendor/inner/lib.txt"),
        _ => panic!("expected a disk probe first"),
    }
    let (resolver, action) = pending(resolver.step(Event::FileExists { exists: true }));
    match action {
        Action::DiscoverRepository { dir } => assert_eq!(dir, "/work/outer/vendor/inner"),
        _ => panic!("expected an upward repository search"),
    }
    let (resolver, action) = pending(resolver.step(Event::Discovered {
        workdir: "/work/outer/vendor/inner/".to_string(),
    }));
    match action {
        Action::ResolveHeadTree { repo } => assert_eq!(repo, RepoChoice::Discovered),
        _ => panic!("expected HEAD of the discovered repository"),
    }
    let (resolver, action) = pending(resolver.step(Event::HeadTreeReady));
    match action {
        Action::LookupInHeadTree { rel_path } => assert_eq!(rel_path, "lib.txt"),
        _ => panic!("expected a tree lookup"),
    }
    let (resolver, _action) = pending(resolver.step(Event::LookupBlob {
        bytes: b"inner content".to_vec(),
    }));
    let (resolver, _action) = pending(resolver.step(Event::FileExists { exists: true }));
    let snapshot = finished(resolver.step(Event::FileRead { content: "local edit".to_string() }));
    assert_eq!(snapshot.original, "inner content");
    assert_eq!(snapshot.current, "local edit");
}

#[test]
fn workdir_outside_prefix_falls_back_to_literal_path() {
    let (resolver, _action) = Resolver::start("/p".to_string(), "notes/f.txt".to_string());
    let (resolver, _action) = pending(resolver.step(Event::FileExists { exists: true }));
    let (resolver, action) = pending(resolver.step(Event::Discovered {
        workdir: "/somewhere/else/".to_string(),
    }));
    match action {
        Action::ResolveHeadTree { repo } => assert_eq!(repo, RepoChoice::Discovered),
        _ => panic!("expected HEAD of the discovered repository"),
    }
    let (_resolver, action) = pending(resolver.step(Event::HeadTreeReady));
    match action {
        Action::LookupInHeadTree { rel_path } => assert_eq!(rel_path, "notes/f.txt"),
        _ => panic!("expected a lookup under the literal file path"),
    }
}

#[test]
fn missing_file_opens_the_project_repository() {
    let (resolver, _action) = Resolver::start("/p".to_string(), "f.txt".to_string());
    let (resolver, action) = pending(resolver.step(Event::FileExists { exists: false }));
    match action {
        Action::OpenRepository { path } => assert_eq!(path, "/p"),
        _ => panic!("expected the project repository to be opened directly"),
    }
    let (resolver, action) = pending(resolver.step(Event::Opened));
    match action {
        Action::ResolveHeadTree { repo } => assert_eq!(repo, RepoChoice::Project),
        _ => panic!("expected HEAD of the project repository"),
    }
    let (_resolver, action) = pending(resolver.step(Event::HeadTreeReady));
    match action {
        Action::LookupInHeadTree { rel_path } => assert_eq!(rel_path, "f.txt"),
        _ => panic!("expected a lookup under the literal file path"),
    }
}

#[test]
fn discovery_failure_falls_back_to_the_project_repository() {
    let (resolver, _action) = Resolver::start("/p".to_string(), "f.txt".to_string());
    let (resolver, _action) = pending(resolver.step(Event::FileExists { exists: true }));
    let (_resolver, action) = pending(resolver.step(Event::DiscoverFailed));
    match action {
        Action::OpenRepository { path } => assert_eq!(path, "/p"),
        _ => panic!("expected the project repository to be opened directly"),
    }
}

#[test]
fn no_repository_anywhere_is_a_resolution_error() {
    let (resolver, _action) = Resolver::start("/p".to_string(), "f.txt".to_string());
    let (resolver, _action) = pending(resolver.step(Event::FileExists { exists: true }));
    let (resolver, _action) = pending(resolver.step(Event::DiscoverFailed));
    let error = failed(resolver.step(Event::OpenFailed {
        cause: "could not find repository at '/p'".to_string(),
    }));
    match &error {
        GitDiffError::RepositoryResolution { cause } => {
            assert_eq!(cause, "could not find repository at '/p'")
        }
        _ => panic!("expected a repository-resolution error"),
    }
    assert_eq!(
        error.message(),
        "Failed to open repository: could not find repository at '/p'"
    );
}

#[test]
fn bare_repository_is_a_resolution_error() {
    let (resolver, _action) = Resolver::start("/p".to_string(), "f.txt".to_string());
    let (resolver, _action) = pending(resolver.step(Event::FileExists { exists: true }));
    let error = failed(resolver.step(Event::DiscoveredBare));
    match &error {
        GitDiffError::RepositoryResolution { cause } => {
            assert_eq!(cause, "Repository has no working directory")
        }
        _ => panic!("expected a repository-resolution error"),
    }
}

#[test]
fn unborn_head_is_a_head_resolution_error() {
    let (resolver, _action) = Resolver::start("/p".to_string(), "f.txt".to_string());
    let (resolver, _action) = pending(resolver.step(Event::FileExists { exists: false }));
    let (resolver, _action) = pending(resolver.step(Event::Opened));
    let error = failed(resolver.step(Event::HeadFailed {
        cause: "reference 'refs/heads/main' not found".to_string(),
    }));
    match &error {
        GitDiffError::HeadResolution { cause } => {
            assert_eq!(cause, "reference 'refs/heads/main' not found")
        }
        _ => panic!("expected a HEAD-resolution error"),
    }
}

#[test]
fn unreadable_tree_is_a_tree_access_error() {
    let (resolver, _action) = Resolver::start("/p".to_string(), "f.txt".to_string());
    let (resolver, _action) = pending(resolver.step(Event::FileExists { exists: false }));
    let (resolver, _action) = pending(resolver.step(Event::Opened));
    let error = failed(resolver.step(Event::TreeFailed { cause: "odb corrupt".to_string() }));
    match &error {
        GitDiffError::TreeAccess { cause } => assert_eq!(cause, "odb corrupt"),
        _ => panic!("expected a tree-access error"),
    }
}

#[test]
fn non_blob_entry_is_an_object_read_error() {
    let (resolver, _action) = Resolver::start("/p".to_string(), "vendor".to_string());
    let (resolver, _action) = pending(resolver.step(Event::FileExists { exists: false }));
    let (resolver, _action) = pending(resolver.step(Event::Opened));
    let (resolver, _action) = pending(resolver.step(Event::HeadTreeReady));
    let error = failed(resolver.step(Event::LookupNotBlob));
    match &error {
        GitDiffError::ObjectRead { cause } => assert_eq!(cause, "Entry is not a blob"),
        _ => panic!("expected an object-read error"),
    }
    assert_eq!(error.message(), "Failed to get object: Entry is not a blob");
}

#[test]
fn unreadable_object_is_an_object_read_error() {
    let (resolver, _action) = Resolver::start("/p".to_string(), "f.txt".to_string());
    let (resolver, _action) = pending(resolver.step(Event::FileExists { exists: false }));
    let (resolver, _action) = pending(resolver.step(Event::Opened));
    let (resolver, _action) = pending(resolver.step(Event::HeadTreeReady));
    let error = failed(resolver.step(Event::LookupObjectFailed {
        cause: "object not present".to_string(),
    }));
    match &error {
        GitDiffError::ObjectRead { cause } => assert_eq!(cause, "object not present"),
        _ => panic!("expected an object-read error"),
    }
}

#[test]
fn vanishing_file_is_a_workdir_read_error() {
    let (resolver, _action) = Resolver::start("/p".to_string(), "f.txt".to_string());
    let (resolver, _action) = pending(resolver.step(Event::FileExists { exists: false }));
    let (resolver, _action) = pending(resolver.step(Event::Opened));
    let (resolver, _action) = pending(resolver.step(Event::HeadTreeReady));
    let (resolver, _action) = pending(resolver.step(Event::LookupNotFound));
    let (resolver, _action) = pending(resolver.step(Event::FileExists { exists: true }));
    let error = failed(resolver.step(Event::FileReadFailed {
        cause: "No such file or directory".to_string(),
    }));
    match &error {
        GitDiffError::WorkdirRead { cause } => assert_eq!(cause, "No such file or directory"),
        _ => panic!("expected a workdir-read error"),
    }
    assert_eq!(
        error.message(),
        "Failed to read current file: No such file or directory"
    );
}

#[test]
fn invalid_utf8_at_head_is_decoded_with_replacement() {
    let snapshot = run_to_snapshot(
        "/p",
        "f.bin",
        vec![
            Event::FileExists { exists: true },
            Event::Discovered { workdir: "/p/".to_string() },
            Event::HeadTreeReady,
            Event::LookupBlob { bytes: vec![0xff, b'o', b'k'] },
            Event::FileExists { exists: false },
        ],
    );
    assert_eq!(snapshot.original, "\u{FFFD}ok");
    assert!(snapshot.exists_at_head);
}

#[test]
fn event_that_answers_nothing_is_rejected() {
    let (resolver, _action) = Resolver::start("/p".to_string(), "f.txt".to_string());
    match resolver.step(Event::Opened) {
        StepResult::Rejected => {}
        _ => panic!("an answer to an action nobody asked for must be rejected"),
    }
}
