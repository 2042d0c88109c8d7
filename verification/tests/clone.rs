use cargo_clone::job::{
    Action, CloneError, CloneJob, CloneRequest, Destination, DestinationState, Event,
    PackageQuery, ResolvedPackage, SourceKind, SourceLocation, Stage,
};
use cargo_clone::orchestrate::{clone, start};
use cargo_clone::resolve::{
    begin_selection, constraint_from, destination, select_pkg, version_constraint,
};
use cargo_clone::select::PackageSummary;
use cargo_clone::version::Version;

type Failure = String;

fn registry() -> SourceLocation {
    SourceLocation::Registry { endpoint: "https://github.com/rust-lang/crates.io-index".to_string() }
}

fn git() -> SourceLocation {
    SourceLocation::VersionControl {
        url: "https://example.org/demo.git".to_string(),
        reference: Some("main".to_string()),
    }
}

fn local() -> SourceLocation {
    SourceLocation::LocalPath { path: "/work/demo".to_string() }
}

fn request(
    name: Option<&str>,
    version: Option<&str>,
    source: SourceLocation,
    prefix: Option<&str>,
) -> CloneRequest {
    CloneRequest {
        query: PackageQuery {
            name: name.map(|text| text.to_string()),
            version: version.map(|text| text.to_string()),
        },
        source,
        prefix: prefix.map(|text| text.to_string()),
    }
}

fn summary(version: &str) -> PackageSummary {
    PackageSummary {
        name: "demo".to_string(),
        version: Version::parse(version).expect("the text is a semantic version"),
    }
}

fn package(name: &str, version: &str, root: &str) -> ResolvedPackage {
    ResolvedPackage {
        name: name.to_string(),
        version: Version::parse(version).expect("the text is a semantic version"),
        root: root.to_string(),
    }
}

/// Runs a clone over the events and returns every action that was handed
/// out, the first one included.
fn run(request: CloneRequest, events: Vec<Event<Failure>>) -> Vec<Action<Failure>> {
    let (mut job, first) = start::<Failure>(request);
    let mut actions = vec![first];
    for event in events {
        assert!(job.stage.accepts(&event), "{:?} does not answer {:?}", event, job.stage);
        let (following, action) = clone(job, event);
        job = following;
        actions.push(action);
    }
    actions
}

fn writes(action: &Action<Failure>) -> bool {
    matches!(action, Action::CreateDestination { .. } | Action::CopyTree { .. })
}

fn asks(action: &Action<Failure>) -> bool {
    matches!(action, Action::Query { .. } | Action::Download { .. } | Action::Enumerate)
}

#[test]
fn a_registry_clone_runs_from_lock_to_copy() {
    let actions = run(
        request(Some("demo"), Some("1.2.3"), registry(), Some("out")),
        vec![
            Event::Completed,
            Event::Completed,
            Event::Completed,
            Event::Completed,
            Event::Summaries(vec![summary("1.2.3"), summary("1.4.0"), summary("1.3.9")]),
            Event::Downloaded(package("demo", "1.4.0", "/cache/demo-1.4.0")),
            Event::Probed(DestinationState::Absent),
            Event::Completed,
            Event::Completed,
        ],
    );
    let out = Destination::Explicit("out".to_string());
    assert_eq!(
        actions,
        vec![
            Action::AcquireLock,
            Action::LoadConfiguration,
            Action::OpenSource { kind: SourceKind::Registry },
            Action::Refresh,
            Action::Query { name: "demo".to_string(), version: Some("1.2.3".to_string()) },
            Action::Download { candidate: 1 },
            Action::ProbeDestination { destination: out.clone() },
            Action::CreateDestination { destination: out.clone() },
            Action::CopyTree { from: "/cache/demo-1.4.0".to_string(), destination: out },
            Action::Finish { outcome: Ok(()) },
        ]
    );
}

#[test]
fn the_query_gets_the_canonical_text_of_the_version() {
    let actions = run(
        request(Some("demo"), Some("  1.2.3-rc.1  "), git(), None),
        vec![Event::Completed, Event::Completed, Event::Completed, Event::Completed],
    );
    assert_eq!(
        actions.last(),
        Some(&Action::Query { name: "demo".to_string(), version: Some("1.2.3-rc.1".to_string()) })
    );
}

#[test]
fn a_query_without_a_version_has_no_constraint() {
    let actions = run(
        request(Some("demo"), None, registry(), None),
        vec![Event::Completed, Event::Completed, Event::Completed, Event::Completed],
    );
    assert_eq!(actions.last(), Some(&Action::Query { name: "demo".to_string(), version: None }));
}

#[test]
fn a_local_directory_is_refreshed_twice() {
    let actions = run(
        request(None, None, local(), None),
        vec![
            Event::Completed,
            Event::Completed,
            Event::Completed,
            Event::Completed,
            Event::Completed,
        ],
    );
    assert_eq!(
        actions,
        vec![
            Action::AcquireLock,
            Action::LoadConfiguration,
            Action::OpenSource { kind: SourceKind::LocalPath },
            Action::Refresh,
            Action::Refresh,
            Action::Enumerate,
        ]
    );
}

#[test]
fn a_repository_is_refreshed_once() {
    let actions = run(
        request(None, None, git(), None),
        vec![Event::Completed, Event::Completed, Event::Completed, Event::Completed],
    );
    assert_eq!(
        actions,
        vec![
            Action::AcquireLock,
            Action::LoadConfiguration,
            Action::OpenSource { kind: SourceKind::VersionControl },
            Action::Refresh,
            Action::Enumerate,
        ]
    );
}

#[test]
fn an_unreadable_version_fails_before_anything_is_asked() {
    for source in [registry(), git(), local()] {
        let refreshes = if source.kind() == SourceKind::LocalPath { 2 } else { 1 };
        let mut events = vec![Event::Completed, Event::Completed, Event::Completed];
        for _ in 0..refreshes {
            events.push(Event::Completed);
        }
        let actions = run(request(Some("demo"), Some("not-a-version"), source, None), events);
        assert!(actions.iter().all(|action| !asks(action) && !writes(action)));
        assert_eq!(
            actions.last(),
            Some(&Action::Finish {
                outcome: Err(CloneError::VersionParse { text: "not-a-version".to_string() })
            })
        );
    }
}

#[test]
fn an_unreadable_version_is_not_looked_at_without_a_name() {
    let actions = run(
        request(None, Some("not-a-version"), git(), None),
        vec![Event::Completed, Event::Completed, Event::Completed, Event::Completed],
    );
    assert_eq!(actions.last(), Some(&Action::Enumerate));
}

#[test]
fn a_registry_cannot_be_asked_without_a_name() {
    let actions = run(
        request(None, None, registry(), None),
        vec![Event::Completed, Event::Completed, Event::Completed, Event::Completed],
    );
    assert_eq!(
        actions.last(),
        Some(&Action::Finish { outcome: Err(CloneError::UnsupportedQuery) })
    );
    assert!(actions.iter().all(|action| !asks(action)));
}

#[test]
fn a_query_without_candidates_is_not_found() {
    let actions = run(
        request(Some("demo"), None, registry(), None),
        vec![
            Event::Completed,
            Event::Completed,
            Event::Completed,
            Event::Completed,
            Event::Summaries(Vec::new()),
        ],
    );
    assert_eq!(
        actions.last(),
        Some(&Action::Finish { outcome: Err(CloneError::NotFound { name: "demo".to_string() }) })
    );
}

#[test]
fn without_a_name_the_first_listed_package_is_taken() {
    let actions = run(
        request(None, None, git(), None),
        vec![
            Event::Completed,
            Event::Completed,
            Event::Completed,
            Event::Completed,
            Event::Enumerated(vec![
                package("first", "0.1.0", "/checkout/first"),
                package("second", "9.9.9", "/checkout/second"),
            ]),
            Event::Probed(DestinationState::Empty),
        ],
    );
    let target = Destination::UnderCurrentDirectory("first".to_string());
    assert_eq!(
        &actions[5..],
        &[
            Action::ProbeDestination { destination: target.clone() },
            Action::CopyTree { from: "/checkout/first".to_string(), destination: target },
        ]
    );
}

#[test]
fn an_occupied_destination_ends_the_clone_without_a_write() {
    for prefix in [None, Some("out/dir")] {
        let actions = run(
            request(Some("demo"), None, registry(), prefix),
            vec![
                Event::Completed,
                Event::Completed,
                Event::Completed,
                Event::Completed,
                Event::Summaries(vec![summary("1.0.0")]),
                Event::Downloaded(package("demo", "1.0.0", "/cache/demo-1.0.0")),
                Event::Probed(DestinationState::Occupied),
            ],
        );
        let target = match prefix {
            Some(path) => Destination::Explicit(path.to_string()),
            None => Destination::UnderCurrentDirectory("demo".to_string()),
        };
        assert!(actions.iter().all(|action| !writes(action)));
        assert_eq!(
            actions.last(),
            Some(&Action::Finish {
                outcome: Err(CloneError::DestinationConflict { destination: target })
            })
        );
    }
}

#[test]
fn an_absent_destination_is_created_and_then_filled() {
    let actions = run(
        request(Some("demo"), None, registry(), None),
        vec![
            Event::Completed,
            Event::Completed,
            Event::Completed,
            Event::Completed,
            Event::Summaries(vec![summary("1.0.0")]),
            Event::Downloaded(package("demo", "1.0.0", "/cache/demo-1.0.0")),
            Event::Probed(DestinationState::Absent),
            Event::Completed,
            Event::Completed,
        ],
    );
    let target = Destination::UnderCurrentDirectory("demo".to_string());
    assert_eq!(
        &actions[6..],
        &[
            Action::ProbeDestination { destination: target.clone() },
            Action::CreateDestination { destination: target.clone() },
            Action::CopyTree { from: "/cache/demo-1.0.0".to_string(), destination: target },
            Action::Finish { outcome: Ok(()) },
        ]
    );
}

#[test]
fn an_empty_destination_is_filled_without_being_created() {
    let actions = run(
        request(Some("demo"), None, registry(), Some("out")),
        vec![
            Event::Completed,
            Event::Completed,
            Event::Completed,
            Event::Completed,
            Event::Summaries(vec![summary("1.0.0")]),
            Event::Downloaded(package("demo", "1.0.0", "/cache/demo-1.0.0")),
            Event::Probed(DestinationState::Empty),
            Event::Completed,
        ],
    );
    assert!(actions.iter().all(|action| !matches!(action, Action::CreateDestination { .. })));
    assert_eq!(
        &actions[7..],
        &[
            Action::CopyTree {
                from: "/cache/demo-1.0.0".to_string(),
                destination: Destination::Explicit("out".to_string()),
            },
            Action::Finish { outcome: Ok(()) },
        ]
    );
}

#[test]
fn a_failure_of_outside_work_ends_the_clone_at_every_stage() {
    let script: Vec<Event<Failure>> = vec![
        Event::Completed,
        Event::Completed,
        Event::Completed,
        Event::Completed,
        Event::Summaries(vec![summary("1.0.0")]),
        Event::Downloaded(package("demo", "1.0.0", "/cache/demo-1.0.0")),
        Event::Probed(DestinationState::Absent),
        Event::Completed,
        Event::Completed,
    ];
    for failing in 0..script.len() {
        let mut events: Vec<Event<Failure>> = Vec::new();
        for (i, event) in script.iter().enumerate() {
            if i == failing {
                break;
            }
            events.push(match event {
                Event::Completed => Event::Completed,
                Event::Summaries(_) => Event::Summaries(vec![summary("1.0.0")]),
                Event::Downloaded(_) => {
                    Event::Downloaded(package("demo", "1.0.0", "/cache/demo-1.0.0"))
                }
                Event::Probed(state) => Event::Probed(*state),
                _ => unreachable!(),
            });
        }
        events.push(Event::Failed(format!("stage {} broke", failing)));
        let actions = run(request(Some("demo"), None, registry(), None), events);
        assert_eq!(
            actions.last(),
            Some(&Action::Finish {
                outcome: Err(CloneError::Outside(format!("stage {} broke", failing)))
            })
        );
    }
}

#[test]
fn a_finished_clone_takes_no_further_report() {
    let (job, _) = start::<Failure>(request(None, None, registry(), None));
    let (job, _) = clone(job, Event::<Failure>::Failed("no lock".to_string()));
    assert!(matches!(job.stage, Stage::Finished));
    assert!(!job.stage.accepts(&Event::<Failure>::Completed));
    assert!(!job.stage.accepts(&Event::<Failure>::Failed("again".to_string())));
    assert!(!job.stage.accepts(&Event::<Failure>::Probed(DestinationState::Empty)));
}

#[test]
fn each_stage_takes_only_the_report_it_awaits() {
    let (job, _) = start::<Failure>(request(Some("demo"), None, registry(), None));
    assert!(job.stage.accepts(&Event::<Failure>::Completed));
    assert!(!job.stage.accepts(&Event::<Failure>::Summaries(Vec::new())));
    assert!(!job.stage.accepts(&Event::<Failure>::Probed(DestinationState::Absent)));
    let querying = Stage::Querying { name: "demo".to_string() };
    assert!(querying.accepts(&Event::<Failure>::Summaries(Vec::new())));
    assert!(!querying.accepts(&Event::<Failure>::Completed));
    assert!(Stage::Enumerating
        .accepts(&Event::<Failure>::Enumerated(vec![package("a", "1.0.0", "/a")])));
    assert!(!Stage::Enumerating.accepts(&Event::<Failure>::Enumerated(Vec::new())));
    assert!(Stage::Downloading
        .accepts(&Event::<Failure>::Downloaded(package("a", "1.0.0", "/a"))));
    assert!(!Stage::Downloading.accepts(&Event::<Failure>::Completed));
}

#[test]
fn the_selection_can_be_stepped_on_its_own() {
    let job = CloneJob {
        request: request(Some("demo"), None, git(), Some("here")),
        stage: Stage::Querying { name: "demo".to_string() },
    };
    let (job, action) = select_pkg::<Failure>(
        job,
        Event::Summaries(vec![summary("0.2.0"), summary("0.10.0"), summary("0.10.0+later")]),
    );
    assert_eq!(action, Action::Download { candidate: 2 });
    let (job, action) =
        select_pkg::<Failure>(job, Event::Downloaded(package("demo", "0.10.0", "/git/demo")));
    assert_eq!(
        action,
        Action::ProbeDestination { destination: Destination::Explicit("here".to_string()) }
    );
    assert!(matches!(job.stage, Stage::Probing { .. }));
}

#[test]
fn the_constraint_is_the_canonical_text_or_the_unreadable_text() {
    assert_eq!(version_constraint(&None), Ok(None));
    assert_eq!(version_constraint(&Some(" 1.0.0 ".to_string())), Ok(Some("1.0.0".to_string())));
    assert_eq!(version_constraint(&Some("1.0".to_string())), Err("1.0".to_string()));
    assert_eq!(
        constraint_from(&"x".to_string(), Some(Version::new(3, 2, 1))),
        Ok(Some("3.2.1".to_string()))
    );
    assert_eq!(constraint_from(&"x".to_string(), None), Err("x".to_string()));
}

#[test]
fn the_selection_begins_by_what_the_request_holds() {
    let (job, action) = begin_selection::<Failure>(
        request(Some("demo"), Some("ignored here"), registry(), None),
        Ok(Some("1.0.0".to_string())),
    );
    assert_eq!(action, Action::Query { name: "demo".to_string(), version: Some("1.0.0".to_string()) });
    assert!(matches!(job.stage, Stage::Querying { ref name } if name == "demo"));

    let (job, action) = begin_selection::<Failure>(
        request(Some("demo"), Some("x"), registry(), None),
        Err("x".to_string()),
    );
    assert_eq!(
        action,
        Action::Finish { outcome: Err(CloneError::VersionParse { text: "x".to_string() }) }
    );
    assert!(matches!(job.stage, Stage::Finished));

    let (_, action) =
        begin_selection::<Failure>(request(None, None, local(), None), Err("x".to_string()));
    assert_eq!(action, Action::Enumerate);
}

#[test]
fn the_destination_is_the_prefix_or_the_package_name() {
    let demo = package("demo", "1.0.0", "/cache/demo");
    assert_eq!(
        destination(&request(None, None, git(), Some("/tmp/x")), &demo),
        Destination::Explicit("/tmp/x".to_string())
    );
    assert_eq!(
        destination(&request(Some("other"), None, git(), None), &demo),
        Destination::UnderCurrentDirectory("demo".to_string())
    );
}

#[test]
fn the_kind_of_a_source_is_its_variant() {
    assert_eq!(registry().kind(), SourceKind::Registry);
    assert_eq!(git().kind(), SourceKind::VersionControl);
    assert_eq!(local().kind(), SourceKind::LocalPath);
    assert_eq!(git().duplicate(), git());
}

#[test]
fn each_error_has_its_text() {
    let parse: CloneError<Failure> = CloneError::VersionParse { text: "1.x".to_string() };
    assert_eq!(parse.message("/d"), Some("cannot parse '1.x' as a semver".to_string()));
    let missing: CloneError<Failure> = CloneError::NotFound { name: "demo".to_string() };
    assert_eq!(missing.message("/d"), Some("package 'demo' not found".to_string()));
    let unsupported: CloneError<Failure> = CloneError::UnsupportedQuery;
    assert_eq!(
        unsupported.message("/d"),
        Some(
            "must specify a crate to clone from crates.io, or use --path or --git to specify alternate source"
                .to_string()
        )
    );
    let conflict: CloneError<Failure> = CloneError::DestinationConflict {
        destination: Destination::UnderCurrentDirectory("demo".to_string()),
    };
    assert_eq!(
        conflict.message("/home/me/demo"),
        Some(
            "destination path '/home/me/demo' already exists and is not an empty directory."
                .to_string()
        )
    );
    let outside: CloneError<Failure> = CloneError::Outside("disk full".to_string());
    assert_eq!(outside.message("/d"), None);
}
