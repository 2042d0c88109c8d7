use cargo_clone::batch::{after_clone, clone_reverse_deps, Batch, BatchStep};
use cargo_clone::job::{
    Action, CloneError, CloneRequest, DestinationState, Event, PackageQuery, ResolvedPackage,
    SourceLocation,
};
use cargo_clone::orchestrate::{clone, start};
use cargo_clone::select::PackageSummary;
use cargo_clone::version::Version;

fn registry() -> SourceLocation {
    SourceLocation::Registry { endpoint: "https://github.com/rust-lang/crates.io-index".to_string() }
}

fn names(list: &[&str]) -> Vec<String> {
    list.iter().map(|name| name.to_string()).collect()
}

/// Runs a batch in which clone `i` succeeds where `succeeds[i]` holds, and
/// returns the requests in the order in which they were handed out, and
/// what the batch reported at its end.
fn run(
    dependents: &[&str],
    prefix: Option<&str>,
    version: Option<&str>,
    succeeds: &[bool],
) -> (usize, Vec<CloneRequest>, (usize, usize)) {
    let (count, mut step) = clone_reverse_deps::<String>(
        Ok(names(dependents)),
        registry(),
        prefix.map(|text| text.to_string()),
        version.map(|text| text.to_string()),
    )
    .expect("the listing did not fail");
    let mut requests = Vec::new();
    loop {
        match step {
            BatchStep::Finish { attempted, failed } => return (count, requests, (attempted, failed)),
            BatchStep::Clone { batch, request } => {
                let succeeded = succeeds[requests.len()];
                requests.push(request);
                step = after_clone(batch, succeeded);
            }
        }
    }
}

#[test]
fn each_dependent_goes_under_the_prefix() {
    let (count, requests, tally) = run(&["a", "b-c"], Some("out/dir"), Some("1.0.0"), &[true, true]);
    assert_eq!(count, 2);
    assert_eq!(
        requests,
        vec![
            CloneRequest {
                query: PackageQuery { name: Some("a".to_string()), version: Some("1.0.0".to_string()) },
                source: registry(),
                prefix: Some("out/dir/a".to_string()),
            },
            CloneRequest {
                query: PackageQuery { name: Some("b-c".to_string()), version: Some("1.0.0".to_string()) },
                source: registry(),
                prefix: Some("out/dir/b-c".to_string()),
            },
        ]
    );
    assert_eq!(tally, (2, 0));
}

#[test]
fn without_a_prefix_no_dependent_has_one() {
    let (_, requests, _) = run(&["a", "b"], None, None, &[true, true]);
    assert!(requests.iter().all(|request| request.prefix.is_none()));
    assert!(requests.iter().all(|request| request.query.version.is_none()));
    assert_eq!(requests[1].query.name, Some("b".to_string()));
}

#[test]
fn a_listing_that_failed_fails_the_batch() {
    let begun = clone_reverse_deps(Err("no network".to_string()), registry(), Some("out".to_string()), None);
    assert_eq!(begun, Err("no network".to_string()));
}

#[test]
fn a_batch_without_dependents_ends_at_once() {
    let (count, requests, tally) = run(&[], Some("out"), None, &[]);
    assert_eq!(count, 0);
    assert!(requests.is_empty());
    assert_eq!(tally, (0, 0));
}

#[test]
fn a_failed_clone_does_not_stop_the_batch() {
    let (count, with_failure, tally) = run(&["one", "two", "three"], Some("d"), None, &[true, false, true]);
    let (_, without_failure, clean) = run(&["one", "two", "three"], Some("d"), None, &[true, true, true]);
    assert_eq!(count, 3);
    assert_eq!(with_failure.len(), 3);
    assert_eq!(with_failure, without_failure);
    assert_eq!(tally, (3, 1));
    assert_eq!(clean, (3, 0));
}

#[test]
fn the_tally_counts_every_failure() {
    let (_, requests, tally) = run(&["a", "b", "c", "d"], None, None, &[false, false, true, false]);
    assert_eq!(requests.len(), 4);
    assert_eq!(tally, (4, 3));
}

#[test]
fn one_step_moves_to_the_next_dependent() {
    let batch = Batch {
        names: names(&["a", "b", "c"]),
        source: registry(),
        prefix: Some("p".to_string()),
        version: None,
        done: 1,
        failed: 1,
    };
    match after_clone(batch, false) {
        BatchStep::Clone { batch, request } => {
            assert_eq!((batch.done, batch.failed), (2, 2));
            assert_eq!(request.query.name, Some("c".to_string()));
            assert_eq!(request.prefix, Some("p/c".to_string()));
        }
        other => panic!("a dependent is left, yet the batch gave {:?}", other),
    }
}

/// Clones one dependent with a driver whose download fails where `fails`
/// holds, and says how the clone ended.
fn clone_with_mock(request: CloneRequest, fails: bool) -> Result<(), CloneError<String>> {
    let name = request.query.name.clone().expect("a dependent has a name");
    let (mut job, mut action) = start::<String>(request);
    loop {
        let event = match action {
            Action::Finish { outcome } => return outcome,
            Action::Query { .. } => Event::Summaries(vec![PackageSummary {
                name: name.clone(),
                version: Version::new(1, 0, 0),
            }]),
            Action::Download { .. } if fails => Event::Failed(format!("cannot download {}", name)),
            Action::Download { .. } => Event::Downloaded(ResolvedPackage {
                name: name.clone(),
                version: Version::new(1, 0, 0),
                root: format!("/cache/{}-1.0.0", name),
            }),
            Action::ProbeDestination { .. } => Event::Probed(DestinationState::Absent),
            _ => Event::Completed,
        };
        assert!(job.stage.accepts(&event));
        let (following, next) = clone(job, event);
        job = following;
        action = next;
    }
}

#[test]
fn of_three_dependents_the_second_fails_and_the_others_are_cloned() {
    let (count, mut step) =
        clone_reverse_deps::<String>(Ok(names(&["one", "two", "three"])), registry(), None, None)
            .expect("the listing did not fail");
    assert_eq!(count, 3);
    let mut results = Vec::new();
    loop {
        match step {
            BatchStep::Finish { attempted, failed } => {
                assert_eq!((attempted, failed), (3, 1));
                break;
            }
            BatchStep::Clone { batch, request } => {
                let fails = request.query.name.as_deref() == Some("two");
                let result = clone_with_mock(request, fails);
                step = after_clone(batch, result.is_ok());
                results.push(result);
            }
        }
    }
    assert_eq!(
        results,
        vec![Ok(()), Err(CloneError::Outside("cannot download two".to_string())), Ok(())]
    );
}
