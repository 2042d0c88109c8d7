use cargo_clone::crawl::{
    find_reverse_deps, start_crawl, Crawl, CrawlStep, PageRequest, ReverseDependencyEntry,
    PER_PAGE,
};

fn page(first: usize, size: usize) -> Vec<ReverseDependencyEntry> {
    (first..first + size)
        .map(|i| ReverseDependencyEntry { name: format!("dep-{}", i), version: format!("0.{}.0", i) })
        .collect()
}

/// Feeds the crawl with the pages in turn and returns what it ended with,
/// and the requests it made.
fn run(
    name: &str,
    pages: Vec<Result<Vec<ReverseDependencyEntry>, String>>,
) -> (Option<Result<Vec<String>, String>>, Vec<PageRequest>) {
    let mut requests = Vec::new();
    let mut step = start_crawl::<String>(name);
    let mut pages = pages.into_iter();
    loop {
        match step {
            CrawlStep::Finish { outcome } => return (Some(outcome), requests),
            CrawlStep::Fetch { crawl, request } => {
                requests.push(request);
                match pages.next() {
                    Some(response) => step = find_reverse_deps(crawl, response),
                    None => return (None, requests),
                }
            }
        }
    }
}

#[test]
fn the_first_request_asks_for_page_one() {
    match start_crawl::<String>("serde") {
        CrawlStep::Fetch { crawl, request } => {
            assert_eq!(
                request,
                PageRequest {
                    url: "https://crates.io/api/v1/crates/serde/reverse_dependencies".to_string(),
                    per_page: 100,
                    page: 1,
                }
            );
            assert_eq!(crawl, Crawl { name: "serde".to_string(), page: 1, found: vec![] });
        }
        other => panic!("a crawl begins with a request, not with {:?}", other),
    }
    assert_eq!(PER_PAGE, 100);
}

#[test]
fn pages_of_100_100_37_and_0_give_237_names_in_4_requests() {
    let pages = vec![Ok(page(0, 100)), Ok(page(100, 100)), Ok(page(200, 37)), Ok(page(237, 0))];
    let (outcome, requests) = run("serde", pages);
    let names = outcome.expect("the crawl is over").expect("no page failed");
    assert_eq!(names.len(), 237);
    let expected: Vec<String> = (0..237).map(|i| format!("dep-{}", i)).collect();
    assert_eq!(names, expected);
    assert_eq!(requests.len(), 4);
    for (i, request) in requests.iter().enumerate() {
        assert_eq!(request.page, i as u64 + 1);
        assert_eq!(request.per_page, 100);
        assert_eq!(request.url, "https://crates.io/api/v1/crates/serde/reverse_dependencies");
    }
}

#[test]
fn a_failure_on_page_two_fails_the_crawl_without_names() {
    let pages = vec![Ok(page(0, 100)), Err("connection reset".to_string()), Ok(page(100, 0))];
    let (outcome, requests) = run("serde", pages);
    assert_eq!(outcome, Some(Err("connection reset".to_string())));
    assert_eq!(requests.len(), 2);
}

#[test]
fn a_failure_on_the_first_page_fails_the_crawl() {
    let (outcome, requests) = run("serde", vec![Err("no route".to_string())]);
    assert_eq!(outcome, Some(Err("no route".to_string())));
    assert_eq!(requests.len(), 1);
}

#[test]
fn an_empty_first_page_gives_no_names() {
    let (outcome, requests) = run("lonely", vec![Ok(Vec::new())]);
    assert_eq!(outcome, Some(Ok(Vec::new())));
    assert_eq!(requests.len(), 1);
}

#[test]
fn a_short_page_does_not_end_the_crawl() {
    let (outcome, requests) = run("serde", vec![Ok(page(0, 3))]);
    assert_eq!(outcome, None);
    assert_eq!(requests.len(), 2);
    assert_eq!(requests[1].page, 2);
}

#[test]
fn one_step_adds_the_names_of_the_page() {
    let crawl = Crawl { name: "log".to_string(), page: 7, found: vec!["a".to_string()] };
    let entries = vec![
        ReverseDependencyEntry { name: "b".to_string(), version: "1.0.0".to_string() },
        ReverseDependencyEntry { name: "c".to_string(), version: "2.0.0".to_string() },
    ];
    let step = find_reverse_deps::<String>(crawl, Ok(entries));
    assert_eq!(
        step,
        CrawlStep::Fetch {
            crawl: Crawl {
                name: "log".to_string(),
                page: 8,
                found: vec!["a".to_string(), "b".to_string(), "c".to_string()],
            },
            request: PageRequest {
                url: "https://crates.io/api/v1/crates/log/reverse_dependencies".to_string(),
                per_page: 100,
                page: 8,
            },
        }
    );
}
