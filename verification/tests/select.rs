use cargo_clone::select::{select_max, PackageSummary};
use cargo_clone::version::Version;

fn candidates(versions: &[&str]) -> Vec<PackageSummary> {
    versions
        .iter()
        .map(|text| PackageSummary {
            name: "demo".to_string(),
            version: Version::parse(text).expect("the text is a semantic version"),
        })
        .collect()
}

#[test]
fn no_candidate_gives_none() {
    assert_eq!(select_max(&Vec::new()), None);
}

#[test]
fn a_single_candidate_is_taken() {
    assert_eq!(select_max(&candidates(&["0.1.0"])), Some(0));
}

#[test]
fn the_greatest_of_distinct_versions_is_taken() {
    assert_eq!(select_max(&candidates(&["1.2.3", "1.10.0", "1.9.9"])), Some(1));
    assert_eq!(select_max(&candidates(&["3.0.0", "1.10.0", "1.9.9"])), Some(0));
    assert_eq!(select_max(&candidates(&["0.3.0", "0.10.0", "1.0.0-rc.1", "0.99.0"])), Some(2));
}

#[test]
fn a_release_beats_its_own_pre_releases() {
    assert_eq!(select_max(&candidates(&["2.0.0-beta.1", "2.0.0", "2.0.0-rc.9"])), Some(1));
}

#[test]
fn of_equal_greatest_versions_the_last_is_taken() {
    assert_eq!(select_max(&candidates(&["1.0.0", "2.0.0+a", "0.5.0", "2.0.0+b"])), Some(3));
    assert_eq!(select_max(&candidates(&["2.0.0", "2.0.0", "2.0.0"])), Some(2));
}

#[test]
fn the_choice_does_not_depend_on_the_order_of_distinct_versions() {
    let versions = ["0.1.0", "0.2.0", "1.0.0-alpha", "1.0.0", "0.9.12"];
    for shift in 0..versions.len() {
        let mut rotated = versions.to_vec();
        rotated.rotate_left(shift);
        let list = candidates(&rotated);
        let chosen = select_max(&list).expect("the list is not empty");
        assert_eq!(list[chosen].version.to_text(), "1.0.0");
    }
}
