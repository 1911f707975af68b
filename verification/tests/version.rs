use jamf_inventory::model::ReportError;
use jamf_inventory::version::get_latest_semver;

fn catalog(entries: &[&str]) -> Vec<String> {
    entries.iter().map(|s| String::from(*s)).collect()
}

#[test]
fn test_get_latest_semver() {
    let semvers = ["13.0.1", "13.0", "12.6.1", "12.6", "12.5.1", "11.7.1", "11.7", "11.6.8"]
        .map(|s| String::from(s))
        .to_vec();

    let latest_semver = get_latest_semver(semvers);
    assert_eq!(latest_semver, Ok(String::from("13.0.1")));
}

#[test]
fn the_latest_is_the_first_entry() {
    let latest = get_latest_semver(catalog(&["13.0.1", "13.0", "12.6.1"]));
    assert_eq!(latest, Ok(String::from("13.0.1")));
}

#[test]
fn an_empty_catalog_has_no_latest() {
    assert_eq!(get_latest_semver(catalog(&[])), Err(ReportError::EmptyCatalog));
    assert_eq!(get_latest_semver(Vec::new()), Err(ReportError::EmptyCatalog));
}

#[test]
fn the_catalog_is_not_sorted() {
    let latest = get_latest_semver(catalog(&["12.6.1", "13.0.1", "13.0"]));
    assert_eq!(latest, Ok(String::from("12.6.1")));
}

#[test]
fn a_catalog_of_one_entry() {
    assert_eq!(get_latest_semver(catalog(&["12.6.0"])), Ok(String::from("12.6.0")));
}

#[test]
fn entries_need_not_look_like_versions() {
    assert_eq!(get_latest_semver(catalog(&["", "13.0"])), Ok(String::from("")));
    assert_eq!(get_latest_semver(catalog(&["abc"])), Ok(String::from("abc")));
    assert_eq!(get_latest_semver(catalog(&[" 13.0 ", "13.0"])), Ok(String::from(" 13.0 ")));
}
