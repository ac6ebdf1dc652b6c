use conductor::discovery::{find_overrides, find_pods, pod_file_stem, DirEntry};

fn entry(name: &str, is_dir: bool) -> DirEntry {
    DirEntry { name: name.to_string(), is_dir }
}

#[test]
fn overrides_are_the_directory_names() {
    // Scenario: a root with overrides {development, production, test}.
    let entries = vec![
        entry("development", true),
        entry("production", true),
        entry("test", true),
    ];
    let overrides = find_overrides(&entries);
    let names: Vec<&str> = overrides.iter().map(|o| o.name()).collect();
    assert_eq!(names, ["development", "production", "test"]);
}

#[test]
fn non_directory_entries_are_not_overrides() {
    let entries = vec![
        entry("development", true),
        entry("README.md", false),
        entry("production", true),
    ];
    let overrides = find_overrides(&entries);
    let names: Vec<&str> = overrides.iter().map(|o| o.name()).collect();
    assert_eq!(names, ["development", "production"]);
}

#[test]
fn pods_are_the_yml_file_stems() {
    // Scenario: a root with the single pod `frontend`.
    let entries = vec![entry("frontend.yml", false), entry("overrides", true)];
    let pods = find_pods(&entries);
    let names: Vec<&str> = pods.iter().map(|p| p.name()).collect();
    assert_eq!(names, ["frontend"]);
}

#[test]
fn pod_listing_keeps_order_and_skips_other_files() {
    let entries = vec![
        entry("frontend.yml", false),
        entry("db.yml", false),
        entry("notes.txt", false),
        entry("migrate.yml", false),
        entry("overrides", true),
    ];
    let pods = find_pods(&entries);
    let names: Vec<&str> = pods.iter().map(|p| p.name()).collect();
    assert_eq!(names, ["frontend", "db", "migrate"]);
}

#[test]
fn empty_listings_yield_nothing() {
    assert_eq!(find_overrides(&Vec::new()).len(), 0);
    assert_eq!(find_pods(&Vec::new()).len(), 0);
}

#[test]
fn duplicate_names_are_kept_in_order() {
    // Discovery does not deduplicate: duplicate stems stay, in listing
    // order.
    let entries = vec![entry("a.yml", false), entry("a.yml", false)];
    let pods = find_pods(&entries);
    let names: Vec<&str> = pods.iter().map(|p| p.name()).collect();
    assert_eq!(names, ["a", "a"]);
}

#[test]
fn pod_file_stem_strips_exactly_the_extension() {
    assert_eq!(pod_file_stem("frontend.yml"), Some("frontend".to_string()));
    assert_eq!(pod_file_stem("a.yml"), Some("a".to_string()));
    assert_eq!(pod_file_stem("frontend.yaml"), None);
    assert_eq!(pod_file_stem("frontend"), None);
    assert_eq!(pod_file_stem(".yml"), None);
    assert_eq!(pod_file_stem(""), None);
}
