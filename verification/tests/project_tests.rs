use conductor::discovery::DirEntry;
use conductor::model::{DefaultTags, Error, PluginManager, Repos};
use conductor::project::Project;

fn entry(name: &str, is_dir: bool) -> DirEntry {
    DirEntry { name: name.to_string(), is_dir }
}

fn hello_project() -> Project {
    // A root like `examples/hello`: one pod, three overrides.
    let override_entries = vec![
        entry("development", true),
        entry("production", true),
        entry("test", true),
    ];
    let pod_entries = vec![entry("frontend.yml", false), entry("overrides", true)];
    let mut proj = Project::from_dirs(
        "examples/hello",
        "examples/hello/src",
        "examples/hello/.conductor",
        "/work/examples/hello",
        &override_entries,
        &pod_entries,
        Repos::new(Vec::new()),
    )
    .unwrap();
    proj.install_plugins(PluginManager::new(Vec::new()));
    proj
}

#[test]
fn name_defaults_to_project_dir_but_can_be_overridden() {
    let mut proj = hello_project();
    assert_eq!(proj.name(), "hello");
    proj.set_name("hi");
    assert_eq!(proj.name(), "hi");
}

#[test]
fn projection_follows_the_name() {
    let mut proj = hello_project();
    assert_eq!(proj.to_json().name, "hello");
    proj.set_name("X");
    assert_eq!(proj.name(), "X");
    assert_eq!(proj.to_json().name, "X");
}

#[test]
fn unnameable_root_is_a_config_error() {
    let err = match Project::from_dirs("/", "/src", "/out", "/", &Vec::new(), &Vec::new(), Repos::new(Vec::new())) {
        Err(e) => e,
        Ok(_) => panic!("a root without a nameable component should be refused"),
    };
    assert!(matches!(err, Error::Config { .. }));
}

#[test]
fn errors_describe_themselves_with_their_context() {
    let io = Error::Io { path: "a/b".to_string() };
    assert_eq!(io.describe(), "cannot access a/b");
    let exists = Error::DestinationExists { path: "out".to_string() };
    assert_eq!(exists.describe(), "the directory out already exists");
    let config = Error::Config { message: "bad root".to_string() };
    assert_eq!(config.describe(), "bad root");
    let collab = Error::Collaborator { message: "merge failed".to_string() };
    assert_eq!(collab.describe(), "merge failed");
}

#[test]
fn pods_are_loaded() {
    let proj = hello_project();
    let mut names = Vec::new();
    let mut it = proj.pods();
    while let Some(pod) = it.next() {
        names.push(pod.name());
    }
    assert_eq!(names, ["frontend"]);
}

#[test]
fn overrides_are_loaded() {
    let proj = hello_project();
    let mut names = Vec::new();
    let mut it = proj.overrides();
    while let Some(ovr) = it.next() {
        names.push(ovr.name());
    }
    assert_eq!(names, ["development", "production", "test"]);
}

#[test]
fn named_lookup_finds_the_first_match_only() {
    let proj = hello_project();
    assert_eq!(proj.pod("frontend").unwrap().name(), "frontend");
    assert!(proj.pod("backend").is_none());
    assert_eq!(proj.ovr("production").unwrap().name(), "production");
    assert!(proj.ovr("staging").is_none());
}

#[test]
fn directories_derive_from_the_root_and_output() {
    let proj = hello_project();
    assert_eq!(proj.root_dir(), "examples/hello");
    assert_eq!(proj.src_dir(), "examples/hello/src");
    assert_eq!(proj.output_dir(), "examples/hello/.conductor");
    assert_eq!(proj.pods_dir(), "examples/hello/pods");
    assert_eq!(proj.output_pods_dir(), "examples/hello/.conductor/pods");
}

#[test]
fn default_tags_start_absent_and_can_be_set() {
    let mut proj = hello_project();
    assert!(proj.default_tags().is_none());
    proj.set_default_tags(DefaultTags::new(vec![(
        "example/frontend".to_string(),
        "v1".to_string(),
    )]));
    let tags = proj.default_tags().unwrap();
    assert_eq!(tags.tags.len(), 1);
    assert_eq!(tags.tags[0].0, "example/frontend");
    assert_eq!(tags.tags[0].1, "v1");
}

#[test]
fn plugins_are_installed_once_and_then_present() {
    let proj = hello_project();
    assert_eq!(proj.plugins().plugin_names.len(), 0);
}

#[test]
fn repos_hold_what_construction_derived() {
    let proj = hello_project();
    assert_eq!(proj.repos().repo_ids.len(), 0);
}
