use conductor::discovery::DirEntry;
use conductor::model::{Error, Operation, PluginManager, PodType, Repos};
use conductor::pipeline::{rel_path, Pipeline, Stage, UpdateKind};
use conductor::project::Project;

fn entry(name: &str, is_dir: bool) -> DirEntry {
    DirEntry { name: name.to_string(), is_dir }
}

/// A root like `examples/rails_hello`: pods {frontend, db, migrate} and a
/// `development` override; `migrate` is a one-shot task.
fn rails_project() -> Project {
    let override_entries = vec![entry("development", true)];
    let pod_entries = vec![
        entry("frontend.yml", false),
        entry("db.yml", false),
        entry("migrate.yml", false),
    ];
    let mut proj = Project::from_dirs(
        "examples/rails_hello",
        "examples/rails_hello/src",
        "examples/rails_hello/.conductor",
        "/work/examples/rails_hello",
        &override_entries,
        &pod_entries,
        Repos::new(Vec::new()),
    )
    .unwrap();
    proj.install_plugins(PluginManager::new(Vec::new()));
    proj
}

fn classify(name: &str) -> PodType {
    if name == "migrate" {
        PodType::Task
    } else {
        PodType::Service
    }
}

/// Drive a pipeline to completion with every step succeeding, returning the
/// paths written, in order.
fn run_all(pipeline: &mut Pipeline) -> Vec<String> {
    let mut written = Vec::new();
    while !pipeline.finished() {
        if pipeline.stage == Stage::Classify {
            let ty = classify(pipeline.current_pod_name());
            pipeline.on_classified(ty);
        } else {
            if pipeline.stage == Stage::Write {
                written.push(pipeline.out_path.clone());
            }
            pipeline.advance();
        }
    }
    written
}

#[test]
fn rel_path_routes_tasks_on_export_only() {
    assert_eq!(
        rel_path(Operation::Export, PodType::Task, "migrate"),
        "tasks/migrate.yml"
    );
    assert_eq!(
        rel_path(Operation::Output, PodType::Task, "migrate"),
        "migrate.yml"
    );
    assert_eq!(
        rel_path(Operation::Export, PodType::Service, "frontend"),
        "frontend.yml"
    );
    assert_eq!(
        rel_path(Operation::Output, PodType::Service, "frontend"),
        "frontend.yml"
    );
}

#[test]
fn output_creates_a_directory_of_flat_yml_files() {
    let proj = rails_project();
    let ovr = proj.ovr("development").unwrap();
    let (delete_first, mut pipeline) = proj.output(ovr, false);
    assert!(!delete_first);
    let written = run_all(&mut pipeline);
    assert_eq!(
        written,
        [
            "examples/rails_hello/.conductor/pods/frontend.yml",
            "examples/rails_hello/.conductor/pods/db.yml",
            "examples/rails_hello/.conductor/pods/migrate.yml",
        ]
    );
    assert!(!pipeline.failed);
}

#[test]
fn output_deletes_an_existing_tree_first() {
    let proj = rails_project();
    let ovr = conductor::model::Override::new("development".to_string());
    let (delete_first, _) = proj.output(&ovr, true);
    assert!(delete_first);
}

#[test]
fn export_creates_a_directory_of_flat_yml_files() {
    let proj = rails_project();
    let ovr = conductor::model::Override::new("development".to_string());
    let (warn, mut pipeline) = proj.export(&ovr, "hello_export", false).unwrap();
    // No default tags were configured, so the advisory is asked for.
    assert!(warn);
    let written = run_all(&mut pipeline);
    assert_eq!(
        written,
        [
            "hello_export/frontend.yml",
            "hello_export/db.yml",
            "hello_export/tasks/migrate.yml",
        ]
    );
}

#[test]
fn export_refuses_an_existing_destination() {
    let proj = rails_project();
    let ovr = conductor::model::Override::new("development".to_string());
    let err = match proj.export(&ovr, "hello_export", true) {
        Err(e) => e,
        Ok(_) => panic!("export should refuse an existing destination"),
    };
    match err {
        Error::DestinationExists { path } => assert_eq!(path, "hello_export"),
        other => panic!("unexpected error: {:?}", other),
    }
}

#[test]
fn a_failing_step_finishes_the_run_at_once() {
    let proj = rails_project();
    let ovr = conductor::model::Override::new("development".to_string());
    let (_, mut pipeline) = proj.output(&ovr, false);
    // First pod classifies, then its merge step fails.
    pipeline.on_classified(PodType::Service);
    pipeline.advance();
    assert_eq!(pipeline.stage, Stage::Merge);
    pipeline.fail();
    assert!(pipeline.finished());
    assert!(pipeline.failed);
    assert_eq!(pipeline.idx, 0);
}

#[test]
fn each_pod_walks_the_step_sequence_in_order() {
    let proj = rails_project();
    let ovr = conductor::model::Override::new("development".to_string());
    let (_, mut pipeline) = proj.export(&ovr, "dest", false).unwrap();
    assert_eq!(pipeline.stage, Stage::Classify);
    assert_eq!(pipeline.current_pod_name(), "frontend");
    pipeline.on_classified(PodType::Service);
    let expected = [
        Stage::Prepare,
        Stage::Merge,
        Stage::Standalone,
        Stage::ModeUpdate,
        Stage::Transform,
        Stage::Write,
    ];
    for stage in expected {
        assert_eq!(pipeline.stage, stage);
        pipeline.advance();
    }
    // After a successful write the machine moves to the next pod.
    assert_eq!(pipeline.stage, Stage::Classify);
    assert_eq!(pipeline.idx, 1);
    assert_eq!(pipeline.current_pod_name(), "db");
}

#[test]
fn the_mode_picks_exactly_one_rewrite() {
    let proj = rails_project();
    let ovr = conductor::model::Override::new("development".to_string());
    let (_, out_pipeline) = proj.output(&ovr, false);
    assert_eq!(out_pipeline.update_kind(), UpdateKind::ForOutput);
    let (_, exp_pipeline) = proj.export(&ovr, "dest", false).unwrap();
    assert_eq!(exp_pipeline.update_kind(), UpdateKind::ForExport);
}

#[test]
fn two_output_runs_write_the_same_tree() {
    let proj = rails_project();
    let ovr = conductor::model::Override::new("development".to_string());
    let (_, mut first) = proj.output(&ovr, false);
    let first_written = run_all(&mut first);
    // The first run leaves a tree behind, so the second deletes it before
    // regenerating; it then writes exactly the same files.
    let (delete_first, mut second) = proj.output(&ovr, true);
    assert!(delete_first);
    let second_written = run_all(&mut second);
    assert_eq!(first_written, second_written);
}
