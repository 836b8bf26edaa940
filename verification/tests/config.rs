use pb_jelly_gen::pipeline::Step;
use pb_jelly_gen::{gen_protos, ConfigError, GenProtos};

fn builder() -> GenProtos {
    GenProtos::builder(Some("/work/crate".to_string())).unwrap()
}

fn strings(items: &[&str]) -> Vec<String> {
    items.iter().map(|s| s.to_string()).collect()
}

#[test]
fn builder_starts_from_the_defaults() {
    let config = builder();
    assert_eq!(config.manifest_dir, "/work/crate");
    assert_eq!(config.gen_path, "/work/crate/./gen");
    assert!(config.src_paths.is_empty());
    assert!(config.include_paths.is_empty());
    assert!(config.include_extensions);
    assert!(!config.cleanup_out_path);
}

#[test]
fn builder_needs_the_manifest_dir() {
    assert_eq!(GenProtos::builder(None).unwrap_err(), ConfigError::MissingManifestDir);
    assert_eq!(gen_protos(None, strings(&["protos"])).unwrap_err(), ConfigError::MissingManifestDir);
}

#[test]
fn out_path_is_relative_to_the_manifest_dir() {
    let config = builder().out_path("generated/rust");
    assert_eq!(config.gen_path, "/work/crate/generated/rust");
    assert_eq!(config.manifest_dir, "/work/crate");
}

#[test]
fn out_path_twice_keeps_the_last() {
    let config = builder().out_path("one").out_path("two");
    assert_eq!(config.gen_path, "/work/crate/two");
}

#[test]
fn abs_out_path_is_taken_as_it_stands() {
    let config = builder().abs_out_path("/elsewhere/gen");
    assert_eq!(config.gen_path, "/elsewhere/gen");
    let config = builder().abs_out_path("relative/gen");
    assert_eq!(config.gen_path, "relative/gen");
}

#[test]
fn sources_keep_their_order() {
    let config = builder()
        .src_path("a")
        .src_paths(strings(&["b", "c"]))
        .src_path("a");
    assert_eq!(config.src_paths, strings(&["a", "b", "c", "a"]));
    assert!(config.include_paths.is_empty());
}

#[test]
fn search_dirs_keep_their_order() {
    let config = builder()
        .include_paths(strings(&["x", "y"]))
        .include_path("z")
        .include_paths(Vec::new());
    assert_eq!(config.include_paths, strings(&["x", "y", "z"]));
    assert!(config.src_paths.is_empty());
}

#[test]
fn toggles_are_set_and_leave_the_rest() {
    let config = builder().src_path("a").include_extensions(false).cleanup_out_path(true);
    assert!(!config.include_extensions);
    assert!(config.cleanup_out_path);
    assert_eq!(config.src_paths, strings(&["a"]));
    assert_eq!(config.gen_path, "/work/crate/./gen");
    let config = config.include_extensions(true).cleanup_out_path(false);
    assert!(config.include_extensions);
    assert!(!config.cleanup_out_path);
}

#[test]
fn a_finished_builder_begins_at_the_first_step() {
    let run = builder().src_path("protos").gen_protos();
    assert_eq!(run.step, Step::PrepareOutput);
    assert_eq!(run.config.src_paths, strings(&["protos"]));
    assert_eq!(run.workspace, "");
    assert_eq!(run.version, "");
    assert!(run.files.is_empty());
}

#[test]
fn the_short_way_uses_the_defaults() {
    let run = gen_protos(Some("/work/crate".to_string()), strings(&["p", "q"])).unwrap();
    assert_eq!(run.step, Step::PrepareOutput);
    assert_eq!(run.config.gen_path, "/work/crate/./gen");
    assert_eq!(run.config.src_paths, strings(&["p", "q"]));
    assert!(run.config.include_paths.is_empty());
    assert!(run.config.include_extensions);
    assert!(!run.config.cleanup_out_path);
    assert!(run.files.is_empty());
}
