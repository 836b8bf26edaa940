use pb_jelly_gen::assets::{materialization_plan, AssetDir, AssetKind, AssetWrite, ASSET_FILE_MODE};

fn dir(path: &str, files: &[&str], dirs: Vec<AssetDir>) -> AssetDir {
    AssetDir { path: path.to_string(), files: files.iter().map(|f| f.to_string()).collect(), dirs }
}

fn bundle() -> AssetDir {
    dir(
        "",
        &["setup.py", "codegen.py"],
        vec![
            dir("proto", &["proto/__init__.py"], vec![dir("proto/deep", &[], Vec::new())]),
            dir("rust", &["rust/extensions.proto"], Vec::new()),
        ],
    )
}

fn rows(plan: &[AssetWrite]) -> Vec<(AssetKind, String, String)> {
    plan.iter().map(|w| (w.kind, w.source.clone(), w.target.clone())).collect()
}

fn row(kind: AssetKind, source: &str, target: &str) -> (AssetKind, String, String) {
    (kind, source.to_string(), target.to_string())
}

#[test]
fn unpacked_files_are_executable_for_everyone() {
    assert_eq!(ASSET_FILE_MODE, 0o777);
}

#[test]
fn an_empty_bundle_needs_no_step() {
    assert!(materialization_plan(&dir("", &[], Vec::new()), "/tmp/ws").is_empty());
}

#[test]
fn files_come_before_directories_and_each_directory_is_filled_at_once() {
    let plan = materialization_plan(&bundle(), "/tmp/ws");
    assert_eq!(
        rows(&plan),
        vec![
            row(AssetKind::File, "setup.py", "/tmp/ws/setup.py"),
            row(AssetKind::File, "codegen.py", "/tmp/ws/codegen.py"),
            row(AssetKind::Directory, "proto", "/tmp/ws/proto"),
            row(AssetKind::File, "proto/__init__.py", "/tmp/ws/proto/__init__.py"),
            row(AssetKind::Directory, "proto/deep", "/tmp/ws/proto/deep"),
            row(AssetKind::Directory, "rust", "/tmp/ws/rust"),
            row(AssetKind::File, "rust/extensions.proto", "/tmp/ws/rust/extensions.proto"),
        ]
    );
}

#[test]
fn two_workspaces_get_the_same_tree() {
    let first = materialization_plan(&bundle(), "/tmp/one");
    let second = materialization_plan(&bundle(), "/tmp/two");
    assert_eq!(first.len(), second.len());
    for (a, b) in first.iter().zip(second.iter()) {
        assert_eq!(a.kind, b.kind);
        assert_eq!(a.source, b.source);
        assert_eq!(a.target, format!("/tmp/one/{}", a.source));
        assert_eq!(b.target, format!("/tmp/two/{}", b.source));
    }
}

#[test]
fn a_name_that_occurs_twice_is_planned_twice() {
    let plan = materialization_plan(&dir("", &["a", "a"], Vec::new()), "w");
    assert_eq!(
        rows(&plan),
        vec![row(AssetKind::File, "a", "w/a"), row(AssetKind::File, "a", "w/a")]
    );
}
