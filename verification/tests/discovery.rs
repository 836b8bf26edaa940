use pb_jelly_gen::discovery::{is_schema_extension, is_schema_file, schema_files, schema_files_in};

fn strings(items: &[&str]) -> Vec<String> {
    items.iter().map(|s| s.to_string()).collect()
}

#[test]
fn schema_files_are_told_by_their_extension() {
    assert!(is_schema_file("a.proto"));
    assert!(is_schema_file("dir/sub/b.proto"));
    assert!(is_schema_file("dir.d/c.tar.proto"));
    assert!(!is_schema_file("c.txt"));
    assert!(!is_schema_file("proto"));
    assert!(!is_schema_file(".proto"));
    assert!(!is_schema_file("a.proto.txt"));
    assert!(!is_schema_file("a.PROTO"));
    assert!(!is_schema_file("dir.proto/readme"));
    assert!(!is_schema_file(""));
}

#[test]
fn discovery_keeps_schema_files_in_walk_order() {
    let walk = strings(&["D", "D/a.proto", "D/b.proto", "D/c.txt"]);
    assert_eq!(schema_files_in(&walk), strings(&["D/a.proto", "D/b.proto"]));
}

#[test]
fn discovery_of_nothing_is_empty() {
    assert!(schema_files_in(&Vec::new()).is_empty());
    assert!(schema_files(&Vec::new()).is_empty());
    assert!(schema_files(&vec![Vec::new(), strings(&["x.txt"])]).is_empty());
}

#[test]
fn a_source_that_is_a_file_is_its_own_walk() {
    assert_eq!(schema_files(&vec![strings(&["one.proto"])]), strings(&["one.proto"]));
    assert!(schema_files(&vec![strings(&["one.txt"])]).is_empty());
}

#[test]
fn discovery_goes_through_the_sources_in_their_order() {
    let walks = vec![
        strings(&["z", "z/z.proto", "z/note.md"]),
        strings(&[]),
        strings(&["a", "a/b", "a/b/c.proto", "a/a.proto"]),
    ];
    assert_eq!(schema_files(&walks), strings(&["z/z.proto", "a/b/c.proto", "a/a.proto"]));
}

#[test]
fn overlapping_sources_give_a_file_twice() {
    let walks = vec![strings(&["p", "p/q", "p/q/x.proto"]), strings(&["p/q", "p/q/x.proto"])];
    assert_eq!(schema_files(&walks), strings(&["p/q/x.proto", "p/q/x.proto"]));
}

#[test]
fn only_the_extension_proto_is_that_of_a_schema_file() {
    assert!(is_schema_extension(Some("proto")));
    assert!(!is_schema_extension(None));
    assert!(!is_schema_extension(Some("")));
    assert!(!is_schema_extension(Some("txt")));
    assert!(!is_schema_extension(Some("Proto")));
    assert!(!is_schema_extension(Some("proto ")));
    assert!(!is_schema_extension(Some("proto3")));
    assert!(!is_schema_extension(Some(".proto")));
}
