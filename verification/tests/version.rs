use pb_jelly_gen::version::{is_whitespace, parse_protoc_version, version_from_query, VersionError};

#[test]
fn version_follows_the_tool_name() {
    assert_eq!(parse_protoc_version("libprotoc 3.21.7"), Ok("3.21.7".to_string()));
}

#[test]
fn version_output_may_end_in_a_newline() {
    assert_eq!(parse_protoc_version("libprotoc 3.21.7\n"), Ok("3.21.7".to_string()));
    assert_eq!(parse_protoc_version("libprotoc 25.1\r\n"), Ok("25.1".to_string()));
}

#[test]
fn version_is_the_second_word_only() {
    assert_eq!(
        parse_protoc_version(" \t libprotoc \n\t 3.0.0   and more"),
        Ok("3.0.0".to_string())
    );
}

#[test]
fn unicode_white_space_parts_the_words() {
    assert_eq!(parse_protoc_version("libprotoc\u{3000}4.2\u{a0}x"), Ok("4.2".to_string()));
    assert_eq!(parse_protoc_version("libprotoc\u{2003}4.2"), Ok("4.2".to_string()));
}

#[test]
fn another_tool_is_refused() {
    assert_eq!(parse_protoc_version("protoc 3.21.7"), Err(VersionError::UnexpectedTool));
    assert_eq!(parse_protoc_version("3.21.7"), Err(VersionError::UnexpectedTool));
    assert_eq!(parse_protoc_version("libprotoc3.21.7"), Err(VersionError::UnexpectedTool));
    assert_eq!(parse_protoc_version("Libprotoc 3.21.7"), Err(VersionError::UnexpectedTool));
}

#[test]
fn empty_output_is_refused() {
    assert_eq!(parse_protoc_version(""), Err(VersionError::UnexpectedTool));
    assert_eq!(parse_protoc_version("   \n"), Err(VersionError::UnexpectedTool));
}

#[test]
fn a_missing_version_is_refused() {
    assert_eq!(parse_protoc_version("libprotoc"), Err(VersionError::MissingVersion));
    assert_eq!(parse_protoc_version("libprotoc  \n"), Err(VersionError::MissingVersion));
}

#[test]
fn a_failed_query_gives_no_version() {
    assert_eq!(
        version_from_query(false, Some("libprotoc 3.21.7")),
        Err(VersionError::QueryFailed)
    );
    assert_eq!(version_from_query(false, None), Err(VersionError::QueryFailed));
    assert_eq!(version_from_query(true, None), Err(VersionError::NotText));
    assert_eq!(version_from_query(true, Some("libprotoc 3.21.7")), Ok("3.21.7".to_string()));
    assert_eq!(version_from_query(true, Some("other 1")), Err(VersionError::UnexpectedTool));
}

#[test]
fn white_space_is_what_std_calls_white_space() {
    let mut n: u32 = 0;
    while n <= 0x11_0000 {
        if let Some(c) = char::from_u32(n) {
            assert_eq!(is_whitespace(c), c.is_whitespace());
        }
        n += 1;
    }
}

#[test]
fn words_are_split_as_std_splits_them() {
    let outputs = ["libprotoc 3.21.7", "  libprotoc\t1.2 3", "libprotoc\u{85}9", "libprotoc\u{200b}9 1"];
    for output in outputs {
        let mut words = output.split_whitespace();
        let expected = if words.next() != Some("libprotoc") {
            Err(VersionError::UnexpectedTool)
        } else {
            words.next().map(|w| w.to_string()).ok_or(VersionError::MissingVersion)
        };
        assert_eq!(parse_protoc_version(output), expected);
    }
}
