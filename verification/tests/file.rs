use stellar::source_file::SourceFile;

const TEST_SOURCE: &str = "foo\nbar\r\n\nbaz";

#[test]
fn line_starts() {
    let file = SourceFile::new("test.ry", TEST_SOURCE);

    assert_eq!(
        file.line_starts,
        &[
            0,  // "foo\n"
            4,  // "bar\r\n"
            9,  // ""
            10, // "baz"
        ]
    )
}

#[test]
fn line_span_sources() {
    let file = SourceFile::new("test.ry", TEST_SOURCE);

    let line_sources = (0..4)
        .map(|line| {
            let line_range = file.line_range_by_index(line).unwrap();
            &file.source[line_range]
        })
        .collect::<Vec<_>>();

    assert_eq!(line_sources, ["foo\n", "bar\r\n", "\n", "baz"]);
}

#[test]
fn line_range_past_the_last_line_is_none() {
    let file = SourceFile::new("test.ry", TEST_SOURCE);
    assert_eq!(file.line_range_by_index(4), None);
    assert_eq!(file.line_range_by_index(3), Some(10..13));
}

#[test]
fn line_index_of_byte() {
    let file = SourceFile::new("test.ry", TEST_SOURCE);
    assert_eq!(file.get_line_index_by_byte_index(0), 0);
    assert_eq!(file.get_line_index_by_byte_index(3), 0);
    assert_eq!(file.get_line_index_by_byte_index(4), 1);
    assert_eq!(file.get_line_index_by_byte_index(9), 2);
    assert_eq!(file.get_line_index_by_byte_index(12), 3);
}

#[test]
fn workspace_files_by_id() {
    let first = SourceFile::new("a.ry", "fun main() {}");
    let second = SourceFile::new("b.ry", "x");
    let mut workspace = stellar::source_file::Workspace::new();
    assert_eq!(workspace.add_file(&first), 1);
    assert_eq!(workspace.add_file(&second), 2);
    assert_eq!(workspace.get_file_by_id_unchecked(2).source, "x");
    assert_eq!(workspace.get_file_by_id(1).unwrap().source, "fun main() {}");
    assert!(workspace.get_file_by_id(3).is_none());
}
