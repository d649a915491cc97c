use rust_find::output::output_lines;
use rust_find::record::MyFile;

#[test]
fn output_lines_are_the_paths_in_order() {
    let file1 = MyFile { path: "/a/1".to_string(), name: "1".to_string(), size_bytes: 1 };
    let file2 = MyFile { path: "/a/2".to_string(), name: "2".to_string(), size_bytes: 2 };
    let files = vec![&file2, &file1];

    let lines = output_lines(&files);
    assert_eq!(lines, vec!["/a/2".to_string(), "/a/1".to_string()]);
}

#[test]
fn empty_result_emits_no_line() {
    let files: Vec<&MyFile> = Vec::new();
    assert!(output_lines(&files).is_empty());
}
