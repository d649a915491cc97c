use rust_find::filters::{
    apply_filters, compile_patterns, filter_files_regex, filter_files_size_max,
    filter_files_size_min,
};
use rust_find::record::MyFile;
use rust_find::warnings::Warning;

fn sample_files() -> (MyFile, MyFile, MyFile, MyFile) {
    let file1 = MyFile {
        path: "/path/to/file1.txt".to_string(),
        name: "file1.txt".to_string(),
        size_bytes: 1024,
    };
    let file2 = MyFile {
        path: "/path/to/file2.jpg".to_string(),
        name: "file2.jpg".to_string(),
        size_bytes: 2048,
    };
    let file3 = MyFile {
        path: "/path/to/file3.txt".to_string(),
        name: "file3.txt".to_string(),
        size_bytes: 4096,
    };
    let file4 = MyFile {
        path: "/path/to/file4.png".to_string(),
        name: "file4.png".to_string(),
        size_bytes: 1024,
    };
    (file1, file2, file3, file4)
}

#[test]
fn test_filter_files_regex() {
    let (file1, file2, file3, file4) = sample_files();
    let files = vec![&file1, &file2, &file3, &file4];

    let patterns = vec!["\\w+\\.txt".to_string(), "\\w+\\.jpg".to_string()];

    let result = filter_files_regex(&files, &patterns);

    assert_eq!(result.len(), 3);
    assert!(result.contains(&&file1));
    assert!(result.contains(&&file2));
    assert!(result.contains(&&file3));
    assert!(!result.contains(&&file4));
}

#[test]
fn filter_files_size_min_test() {
    let (file1, file2, file3, file4) = sample_files();
    let files = vec![&file1, &file2, &file3, &file4];

    let min = 2048;

    let result = filter_files_size_min(&files, &min);

    assert_eq!(result.len(), 2);
    assert!(!result.contains(&&file1));
    assert!(result.contains(&&file2));
    assert!(result.contains(&&file3));
    assert!(!result.contains(&&file4));
}

#[test]
fn filter_files_size_max_test() {
    let (file1, file2, file3, file4) = sample_files();
    let files = vec![&file1, &file2, &file3, &file4];

    let max = 2048;

    let result = filter_files_size_max(&files, &max);

    assert_eq!(result.len(), 3);
    assert!(result.contains(&&file1));
    assert!(result.contains(&&file2));
    assert!(!result.contains(&&file3));
    assert!(result.contains(&&file4));
}

#[test]
fn size_bounds_are_inclusive() {
    let (file1, file2, file3, file4) = sample_files();
    let files = vec![&file1, &file2, &file3, &file4];

    // A file exactly at the bound stays; one strictly outside never appears.
    let at_min = filter_files_size_min(&files, &1024);
    assert_eq!(at_min.len(), 4);
    let above = filter_files_size_min(&files, &1025);
    assert!(!above.contains(&&file1));
    assert!(!above.contains(&&file4));

    let at_max = filter_files_size_max(&files, &4096);
    assert_eq!(at_max.len(), 4);
    let below = filter_files_size_max(&files, &4095);
    assert!(!below.contains(&&file3));
}

#[test]
fn filters_keep_input_order() {
    let (file1, file2, file3, file4) = sample_files();
    let files = vec![&file1, &file2, &file3, &file4];

    let result = filter_files_size_max(&files, &2048);
    assert_eq!(result, vec![&file1, &file2, &file4]);

    let patterns = vec!["\\w+\\.txt".to_string()];
    let result = filter_files_regex(&files, &patterns);
    assert_eq!(result, vec![&file1, &file3]);
}

#[test]
fn invalid_pattern_becomes_warning_and_is_dropped() {
    let patterns = vec!["[".to_string(), "\\w+\\.txt".to_string()];
    let (regexes, warnings) = compile_patterns(&patterns);

    assert_eq!(regexes.len(), 1);
    assert_eq!(warnings.len(), 1);
    match &warnings[0] {
        Warning::InvalidPattern { pattern, message } => {
            assert_eq!(pattern, "[");
            assert!(!message.is_empty());
        },
        other => panic!("unexpected warning: {:?}", other),
    }

    let (file1, _file2, file3, _file4) = sample_files();
    let files = vec![&file1, &file3];
    let result = filter_files_regex(&files, &patterns);
    assert_eq!(result, vec![&file1, &file3]);
}

#[test]
fn all_patterns_invalid_rejects_every_file() {
    let (file1, file2, _file3, _file4) = sample_files();
    let files = vec![&file1, &file2];

    let patterns = vec!["[".to_string(), "(".to_string()];
    let result = filter_files_regex(&files, &patterns);
    assert!(result.is_empty());
}

#[test]
fn regex_match_reaches_the_engine() {
    // Anchored patterns tell a real match apart from any constant answer.
    let (file1, file2, _file3, _file4) = sample_files();
    let files = vec![&file1, &file2];

    let result = filter_files_regex(&files, &vec!["^file1".to_string()]);
    assert_eq!(result, vec![&file1]);
    let result = filter_files_regex(&files, &vec!["^nothing$".to_string()]);
    assert!(result.is_empty());
}

#[test]
fn apply_filters_conjoins_configured_stages() {
    let (file1, file2, file3, file4) = sample_files();
    let files = vec![&file1, &file2, &file3, &file4];

    let patterns = Some(vec!["\\w+\\.txt".to_string(), "\\w+\\.jpg".to_string()]);
    let (result, warnings) = apply_filters(&files, &patterns, &Some(2048), &Some(4095));
    assert_eq!(result, vec![&file2]);
    assert!(warnings.is_empty());
}

#[test]
fn apply_filters_without_config_is_identity() {
    let (file1, file2, file3, file4) = sample_files();
    let files = vec![&file1, &file2, &file3, &file4];

    let (result, warnings) = apply_filters(&files, &None, &None, &None);
    assert_eq!(result, files);
    assert!(warnings.is_empty());
}

#[test]
fn apply_filters_on_empty_input_is_empty() {
    let files: Vec<&MyFile> = Vec::new();
    let (result, warnings) = apply_filters(&files, &None, &None, &None);
    assert!(result.is_empty());
    assert!(warnings.is_empty());
}
