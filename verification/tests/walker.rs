use rust_find::record::MyFile;
use rust_find::walker::{Entry, Step, Walker};
use rust_find::warnings::Warning;

fn file_entry(path: &str, name: &str, size_bytes: u64) -> Entry {
    Entry::File { path: path.to_string(), name: name.to_string(), size_bytes }
}

#[test]
fn missing_root_warns_and_siblings_are_processed() {
    let roots = vec![
        Entry::MissingRoot { path: "/gone".to_string() },
        Entry::Dir { path: "/root".to_string() },
    ];
    let mut walker = Walker::new(roots);

    // The missing root yields a warning, no record, and no failure.
    assert_eq!(walker.step(), Step::Continue);

    // The sibling root is still walked.
    assert_eq!(walker.step(), Step::ReadDir { path: "/root".to_string() });
    walker.feed_listing(vec![file_entry("/root/a.txt", "a.txt", 10)]);
    assert_eq!(walker.step(), Step::Continue);
    assert_eq!(walker.step(), Step::Done);

    let (records, warnings) = walker.finish();
    assert_eq!(records.len(), 1);
    assert_eq!(records[0].path, "/root/a.txt");
    assert_eq!(warnings, vec![Warning::MissingRoot { path: "/gone".to_string() }]);
}

#[test]
fn walk_is_preorder_depth_first() {
    let mut walker = Walker::new(vec![Entry::Dir { path: "/r".to_string() }]);

    assert_eq!(walker.step(), Step::ReadDir { path: "/r".to_string() });
    walker.feed_listing(vec![
        file_entry("/r/a", "a", 1),
        Entry::Dir { path: "/r/sub".to_string() },
        file_entry("/r/z", "z", 3),
    ]);

    assert_eq!(walker.step(), Step::Continue); // records /r/a
    assert_eq!(walker.step(), Step::ReadDir { path: "/r/sub".to_string() });
    walker.feed_listing(vec![file_entry("/r/sub/b", "b", 2)]);
    assert_eq!(walker.step(), Step::Continue); // records /r/sub/b before /r/z
    assert_eq!(walker.step(), Step::Continue); // records /r/z
    assert_eq!(walker.step(), Step::Done);

    let (records, warnings) = walker.finish();
    let paths: Vec<&str> = records.iter().map(|f| f.path.as_str()).collect();
    assert_eq!(paths, vec!["/r/a", "/r/sub/b", "/r/z"]);
    assert!(warnings.is_empty());
}

#[test]
fn unreadable_entry_warns_and_walk_goes_on() {
    let mut walker = Walker::new(vec![Entry::Dir { path: "/r".to_string() }]);

    assert_eq!(walker.step(), Step::ReadDir { path: "/r".to_string() });
    walker.feed_listing(vec![
        Entry::Unreadable { path: "/r/bad".to_string() },
        file_entry("/r/good", "good", 7),
    ]);
    assert_eq!(walker.step(), Step::Continue);
    assert_eq!(walker.step(), Step::Continue);
    assert_eq!(walker.step(), Step::Done);

    let (records, warnings) = walker.finish();
    assert_eq!(records.len(), 1);
    assert_eq!(records[0].name, "good");
    assert_eq!(warnings, vec![Warning::UnreadableEntry { path: "/r/bad".to_string() }]);
}

#[test]
fn empty_tree_produces_nothing() {
    let mut walker = Walker::new(vec![Entry::Dir { path: "/empty".to_string() }]);
    assert_eq!(walker.step(), Step::ReadDir { path: "/empty".to_string() });
    walker.feed_listing(Vec::new());
    assert_eq!(walker.step(), Step::Done);

    let (records, warnings) = walker.finish();
    assert!(records.is_empty());
    assert!(warnings.is_empty());
}

#[test]
fn no_roots_produces_nothing() {
    let mut walker = Walker::new(Vec::new());
    assert_eq!(walker.step(), Step::Done);
    let (records, warnings) = walker.finish();
    assert!(records.is_empty());
    assert!(warnings.is_empty());
}

#[test]
fn from_path_builds_a_record_only_from_complete_probes() {
    let path = "/p/x.txt".to_string();
    let built = MyFile::from_path(&path, Some("x.txt".to_string()), Some(42));
    assert_eq!(
        built,
        Some(MyFile { path: "/p/x.txt".to_string(), name: "x.txt".to_string(), size_bytes: 42 })
    );

    assert_eq!(MyFile::from_path(&path, None, Some(42)), None);
    assert_eq!(MyFile::from_path(&path, Some("x.txt".to_string()), None), None);
    assert_eq!(MyFile::from_path(&path, None, None), None);
}
