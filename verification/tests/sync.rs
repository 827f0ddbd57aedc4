use cpp_wrapper_gen::file_utils::{FsFile, FsTree, find_file, move_files, move_one_file, copy_recursively, path_eq};

fn file(path: &[&str], content: &str, stamp: u64) -> FsFile {
    FsFile {
        path: path.iter().map(|s| s.to_string()).collect(),
        content: content.to_string(),
        stamp,
    }
}

#[test]
fn unchanged_file_keeps_destination_stamp() {
    let src = file(&["include", "lib.h"], "text", 10);
    let dst = file(&["include", "lib.h"], "text", 3);
    let r = move_one_file(src, Some(&dst));
    assert_eq!(r.stamp, 3);
    assert_eq!(r.content, "text");
}

#[test]
fn changed_file_is_replaced() {
    let src = file(&["include", "lib.h"], "new text", 10);
    let dst = file(&["include", "lib.h"], "old text", 3);
    let r = move_one_file(src, Some(&dst));
    assert_eq!(r.stamp, 10);
    assert_eq!(r.content, "new text");
}

#[test]
fn new_file_is_moved() {
    let src = file(&["include", "lib.h"], "text", 10);
    let r = move_one_file(src, None);
    assert_eq!(r.stamp, 10);
    assert_eq!(r.content, "text");
}

#[test]
fn sync_mirrors_source_and_drops_stale_files() {
    let src = FsTree {
        files: vec![
            file(&["include", "lib.h"], "header", 20),
            file(&["src", "lib.cpp"], "source", 21),
        ],
    };
    let dst = FsTree {
        files: vec![
            file(&["include", "lib.h"], "old header", 1),
            file(&["stale.txt"], "left over", 2),
        ],
    };
    let r = move_files(src, &dst);
    assert_eq!(r.files.len(), 2);
    assert_eq!(r.files[0].path, vec!["include".to_string(), "lib.h".to_string()]);
    assert_eq!(r.files[0].content, "header");
    assert_eq!(r.files[0].stamp, 20);
    assert_eq!(r.files[1].path, vec!["src".to_string(), "lib.cpp".to_string()]);
    assert_eq!(r.files[1].content, "source");
    // The stale destination file is gone.
    assert!(!r.files.iter().any(|f| f.path == vec!["stale.txt".to_string()]));
}

#[test]
fn sync_into_up_to_date_tree_touches_nothing() {
    let src = FsTree {
        files: vec![
            file(&["include", "lib.h"], "header", 20),
            file(&["src", "lib.cpp"], "source", 21),
        ],
    };
    let dst = FsTree {
        files: vec![
            file(&["include", "lib.h"], "header", 1),
            file(&["src", "lib.cpp"], "source", 2),
        ],
    };
    let r = move_files(src, &dst);
    // Every file keeps the destination's modification stamp.
    assert_eq!(r.files[0].stamp, 1);
    assert_eq!(r.files[1].stamp, 2);
}

#[test]
fn copy_stamps_every_file_freshly() {
    let src = FsTree {
        files: vec![file(&["a.txt"], "alpha", 5), file(&["b.txt"], "beta", 6)],
    };
    let r = copy_recursively(&src, 99);
    assert_eq!(r.files.len(), 2);
    assert_eq!(r.files[0].content, "alpha");
    assert_eq!(r.files[0].stamp, 99);
    assert_eq!(r.files[1].stamp, 99);
    // The source is untouched.
    assert_eq!(src.files[0].stamp, 5);
}

#[test]
fn find_file_matches_whole_path() {
    let tree = FsTree {
        files: vec![file(&["a", "x.txt"], "one", 1), file(&["b", "x.txt"], "two", 2)],
    };
    let p: Vec<String> = vec!["b".to_string(), "x.txt".to_string()];
    let found = find_file(&tree.files, &p).unwrap();
    assert_eq!(found.content, "two");
    let missing: Vec<String> = vec!["c".to_string(), "x.txt".to_string()];
    assert!(find_file(&tree.files, &missing).is_none());
}

#[test]
fn path_eq_compares_componentwise() {
    let a: Vec<String> = vec!["a".to_string(), "b".to_string()];
    let b: Vec<String> = vec!["a".to_string(), "b".to_string()];
    let c: Vec<String> = vec!["a".to_string(), "c".to_string()];
    let d: Vec<String> = vec!["a".to_string()];
    assert!(path_eq(&a, &b));
    assert!(!path_eq(&a, &c));
    assert!(!path_eq(&a, &d));
}
