use projutil::walk::FsDir;
use projutil::walk::FsEntry;
use projutil::walk::FsTree;
use projutil::walk::Walk;
use projutil::walk_dir;
use std::path::Path;
use std::path::PathBuf;

fn sorted(mut v: Vec<u64>) -> Vec<u64> {
    v.sort();
    v
}

// A two-level directory listing standing in for a source tree: the walker's
// driver asks it what each directory holds.
fn list(dir: &Path) -> Vec<(PathBuf, bool)> {
    if dir == Path::new("./src") {
        vec![(PathBuf::from("./src/lib.rs"), false), (PathBuf::from("./src/walk"), true)]
    } else if dir == Path::new("./src/walk") {
        vec![(PathBuf::from("./src/walk/mod.rs"), false)]
    } else {
        vec![]
    }
}

#[test]
fn test_walk_dir() {
    // The walker driven through the work-list machine, exactly as a real
    // file system driver runs it: every regular file under ./src is
    // visited, directories are descended into and never reported.
    let mut w: Walk<PathBuf, PathBuf> = Walk::new(PathBuf::from("./src"));
    while let Some(dir) = w.next_dir() {
        for (path, is_dir) in list(&dir) {
            if is_dir {
                w.push_dir(path);
            } else {
                w.emit(path);
            }
        }
    }
    let files = w.results();
    assert!(files.len() > 0);
    assert!(files.iter().find(|path| path.ends_with("lib.rs")).is_some());
    assert_eq!(files.len(), 2);
}

#[test]
fn test_walk_flat_root() {
    // A root holding only regular files: one result per file.
    let t = FsTree {
        dirs: vec![
            FsDir {
                readable: true,
                entries: vec![FsEntry::File(10), FsEntry::File(20), FsEntry::File(30)],
            },
        ],
    };
    assert_eq!(sorted(walk_dir(&t, 0)), vec![10, 20, 30]);
}

#[test]
fn test_walk_nested() {
    // Directories are traversed, never reported; every reachable file is.
    let t = FsTree {
        dirs: vec![
            FsDir {
                readable: true,
                entries: vec![FsEntry::File(1), FsEntry::Dir(1), FsEntry::File(2)],
            },
            FsDir { readable: true, entries: vec![FsEntry::File(3), FsEntry::Dir(2)] },
            FsDir { readable: true, entries: vec![FsEntry::File(4)] },
        ],
    };
    assert_eq!(sorted(walk_dir(&t, 0)), vec![1, 2, 3, 4]);
}

#[test]
fn test_walk_unreadable_subdir_skipped() {
    // An unreadable subdirectory is skipped; all readable siblings are
    // still visited.
    let t = FsTree {
        dirs: vec![
            FsDir {
                readable: true,
                entries: vec![FsEntry::Dir(1), FsEntry::File(5), FsEntry::Dir(2)],
            },
            FsDir { readable: false, entries: vec![FsEntry::File(99)] },
            FsDir { readable: true, entries: vec![FsEntry::File(6)] },
        ],
    };
    assert_eq!(sorted(walk_dir(&t, 0)), vec![5, 6]);
}

#[test]
fn test_walk_missing_root() {
    // A root that does not exist yields an empty result, not an error.
    let t = FsTree { dirs: vec![FsDir { readable: true, entries: vec![FsEntry::File(1)] }] };
    assert_eq!(walk_dir(&t, 9), Vec::<u64>::new());
}

#[test]
fn test_walk_empty_dirs() {
    let t = FsTree {
        dirs: vec![
            FsDir { readable: true, entries: vec![FsEntry::Dir(1)] },
            FsDir { readable: true, entries: vec![] },
        ],
    };
    assert_eq!(walk_dir(&t, 0), Vec::<u64>::new());
}
