use projutil::backup_name::backup_file_name;
use projutil::rename::RenameOutcome;
use projutil::rename::RenamePlan;
use projutil::rename::rename_plan;

#[test]
fn test_backup_names() {
    assert_eq!(backup_file_name("f", 0), "f.bak");
    assert_eq!(backup_file_name("f", 1), "f.bak.1");
    assert_eq!(backup_file_name("f", 2), "f.bak.2");
    assert_eq!(backup_file_name("f", 10), "f.bak.10");
    assert_eq!(backup_file_name("f", 12), "f.bak.12");
    assert_eq!(backup_file_name("notes.txt", 205), "notes.txt.bak.205");
}

#[test]
fn test_backup() {
    // A file named `test_backup` with no existing backup is copied to
    // `test_backup.bak`; once that candidate is taken, the next one is
    // numbered. The caller walks the retry count up past taken names.
    let path = "test_backup";
    let mut taken = vec![String::from("test_backup")];
    let mut n_retries: u64 = 0;
    let first = loop {
        let candidate = backup_file_name(path, n_retries);
        if taken.contains(&candidate) {
            n_retries += 1;
            continue;
        }
        break candidate;
    };
    assert_eq!(first, "test_backup.bak");
    taken.push(first);
    let mut n_retries: u64 = 0;
    let second = loop {
        let candidate = backup_file_name(path, n_retries);
        if taken.contains(&candidate) {
            n_retries += 1;
            continue;
        }
        break candidate;
    };
    assert_eq!(second, "test_backup.bak.1");
}

#[test]
fn test_rename_plan() {
    assert_eq!(rename_plan(RenameOutcome::Renamed), RenamePlan::Done);
    // 18 is EXDEV on Linux: the cross-device fallback, and nothing else,
    // answers it.
    assert_eq!(rename_plan(RenameOutcome::FailedOs(18)), RenamePlan::CopyThenDelete);
    assert_eq!(rename_plan(RenameOutcome::FailedOs(13)), RenamePlan::Fail);
    assert_eq!(rename_plan(RenameOutcome::FailedOs(2)), RenamePlan::Fail);
    assert_eq!(rename_plan(RenameOutcome::FailedOther), RenamePlan::Fail);
}
