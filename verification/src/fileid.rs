//! File identity: two paths name the same file exactly when they resolve to
//! the same device/inode pair. The caller performs the `stat` calls and hands
//! the outcomes in as plain values.

use vstd::prelude::*;

verus! {

/// The identity of a file on disk: its device number and inode number.
/// Stands for the part of a file's metadata that the identity check reads.
#[derive(Clone, Copy, PartialEq, Eq, Debug)]
pub struct FileId {
    pub dev: u64,
    pub ino: u64,
}

/// A file system error as this library sees it: the file was absent, or the
/// operation failed with the given raw OS error code (if any).
#[derive(Clone, Copy, PartialEq, Eq, Debug)]
pub enum FsError {
    NotFound,
    Other(i32),
}

/// What `metadata_if_exists` returns for a given `stat` outcome: a present
/// file's identity becomes `Some`, absence becomes `None`, and any other
/// failure is passed through.
pub open spec fn metadata_if_exists_spec(stat: Result<FileId, FsError>) -> Result<
    Option<FileId>,
    FsError,
> {
    match stat {
        Ok(id) => Ok(Some(id)),
        Err(FsError::NotFound) => Ok(None),
        Err(e) => Err(e),
    }
}

/// Turn a `stat` outcome into "present with this identity / absent / failed":
/// absence is an ordinary answer here, not an error.
pub fn metadata_if_exists(stat: Result<FileId, FsError>) -> (r: Result<Option<FileId>, FsError>)
    ensures
        r == metadata_if_exists_spec(stat),
{
    match stat {
        Ok(id) => Ok(Some(id)),
        Err(FsError::NotFound) => Ok(None),
        Err(e) => Err(e),
    }
}

/// What `eq_files` returns: the first `stat` failure (other than absence)
/// wins; two present files are equal exactly when their identities agree;
/// two absent files are an error; one absent file is plain inequality.
pub open spec fn eq_files_spec(a: Result<FileId, FsError>, b: Result<FileId, FsError>) -> Result<
    bool,
    FsError,
> {
    match metadata_if_exists_spec(a) {
        Err(e) => Err(e),
        Ok(ma) => match metadata_if_exists_spec(b) {
            Err(e) => Err(e),
            Ok(mb) => match ma {
                Some(ia) => match mb {
                    Some(ib) => Ok(ia.dev == ib.dev && ia.ino == ib.ino),
                    None => Ok(false),
                },
                None => match mb {
                    Some(_) => Ok(false),
                    None => Err(FsError::NotFound),
                },
            },
        },
    }
}

/// Decide whether two paths name the same file, given the outcome of a `stat`
/// on each. Equality means the same device/inode pair; if neither path
/// exists, their identity is undefined and reported as `NotFound`.
pub fn eq_files(a: Result<FileId, FsError>, b: Result<FileId, FsError>) -> (r: Result<
    bool,
    FsError,
>)
    ensures
        r == eq_files_spec(a, b),
        a is Ok && a == b ==> r == Result::<bool, FsError>::Ok(true),
{
    let ma = match metadata_if_exists(a) {
        Ok(ma) => ma,
        Err(e) => {
            return Err(e);
        },
    };
    let mb = match metadata_if_exists(b) {
        Ok(mb) => mb,
        Err(e) => {
            return Err(e);
        },
    };
    match (ma, mb) {
        (Some(ia), Some(ib)) => Ok(ia.dev == ib.dev && ia.ino == ib.ino),
        (None, None) => Err(FsError::NotFound),
        _ => Ok(false),
    }
}

} // verus!
