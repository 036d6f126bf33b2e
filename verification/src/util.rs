//! The directory probe: resolving a path string to a canonical absolute path
//! and checking that it denotes a directory, together with the library's
//! error type. The filesystem lookups sit behind trusted wrappers; everything
//! that can be decided from their results is verified.

use vstd::prelude::*;

verus! {

/// Every failure the library distinguishes.
#[derive(Clone, Debug)]
pub enum SyncError {
    /// The path could not be canonicalized (it does not exist, or permission
    /// was denied).
    PathResolution { path: String },
    /// The resolved path does not currently denote a directory.
    NotADirectory { path: String },
    /// A filesystem operation failed during a reconciliation pass.
    Reconciliation { path: String, detail: String },
    /// A filesystem change notification could not be established.
    WatchSetup { path: String, detail: String },
}

/// Relies on std::path::Path::canonicalize: returns the canonical, absolute
/// form of the path (never empty), or nothing when the path cannot be
/// resolved. What it returns depends on the filesystem at the time of the
/// call.
#[verifier::external_body]
fn canonicalize_str(s: &str) -> (r: Option<String>)
    ensures
        r is Some ==> r->Some_0@.len() > 0,
{
    std::path::Path::new(s).canonicalize().ok().and_then(|p| p.to_str().map(|t| t.to_owned()))
}

/// Relies on std::path::Path::is_dir: whether the path currently denotes a
/// directory, following symlinks. The answer depends on the filesystem at the
/// time of the call.
#[verifier::external_body]
fn path_is_dir(s: &str) -> (r: bool) {
    std::path::Path::new(s).is_dir()
}

/// Resolves a path string to its canonical absolute form (symlinks and
/// relative segments resolved); fails with a path-resolution error naming the
/// input exactly when the path cannot be resolved. A home-directory shorthand
/// is the caller's concern: the password-database lookup it takes is expanded
/// at the I/O edge, before a path string reaches the library.
pub fn get_path(path: &str) -> (r: Result<String, SyncError>)
    ensures
        r is Ok ==> r->Ok_0@.len() > 0,
        r is Err ==> r->Err_0 is PathResolution && r->Err_0->PathResolution_path@ == path@,
{
    match canonicalize_str(path) {
        None => Err(SyncError::PathResolution { path: path.to_owned() }),
        Some(canon) => Ok(canon),
    }
}

/// Turns the probe's verdict on a path into the library's result: success
/// exactly when the path was seen to be a directory.
pub fn dir_check(is_dir: bool, path: &str) -> (r: Result<(), SyncError>)
    ensures
        (r is Ok) <==> is_dir,
        r is Err ==> r->Err_0 is NotADirectory && r->Err_0->NotADirectory_path@ == path@,
{
    if is_dir {
        Ok(())
    } else {
        Err(SyncError::NotADirectory { path: path.to_owned() })
    }
}

/// Fails with a not-a-directory error when the path does not currently denote
/// a directory.
pub fn check_dir(path: &str) -> (r: Result<(), SyncError>)
    ensures
        r is Err ==> r->Err_0 is NotADirectory && r->Err_0->NotADirectory_path@ == path@,
{
    dir_check(path_is_dir(path), path)
}

/// Resolves a path string and verifies it denotes a directory; fails with
/// whichever error occurred.
pub fn get_dir(path_s: &str) -> (r: Result<String, SyncError>)
    ensures
        r is Ok ==> r->Ok_0@.len() > 0,
        r is Err ==> r->Err_0 is PathResolution || r->Err_0 is NotADirectory,
        r is Err && r->Err_0 is PathResolution ==> r->Err_0->PathResolution_path@ == path_s@,
{
    match get_path(path_s) {
        Err(e) => Err(e),
        Ok(p) => match check_dir(p.as_str()) {
            Err(e) => Err(e),
            Ok(()) => Ok(p),
        },
    }
}

} // verus!
