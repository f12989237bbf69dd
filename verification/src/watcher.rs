//! The watcher-side decisions: which files an event concerns, how a
//! file's sibling path is derived, when a file counts as valid, and the
//! pipeline-wide failure tally.
//!
//! The OS-level directory watch, the event queue and every filesystem
//! probe live outside this crate; they feed plain values into the
//! functions here and act on the returned decisions.

use vstd::prelude::*;

use crate::errors::IngestError;
use crate::retry::ERROR_PAUSE_EVERY;

verus! {

/// The index of the last `/` of the path, scanning from the end.
pub open spec fn last_slash(p: Seq<char>) -> Option<int>
    decreases p.len(),
{
    if p.len() == 0 {
        None
    } else if p[p.len() - 1] == '/' {
        Some(p.len() - 1)
    } else {
        last_slash(p.drop_last())
    }
}

/// Where the file name starts: just after the last `/`, or at the start
/// of the path.
pub open spec fn sep_end(p: Seq<char>) -> int {
    match last_slash(p) {
        Some(j) => j + 1,
        None => 0,
    }
}

/// The index of the last `.` of the file-name part: scanning from the
/// end, a `/` ends the search.
pub open spec fn last_dot(p: Seq<char>) -> Option<int>
    decreases p.len(),
{
    if p.len() == 0 {
        None
    } else if p[p.len() - 1] == '/' {
        None
    } else if p[p.len() - 1] == '.' {
        Some(p.len() - 1)
    } else {
        last_dot(p.drop_last())
    }
}

/// The index of the dot that separates the extension, if the file name
/// has one: its last dot, provided that dot does not begin the file name.
pub open spec fn ext_split(p: Seq<char>) -> Option<int> {
    match last_dot(p) {
        Some(j) => if j > sep_end(p) {
            Some(j)
        } else {
            None
        },
        None => None,
    }
}

/// The extension of the path's file name, when there is one.
pub open spec fn extension_of(p: Seq<char>) -> Option<Seq<char>> {
    match ext_split(p) {
        Some(j) => Some(p.skip(j + 1)),
        None => None,
    }
}

/// The path with its extension replaced by `e`; a path whose file name
/// has no extension gets `.e` appended.
pub open spec fn swap_extension(p: Seq<char>, e: Seq<char>) -> Seq<char> {
    match ext_split(p) {
        Some(j) => p.take(j + 1) + e,
        None => p + "."@ + e,
    }
}

/// What kind of file a path names, by its extension: the binary asset,
/// its metadata sibling, or something the pipeline ignores.
#[derive(Debug, Clone, Copy, PartialEq, Eq, Structural)]
pub enum FileKind {
    Binary,
    Metadata,
    Other,
}

/// Find the extension-splitting dot of `path`, if any.
fn find_ext_split(path: &str) -> (r: Option<usize>)
    ensures
        match r {
            Some(j) => ext_split(path@) == Some(j as int) && (j as int) < path@.len(),
            None => ext_split(path@) is None,
        },
{
    let n = path.unicode_len();
    proof {
        assert(path@.take(n as int) =~= path@);
    }
    let mut i: usize = n;
    let mut dot: usize = 0;
    let mut found_dot = false;
    loop
        invariant_except_break
            !found_dot,
        invariant
            i <= n,
            n == path@.len(),
            last_dot(path@) == last_dot(path@.take(i as int)),
            last_slash(path@) == last_slash(path@.take(i as int)),
        ensures
            n == path@.len(),
            if found_dot {
                last_dot(path@) == Some(dot as int) && dot < n && last_slash(path@) == last_slash(
                    path@.take(dot as int),
                )
            } else {
                last_dot(path@) is None
            },
        decreases i,
    {
        proof {
            assert(path@.take(i as int).len() == i);
        }
        if i == 0 {
            break;
        }
        let c = path.get_char(i - 1);
        proof {
            assert(path@.take(i as int).drop_last() =~= path@.take(i - 1));
            assert(path@.take(i as int)[i - 1] == path@[i - 1]);
        }
        if c == '.' {
            dot = i - 1;
            found_dot = true;
            break;
        }
        if c == '/' {
            break;
        }
        i -= 1;
    }
    if !found_dot {
        return None;
    }
    // The dot is only an extension split when it does not begin the file
    // name: look for the last slash before it.
    let mut k: usize = dot;
    let mut sep: usize = 0;
    loop
        invariant
            k <= dot,
            dot < n,
            n == path@.len(),
            last_slash(path@) == last_slash(path@.take(k as int)),
        ensures
            match last_slash(path@) {
                Some(j) => sep == j + 1,
                None => sep == 0,
            },
        decreases k,
    {
        proof {
            assert(path@.take(k as int).len() == k);
        }
        if k == 0 {
            proof {
                assert(path@.take(0).len() == 0);
            }
            sep = 0;
            break;
        }
        let c = path.get_char(k - 1);
        proof {
            assert(path@.take(k as int).drop_last() =~= path@.take(k - 1));
            assert(path@.take(k as int)[k - 1] == path@[k - 1]);
        }
        if c == '/' {
            sep = k;
            break;
        }
        k -= 1;
    }
    if dot > sep {
        Some(dot)
    } else {
        None
    }
}

/// Classify a path by its extension: `wav` is the binary asset, `json`
/// the metadata document, anything else is ignored.
pub fn classify_path(path: &str) -> (r: FileKind)
    ensures
        (r is Binary) == (extension_of(path@) == Some("wav"@)),
        (r is Metadata) == (extension_of(path@) == Some("json"@)),
{
    proof {
        reveal_strlit("wav");
        reveal_strlit("json");
        assert("wav"@.len() != "json"@.len());
    }
    let n = path.unicode_len();
    match find_ext_split(path) {
        Some(j) => {
            proof {
                assert(path@.skip(j + 1) =~= path@.subrange(j + 1, n as int));
            }
            let ext = path.substring_char(j + 1, n).to_owned();
            if ext.eq(&"wav".to_owned()) {
                FileKind::Binary
            } else if ext.eq(&"json".to_owned()) {
                FileKind::Metadata
            } else {
                FileKind::Other
            }
        },
        None => FileKind::Other,
    }
}

/// The path of the sibling file: the same name with the extension
/// replaced by `ext`; a name without an extension gets one appended.
pub fn sibling_path(path: &str, ext: &str) -> (r: String)
    ensures
        r@ == swap_extension(path@, ext@),
{
    let n = path.unicode_len();
    match find_ext_split(path) {
        Some(j) => {
            proof {
                assert(n == path@.len());
            }
            let mut r = path.substring_char(0, j + 1).to_owned();
            proof {
                assert(path@.subrange(0, j + 1) =~= path@.take(j + 1));
            }
            r.append(ext);
            r
        },
        None => {
            let mut r = path.to_owned();
            r.append(".");
            r.append(ext);
            r
        },
    }
}

/// The directory part of a path: everything before its last `/`, or
/// empty when the path is a bare file name.
pub open spec fn parent_spec(p: Seq<char>) -> Seq<char> {
    match last_slash(p) {
        Some(j) => p.take(j),
        None => Seq::empty(),
    }
}

/// The parent directory of a path, as `parent_spec` states.
pub fn parent_dir(path: &str) -> (r: String)
    ensures
        r@ == parent_spec(path@),
{
    let n = path.unicode_len();
    proof {
        assert(path@.take(n as int) =~= path@);
    }
    let mut i: usize = n;
    loop
        invariant
            i <= n,
            n == path@.len(),
            last_slash(path@) == last_slash(path@.take(i as int)),
        ensures
            n == path@.len(),
            match last_slash(path@) {
                Some(j) => i == j + 1 && i >= 1,
                None => i == 0,
            },
        decreases i,
    {
        proof {
            assert(path@.take(i as int).len() == i);
        }
        if i == 0 {
            break;
        }
        let c = path.get_char(i - 1);
        proof {
            assert(path@.take(i as int).drop_last() =~= path@.take(i - 1));
            assert(path@.take(i as int)[i - 1] == path@[i - 1]);
        }
        if c == '/' {
            break;
        }
        i -= 1;
    }
    if i == 0 {
        proof {
            assert(parent_spec(path@) =~= Seq::<char>::empty());
        }
        String::new()
    } else {
        let r = path.substring_char(0, i - 1).to_owned();
        proof {
            assert(path@.subrange(0, i - 1) =~= path@.take(i - 1));
        }
        r
    }
}

/// Whether a probed file may enter the pipeline: it must exist, be a
/// regular file, and be non-empty; otherwise, which requirement failed.
pub open spec fn validate_spec(exists: bool, is_regular: bool, size: u64) -> Result<
    (),
    IngestError,
> {
    if !exists {
        Err(IngestError::MissingFile)
    } else if !is_regular {
        Err(IngestError::NotAFile)
    } else if size == 0 {
        Err(IngestError::EmptyFile)
    } else {
        Ok(())
    }
}

/// Decide whether a probed file may enter the pipeline.
pub fn validate_decision(exists: bool, is_regular: bool, size: u64) -> (r: Result<
    (),
    IngestError,
>)
    ensures
        r == validate_spec(exists, is_regular, size),
        r is Ok <==> (exists && is_regular && size > 0),
{
    if !exists {
        Err(IngestError::MissingFile)
    } else if !is_regular {
        Err(IngestError::NotAFile)
    } else if size == 0 {
        Err(IngestError::EmptyFile)
    } else {
        Ok(())
    }
}

/// The pipeline instance: the configured directories, the per-step retry
/// budget, and the running failure tally that throttles the event loop.
pub struct FileWatcher {
    pub watch_dir: String,
    pub library_dir: String,
    pub database_path: String,
    pub retry_attempts: u32,
    pub error_count: u32,
}

impl FileWatcher {
    /// A fresh pipeline over the given directories: three retry attempts
    /// per step and a clear failure tally. The directories themselves are
    /// created by the caller before events flow.
    pub fn new(watch_dir: String, library_dir: String, database_path: String) -> (r: Self)
        ensures
            r.watch_dir@ == watch_dir@,
            r.library_dir@ == library_dir@,
            r.database_path@ == database_path@,
            r.retry_attempts == crate::retry::RETRY_MAX_ATTEMPTS,
            r.error_count == 0,
    {
        FileWatcher {
            watch_dir,
            library_dir,
            database_path,
            retry_attempts: crate::retry::RETRY_MAX_ATTEMPTS,
            error_count: 0,
        }
    }

    /// Record a failed event: the tally grows (saturating at its type's
    /// limit), and every `ERROR_PAUSE_EVERY`-th cumulative failure asks
    /// the event loop to pause before consuming further events.
    pub fn note_failure(&mut self) -> (pause: bool)
        ensures
            final(self).error_count == if old(self).error_count < u32::MAX {
                old(self).error_count + 1
            } else {
                old(self).error_count as int
            },
            pause == (final(self).error_count % ERROR_PAUSE_EVERY == 0),
            final(self).watch_dir == old(self).watch_dir,
            final(self).library_dir == old(self).library_dir,
            final(self).database_path == old(self).database_path,
            final(self).retry_attempts == old(self).retry_attempts,
    {
        self.error_count = if self.error_count < u32::MAX {
            self.error_count + 1
        } else {
            self.error_count
        };
        self.error_count % ERROR_PAUSE_EVERY == 0
    }

    /// Record a successfully handled event: the tally shrinks again
    /// (saturating at zero), so an old burst of failures cannot pause the
    /// pipeline forever.
    pub fn note_success(&mut self)
        ensures
            final(self).error_count == if old(self).error_count > 0 {
                old(self).error_count - 1
            } else {
                0int
            },
            final(self).watch_dir == old(self).watch_dir,
            final(self).library_dir == old(self).library_dir,
            final(self).database_path == old(self).database_path,
            final(self).retry_attempts == old(self).retry_attempts,
    {
        if self.error_count > 0 {
            self.error_count = self.error_count - 1;
        }
    }
}

} // verus!
