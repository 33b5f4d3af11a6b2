//! Path validation rules.
//!
//! Whether a path exists, or is a directory or file, is a disk fact; the
//! embedding application probes the platform and hands the answers in as
//! plain booleans. The rules applied to those answers live here.

use vstd::prelude::*;
use vstd::string::StrSliceExecFns;
use vstd::string::StringExecFns;

use crate::errors::AppError;
use crate::errors::DownloadError;
use crate::errors::FileError;
use crate::text::contains_substring;
use crate::text::has_substring;
use crate::text::last_index_of;
use crate::text::last_index_of_char;
use crate::text::lemma_last_index_absent;
use crate::text::lemma_last_index_at;
use crate::validation::valid_audio_extension;
use crate::validation::validate_audio_extension;

verus! {

/// `path` holds a parent-traversal sequence.
pub open spec fn has_traversal(path: Seq<char>) -> bool {
    has_substring(path, ".."@)
}

/// Validates that a path exists and is free of parent traversal.
/// `path_exists` reports whether the path exists on disk.
pub fn validate_path(path: &str, path_exists: bool) -> (r: Result<(), AppError>)
    ensures
        r is Ok <==> path_exists && !has_traversal(path@),
        r matches Err(e) ==> (if !path_exists {
            e matches AppError::File(FileError::NotFound(p)) && p@ == path@
        } else {
            e matches AppError::File(FileError::PathTraversal(p)) && p@ == path@
        }),
{
    if !path_exists {
        return Err(AppError::File(FileError::NotFound(path.to_owned())));
    }
    if contains_substring(path, "..") {
        return Err(AppError::File(FileError::PathTraversal(path.to_owned())));
    }
    Ok(())
}

/// Validates that a path is an existing, traversal-free directory.
/// `is_dir` reports whether the path is a directory on disk.
pub fn validate_directory(path: &str, path_exists: bool, is_dir: bool) -> (r: Result<
    (),
    AppError,
>)
    ensures
        r is Ok <==> path_exists && !has_traversal(path@) && is_dir,
        r matches Err(e) ==> (if !path_exists {
            e matches AppError::File(FileError::NotFound(p)) && p@ == path@
        } else if has_traversal(path@) {
            e matches AppError::File(FileError::PathTraversal(p)) && p@ == path@
        } else {
            e matches AppError::File(FileError::NotDirectory(p)) && p@ == path@
        }),
{
    match validate_path(path, path_exists) {
        Err(e) => {
            return Err(e);
        },
        Ok(_) => {},
    }
    if !is_dir {
        return Err(AppError::File(FileError::NotDirectory(path.to_owned())));
    }
    Ok(())
}

/// Validates that a path is an existing, traversal-free regular file.
/// `is_file` reports whether the path is a regular file on disk.
pub fn validate_file(path: &str, path_exists: bool, is_file: bool) -> (r: Result<(), AppError>)
    ensures
        r is Ok <==> path_exists && !has_traversal(path@) && is_file,
        r matches Err(e) ==> (if !path_exists {
            e matches AppError::File(FileError::NotFound(p)) && p@ == path@
        } else if has_traversal(path@) {
            e matches AppError::File(FileError::PathTraversal(p)) && p@ == path@
        } else {
            e matches AppError::File(FileError::NotFile(p)) && p@ == path@
        }),
{
    match validate_path(path, path_exists) {
        Err(e) => {
            return Err(e);
        },
        Ok(_) => {},
    }
    if !is_file {
        return Err(AppError::File(FileError::NotFile(path.to_owned())));
    }
    Ok(())
}

/// Validates an output path for a download: it must be traversal-free and
/// its parent directory must already exist. `parent_exists` reports the disk
/// fact (true when the path has no parent).
pub fn validate_output_path(path: &str, parent_exists: bool) -> (r: Result<String, AppError>)
    ensures
        r is Ok <==> !has_traversal(path@) && parent_exists,
        r matches Ok(p) ==> p@ == path@,
        r matches Err(e) ==> (if has_traversal(path@) {
            e matches AppError::File(FileError::PathTraversal(p)) && p@ == path@
        } else {
            e matches AppError::Download(DownloadError::OutputDirNotFound(p)) && p@ == path@
        }),
{
    if contains_substring(path, "..") {
        return Err(AppError::File(FileError::PathTraversal(path.to_owned())));
    }
    if !parent_exists {
        return Err(AppError::Download(DownloadError::OutputDirNotFound(path.to_owned())));
    }
    Ok(path.to_owned())
}

/// The file-name component of a path: everything after the last `/`.
pub open spec fn file_name_of(path: Seq<char>) -> Seq<char> {
    path.subrange(last_index_of(path, '/') + 1, path.len() as int)
}

/// The extension of a path's file name: everything after the last `.`,
/// provided the dot is neither absent nor the name's first character.
pub open spec fn extension_of(path: Seq<char>) -> Option<Seq<char>> {
    let name = file_name_of(path);
    let d = last_index_of(name, '.');
    if d > 0 {
        Option::Some(name.subrange(d + 1, name.len() as int))
    } else {
        Option::None
    }
}

/// The path names an audio file: its extension is one of the supported set,
/// up to ASCII case.
pub open spec fn is_audio_path(path: Seq<char>) -> bool {
    match extension_of(path) {
        Option::Some(ext) => valid_audio_extension(ext),
        Option::None => false,
    }
}

/// Decides whether a path names a file with a supported audio extension.
pub fn is_audio_file(path: &str) -> (r: bool)
    ensures
        r == is_audio_path(path@),
{
    let n = path.unicode_len();
    let start: usize = match last_index_of_char(path, '/') {
        Some(i) => {
            proof {
                lemma_last_index_at(path@, '/', i as int);
            }
            i + 1
        },
        None => {
            proof {
                lemma_last_index_absent(path@, '/');
            }
            0
        },
    };
    let name = path.substring_char(start, n);
    let dot: usize = match last_index_of_char(name, '.') {
        Some(i) => {
            proof {
                lemma_last_index_at(name@, '.', i as int);
            }
            i
        },
        None => {
            proof {
                lemma_last_index_absent(name@, '.');
            }
            return false;
        },
    };
    if dot == 0 {
        return false;
    }
    let m = name.unicode_len();
    let ext = name.substring_char(dot + 1, m);
    match validate_audio_extension(ext) {
        Ok(_) => true,
        Err(_) => false,
    }
}

/// Index of the first candidate whose directory exists, or the candidate
/// count when none does.
pub open spec fn first_existing(flags: Seq<bool>) -> int
    decreases flags.len(),
{
    if flags.len() == 0 {
        0
    } else if flags[0] {
        0
    } else {
        1 + first_existing(flags.drop_first())
    }
}

proof fn lemma_first_existing_at(flags: Seq<bool>, k: int)
    requires
        0 <= k < flags.len(),
        flags[k],
        forall|j: int| 0 <= j < k ==> !flags[j],
    ensures
        first_existing(flags) == k,
    decreases k,
{
    if k > 0 {
        lemma_first_existing_at(flags.drop_first(), k - 1);
    }
}

proof fn lemma_first_existing_absent(flags: Seq<bool>)
    requires
        forall|j: int| 0 <= j < flags.len() ==> !flags[j],
    ensures
        first_existing(flags) == flags.len(),
    decreases flags.len(),
{
    if flags.len() > 0 {
        lemma_first_existing_absent(flags.drop_first());
    }
}

/// Picks the platform's default music folder: the first candidate whose
/// directory exists on disk. `candidates` are the platform's music-folder
/// paths in preference order; `exists_dir[i]` reports whether candidate `i`
/// exists and is a directory.
pub fn get_default_music_folder(candidates: &Vec<String>, exists_dir: &Vec<bool>) -> (r: Result<
    String,
    AppError,
>)
    requires
        candidates@.len() == exists_dir@.len(),
    ensures
        r is Ok <==> first_existing(exists_dir@) < exists_dir@.len(),
        r matches Ok(p) ==> p@ == candidates@[first_existing(exists_dir@)]@,
        r matches Err(e) ==> (e matches AppError::File(FileError::NotFound(m)) && m@
            == "Default music folder not found"@),
{
    let mut i: usize = 0;
    while i < candidates.len()
        invariant
            i <= candidates@.len(),
            candidates@.len() == exists_dir@.len(),
            forall|j: int| 0 <= j < i ==> !exists_dir@[j],
        decreases candidates@.len() - i,
    {
        if exists_dir[i] {
            proof {
                lemma_first_existing_at(exists_dir@, i as int);
            }
            return Ok(candidates[i].clone());
        }
        i += 1;
    }
    proof {
        lemma_first_existing_absent(exists_dir@);
    }
    Err(AppError::File(FileError::NotFound(String::from_str("Default music folder not found"))))
}

} // verus!

verus! {

/// The stem of a path's file name: the name without its extension.
pub open spec fn stem_of(path: Seq<char>) -> Seq<char> {
    let name = file_name_of(path);
    let d = last_index_of(name, '.');
    if d > 0 {
        name.subrange(0, d)
    } else {
        name
    }
}

/// Extracts the stem of a path's file name.
pub fn file_stem(path: &str) -> (r: String)
    ensures
        r@ == stem_of(path@),
{
    let n = path.unicode_len();
    let start: usize = match last_index_of_char(path, '/') {
        Some(i) => {
            proof {
                lemma_last_index_at(path@, '/', i as int);
            }
            i + 1
        },
        None => {
            proof {
                lemma_last_index_absent(path@, '/');
            }
            0
        },
    };
    let name = path.substring_char(start, n);
    let m = name.unicode_len();
    let stop: usize = match last_index_of_char(name, '.') {
        Some(i) => {
            proof {
                lemma_last_index_at(name@, '.', i as int);
            }
            if i > 0 {
                i
            } else {
                m
            }
        },
        None => {
            proof {
                lemma_last_index_absent(name@, '.');
            }
            m
        },
    };
    let stem = name.substring_char(0, stop);
    assert(name@.subrange(0, m as int) =~= name@);
    stem.to_owned()
}

} // verus!

verus! {

/// Extracts the extension of a path's file name, if it has one.
pub fn file_extension(path: &str) -> (r: Option<String>)
    ensures
        match r {
            Some(e) => extension_of(path@) matches Some(x) && e@ == x,
            None => extension_of(path@) is None,
        },
{
    let n = path.unicode_len();
    let start: usize = match last_index_of_char(path, '/') {
        Some(i) => {
            proof {
                lemma_last_index_at(path@, '/', i as int);
            }
            i + 1
        },
        None => {
            proof {
                lemma_last_index_absent(path@, '/');
            }
            0
        },
    };
    let name = path.substring_char(start, n);
    let dot: usize = match last_index_of_char(name, '.') {
        Some(i) => {
            proof {
                lemma_last_index_at(name@, '.', i as int);
            }
            i
        },
        None => {
            proof {
                lemma_last_index_absent(name@, '.');
            }
            return None;
        },
    };
    if dot == 0 {
        return None;
    }
    let m = name.unicode_len();
    let ext = name.substring_char(dot + 1, m);
    Some(ext.to_owned())
}

} // verus!
