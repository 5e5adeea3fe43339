//! Directory entries: the metadata record for one filesystem child,
//! and the synthetic `..` row that leads to the parent directory.
use vstd::prelude::*;

use crate::paths::{file_name_of_path, parent_of_path, extension_of_name};
use crate::paths::{file_name_of, parent_or_fallback, extension_of};
use crate::utils::{file_type_from_extension, file_type_of_ext};

verus! {

/// The broad kind of an entry, derived from its extension.
#[derive(Clone, Copy, PartialEq, Eq, Structural, Debug)]
pub enum FileType {
    Directory,
    File,
    Image,
    Video,
    Audio,
    Document,
    Unknown,
}

/// One directory entry. Timestamps are seconds since the Unix epoch;
/// a size or timestamp that could not be read is absent, never a
/// sentinel value.
#[derive(Debug)]
pub struct FileData {
    pub name: String,
    pub path: String,
    pub is_dir: bool,
    pub size: Option<u64>,
    pub last_modified: Option<u64>,
    pub created: Option<u64>,
    pub file_type: Option<FileType>,
}

impl Clone for FileData {
    fn clone(&self) -> (r: Self)
        ensures
            r == *self,
    {
        FileData {
            name: self.name.clone(),
            path: self.path.clone(),
            is_dir: self.is_dir,
            size: self.size,
            last_modified: self.last_modified,
            created: self.created,
            file_type: self.file_type,
        }
    }
}

/// The kind an entry of the given shape is classified as.
pub open spec fn entry_kind(is_dir: bool, name: Seq<char>) -> FileType {
    if is_dir {
        FileType::Directory
    } else {
        file_type_of_ext(extension_of_name(name))
    }
}

impl FileData {
    /// Builds the entry for one filesystem child from its path and the
    /// metadata the collaborator read: whether it is a directory, its
    /// byte length, and its timestamps. Directories carry no size.
    pub fn new(
        path: String,
        is_dir: bool,
        len: u64,
        created: Option<u64>,
        last_modified: Option<u64>,
    ) -> (r: FileData)
        ensures
            r.name@ == file_name_of_path(path@),
            r.path == path,
            r.is_dir == is_dir,
            r.size == if is_dir { Option::<u64>::None } else { Some(len) },
            r.last_modified == last_modified,
            r.created == created,
            r.file_type == Some(entry_kind(is_dir, file_name_of_path(path@))),
    {
        let name = file_name_of(path.as_str());
        let file_type = if is_dir {
            FileType::Directory
        } else {
            let ext = extension_of(name.as_str());
            file_type_from_extension(ext.as_str())
        };
        let size = if is_dir { None } else { Some(len) };
        FileData { name, path, is_dir, size, last_modified, created, file_type: Some(file_type) }
    }

    /// Builds the synthetic `..` row: a directory entry whose path is
    /// the parent of `current_path` (or the platform fallback root at a
    /// root), with all metadata absent.
    pub fn parent(current_path: &str, fallback_root: &str) -> (r: FileData)
        ensures
            r.name@ == seq!['.', '.'],
            r.path@ == match parent_of_path(current_path@) {
                Some(p) => p,
                None => fallback_root@,
            },
            r.is_dir,
            r.size is None,
            r.last_modified is None,
            r.created is None,
            r.file_type == Some(FileType::Directory),
    {
        let name = String::from_str("..");
        proof {
            reveal_strlit("..");
            assert(name@ =~= seq!['.', '.']);
        }
        FileData {
            name,
            path: parent_or_fallback(current_path, fallback_root),
            is_dir: true,
            size: None,
            last_modified: None,
            created: None,
            file_type: Some(FileType::Directory),
        }
    }
}

} // verus!
