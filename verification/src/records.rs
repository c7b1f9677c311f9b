//! Immutable transcriptions of engine-reported facts: metadata, version
//! history entries, directory entries, repository information.  These are
//! value types with no lifecycle of their own, produced fresh per query and
//! never cached.  Timestamps cross the boundary as whole seconds since the
//! fixed reference epoch; sub-second precision is discarded.

use vstd::prelude::*;

verus! {

/// Metadata of a file or directory as the engine reports it.
#[derive(Debug, Clone, PartialEq, Eq)]
pub struct MetadataRec {
    /// The engine's rendering of the file type: `"File"` or `"Dir"`.
    pub file_type: String,
    /// Byte length of the current content.
    pub content_len: usize,
    /// Current version number.
    pub curr_version: usize,
    /// Creation time, in seconds since the fixed epoch.
    pub created_at: u64,
    /// Last modification time, in seconds since the fixed epoch.
    pub modified_at: u64,
}

impl MetadataRec {
    /// A populated record names one of the two file types.
    pub open spec fn wf(&self) -> bool {
        self.file_type@ == "File"@ || self.file_type@ == "Dir"@
    }
}

/// One entry of a file's version history.
#[derive(Debug, Clone, PartialEq, Eq)]
pub struct VersionRec {
    /// The version number.
    pub num: usize,
    /// Byte length of that version's content.
    pub content_len: usize,
    /// Creation time of that version, in seconds since the fixed epoch.
    pub created_at: u64,
}

/// One entry of a directory listing.
#[derive(Debug, Clone, PartialEq, Eq)]
pub struct DirEntryRec {
    /// Full path of the entry.
    pub path: String,
    /// Bare file name of the entry.
    pub file_name: String,
    /// Metadata of the file or directory the entry points at.
    pub metadata: MetadataRec,
}

/// Information about an open repository.
#[derive(Debug, Clone, PartialEq, Eq)]
pub struct RepoInfoRec {
    /// Unique volume id, rendered as text.
    pub volume_id: String,
    /// Engine version string.
    pub version: String,
    /// Location the repository was opened at.
    pub uri: String,
    /// Whether compression is enabled.
    pub compress: bool,
    /// Maximum number of file versions kept.
    pub version_limit: u8,
    /// Whether content deduplication is enabled.
    pub dedup_chunk: bool,
    /// Whether the repository was opened read-only.
    pub is_read_only: bool,
    /// Creation time, in seconds since the fixed epoch.
    pub created_at: u64,
}

} // verus!
