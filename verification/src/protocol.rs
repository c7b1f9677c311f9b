//! The engine protocol: what the boundary asks the storage engine to do, and
//! how the engine's answers are transcoded into caller-visible values.
//!
//! The engine itself is an external collaborator that the verified core
//! never calls directly.  An operation becomes an [`EngineRequest`] — the
//! target object's token and a call descriptor whose arguments were already
//! validated and extracted — and the embedding performs it and hands back an
//! [`EngineReply`].  The accept functions below turn a reply into the
//! operation's result, exactly: an engine fault keeps its code and
//! description verbatim, a reply of the wrong shape is rejected as an
//! adapter-level error, and a well-shaped reply yields its value unchanged.

use vstd::prelude::*;
use vstd::string::StringExecFns;

use crate::config::FileConfig;
use crate::config::OptEntry;
use crate::config::RepoConfig;
use crate::config::parse_repo_config;
use crate::errors::FsError;
use crate::records::DirEntryRec;
use crate::records::MetadataRec;
use crate::records::RepoInfoRec;
use crate::records::VersionRec;
use crate::seek::SeekPos;

verus! {

/// A repository operation, with arguments already extracted and validated.
#[derive(Debug, PartialEq, Eq)]
pub enum RepoCall {
    /// Query the repository information record.
    Info,
    /// Change the repository password.
    ResetPassword { old_pwd: String, new_pwd: String, ops_limit: i32, mem_limit: i32 },
    /// Whether a path exists.
    PathExists { path: String },
    /// Whether a path names a regular file.
    IsFile { path: String },
    /// Whether a path names a directory.
    IsDir { path: String },
    /// Create a file, transferring a fresh open-file object.
    CreateFile { path: String },
    /// Open a file with a parsed option set, transferring a fresh open-file
    /// object.
    OpenFile { path: String, cfg: FileConfig },
    /// Create a directory.
    CreateDir { path: String },
    /// Create a directory and all its missing parents.
    CreateDirAll { path: String },
    /// List a directory.
    ReadDir { path: String },
    /// Query a path's metadata.
    Metadata { path: String },
    /// Query a path's version history.
    History { path: String },
    /// Copy a file's content to another path.
    Copy { from: String, to: String },
    /// Remove a file.
    RemoveFile { path: String },
    /// Remove an empty directory.
    RemoveDir { path: String },
    /// Remove a directory and all its contents.
    RemoveDirAll { path: String },
    /// Rename a file or directory.
    Rename { from: String, to: String },
}

/// An open-file operation, with arguments already extracted and validated.
#[derive(Debug, PartialEq, Eq)]
pub enum FileCall {
    /// Read at most `len` bytes from the current position.
    Read { len: usize },
    /// Read the whole remaining content.
    ReadAll,
    /// Write exactly these bytes at the current position.
    Write { bytes: Vec<u8> },
    /// Complete the in-progress write, committing a new version.
    Finish,
    /// Write exactly these bytes as one complete new version.
    WriteOnce { bytes: Vec<u8> },
    /// Reposition the cursor.
    Seek { pos: SeekPos },
    /// Grow or truncate the content to this length as a new version.
    SetLen { len: usize },
    /// Query the current version number.
    CurrVersion,
    /// Open a reader of one historical version, transferring a fresh reader
    /// object.
    VersionReader { ver_num: usize },
    /// Query the file's metadata.
    Metadata,
    /// Query the file's version history.
    History,
}

/// A version-reader operation, with arguments already validated.
#[derive(Debug, PartialEq, Eq)]
pub enum VrCall {
    /// Read at most `len` bytes from the current position.
    Read { len: usize },
    /// Read the whole remaining content.
    ReadAll,
    /// Reposition the reader.
    Seek { pos: SeekPos },
}

/// One validated engine request: the token of the object it targets, and
/// the call to perform on it.
#[derive(Debug, PartialEq, Eq)]
pub struct EngineRequest<C> {
    /// The engine-object token the embedding resolves to the native object.
    pub target: u64,
    /// The operation to perform.
    pub call: C,
}

/// A validated request to open (or create) a repository: not tied to any
/// token, since the repository object does not exist yet.
#[derive(Debug, PartialEq, Eq)]
pub struct OpenRepoRequest {
    /// The storage location.
    pub uri: String,
    /// The password.
    pub pwd: String,
    /// The parsed option set.
    pub cfg: RepoConfig,
}

/// Builds the request that opens a repository, parsing the caller's
/// configuration object against the fixed option set: every field of the
/// parsed options is pinned to what the object holds under the option's
/// name, so unrecognized names have no influence and a mistyped value
/// counts as absent.
pub fn open_repo_request(uri: &str, pwd: &str, opts: &Vec<OptEntry>) -> (r: OpenRepoRequest)
    ensures
        r.uri@ == uri@,
        r.pwd@ == pwd@,
        r.cfg == crate::config::parse_repo_config_result(opts@),
{
    OpenRepoRequest {
        uri: String::from_str(uri),
        pwd: String::from_str(pwd),
        cfg: parse_repo_config(opts),
    }
}

/// What the engine answered: the value of a completed call, a fresh object
/// token for a transfer, or a fault carrying the engine's numeric code and
/// textual description verbatim.
#[derive(Debug, Clone, PartialEq, Eq)]
pub enum EngineReply {
    /// A void operation succeeded.
    Unit,
    /// An existence or type query succeeded.
    Flag(bool),
    /// A count of bytes written.
    Count(usize),
    /// Bytes read.
    Bytes(Vec<u8>),
    /// A new cursor position.
    Pos(u64),
    /// A version number.
    Num(usize),
    /// A fresh engine-object token whose ownership transfers to the caller.
    Handle(u64),
    /// A repository information record.
    Info(RepoInfoRec),
    /// A metadata record.
    Meta(MetadataRec),
    /// A directory listing.
    Entries(Vec<DirEntryRec>),
    /// A version history.
    Hist(Vec<VersionRec>),
    /// The engine failed; code and description are passed through verbatim.
    Fault { code: i32, desc: String },
}

/// What accepting a void reply yields.
pub open spec fn spec_accept_unit(reply: EngineReply) -> Result<(), FsError> {
    match reply {
        EngineReply::Unit => Ok(()),
        EngineReply::Fault { code, desc } => Err(FsError::Engine { code, desc }),
        _ => Err(FsError::InvalidArgument),
    }
}

/// Accepts a void reply, exactly as `spec_accept_unit` states.
pub fn accept_unit(reply: EngineReply) -> (r: Result<(), FsError>)
    ensures
        r == spec_accept_unit(reply),
{
    match reply {
        EngineReply::Unit => Ok(()),
        EngineReply::Fault { code, desc } => Err(FsError::Engine { code, desc }),
        _ => Err(FsError::InvalidArgument),
    }
}

/// What accepting a boolean reply yields.
pub open spec fn spec_accept_flag(reply: EngineReply) -> Result<bool, FsError> {
    match reply {
        EngineReply::Flag(b) => Ok(b),
        EngineReply::Fault { code, desc } => Err(FsError::Engine { code, desc }),
        _ => Err(FsError::InvalidArgument),
    }
}

/// Accepts a boolean reply, exactly as `spec_accept_flag` states.
pub fn accept_flag(reply: EngineReply) -> (r: Result<bool, FsError>)
    ensures
        r == spec_accept_flag(reply),
{
    match reply {
        EngineReply::Flag(b) => Ok(b),
        EngineReply::Fault { code, desc } => Err(FsError::Engine { code, desc }),
        _ => Err(FsError::InvalidArgument),
    }
}

/// What accepting a byte-count reply yields.
pub open spec fn spec_accept_count(reply: EngineReply) -> Result<usize, FsError> {
    match reply {
        EngineReply::Count(n) => Ok(n),
        EngineReply::Fault { code, desc } => Err(FsError::Engine { code, desc }),
        _ => Err(FsError::InvalidArgument),
    }
}

/// Accepts a byte-count reply, exactly as `spec_accept_count` states.
pub fn accept_count(reply: EngineReply) -> (r: Result<usize, FsError>)
    ensures
        r == spec_accept_count(reply),
{
    match reply {
        EngineReply::Count(n) => Ok(n),
        EngineReply::Fault { code, desc } => Err(FsError::Engine { code, desc }),
        _ => Err(FsError::InvalidArgument),
    }
}

/// What accepting a cursor-position reply yields.
pub open spec fn spec_accept_pos(reply: EngineReply) -> Result<u64, FsError> {
    match reply {
        EngineReply::Pos(p) => Ok(p),
        EngineReply::Fault { code, desc } => Err(FsError::Engine { code, desc }),
        _ => Err(FsError::InvalidArgument),
    }
}

/// Accepts a cursor-position reply, exactly as `spec_accept_pos` states.
pub fn accept_pos(reply: EngineReply) -> (r: Result<u64, FsError>)
    ensures
        r == spec_accept_pos(reply),
{
    match reply {
        EngineReply::Pos(p) => Ok(p),
        EngineReply::Fault { code, desc } => Err(FsError::Engine { code, desc }),
        _ => Err(FsError::InvalidArgument),
    }
}

/// What accepting a version-number reply yields.
pub open spec fn spec_accept_num(reply: EngineReply) -> Result<usize, FsError> {
    match reply {
        EngineReply::Num(n) => Ok(n),
        EngineReply::Fault { code, desc } => Err(FsError::Engine { code, desc }),
        _ => Err(FsError::InvalidArgument),
    }
}

/// Accepts a version-number reply, exactly as `spec_accept_num` states.
pub fn accept_num(reply: EngineReply) -> (r: Result<usize, FsError>)
    ensures
        r == spec_accept_num(reply),
{
    match reply {
        EngineReply::Num(n) => Ok(n),
        EngineReply::Fault { code, desc } => Err(FsError::Engine { code, desc }),
        _ => Err(FsError::InvalidArgument),
    }
}

/// What accepting a whole-content reply yields.
pub open spec fn spec_accept_bytes(reply: EngineReply) -> Result<Vec<u8>, FsError> {
    match reply {
        EngineReply::Bytes(data) => Ok(data),
        EngineReply::Fault { code, desc } => Err(FsError::Engine { code, desc }),
        _ => Err(FsError::InvalidArgument),
    }
}

/// Accepts a whole-content reply, exactly as `spec_accept_bytes` states.
pub fn accept_bytes(reply: EngineReply) -> (r: Result<Vec<u8>, FsError>)
    ensures
        r == spec_accept_bytes(reply),
{
    match reply {
        EngineReply::Bytes(data) => Ok(data),
        EngineReply::Fault { code, desc } => Err(FsError::Engine { code, desc }),
        _ => Err(FsError::InvalidArgument),
    }
}

/// What accepting a transferred-object reply yields: the fresh token.
pub open spec fn spec_accept_handle(reply: EngineReply) -> Result<u64, FsError> {
    match reply {
        EngineReply::Handle(t) => Ok(t),
        EngineReply::Fault { code, desc } => Err(FsError::Engine { code, desc }),
        _ => Err(FsError::InvalidArgument),
    }
}

/// Accepts a transferred-object reply, exactly as `spec_accept_handle`
/// states.
pub fn accept_handle(reply: EngineReply) -> (r: Result<u64, FsError>)
    ensures
        r == spec_accept_handle(reply),
{
    match reply {
        EngineReply::Handle(t) => Ok(t),
        EngineReply::Fault { code, desc } => Err(FsError::Engine { code, desc }),
        _ => Err(FsError::InvalidArgument),
    }
}

/// What accepting an information-record reply yields.
pub open spec fn spec_accept_info(reply: EngineReply) -> Result<RepoInfoRec, FsError> {
    match reply {
        EngineReply::Info(i) => Ok(i),
        EngineReply::Fault { code, desc } => Err(FsError::Engine { code, desc }),
        _ => Err(FsError::InvalidArgument),
    }
}

/// Accepts an information-record reply, exactly as `spec_accept_info`
/// states.
pub fn accept_info(reply: EngineReply) -> (r: Result<RepoInfoRec, FsError>)
    ensures
        r == spec_accept_info(reply),
{
    match reply {
        EngineReply::Info(i) => Ok(i),
        EngineReply::Fault { code, desc } => Err(FsError::Engine { code, desc }),
        _ => Err(FsError::InvalidArgument),
    }
}

/// Whether a metadata record is populated with one of the two file types.
fn metadata_wf_ex(m: &MetadataRec) -> (b: bool)
    ensures
        b == m.wf(),
{
    let file_name = String::from_str("File");
    let dir_name = String::from_str("Dir");
    m.file_type == file_name || m.file_type == dir_name
}

/// What accepting a metadata reply yields: a populated record, or the
/// adapter's rejection of one whose file type names neither of the two
/// kinds.
pub open spec fn spec_accept_meta(reply: EngineReply) -> Result<MetadataRec, FsError> {
    match reply {
        EngineReply::Meta(m) => if m.wf() {
            Ok(m)
        } else {
            Err(FsError::InvalidArgument)
        },
        EngineReply::Fault { code, desc } => Err(FsError::Engine { code, desc }),
        _ => Err(FsError::InvalidArgument),
    }
}

/// Accepts a metadata reply, exactly as `spec_accept_meta` states.
pub fn accept_meta(reply: EngineReply) -> (r: Result<MetadataRec, FsError>)
    ensures
        r == spec_accept_meta(reply),
        r matches Ok(m) ==> m.wf(),
{
    match reply {
        EngineReply::Meta(m) => {
            if metadata_wf_ex(&m) {
                Ok(m)
            } else {
                Err(FsError::InvalidArgument)
            }
        },
        EngineReply::Fault { code, desc } => Err(FsError::Engine { code, desc }),
        _ => Err(FsError::InvalidArgument),
    }
}

/// Whether every entry of a listing carries a populated metadata record.
pub open spec fn all_entries_wf(es: Seq<DirEntryRec>) -> bool {
    forall|i: int| 0 <= i < es.len() ==> (#[trigger] es[i].metadata).wf()
}

/// What accepting a directory-listing reply yields: the entries, every one
/// with a populated metadata record, or the adapter's rejection.
pub open spec fn spec_accept_entries(reply: EngineReply) -> Result<Vec<DirEntryRec>, FsError> {
    match reply {
        EngineReply::Entries(es) => if all_entries_wf(es@) {
            Ok(es)
        } else {
            Err(FsError::InvalidArgument)
        },
        EngineReply::Fault { code, desc } => Err(FsError::Engine { code, desc }),
        _ => Err(FsError::InvalidArgument),
    }
}

/// Whether every entry of a listing carries a populated metadata record,
/// exactly as `all_entries_wf` states.
fn entries_wf_ex(es: &Vec<DirEntryRec>) -> (b: bool)
    ensures
        b == all_entries_wf(es@),
{
    let mut i: usize = 0;
    while i < es.len()
        invariant
            i <= es@.len(),
            forall|j: int| 0 <= j < i ==> (#[trigger] es@[j].metadata).wf(),
        decreases es@.len() - i,
    {
        if !metadata_wf_ex(&es[i].metadata) {
            proof {
                assert(!es@[i as int].metadata.wf());
            }
            return false;
        }
        i = i + 1;
    }
    true
}

/// Accepts a directory-listing reply, exactly as `spec_accept_entries`
/// states.
pub fn accept_entries(reply: EngineReply) -> (r: Result<Vec<DirEntryRec>, FsError>)
    ensures
        r == spec_accept_entries(reply),
        r matches Ok(es) ==> all_entries_wf(es@),
{
    match reply {
        EngineReply::Entries(es) => {
            if entries_wf_ex(&es) {
                Ok(es)
            } else {
                Err(FsError::InvalidArgument)
            }
        },
        EngineReply::Fault { code, desc } => Err(FsError::Engine { code, desc }),
        _ => Err(FsError::InvalidArgument),
    }
}

/// What accepting a version-history reply yields.
pub open spec fn spec_accept_hist(reply: EngineReply) -> Result<Vec<VersionRec>, FsError> {
    match reply {
        EngineReply::Hist(h) => Ok(h),
        EngineReply::Fault { code, desc } => Err(FsError::Engine { code, desc }),
        _ => Err(FsError::InvalidArgument),
    }
}

/// Accepts a version-history reply, exactly as `spec_accept_hist` states.
pub fn accept_hist(reply: EngineReply) -> (r: Result<Vec<VersionRec>, FsError>)
    ensures
        r == spec_accept_hist(reply),
{
    match reply {
        EngineReply::Hist(h) => Ok(h),
        EngineReply::Fault { code, desc } => Err(FsError::Engine { code, desc }),
        _ => Err(FsError::InvalidArgument),
    }
}

/// Accepts the reply to a region read, copying the bytes into
/// `buf[offset .. offset + n]` — and only there.  The engine may hand back
/// at most `len` bytes; more, a wrong reply shape, or a region outside the
/// buffer is rejected with the buffer untouched, and a fault keeps its code
/// and description verbatim.
pub fn read_accept(
    buf: &mut Vec<u8>,
    offset: usize,
    len: usize,
    reply: EngineReply,
) -> (r: Result<usize, FsError>)
    ensures
        final(buf)@.len() == old(buf)@.len(),
        forall|k: int|
            0 <= k < old(buf)@.len() && !(offset <= k < offset + len) ==> final(buf)@[k] == old(
                buf,
            )@[k],
        match reply {
            EngineReply::Bytes(data) => {
                if data@.len() <= len && offset + len <= old(buf)@.len() {
                    &&& r == Ok::<usize, FsError>(data@.len() as usize)
                    &&& forall|j: int|
                        0 <= j < data@.len() ==> final(buf)@[offset + j] == data@[j]
                    &&& forall|k: int|
                        0 <= k < old(buf)@.len() && !(offset <= k < offset + data@.len())
                            ==> final(buf)@[k] == old(buf)@[k]
                } else {
                    r == Err::<usize, FsError>(FsError::InvalidArgument) && final(buf)@ == old(
                        buf,
                    )@
                }
            },
            EngineReply::Fault { code, desc } => r == Err::<usize, FsError>(
                FsError::Engine { code, desc },
            ) && final(buf)@ == old(buf)@,
            _ => r == Err::<usize, FsError>(FsError::InvalidArgument) && final(buf)@ == old(
                buf,
            )@,
        },
{
    match reply {
        EngineReply::Bytes(data) => {
            if data.len() > len || len > buf.len() || offset > buf.len() - len {
                return Err(FsError::InvalidArgument);
            }
            let blen: usize = buf.len();
            let mut j: usize = 0;
            while j < data.len()
                invariant
                    j <= data@.len(),
                    data@.len() <= len,
                    blen == old(buf)@.len(),
                    offset + len <= blen,
                    buf@.len() == old(buf)@.len(),
                    forall|t: int| 0 <= t < j ==> buf@[offset + t] == data@[t],
                    forall|k: int|
                        0 <= k < old(buf)@.len() && !(offset <= k < offset + j) ==> buf@[k]
                            == old(buf)@[k],
                decreases data@.len() - j,
            {
                let slot = &mut buf[offset + j];
                *slot = data[j];
                j = j + 1;
            }
            Ok(data.len())
        },
        EngineReply::Fault { code, desc } => Err(FsError::Engine { code, desc }),
        _ => Err(FsError::InvalidArgument),
    }
}

} // verus!
