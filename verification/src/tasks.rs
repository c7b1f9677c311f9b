//! Completions of background-dispatched operations.
//!
//! A dispatched operation's captured call is submitted to the
//! [`crate::executor::Executor`], its request is formed with
//! `begin_ref` under the slot's discipline, the embedding performs it, and
//! the engine's reply is finished here into exactly one [`Completion`]: a
//! valid result of the operation's shape, or a well-formed error.  A task
//! against a closed resource never reaches the engine — its completion is
//! the closed-class fault.

use vstd::prelude::*;

use crate::errors::FsError;
use crate::protocol::EngineReply;
use crate::protocol::FileCall;
use crate::protocol::RepoCall;
use crate::protocol::spec_accept_bytes;
use crate::protocol::spec_accept_count;
use crate::protocol::spec_accept_entries;
use crate::protocol::spec_accept_flag;
use crate::protocol::spec_accept_handle;
use crate::protocol::spec_accept_hist;
use crate::protocol::spec_accept_info;
use crate::protocol::spec_accept_meta;
use crate::protocol::spec_accept_num;
use crate::protocol::spec_accept_pos;
use crate::protocol::spec_accept_unit;
use crate::protocol::accept_bytes;
use crate::protocol::accept_count;
use crate::protocol::accept_entries;
use crate::protocol::accept_flag;
use crate::protocol::accept_handle;
use crate::protocol::accept_hist;
use crate::protocol::accept_info;
use crate::protocol::accept_meta;
use crate::protocol::accept_num;
use crate::protocol::accept_pos;
use crate::protocol::accept_unit;
use crate::records::DirEntryRec;
use crate::records::MetadataRec;
use crate::records::RepoInfoRec;
use crate::records::VersionRec;

verus! {

/// What a completed task delivers: a valid result of its operation's shape,
/// or a well-formed error.
#[derive(Debug, PartialEq, Eq)]
pub enum TaskOutcome {
    /// A void operation succeeded.
    Done,
    /// An existence or type query succeeded.
    Flag(bool),
    /// A repository-information query succeeded.
    Info(RepoInfoRec),
    /// A directory listing succeeded, every entry's metadata populated.
    Entries(Vec<DirEntryRec>),
    /// A metadata query succeeded, the record populated.
    Meta(MetadataRec),
    /// A history query succeeded.
    Hist(Vec<VersionRec>),
    /// A read succeeded with these bytes.
    Data(Vec<u8>),
    /// A write succeeded with this many bytes written.
    Count(usize),
    /// A seek succeeded with this new position.
    Pos(u64),
    /// A version-number query succeeded.
    Num(usize),
    /// An object transfer succeeded with this fresh token.
    Opened(u64),
    /// The operation failed with a translated error.
    Fault(FsError),
}

/// A successful outcome carries the shape of its operation: a repository
/// task never delivers another task's kind of result.
pub open spec fn repo_outcome_shape(call: RepoCall, out: TaskOutcome) -> bool {
    match out {
        TaskOutcome::Fault(_) => true,
        TaskOutcome::Done => call is ResetPassword || call is CreateDir || call is CreateDirAll
            || call is Copy || call is RemoveFile || call is RemoveDir || call is RemoveDirAll
            || call is Rename,
        TaskOutcome::Flag(_) => call is PathExists || call is IsFile || call is IsDir,
        TaskOutcome::Info(_) => call is Info,
        TaskOutcome::Entries(_) => call is ReadDir,
        TaskOutcome::Meta(_) => call is Metadata,
        TaskOutcome::Hist(_) => call is History,
        TaskOutcome::Opened(_) => call is CreateFile || call is OpenFile,
        _ => false,
    }
}

/// What finishing a repository task with a given reply delivers.
pub open spec fn spec_finish_repo(call: RepoCall, reply: EngineReply) -> TaskOutcome {
    match call {
        RepoCall::Info => match spec_accept_info(reply) {
            Ok(i) => TaskOutcome::Info(i),
            Err(e) => TaskOutcome::Fault(e),
        },
        RepoCall::PathExists { .. } | RepoCall::IsFile { .. } | RepoCall::IsDir { .. } => {
            match spec_accept_flag(reply) {
                Ok(b) => TaskOutcome::Flag(b),
                Err(e) => TaskOutcome::Fault(e),
            }
        },
        RepoCall::CreateFile { .. } | RepoCall::OpenFile { .. } => {
            match spec_accept_handle(reply) {
                Ok(t) => TaskOutcome::Opened(t),
                Err(e) => TaskOutcome::Fault(e),
            }
        },
        RepoCall::ReadDir { .. } => match spec_accept_entries(reply) {
            Ok(es) => TaskOutcome::Entries(es),
            Err(e) => TaskOutcome::Fault(e),
        },
        RepoCall::Metadata { .. } => match spec_accept_meta(reply) {
            Ok(m) => TaskOutcome::Meta(m),
            Err(e) => TaskOutcome::Fault(e),
        },
        RepoCall::History { .. } => match spec_accept_hist(reply) {
            Ok(h) => TaskOutcome::Hist(h),
            Err(e) => TaskOutcome::Fault(e),
        },
        _ => match spec_accept_unit(reply) {
            Ok(_) => TaskOutcome::Done,
            Err(e) => TaskOutcome::Fault(e),
        },
    }
}

/// Finishes a repository task: exactly as `spec_finish_repo` states, and
/// always in the operation's shape.
pub fn finish_repo_task(call: &RepoCall, reply: EngineReply) -> (out: TaskOutcome)
    ensures
        out == spec_finish_repo(*call, reply),
        repo_outcome_shape(*call, out),
{
    match call {
        RepoCall::Info => match accept_info(reply) {
            Ok(i) => TaskOutcome::Info(i),
            Err(e) => TaskOutcome::Fault(e),
        },
        RepoCall::PathExists { .. } | RepoCall::IsFile { .. } | RepoCall::IsDir { .. } => {
            match accept_flag(reply) {
                Ok(b) => TaskOutcome::Flag(b),
                Err(e) => TaskOutcome::Fault(e),
            }
        },
        RepoCall::CreateFile { .. } | RepoCall::OpenFile { .. } => {
            match accept_handle(reply) {
                Ok(t) => TaskOutcome::Opened(t),
                Err(e) => TaskOutcome::Fault(e),
            }
        },
        RepoCall::ReadDir { .. } => match accept_entries(reply) {
            Ok(es) => TaskOutcome::Entries(es),
            Err(e) => TaskOutcome::Fault(e),
        },
        RepoCall::Metadata { .. } => match accept_meta(reply) {
            Ok(m) => TaskOutcome::Meta(m),
            Err(e) => TaskOutcome::Fault(e),
        },
        RepoCall::History { .. } => match accept_hist(reply) {
            Ok(h) => TaskOutcome::Hist(h),
            Err(e) => TaskOutcome::Fault(e),
        },
        _ => match accept_unit(reply) {
            Ok(_) => TaskOutcome::Done,
            Err(e) => TaskOutcome::Fault(e),
        },
    }
}

/// A successful outcome carries the shape of its operation: a file task
/// never delivers another task's kind of result.
pub open spec fn file_outcome_shape(call: FileCall, out: TaskOutcome) -> bool {
    match out {
        TaskOutcome::Fault(_) => true,
        TaskOutcome::Data(_) => call is Read || call is ReadAll,
        TaskOutcome::Count(_) => call is Write,
        TaskOutcome::Done => call is Finish || call is WriteOnce || call is SetLen,
        TaskOutcome::Pos(_) => call is Seek,
        TaskOutcome::Num(_) => call is CurrVersion,
        TaskOutcome::Opened(_) => call is VersionReader,
        TaskOutcome::Meta(_) => call is Metadata,
        TaskOutcome::Hist(_) => call is History,
        _ => false,
    }
}

/// What finishing a file task with a given reply delivers.
pub open spec fn spec_finish_file(call: FileCall, reply: EngineReply) -> TaskOutcome {
    match call {
        FileCall::Read { .. } | FileCall::ReadAll => match spec_accept_bytes(reply) {
            Ok(d) => TaskOutcome::Data(d),
            Err(e) => TaskOutcome::Fault(e),
        },
        FileCall::Write { .. } => match spec_accept_count(reply) {
            Ok(n) => TaskOutcome::Count(n),
            Err(e) => TaskOutcome::Fault(e),
        },
        FileCall::Seek { .. } => match spec_accept_pos(reply) {
            Ok(p) => TaskOutcome::Pos(p),
            Err(e) => TaskOutcome::Fault(e),
        },
        FileCall::CurrVersion => match spec_accept_num(reply) {
            Ok(n) => TaskOutcome::Num(n),
            Err(e) => TaskOutcome::Fault(e),
        },
        FileCall::VersionReader { .. } => match spec_accept_handle(reply) {
            Ok(t) => TaskOutcome::Opened(t),
            Err(e) => TaskOutcome::Fault(e),
        },
        FileCall::Metadata => match spec_accept_meta(reply) {
            Ok(m) => TaskOutcome::Meta(m),
            Err(e) => TaskOutcome::Fault(e),
        },
        FileCall::History => match spec_accept_hist(reply) {
            Ok(h) => TaskOutcome::Hist(h),
            Err(e) => TaskOutcome::Fault(e),
        },
        _ => match spec_accept_unit(reply) {
            Ok(_) => TaskOutcome::Done,
            Err(e) => TaskOutcome::Fault(e),
        },
    }
}

/// Finishes a file task: exactly as `spec_finish_file` states, and always
/// in the operation's shape.
pub fn finish_file_task(call: &FileCall, reply: EngineReply) -> (out: TaskOutcome)
    ensures
        out == spec_finish_file(*call, reply),
        file_outcome_shape(*call, out),
{
    match call {
        FileCall::Read { .. } | FileCall::ReadAll => match accept_bytes(reply) {
            Ok(d) => TaskOutcome::Data(d),
            Err(e) => TaskOutcome::Fault(e),
        },
        FileCall::Write { .. } => match accept_count(reply) {
            Ok(n) => TaskOutcome::Count(n),
            Err(e) => TaskOutcome::Fault(e),
        },
        FileCall::Seek { .. } => match accept_pos(reply) {
            Ok(p) => TaskOutcome::Pos(p),
            Err(e) => TaskOutcome::Fault(e),
        },
        FileCall::CurrVersion => match accept_num(reply) {
            Ok(n) => TaskOutcome::Num(n),
            Err(e) => TaskOutcome::Fault(e),
        },
        FileCall::VersionReader { .. } => match accept_handle(reply) {
            Ok(t) => TaskOutcome::Opened(t),
            Err(e) => TaskOutcome::Fault(e),
        },
        FileCall::Metadata => match accept_meta(reply) {
            Ok(m) => TaskOutcome::Meta(m),
            Err(e) => TaskOutcome::Fault(e),
        },
        FileCall::History => match accept_hist(reply) {
            Ok(h) => TaskOutcome::Hist(h),
            Err(e) => TaskOutcome::Fault(e),
        },
        _ => match accept_unit(reply) {
            Ok(_) => TaskOutcome::Done,
            Err(e) => TaskOutcome::Fault(e),
        },
    }
}

/// One delivered completion: the task's id and what it yielded.
#[derive(Debug, PartialEq, Eq)]
pub struct Completion {
    /// The id the task was submitted under.
    pub id: u64,
    /// What the task yielded.
    pub outcome: TaskOutcome,
}

} // verus!
