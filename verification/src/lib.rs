//! Boundary layer for driving the ZboxFS encrypted filesystem engine from a
//! managed caller: opaque numeric handles for transferred engine objects,
//! synchronized resource slots with idempotent teardown, per-operation
//! argument validation, background-task bookkeeping, and a single
//! caller-visible error rendering.
//!
//! The engine itself — block encryption, deduplication, the on-disk format —
//! is an external collaborator that the verified core never calls: every
//! operation becomes a validated [`protocol::EngineRequest`], the embedding
//! performs it against the engine and hands back a
//! [`protocol::EngineReply`], and the verified accept functions transcode
//! the reply into the caller-visible result.

use vstd::prelude::*;

pub mod config;
pub mod decimal;
pub mod errors;
pub mod executor;
pub mod file;
pub mod handles;
pub mod protocol;
pub mod records;
pub mod repo;
pub mod seek;
pub mod slot;
pub mod tasks;
pub mod vreader;

pub use config::OptEntry;
pub use config::OptValue;
pub use errors::FsError;
pub use file::FileWrapper;
pub use handles::HandleTable;
pub use protocol::EngineReply;
pub use protocol::EngineRequest;
pub use protocol::FileCall;
pub use protocol::OpenRepoRequest;
pub use protocol::RepoCall;
pub use protocol::VrCall;
pub use protocol::open_repo_request;
pub use records::DirEntryRec;
pub use records::MetadataRec;
pub use records::RepoInfoRec;
pub use records::VersionRec;
pub use repo::RepoWrapper;
pub use vreader::VersionReaderWrapper;

verus! {

} // verus!
