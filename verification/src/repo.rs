//! The repository wrapper: a slot that owns the engine repository's token,
//! with the closed-slot discipline around every operation.
//!
//! The wrapper never performs an engine call itself: `begin` observes the
//! slot and either fails with the closed-class error or yields the validated
//! [`EngineRequest`] for the embedding to perform.  Once `close` has emptied
//! the slot, every later `begin` fails and no request for the torn-down
//! object can be formed; `close` itself never fails, repeated or not.

use vstd::prelude::*;
use vstd::string::StringExecFns;

use crate::config::OptEntry;
use crate::config::parse_file_config;
use crate::config::parse_file_config_result;
use crate::errors::FsError;
use crate::protocol::EngineReply;
use crate::protocol::EngineRequest;
use crate::protocol::RepoCall;
use crate::protocol::spec_accept_handle;
use crate::protocol::accept_handle;
use crate::slot::Slot;

verus! {

/// An owning wrapper around the engine repository's token.
pub struct RepoWrapper {
    slot: Slot<u64>,
}

impl RepoWrapper {
    /// Whether the slot still holds its token.
    pub closed spec fn is_open(&self) -> bool {
        self.slot.is_open()
    }

    /// The engine-object token, while the slot is open.
    pub closed spec fn token_spec(&self) -> u64 {
        self.slot.spec_contents()->0
    }

    /// Reconstructs ownership of a transferred repository token into a
    /// fresh slot.
    pub fn new(token: u64) -> (w: Self)
        ensures
            w.is_open(),
            w.token_spec() == token,
    {
        RepoWrapper { slot: Slot::new(token) }
    }

    /// Reconstructs a repository wrapper from the engine's answer to an
    /// open request: a transferred token yields a fresh open wrapper, a
    /// fault keeps its code and description verbatim, and a reply of the
    /// wrong shape is rejected.
    pub fn from_reply(reply: EngineReply) -> (r: Result<RepoWrapper, FsError>)
        ensures
            spec_accept_handle(reply) matches Ok(t) ==> (r matches Ok(w) && w.is_open()
                && w.token_spec() == t),
            spec_accept_handle(reply) matches Err(e) ==> r == Err::<RepoWrapper, FsError>(e),
    {
        match accept_handle(reply) {
            Ok(t) => Ok(RepoWrapper::new(t)),
            Err(e) => Err(e),
        }
    }

    /// Removes the token, surrendering it exactly once so the embedding can
    /// tear the native object down.  Idempotent: closing an already-closed
    /// wrapper yields nothing and never fails.
    pub fn close(&mut self) -> (t: Option<u64>)
        ensures
            !final(self).is_open(),
            old(self).is_open() ==> t == Some(old(self).token_spec()),
            !old(self).is_open() ==> t is None,
    {
        self.slot.take()
    }

    /// Whether the wrapper was closed.
    pub fn is_closed(&self) -> (b: bool)
        ensures
            b == !self.is_open(),
    {
        !self.slot.is_open_ex()
    }

    /// Forms the request that performs a repository operation: on an open
    /// wrapper, exactly the given call against the owned token; on an
    /// emptied slot, the closed-class error, before anything reaches the
    /// engine.
    pub fn begin(&self, call: RepoCall) -> (r: Result<EngineRequest<RepoCall>, FsError>)
        ensures
            !self.is_open() ==> r == Err::<EngineRequest<RepoCall>, FsError>(FsError::RepoClosed),
            self.is_open() ==> r == Ok::<EngineRequest<RepoCall>, FsError>(
                (EngineRequest { target: self.token_spec(), call }),
            ),
    {
        match self.slot.get() {
            None => Err(FsError::RepoClosed),
            Some(token) => Ok(EngineRequest { target: *token, call }),
        }
    }

    /// Forms the request for a task's captured operation, borrowing the
    /// descriptor; otherwise exactly as `begin`.
    pub fn begin_ref<'a>(&self, call: &'a RepoCall) -> (r: Result<
        EngineRequest<&'a RepoCall>,
        FsError,
    >)
        ensures
            !self.is_open() ==> r == Err::<EngineRequest<&'a RepoCall>, FsError>(
                FsError::RepoClosed,
            ),
            self.is_open() ==> r == Ok::<EngineRequest<&'a RepoCall>, FsError>(
                (EngineRequest { target: self.token_spec(), call }),
            ),
    {
        match self.slot.get() {
            None => Err(FsError::RepoClosed),
            Some(token) => Ok(EngineRequest { target: *token, call }),
        }
    }
}

/// Builds the call that opens a file, parsing the caller's configuration
/// object against the fixed option set: the parsed options are pinned to
/// what the object holds, so unrecognized names have no influence and a
/// mistyped value counts as absent.
pub fn open_file_call(path: &str, opts: &Vec<OptEntry>) -> (c: RepoCall)
    ensures
        c matches RepoCall::OpenFile { path: p, cfg } && p@ == path@ && cfg
            == parse_file_config_result(opts@),
{
    RepoCall::OpenFile { path: String::from_str(path), cfg: parse_file_config(opts) }
}

} // verus!
