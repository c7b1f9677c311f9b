//! The version-reader wrapper: a slot that owns the engine reader's token,
//! with the closed-slot discipline and the adapter's buffer and seek
//! validation around every operation, as for an open file.

use vstd::prelude::*;

use crate::errors::FsError;
use crate::protocol::EngineReply;
use crate::protocol::EngineRequest;
use crate::protocol::VrCall;
use crate::protocol::spec_accept_handle;
use crate::protocol::accept_handle;
use crate::seek::spec_decode_seek;
use crate::seek::decode_seek;
use crate::slot::Slot;

verus! {

/// An owning wrapper around the engine version-reader's token.
pub struct VersionReaderWrapper {
    slot: Slot<u64>,
}

impl VersionReaderWrapper {
    /// Whether the slot still holds its token.
    pub closed spec fn is_open(&self) -> bool {
        self.slot.is_open()
    }

    /// The engine-object token, while the slot is open.
    pub closed spec fn token_spec(&self) -> u64 {
        self.slot.spec_contents()->0
    }

    /// Reconstructs ownership of a transferred reader token into a fresh
    /// slot.
    pub fn new(token: u64) -> (w: Self)
        ensures
            w.is_open(),
            w.token_spec() == token,
    {
        VersionReaderWrapper { slot: Slot::new(token) }
    }

    /// Reconstructs a reader wrapper from the engine's answer to a
    /// version-reader request, as `RepoWrapper::from_reply` does for a
    /// repository.
    pub fn from_reply(reply: EngineReply) -> (r: Result<VersionReaderWrapper, FsError>)
        ensures
            spec_accept_handle(reply) matches Ok(t) ==> (r matches Ok(w) && w.is_open()
                && w.token_spec() == t),
            spec_accept_handle(reply) matches Err(e) ==> r == Err::<
                VersionReaderWrapper,
                FsError,
            >(e),
    {
        match accept_handle(reply) {
            Ok(t) => Ok(VersionReaderWrapper::new(t)),
            Err(e) => Err(e),
        }
    }

    /// Removes the token, surrendering it exactly once so the embedding can
    /// tear the native object down.  Idempotent: closing an already-closed
    /// wrapper yields nothing and never fails.
    pub fn close(&mut self) -> (t: Option<u64>)
        ensures
            !final(self).is_open(),
            old(self).is_open() ==> t == Some(old(self).token_spec()),
            !old(self).is_open() ==> t is None,
    {
        self.slot.take()
    }

    /// Whether the wrapper was closed.
    pub fn is_closed(&self) -> (b: bool)
        ensures
            b == !self.is_open(),
    {
        !self.slot.is_open_ex()
    }

    /// Forms the request that performs a reader operation: on an open
    /// wrapper, exactly the given call against the owned token; on an
    /// emptied slot, the closed-class error, before anything reaches the
    /// engine.
    pub fn begin(&self, call: VrCall) -> (r: Result<EngineRequest<VrCall>, FsError>)
        ensures
            !self.is_open() ==> r == Err::<EngineRequest<VrCall>, FsError>(FsError::Closed),
            self.is_open() ==> r == Ok::<EngineRequest<VrCall>, FsError>(
                (EngineRequest { target: self.token_spec(), call }),
            ),
    {
        match self.slot.get() {
            None => Err(FsError::Closed),
            Some(token) => Ok(EngineRequest { target: *token, call }),
        }
    }

    /// Forms the request that reads into `buf[offset .. offset + len]` of a
    /// caller buffer of length `buf_len`, with the same validation as
    /// `FileWrapper::read_request`.
    pub fn read_request(&self, buf_len: usize, offset: usize, len: usize) -> (r: Result<
        EngineRequest<VrCall>,
        FsError,
    >)
        ensures
            !self.is_open() ==> r == Err::<EngineRequest<VrCall>, FsError>(FsError::Closed),
            self.is_open() && offset + len > buf_len ==> r == Err::<
                EngineRequest<VrCall>,
                FsError,
            >(FsError::InvalidArgument),
            self.is_open() && offset + len <= buf_len ==> r == Ok::<
                EngineRequest<VrCall>,
                FsError,
            >((EngineRequest { target: self.token_spec(), call: VrCall::Read { len } })),
    {
        match self.slot.get() {
            None => Err(FsError::Closed),
            Some(token) => {
                if len > buf_len || offset > buf_len - len {
                    Err(FsError::InvalidArgument)
                } else {
                    Ok(EngineRequest { target: *token, call: VrCall::Read { len } })
                }
            },
        }
    }

    /// Forms the request that repositions the reader, with the same
    /// validation as `FileWrapper::seek_request`.
    pub fn seek_request(&self, origin: u32, offset: i64) -> (r: Result<
        EngineRequest<VrCall>,
        FsError,
    >)
        ensures
            !self.is_open() ==> r == Err::<EngineRequest<VrCall>, FsError>(FsError::Closed),
            self.is_open() ==> match spec_decode_seek(origin, offset) {
                Ok(p) => r == Ok::<EngineRequest<VrCall>, FsError>(
                    (EngineRequest { target: self.token_spec(), call: VrCall::Seek { pos: p } }),
                ),
                Err(e) => r == Err::<EngineRequest<VrCall>, FsError>(e),
            },
    {
        match self.slot.get() {
            None => Err(FsError::Closed),
            Some(token) => match decode_seek(origin, offset) {
                Ok(pos) => Ok(EngineRequest { target: *token, call: VrCall::Seek { pos } }),
                Err(e) => Err(e),
            },
        }
    }
}

} // verus!
