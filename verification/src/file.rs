//! The open-file wrapper: a slot that owns the engine file's token, with the
//! closed-slot discipline and the adapter's buffer and seek validation
//! around every operation.
//!
//! Requests are formed here and performed by the embedding.  A buffer
//! operation validates that `offset + len` lies within the caller's buffer
//! before anything else: a write request carries exactly the bytes of
//! `buf[offset .. offset + len]` and no others, and a read request asks for
//! at most `len` bytes, which [`crate::protocol::read_accept`] later places
//! in exactly that region.  An unrecognized seek origin is rejected before
//! any request is formed.

use vstd::prelude::*;

use crate::errors::FsError;
use crate::protocol::EngineReply;
use crate::protocol::EngineRequest;
use crate::protocol::FileCall;
use crate::protocol::spec_accept_handle;
use crate::protocol::accept_handle;
use crate::seek::spec_decode_seek;
use crate::seek::decode_seek;
use crate::slot::Slot;

verus! {

/// An owning wrapper around the engine file's token.
pub struct FileWrapper {
    slot: Slot<u64>,
}

/// Copies `buf[offset .. offset + len]` into a fresh buffer.
fn copy_region(buf: &Vec<u8>, offset: usize, len: usize) -> (out: Vec<u8>)
    requires
        offset + len <= buf@.len(),
    ensures
        out@ == buf@.subrange(offset as int, offset + len),
{
    let blen: usize = buf.len();
    let mut out: Vec<u8> = Vec::new();
    let mut i: usize = 0;
    while i < len
        invariant
            i <= len,
            blen == buf@.len(),
            offset + len <= blen,
            out@ == buf@.subrange(offset as int, offset + i),
        decreases len - i,
    {
        out.push(buf[offset + i]);
        proof {
            assert(out@ =~= buf@.subrange(offset as int, offset + i + 1));
        }
        i = i + 1;
    }
    out
}

impl FileWrapper {
    /// Whether the slot still holds its token.
    pub closed spec fn is_open(&self) -> bool {
        self.slot.is_open()
    }

    /// The engine-object token, while the slot is open.
    pub closed spec fn token_spec(&self) -> u64 {
        self.slot.spec_contents()->0
    }

    /// Reconstructs ownership of a transferred file token into a fresh
    /// slot.
    pub fn new(token: u64) -> (w: Self)
        ensures
            w.is_open(),
            w.token_spec() == token,
    {
        FileWrapper { slot: Slot::new(token) }
    }

    /// Reconstructs a file wrapper from the engine's answer to a create or
    /// open request, as `RepoWrapper::from_reply` does for a repository.
    pub fn from_reply(reply: EngineReply) -> (r: Result<FileWrapper, FsError>)
        ensures
            spec_accept_handle(reply) matches Ok(t) ==> (r matches Ok(w) && w.is_open()
                && w.token_spec() == t),
            spec_accept_handle(reply) matches Err(e) ==> r == Err::<FileWrapper, FsError>(e),
    {
        match accept_handle(reply) {
            Ok(t) => Ok(FileWrapper::new(t)),
            Err(e) => Err(e),
        }
    }

    /// Removes the token, surrendering it exactly once so the embedding can
    /// tear the native object down.  Idempotent: closing an already-closed
    /// wrapper yields nothing and never fails.
    pub fn close(&mut self) -> (t: Option<u64>)
        ensures
            !final(self).is_open(),
            old(self).is_open() ==> t == Some(old(self).token_spec()),
            !old(self).is_open() ==> t is None,
    {
        self.slot.take()
    }

    /// Whether the wrapper was closed.
    pub fn is_closed(&self) -> (b: bool)
        ensures
            b == !self.is_open(),
    {
        !self.slot.is_open_ex()
    }

    /// Forms the request that performs a file operation: on an open
    /// wrapper, exactly the given call against the owned token; on an
    /// emptied slot, the closed-class error, before anything reaches the
    /// engine.
    pub fn begin(&self, call: FileCall) -> (r: Result<EngineRequest<FileCall>, FsError>)
        ensures
            !self.is_open() ==> r == Err::<EngineRequest<FileCall>, FsError>(FsError::Closed),
            self.is_open() ==> r == Ok::<EngineRequest<FileCall>, FsError>(
                (EngineRequest { target: self.token_spec(), call }),
            ),
    {
        match self.slot.get() {
            None => Err(FsError::Closed),
            Some(token) => Ok(EngineRequest { target: *token, call }),
        }
    }

    /// Forms the request for a task's captured operation, borrowing the
    /// descriptor; otherwise exactly as `begin`.
    pub fn begin_ref<'a>(&self, call: &'a FileCall) -> (r: Result<
        EngineRequest<&'a FileCall>,
        FsError,
    >)
        ensures
            !self.is_open() ==> r == Err::<EngineRequest<&'a FileCall>, FsError>(
                FsError::Closed,
            ),
            self.is_open() ==> r == Ok::<EngineRequest<&'a FileCall>, FsError>(
                (EngineRequest { target: self.token_spec(), call }),
            ),
    {
        match self.slot.get() {
            None => Err(FsError::Closed),
            Some(token) => Ok(EngineRequest { target: *token, call }),
        }
    }

    /// Forms the request that reads into `buf[offset .. offset + len]` of a
    /// caller buffer of length `buf_len`: the closed-class error on an
    /// emptied slot, the adapter's rejection when the region lies outside
    /// the buffer, and otherwise a request for at most `len` bytes.
    pub fn read_request(&self, buf_len: usize, offset: usize, len: usize) -> (r: Result<
        EngineRequest<FileCall>,
        FsError,
    >)
        ensures
            !self.is_open() ==> r == Err::<EngineRequest<FileCall>, FsError>(FsError::Closed),
            self.is_open() && offset + len > buf_len ==> r == Err::<
                EngineRequest<FileCall>,
                FsError,
            >(FsError::InvalidArgument),
            self.is_open() && offset + len <= buf_len ==> r == Ok::<
                EngineRequest<FileCall>,
                FsError,
            >((EngineRequest { target: self.token_spec(), call: FileCall::Read { len } })),
    {
        match self.slot.get() {
            None => Err(FsError::Closed),
            Some(token) => {
                if len > buf_len || offset > buf_len - len {
                    Err(FsError::InvalidArgument)
                } else {
                    Ok(EngineRequest { target: *token, call: FileCall::Read { len } })
                }
            },
        }
    }

    /// Forms the request that writes `buf[offset .. offset + len]`: the
    /// closed-class error on an emptied slot, the adapter's rejection when
    /// the region lies outside the buffer, and otherwise a request carrying
    /// exactly those bytes — the engine never sees any other region.
    pub fn write_request(&self, buf: &Vec<u8>, offset: usize, len: usize) -> (r: Result<
        EngineRequest<FileCall>,
        FsError,
    >)
        ensures
            !self.is_open() ==> r == Err::<EngineRequest<FileCall>, FsError>(FsError::Closed),
            self.is_open() && offset + len > buf@.len() ==> r == Err::<
                EngineRequest<FileCall>,
                FsError,
            >(FsError::InvalidArgument),
            self.is_open() && offset + len <= buf@.len() ==> (r matches Ok(req) && req.target
                == self.token_spec() && (req.call matches FileCall::Write { bytes } && bytes@
                == buf@.subrange(offset as int, offset + len))),
    {
        match self.slot.get() {
            None => Err(FsError::Closed),
            Some(token) => {
                if len > buf.len() || offset > buf.len() - len {
                    Err(FsError::InvalidArgument)
                } else {
                    let bytes = copy_region(buf, offset, len);
                    Ok(EngineRequest { target: *token, call: FileCall::Write { bytes } })
                }
            },
        }
    }

    /// Forms the request that writes `buf[offset .. offset + len]` as one
    /// complete new version, with the same validation as `write_request`.
    pub fn write_once_request(&self, buf: &Vec<u8>, offset: usize, len: usize) -> (r: Result<
        EngineRequest<FileCall>,
        FsError,
    >)
        ensures
            !self.is_open() ==> r == Err::<EngineRequest<FileCall>, FsError>(FsError::Closed),
            self.is_open() && offset + len > buf@.len() ==> r == Err::<
                EngineRequest<FileCall>,
                FsError,
            >(FsError::InvalidArgument),
            self.is_open() && offset + len <= buf@.len() ==> (r matches Ok(req) && req.target
                == self.token_spec() && (req.call matches FileCall::WriteOnce { bytes }
                && bytes@ == buf@.subrange(offset as int, offset + len))),
    {
        match self.slot.get() {
            None => Err(FsError::Closed),
            Some(token) => {
                if len > buf.len() || offset > buf.len() - len {
                    Err(FsError::InvalidArgument)
                } else {
                    let bytes = copy_region(buf, offset, len);
                    Ok(EngineRequest { target: *token, call: FileCall::WriteOnce { bytes } })
                }
            },
        }
    }

    /// Forms the request that repositions the cursor: the closed-class
    /// error on an emptied slot, the adapter's rejection of an unrecognized
    /// origin code, and otherwise exactly the decoded seek.
    pub fn seek_request(&self, origin: u32, offset: i64) -> (r: Result<
        EngineRequest<FileCall>,
        FsError,
    >)
        ensures
            !self.is_open() ==> r == Err::<EngineRequest<FileCall>, FsError>(FsError::Closed),
            self.is_open() ==> match spec_decode_seek(origin, offset) {
                Ok(p) => r == Ok::<EngineRequest<FileCall>, FsError>(
                    (EngineRequest { target: self.token_spec(), call: FileCall::Seek { pos: p } }),
                ),
                Err(e) => r == Err::<EngineRequest<FileCall>, FsError>(e),
            },
    {
        match self.slot.get() {
            None => Err(FsError::Closed),
            Some(token) => match decode_seek(origin, offset) {
                Ok(pos) => Ok(EngineRequest { target: *token, call: FileCall::Seek { pos } }),
                Err(e) => Err(e),
            },
        }
    }
}

} // verus!
