//! Seek requests as they cross the boundary: a numeric origin code and an
//! offset.  The adapter validates the origin code before any engine call;
//! an unrecognized code is an adapter-level rejection, not an engine error.

use vstd::prelude::*;

use crate::errors::FsError;

verus! {

/// A validated seek request.
#[derive(Debug, Clone, Copy, PartialEq, Eq)]
pub enum SeekPos {
    /// From the start of the content; the offset is unsigned.
    Start(u64),
    /// From the end of the content.
    End(i64),
    /// From the current position.
    Current(i64),
}

/// What decoding an origin code and offset yields: code 0 is `Start`, 1 is
/// `End`, 2 is `Current`, and any other code is rejected before any engine
/// call.  A position from the start is unsigned, so a negative offset with
/// origin `Start` is likewise rejected as the adapter's error.
pub open spec fn spec_decode_seek(origin: u32, offset: i64) -> Result<SeekPos, FsError> {
    if origin == 0 {
        if offset < 0 {
            Err(FsError::InvalidArgument)
        } else {
            Ok(SeekPos::Start(offset as u64))
        }
    } else if origin == 1 {
        Ok(SeekPos::End(offset))
    } else if origin == 2 {
        Ok(SeekPos::Current(offset))
    } else {
        Err(FsError::InvalidArgument)
    }
}

/// Validates a caller-supplied seek origin code, exactly as
/// `spec_decode_seek` states.
pub fn decode_seek(origin: u32, offset: i64) -> (r: Result<SeekPos, FsError>)
    ensures
        r == spec_decode_seek(origin, offset),
{
    if origin == 0 {
        if offset < 0 {
            Err(FsError::InvalidArgument)
        } else {
            Ok(SeekPos::Start(offset as u64))
        }
    } else if origin == 1 {
        Ok(SeekPos::End(offset))
    } else if origin == 2 {
        Ok(SeekPos::Current(offset))
    } else {
        Err(FsError::InvalidArgument)
    }
}

} // verus!
