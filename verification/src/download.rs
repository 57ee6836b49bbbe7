//! Download size accounting: a download's chunks are counted as they
//! arrive, and after the stream completes the accumulated byte count must
//! equal the task's declared size; a mismatch is a hard task failure.
use vstd::prelude::*;

use crate::ErrorModel;
use crate::RunnerError;

verus! {

/// The message reported when a download's byte count does not match the
/// task's declared size; it names the failing task's key and action.
pub open spec fn size_mismatch_message(key: Seq<char>) -> Seq<char> {
    "download size mismatch: "@ + key
}

/// Running byte count of one download in progress.
///
/// `total_received()` is the exact number of bytes delivered so far, as a
/// mathematical integer: it keeps counting past `u64::MAX`, so an
/// overflowing stream can never masquerade as a complete one.
pub struct DownloadProgress {
    expected: u64,
    received: u64,
    overflowed: bool,
    total: Ghost<int>,
}

impl DownloadProgress {
    /// The byte count the finished download must show.
    pub closed spec fn expected_size(&self) -> int {
        self.expected as int
    }

    /// The number of bytes delivered so far.
    pub closed spec fn total_received(&self) -> int {
        self.total@
    }

    /// The counter's internal invariant: the saturating hardware counter
    /// agrees with the mathematical one until the latter leaves `u64`.
    pub closed spec fn wf(&self) -> bool {
        &&& (!self.overflowed ==> self.total@ == self.received as int)
        &&& (self.overflowed ==> self.total@ > u64::MAX as int)
    }

    /// Start counting a download whose task declared `expected_size` bytes.
    pub fn new(expected_size: u64) -> (p: DownloadProgress)
        ensures
            p.wf(),
            p.expected_size() == expected_size as int,
            p.total_received() == 0,
    {
        DownloadProgress { expected: expected_size, received: 0, overflowed: false, total: Ghost(0) }
    }

    /// Count one delivered chunk of `len` bytes.
    pub fn record_chunk(&mut self, len: u64)
        requires
            old(self).wf(),
        ensures
            final(self).wf(),
            final(self).expected_size() == old(self).expected_size(),
            final(self).total_received() == old(self).total_received() + len as int,
    {
        if len <= u64::MAX - self.received {
            self.received = self.received + len;
        } else {
            self.overflowed = true;
        }
        proof {
            self.total@ = self.total@ + len as int;
        }
    }

    /// Whether the bytes delivered so far are exactly the declared size.
    pub fn is_complete(&self) -> (ok: bool)
        requires
            self.wf(),
        ensures
            ok <==> self.total_received() == self.expected_size(),
    {
        !self.overflowed && self.received == self.expected
    }

    /// Close the count for the object named `key` once its stream has
    /// ended: success exactly when the delivered bytes match the declared
    /// size, a hard failure otherwise.
    pub fn finish(self, key: &str) -> (r: Result<(), RunnerError>)
        requires
            self.wf(),
        ensures
            r is Ok <==> self.total_received() == self.expected_size(),
            r matches Err(e) ==> e@ == ErrorModel::Fail(size_mismatch_message(key@)),
    {
        if self.is_complete() {
            Ok(())
        } else {
            let msg = crate::text::concat_str("download size mismatch: ", key);
            Err(RunnerError::Fail(msg))
        }
    }
}

} // verus!
