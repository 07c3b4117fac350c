//! An in-memory stream, the library's own full-capable stream type.
//!
//! A `MemStream` is the natural stream to hint to a single-hinted bridge: an
//! already-loaded buffer served in place of a file on disk.  It counts its
//! read calls so a caller can observe that a hinted buffer was consumed.

use vstd::prelude::*;
use vstd::pervasive::VecAdditionalExecFns;

use crate::error::{AiError, AiResult};
use crate::io::read_only::{read_amount, seek_target, AiReadOnlyStream};
use crate::io::stream::{write_result, AiStream};
use crate::native::SeekFrom;

verus! {

/// An in-memory buffer with a cursor, readable, writable and seekable.
pub struct MemStream {
    data: Vec<u8>,
    pos: usize,
    reads: u64,
}

impl MemStream {
    /// How many times `read` has been called on this stream.
    pub closed spec fn reads_spec(&self) -> int {
        self.reads as int
    }

    /// Creates a stream over `data` with the cursor at the start.
    pub fn new(data: Vec<u8>) -> (r: MemStream)
        ensures
            r.inv(),
            r.data() == data@,
            r.pos() == 0,
            r.reads_spec() == 0,
    {
        MemStream { data, pos: 0, reads: 0 }
    }

    /// How many times this stream has been read from.
    pub fn reads(&self) -> (r: u64)
        ensures
            r as int == self.reads_spec(),
    {
        self.reads
    }

    /// The bytes the stream holds.
    pub fn bytes(&self) -> (r: &Vec<u8>)
        ensures
            r@ == self.data(),
    {
        &self.data
    }

    /// Consumes the stream and returns its bytes.
    pub fn into_bytes(self) -> (r: Vec<u8>)
        ensures
            r@ == self.data(),
    {
        self.data
    }
}

impl AiReadOnlyStream for MemStream {
    closed spec fn data(&self) -> Seq<u8> {
        self.data@
    }

    closed spec fn pos(&self) -> int {
        self.pos as int
    }

    closed spec fn inv(&self) -> bool {
        self.pos <= self.data.len()
    }

    proof fn inv_bounds(&self) {
    }

    fn read(&mut self, buf: &mut Vec<u8>) -> (r: usize)
        ensures
            final(self).reads_spec() == if old(self).reads_spec() < u64::MAX as int {
                old(self).reads_spec() + 1
            } else {
                old(self).reads_spec()
            },
    {
        let want = buf.len();
        let remaining = self.data.len() - self.pos;
        let n = if want <= remaining {
            want
        } else {
            remaining
        };
        let mut i: usize = 0;
        while i < n
            invariant
                0 <= i <= n,
                n <= buf@.len(),
                self.pos + n <= self.data@.len(),
                self.pos + n <= usize::MAX,
                buf@.len() == old(buf)@.len(),
                self == old(self),
                forall|j: int| 0 <= j < i ==> buf@[j] == self.data@[self.pos + j],
                forall|j: int| i <= j < buf@.len() ==> buf@[j] == old(buf)@[j],
            decreases n - i,
        {
            let b = self.data[self.pos + i];
            buf.set(i, b);
            i += 1;
        }
        assert(buf@.subrange(0, n as int) =~= self.data@.subrange(
            self.pos as int,
            self.pos + n,
        ));
        assert(buf@.subrange(n as int, buf@.len() as int) =~= old(buf)@.subrange(
            n as int,
            old(buf)@.len() as int,
        ));
        self.pos = self.pos + n;
        if self.reads < u64::MAX {
            self.reads = self.reads + 1;
        }
        n
    }

    fn seek(&mut self, from: SeekFrom) -> (r: AiResult<u64>) {
        let len = self.data.len();
        let target: i128 = match from {
            SeekFrom::Start(n) => n as i128,
            SeekFrom::Current(d) => self.pos as i128 + d as i128,
            SeekFrom::End(d) => len as i128 + d as i128,
        };
        if 0 <= target && target <= len as i128 {
            self.pos = target as usize;
            Ok(target as u64)
        } else {
            Err(AiError::Io("seek outside the stream".to_owned()))
        }
    }
}

impl AiStream for MemStream {
    fn write(&mut self, buf: &[u8]) -> (r: usize) {
        let n = buf.len();
        let mut i: usize = 0;
        while i < n
            invariant
                0 <= i <= n,
                n == buf@.len(),
                old(self).inv(),
                self.pos == old(self).pos,
                self.pos + i <= self.data@.len(),
                self.data@ == write_result(old(self).data@, self.pos as int, buf@.subrange(0, i as int)),
            decreases n - i,
        {
            let b = buf[i];
            if i < self.data.len() - self.pos {
                let idx = self.pos + i;
                self.data.set(idx, b);
            } else {
                self.data.push(b);
            }
            proof {
                assert(buf@.subrange(0, i + 1) =~= buf@.subrange(0, i as int).push(buf@[i as int]));
                assert(self.data@ =~= write_result(
                    old(self).data@,
                    self.pos as int,
                    buf@.subrange(0, i + 1),
                ));
            }
            i += 1;
        }
        proof {
            assert(buf@.subrange(0, n as int) =~= buf@);
        }
        let cur = self.data.len();
        assert(self.pos + n <= cur);
        self.pos = self.pos + n;
        n
    }

    fn flush(&mut self) -> (r: AiResult<()>) {
        Ok(())
    }
}

} // verus!
