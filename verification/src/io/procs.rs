//! The C-callable procedures behind a [`crate::io::CustomIO`] bridge's
//! foreign I/O table, over ordinary values.
//!
//! At the boundary, each of these stands behind a function pointer in the
//! table or in a file record; the raw-pointer shims around them recover the
//! bridge or the record from opaque user data and delegate here.  A failure
//! the contract rules out (a stream error during an operation, an origin code
//! outside the contract) is a fatal internal-contract breach at that
//! boundary, never a recoverable error; the contracts here rule those out by
//! `requires`.

use vstd::prelude::*;
use vstd::pervasive::unreached;

use crate::io::read_only::{read_amount, seek_target};
use crate::io::stream::write_result;
use crate::io::IOStream;
use crate::native::{
    origin_seek_from, AiFile, SeekFrom, AI_FAILURE, AI_SUCCESS, is_valid_origin,
};

verus! {

/// Reads bytes from the record's stream into the given buffer.
pub fn read_proc<S: IOStream>(file: &mut AiFile<S>, buf: &mut Vec<u8>) -> (r: usize)
    requires
        old(file).stream.inv(),
    ensures
        final(file).stream.inv(),
        final(file).origin == old(file).origin,
        final(file).stream.data() == old(file).stream.data(),
        r as int == read_amount(
            old(file).stream.data().len() as int,
            old(file).stream.pos(),
            old(buf)@.len() as int,
        ),
        final(file).stream.pos() == old(file).stream.pos() + r,
        final(buf)@.len() == old(buf)@.len(),
        final(buf)@.subrange(0, r as int) == old(file).stream.data().subrange(
            old(file).stream.pos(),
            old(file).stream.pos() + r,
        ),
        final(buf)@.subrange(r as int, final(buf)@.len() as int) == old(buf)@.subrange(
            r as int,
            old(buf)@.len() as int,
        ),
{
    file.stream.read(buf)
}

/// Writes bytes to the record's stream, returning the number written.
pub fn write_proc<S: IOStream>(file: &mut AiFile<S>, buf: &[u8]) -> (r: usize)
    requires
        old(file).stream.inv(),
    ensures
        final(file).stream.inv(),
        final(file).origin == old(file).origin,
        r <= buf@.len(),
        final(file).stream.pos() == old(file).stream.pos() + r,
        final(file).stream.data() == write_result(
            old(file).stream.data(),
            old(file).stream.pos(),
            buf@.subrange(0, r as int),
        ),
{
    file.stream.write(buf)
}

/// Reports the stream's current position without moving it.
pub fn tell_proc<S: IOStream>(file: &mut AiFile<S>) -> (r: u64)
    requires
        old(file).stream.inv(),
    ensures
        final(file).stream.inv(),
        final(file).origin == old(file).origin,
        final(file).stream.data() == old(file).stream.data(),
        final(file).stream.pos() == old(file).stream.pos(),
        r as int == old(file).stream.pos(),
{
    proof {
        file.stream.inv_bounds();
    }
    match file.stream.seek(SeekFrom::Current(0)) {
        Ok(p) => p,
        Err(_) => unreached(),
    }
}

/// Determines the stream's total length by seeking to the end, and restores
/// the position it found the stream at.
///
/// The underlying abstraction has no direct length query, so the length is
/// the position at the end; the round trip is observationally transparent.
pub fn tell_size_proc<S: IOStream>(file: &mut AiFile<S>) -> (r: u64)
    requires
        old(file).stream.inv(),
    ensures
        final(file).stream.inv(),
        final(file).origin == old(file).origin,
        final(file).stream.data() == old(file).stream.data(),
        final(file).stream.pos() == old(file).stream.pos(),
        r as int == old(file).stream.data().len(),
{
    proof {
        file.stream.inv_bounds();
    }
    let cur = match file.stream.seek(SeekFrom::Current(0)) {
        Ok(p) => p,
        Err(_) => unreached(),
    };
    let size = match file.stream.seek(SeekFrom::End(0)) {
        Ok(p) => p,
        Err(_) => unreached(),
    };
    match file.stream.seek(SeekFrom::Start(cur)) {
        Ok(_) => size,
        Err(_) => unreached(),
    }
}

/// Seeks to a position given by the engine's origin code and offset,
/// reporting success or failure by the engine's return codes.
///
/// An origin code outside the contract is a fatal internal-contract breach;
/// the engine is assumed never to pass one, and `requires` rules it out.
pub fn seek_proc<S: IOStream>(file: &mut AiFile<S>, pos: u64, origin: i32) -> (r: i32)
    requires
        old(file).stream.inv(),
        is_valid_origin(origin),
    ensures
        final(file).stream.inv(),
        final(file).origin == old(file).origin,
        final(file).stream.data() == old(file).stream.data(),
        ({
            let target = seek_target(
                old(file).stream.data().len() as int,
                old(file).stream.pos(),
                origin_seek_from(origin, pos),
            );
            if 0 <= target <= old(file).stream.data().len() {
                r == AI_SUCCESS && final(file).stream.pos() == target
            } else {
                r == AI_FAILURE && final(file).stream.pos() == old(file).stream.pos()
            }
        }),
{
    let from = match crate::native::decode_origin(origin, pos) {
        Some(f) => f,
        None => unreached(),
    };
    if file.stream.seek(from).is_ok() {
        AI_SUCCESS
    } else {
        AI_FAILURE
    }
}

/// Seeking to absolute position `n` within the stream and then asking for
/// the position reports exactly `n`: an absolute seek lands on its offset,
/// and a tell reads the cursor it left there.
///
/// [`seek_proc`] moves the cursor to `seek_target` of the absolute origin,
/// which is `n` itself whenever `0 <= n <= len`, and [`tell_proc`] returns
/// the cursor unchanged.
pub proof fn lemma_seek_start_then_tell(len: int, pos: int, n: u64)
    requires
        0 <= n <= len,
    ensures
        seek_target(len, pos, SeekFrom::Start(n)) == n,
        seek_target(len, n as int, SeekFrom::Current(0)) == n,
{
}

/// Flushes the record's stream; returns whether the flush succeeded.
///
/// At the boundary a failed flush is a fatal internal-contract breach.
pub fn flush_proc<S: IOStream>(file: &mut AiFile<S>) -> (r: bool)
    requires
        old(file).stream.inv(),
    ensures
        final(file).stream.inv(),
        final(file).origin == old(file).origin,
        final(file).stream.data() == old(file).stream.data(),
        final(file).stream.pos() == old(file).stream.pos(),
{
    file.stream.flush().is_ok()
}

} // verus!
