//! The multi-mode bridge: a callback decides per path whether the opened
//! stream is read-only or read-write.
//!
//! The opener tags each file record with the mode the callback chose, and
//! the record's operations dispatch on that tag: read and write availability
//! is determined per opened path, not at bridge construction.  A mode chosen
//! at open time stays with the record for its whole life.

use vstd::prelude::*;
use vstd::utf8::{decode_utf8, valid_utf8};

use crate::error::{AiError, AiResult};
use crate::io::read_only::AiReadOnlyStream;
use crate::io::stream::AiStream;
use crate::io::ReadOnlyStream;
use crate::native::{AiFile, SeekFrom};
use crate::text::decode_utf8_bytes;

verus! {

/// A stream tagged at open time with how it is to be treated: `Read` for a
/// read-only stream (writes will be ignored), `Write` for a full stream.
pub enum StreamMode<R, W> {
    Read(R),
    Write(W),
}

/// Lifts a read-only capable stream into the read mode of a multi-mode
/// callback's answer.
pub fn to_stream<R: AiReadOnlyStream, W: AiStream>(stream: R) -> (r: StreamMode<R, W>)
    ensures
        r == StreamMode::<R, W>::Read(stream),
{
    StreamMode::Read(stream)
}

/// Lifts a full-capable stream into the write mode of a multi-mode
/// callback's answer.
pub fn to_write_stream<R: AiReadOnlyStream, W: AiStream>(stream: W) -> (r: StreamMode<R, W>)
    ensures
        r == StreamMode::<R, W>::Write(stream),
{
    StreamMode::Write(stream)
}

/// The stream inside a multi-mode file record: the mode tag chosen by the
/// callback, dispatching every operation to the stream it carries.
///
/// A read-mode record wraps its stream in [`ReadOnlyStream`], so writes are
/// accepted as no-ops; a write-mode record writes through.
pub enum MultiStream<R: AiReadOnlyStream, W: AiStream> {
    Read(ReadOnlyStream<R>),
    Write(W),
}

impl<R: AiReadOnlyStream, W: AiStream> AiReadOnlyStream for MultiStream<R, W> {
    open spec fn data(&self) -> Seq<u8> {
        match self {
            MultiStream::Read(s) => s.data(),
            MultiStream::Write(s) => s.data(),
        }
    }

    open spec fn pos(&self) -> int {
        match self {
            MultiStream::Read(s) => s.pos(),
            MultiStream::Write(s) => s.pos(),
        }
    }

    open spec fn inv(&self) -> bool {
        match self {
            MultiStream::Read(s) => s.inv(),
            MultiStream::Write(s) => s.inv(),
        }
    }

    proof fn inv_bounds(&self) {
        match self {
            MultiStream::Read(s) => s.inv_bounds(),
            MultiStream::Write(s) => s.inv_bounds(),
        }
    }

    fn read(&mut self, buf: &mut Vec<u8>) -> (r: usize) {
        match self {
            MultiStream::Read(s) => s.read(buf),
            MultiStream::Write(s) => s.read(buf),
        }
    }

    fn seek(&mut self, from: SeekFrom) -> (r: AiResult<u64>) {
        match self {
            MultiStream::Read(s) => s.seek(from),
            MultiStream::Write(s) => s.seek(from),
        }
    }
}

impl<R: AiReadOnlyStream, W: AiStream> AiStream for MultiStream<R, W> {
    /// A write-mode record writes through; a read-mode record reports zero
    /// bytes written and leaves its data untouched.
    fn write(&mut self, buf: &[u8]) -> (r: usize)
        ensures
            old(self) matches MultiStream::Read(_) ==> r == 0 && *final(self) == *old(self),
    {
        match self {
            MultiStream::Read(s) => s.write(buf),
            MultiStream::Write(s) => s.write(buf),
        }
    }

    fn flush(&mut self) -> (r: AiResult<()>) {
        match self {
            MultiStream::Read(s) => s.flush(),
            MultiStream::Write(s) => s.flush(),
        }
    }
}

/// The multi-mode bridge: a single user callback that, per path, either
/// refuses the open or returns a stream tagged read-only or read-write.
pub struct MultiStreamIO<F> {
    open_callback: F,
    id: Ghost<int>,
    live: Ghost<nat>,
}

impl<F> MultiStreamIO<F> {
    /// The stored callback.
    pub closed spec fn callback_spec(&self) -> F {
        self.open_callback
    }

    /// The bridge's identity, carried by every record its opener creates.
    pub closed spec fn id(&self) -> int {
        self.id@
    }

    /// How many file records opened through this bridge are still open.
    pub closed spec fn live(&self) -> nat {
        self.live@
    }

    /// Wraps a per-path callback into a multi-mode bridge.
    ///
    /// The callback must accept every path; a path it cannot serve is
    /// refused by returning an error, not by a precondition.
    pub fn new(open_callback: F) -> (r: MultiStreamIO<F>)
        ensures
            r.callback_spec() == open_callback,
            r.live() == 0,
    {
        MultiStreamIO {
            open_callback,
            id: Ghost(vstd::pervasive::arbitrary()),
            live: Ghost(0),
        }
    }
}

/// How the mode the callback chose turns into the stream of the file
/// record: read mode is wrapped to ignore writes, write mode writes through.
pub open spec fn multi_tagged<R: AiReadOnlyStream, W: AiStream>(
    mode: StreamMode<R, W>,
    stream: MultiStream<R, W>,
) -> bool {
    match mode {
        StreamMode::Read(s) => stream matches MultiStream::Read(ro) && ro.inner_spec() == s,
        StreamMode::Write(s) => stream == MultiStream::<R, W>::Write(s),
    }
}

/// How an opener call on a [`MultiStreamIO`] bridge relates its states, the
/// requested path and the outcome: a record is created exactly when the path
/// decodes and the callback returns a tagged stream, and the record's
/// dispatch follows the tag.
pub open spec fn multi_open_rel<R: AiReadOnlyStream, W: AiStream, F: Fn(&str) -> AiResult<
    StreamMode<R, W>,
>>(
    pre: MultiStreamIO<F>,
    post: MultiStreamIO<F>,
    path: Seq<u8>,
    r: Option<AiFile<MultiStream<R, W>>>,
) -> bool {
    &&& post.id() == pre.id()
    &&& post.callback_spec() == pre.callback_spec()
    &&& match r {
        Some(file) => {
            &&& valid_utf8(path)
            &&& exists|p: &str, mode: StreamMode<R, W>|
                p@ == decode_utf8(path) && #[trigger] call_ensures(
                    pre.callback_spec(),
                    (p,),
                    Ok(mode),
                ) && multi_tagged(mode, file.stream)
            &&& file.origin@ == pre.id()
            &&& post.live() == pre.live() + 1
        },
        None => {
            &&& post.live() == pre.live()
            &&& valid_utf8(path) ==> exists|p: &str, e: AiError|
                p@ == decode_utf8(path) && #[trigger] call_ensures(
                    pre.callback_spec(),
                    (p,),
                    Err(e),
                )
        },
    }
}

/// Opens a path through a [`MultiStreamIO`] bridge: asks the callback for a
/// tagged stream and builds the record whose dispatch the tag selects.
///
/// At the boundary this stands behind the table's open function pointer;
/// `None` — a null record — answers an undecodable path or a refusing
/// callback.
pub fn multi_stream_open_proc<R: AiReadOnlyStream, W: AiStream, F: Fn(&str) -> AiResult<
    StreamMode<R, W>,
>>(io: &mut MultiStreamIO<F>, path: &[u8]) -> (r: Option<AiFile<MultiStream<R, W>>>)
    requires
        forall|p: &str| #[trigger] call_requires(old(io).callback_spec(), (p,)),
    ensures
        multi_open_rel(*old(io), *final(io), path@, r),
{
    let path_str = match decode_utf8_bytes(path) {
        Some(s) => s,
        None => {
            return None;
        },
    };
    proof {
        assert(call_requires(old(io).callback_spec(), (path_str,)));
    }
    let res = (io.open_callback)(path_str);
    proof {
        assert(call_ensures(old(io).callback_spec(), (path_str,), res));
    }
    match res {
        Ok(StreamMode::Read(stream)) => {
            let ghost id = io.id@;
            io.live = Ghost(io.live@ + 1);
            Some(AiFile { stream: MultiStream::Read(ReadOnlyStream::new(stream)), origin: Ghost(id) })
        },
        Ok(StreamMode::Write(stream)) => {
            let ghost id = io.id@;
            io.live = Ghost(io.live@ + 1);
            Some(AiFile { stream: MultiStream::Write(stream), origin: Ghost(id) })
        },
        Err(_) => None,
    }
}

/// Closes a file record of a [`MultiStreamIO`] bridge by dropping the record
/// and the stream it owns — the two allocations the open created.
///
/// Only the bridge whose opener created the record may close it.
pub fn multi_stream_close_proc<R: AiReadOnlyStream, W: AiStream, F>(
    io: &mut MultiStreamIO<F>,
    file: AiFile<MultiStream<R, W>>,
)
    requires
        file.origin@ == old(io).id(),
        old(io).live() > 0,
    ensures
        final(io).id() == old(io).id(),
        final(io).callback_spec() == old(io).callback_spec(),
        final(io).live() == old(io).live() - 1,
{
    let AiFile { stream, origin: _ } = file;
    let _ = stream;
    io.live = Ghost((io.live@ - 1) as nat);
}

} // verus!
