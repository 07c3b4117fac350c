//! Full-capable streams and the single-hinted read-write bridge.

use vstd::prelude::*;
use vstd::string::StringSliceAdditionalSpecFns;
use vstd::utf8::valid_utf8;

use crate::error::AiResult;
use crate::io::hinted::{HintedOpen, HintedSource};
use crate::io::read_only::AiReadOnlyStream;
use crate::native::AiFile;
use crate::text::decode_utf8_bytes;

verus! {

/// The bytes of a stream after `written` bytes are laid down at `pos`,
/// overwriting what was there and extending the stream if they run past its
/// end.
pub open spec fn write_result(data: Seq<u8>, pos: int, written: Seq<u8>) -> Seq<u8> {
    if pos + written.len() < data.len() {
        data.subrange(0, pos) + written + data.subrange(pos + written.len(), data.len() as int)
    } else {
        data.subrange(0, pos) + written
    }
}

/// A full-capable stream: read-only capability plus write and flush.
///
/// A write lays `r` bytes down at the cursor and advances it.  A stream that
/// only emulates writing reports `r == 0` and changes nothing; see
/// [`crate::io::ReadOnlyStream`].
pub trait AiStream: AiReadOnlyStream {
    /// Writes a prefix of `buf` at the cursor; returns how many bytes were
    /// written.
    fn write(&mut self, buf: &[u8]) -> (r: usize)
        requires
            old(self).inv(),
        ensures
            final(self).inv(),
            r <= buf@.len(),
            final(self).pos() == old(self).pos() + r,
            final(self).data() == write_result(
                old(self).data(),
                old(self).pos(),
                buf@.subrange(0, r as int),
            ),
    ;

    /// Flushes buffered writes; the stream's bytes and cursor are unchanged.
    fn flush(&mut self) -> (r: AiResult<()>)
        requires
            old(self).inv(),
        ensures
            final(self).inv(),
            final(self).data() == old(self).data(),
            final(self).pos() == old(self).pos(),
    ;
}

/// A single-hinted read-write bridge: one pre-owned full-capable stream
/// served for one expected path, the real filesystem for every other path.
///
/// This lets a caller inject an already-open stream (say, one pulled out of
/// an archive) for the primary asset path, while auxiliary references —
/// textures, companion files — resolve against real files.
pub struct StreamIO<S: AiStream> {
    source: HintedSource<S>,
    id: Ghost<int>,
    live: Ghost<nat>,
}

impl<S: AiStream> StreamIO<S> {
    /// The hinted stream source behind the bridge.
    pub closed spec fn source_spec(&self) -> HintedSource<S> {
        self.source
    }

    /// The bridge's identity, carried by every record its opener creates.
    pub closed spec fn id(&self) -> int {
        self.id@
    }

    /// How many file records opened through this bridge are still open.
    pub closed spec fn live(&self) -> nat {
        self.live@
    }

    /// The bridge is well-formed when its source is.
    pub open spec fn wf(&self) -> bool {
        self.source_spec().wf()
    }

    /// Creates a bridge serving `stream` once for the path `hint`.
    pub fn new(stream: S, hint: Option<&str>) -> (r: StreamIO<S>)
        ensures
            r.wf(),
            r.live() == 0,
            r.source_spec().present(),
            r.source_spec().stream_spec() == Some(stream),
            r.source_spec().hint_spec() == match hint {
                Some(h) => Some(h.spec_bytes()),
                None => None::<Seq<u8>>,
            },
    {
        StreamIO {
            source: HintedSource::new(stream, hint),
            id: Ghost(vstd::pervasive::arbitrary()),
            live: Ghost(0),
        }
    }

    /// Creates a bridge with no hint: every open falls back to a real file.
    pub fn new_nohint(stream: S) -> (r: StreamIO<S>)
        ensures
            r.wf(),
            r.live() == 0,
            r.source_spec().present(),
            r.source_spec().stream_spec() == Some(stream),
            r.source_spec().hint_spec() is None,
    {
        StreamIO::new(stream, None)
    }

    /// Wraps a fallback stream — the real file the boundary opened for a
    /// non-hinted path — into a file record of this bridge.
    pub fn make_fallback_file<T>(&mut self, stream: T) -> (r: AiFile<T>)
        ensures
            r.stream == stream,
            r.origin@ == old(self).id(),
            final(self).id() == old(self).id(),
            final(self).source_spec() == old(self).source_spec(),
            final(self).live() == old(self).live() + 1,
    {
        let ghost id = self.id@;
        self.live = Ghost(self.live@ + 1);
        AiFile { stream, origin: Ghost(id) }
    }
}

/// How an opener call on a [`StreamIO`] bridge relates its states, the
/// requested path and the outcome: the hinted stream is claimed exactly when
/// the decoded path matches the hint and the stream is still present; any
/// other decodable path falls back to the real file; an undecodable path is
/// refused.
pub open spec fn stream_open_rel<S: AiStream>(
    pre: StreamIO<S>,
    post: StreamIO<S>,
    path: Seq<u8>,
    r: HintedOpen<S>,
) -> bool {
    &&& post.id() == pre.id()
    &&& match r {
        HintedOpen::BadPath => !valid_utf8(path) && post == pre,
        HintedOpen::Claimed(file) => {
            &&& valid_utf8(path)
            &&& HintedSource::claim_rel(
                pre.source_spec(),
                post.source_spec(),
                path,
                Some(file.stream),
            )
            &&& file.origin@ == pre.id()
            &&& post.live() == pre.live() + 1
        },
        HintedOpen::Fallback => {
            &&& valid_utf8(path)
            &&& HintedSource::claim_rel(pre.source_spec(), post.source_spec(), path, None::<S>)
            &&& post.live() == pre.live()
        },
    }
}

/// Opens a path through a [`StreamIO`] bridge: claims the hinted stream for
/// the hinted path, asks for real-file fallback otherwise.
///
/// At the boundary this stands behind the table's open function pointer; on
/// `Fallback` the boundary opens the real file and hands it to
/// [`StreamIO::make_fallback_file`].
pub fn stream_open_proc<S: AiStream>(io: &mut StreamIO<S>, path: &[u8]) -> (r: HintedOpen<S>)
    requires
        old(io).wf(),
    ensures
        final(io).wf(),
        stream_open_rel(*old(io), *final(io), path@, r),
{
    if decode_utf8_bytes(path).is_none() {
        return HintedOpen::BadPath;
    }
    match io.source.try_claim(path) {
        Some(stream) => {
            let ghost id = io.id@;
            io.live = Ghost(io.live@ + 1);
            HintedOpen::Claimed(AiFile { stream, origin: Ghost(id) })
        },
        None => HintedOpen::Fallback,
    }
}

/// Closes a file record of a [`StreamIO`] bridge by dropping the record and
/// the stream it owns — the two allocations the open created.
///
/// Only the bridge whose opener created the record may close it.
pub fn stream_close_proc<S: AiStream, T>(io: &mut StreamIO<S>, file: AiFile<T>)
    requires
        file.origin@ == old(io).id(),
        old(io).live() > 0,
    ensures
        final(io).id() == old(io).id(),
        final(io).source_spec() == old(io).source_spec(),
        final(io).live() == old(io).live() - 1,
{
    let AiFile { stream, origin: _ } = file;
    let _ = stream;
    io.live = Ghost((io.live@ - 1) as nat);
}

/// A record opened through a [`StreamIO`] bridge and then closed through it
/// leaves the bridge with as many outstanding records as it began with: the
/// close releases exactly what the matching open created.
pub proof fn lemma_stream_open_close_balances<S: AiStream>(
    pre: StreamIO<S>,
    mid: StreamIO<S>,
    post: StreamIO<S>,
    path: Seq<u8>,
    file: AiFile<S>,
)
    requires
        stream_open_rel(pre, mid, path, HintedOpen::Claimed(file)),
        post.live() == mid.live() - 1,
    ensures
        post.live() == pre.live(),
{
}

/// A path that does not match the configured hint never claims the hinted
/// stream: opening it through the bridge falls back to the real file at that
/// path, with the source untouched.
pub proof fn lemma_stream_unhinted_falls_back<S: AiStream>(
    pre: StreamIO<S>,
    post: StreamIO<S>,
    path: Seq<u8>,
    r: HintedOpen<S>,
)
    requires
        stream_open_rel(pre, post, path, r),
        valid_utf8(path),
        !pre.source_spec().hint_matches(path),
    ensures
        r is Fallback,
        post.source_spec() == pre.source_spec(),
{
    match r {
        HintedOpen::Claimed(file) => {
            HintedSource::lemma_unhinted_never_claims(
                pre.source_spec(),
                post.source_spec(),
                path,
                Some(file.stream),
            );
        },
        HintedOpen::Fallback => {
            HintedSource::lemma_unhinted_never_claims(
                pre.source_spec(),
                post.source_spec(),
                path,
                None::<S>,
            );
        },
        HintedOpen::BadPath => {},
    }
}

/// The single-hinted bridge claims its pre-owned stream on at most one open
/// call across the bridge's lifetime, even under repeated opens of the same
/// hinted path; every later open falls back or is refused.
pub proof fn lemma_stream_claims_at_most_once<S: AiStream>(
    pre: StreamIO<S>,
    mid: StreamIO<S>,
    post: StreamIO<S>,
    path1: Seq<u8>,
    path2: Seq<u8>,
    r1: HintedOpen<S>,
    r2: HintedOpen<S>,
)
    requires
        stream_open_rel(pre, mid, path1, r1),
        stream_open_rel(mid, post, path2, r2),
        r1 is Claimed,
    ensures
        !(r2 is Claimed),
{
    if let HintedOpen::Claimed(file1) = r1 {
        if let HintedOpen::Claimed(file2) = r2 {
            HintedSource::lemma_claim_at_most_once(
                pre.source_spec(),
                mid.source_spec(),
                post.source_spec(),
                path1,
                path2,
                Some(file1.stream),
                Some(file2.stream),
            );
        }
    }
}

} // verus!
