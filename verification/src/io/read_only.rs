//! Read-only capable streams and the single-hinted read-only bridge.

use vstd::prelude::*;
use vstd::string::StringSliceAdditionalSpecFns;
use vstd::utf8::valid_utf8;

use crate::error::AiResult;
use crate::io::hinted::{HintedOpen, HintedSource};
use crate::io::ReadOnlyStream;
use crate::native::{AiFile, SeekFrom};
use crate::text::decode_utf8_bytes;

verus! {

/// How many bytes a read returns: the engine asks for `want` bytes and gets
/// everything up to the end of the stream, but no more than it asked for.
pub open spec fn read_amount(len: int, pos: int, want: int) -> int {
    if want <= len - pos {
        want
    } else {
        len - pos
    }
}

/// The absolute position a seek resolves to.
pub open spec fn seek_target(len: int, pos: int, from: SeekFrom) -> int {
    match from {
        SeekFrom::Start(n) => n as int,
        SeekFrom::Current(d) => pos + d,
        SeekFrom::End(d) => len + d,
    }
}

/// A read-only capable stream: sequential read plus absolute, relative and
/// end-relative seek.
///
/// A stream is a sequence of bytes (`data`) with a cursor (`pos`) that never
/// leaves the bytes' range.  Anything readable and seekable can stand behind a
/// bridge; the library's own [`crate::io::mem::MemStream`] is one such stream,
/// and callers may supply others.
pub trait AiReadOnlyStream: Sized {
    /// The bytes the stream holds.
    spec fn data(&self) -> Seq<u8>;

    /// The cursor: the offset at which the next read starts.
    spec fn pos(&self) -> int;

    /// Well-formedness: the cursor stays within the data.
    spec fn inv(&self) -> bool;

    /// The cursor's range is part of every stream's well-formedness.
    proof fn inv_bounds(&self)
        requires
            self.inv(),
        ensures
            0 <= self.pos() <= self.data().len(),
    ;

    /// Reads into `buf`, filling it from the cursor onward; returns how many
    /// bytes were read.  Short reads happen exactly at the end of the stream.
    fn read(&mut self, buf: &mut Vec<u8>) -> (r: usize)
        requires
            old(self).inv(),
        ensures
            final(self).inv(),
            final(self).data() == old(self).data(),
            r as int == read_amount(
                old(self).data().len() as int,
                old(self).pos(),
                old(buf)@.len() as int,
            ),
            final(self).pos() == old(self).pos() + r,
            final(buf)@.len() == old(buf)@.len(),
            final(buf)@.subrange(0, r as int) == old(self).data().subrange(
                old(self).pos(),
                old(self).pos() + r,
            ),
            final(buf)@.subrange(r as int, final(buf)@.len() as int) == old(buf)@.subrange(
                r as int,
                old(buf)@.len() as int,
            ),
    ;

    /// Moves the cursor.  Succeeds, returning the new absolute position,
    /// exactly when the target lies within the stream; fails leaving the
    /// cursor in place otherwise.
    fn seek(&mut self, from: SeekFrom) -> (r: AiResult<u64>)
        requires
            old(self).inv(),
        ensures
            final(self).inv(),
            final(self).data() == old(self).data(),
            ({
                let target = seek_target(old(self).data().len() as int, old(self).pos(), from);
                if 0 <= target <= old(self).data().len() {
                    r matches Ok(p) && p as int == target && final(self).pos() == target
                } else {
                    r is Err && final(self).pos() == old(self).pos()
                }
            }),
    ;
}

/// A single-hinted read-only bridge: one pre-owned read-only capable stream
/// served for one expected path, the real filesystem for every other path.
///
/// Every file record this bridge creates wraps its stream in
/// [`ReadOnlyStream`], so writes are accepted as no-ops.
pub struct ReadOnlyStreamIO<S: AiReadOnlyStream> {
    source: HintedSource<S>,
    id: Ghost<int>,
    live: Ghost<nat>,
}

impl<S: AiReadOnlyStream> ReadOnlyStreamIO<S> {
    /// The hinted stream source behind the bridge.
    pub closed spec fn source_spec(&self) -> HintedSource<S> {
        self.source
    }

    /// The bridge's identity, carried by every record its opener creates.
    pub closed spec fn id(&self) -> int {
        self.id@
    }

    /// How many file records opened through this bridge are still open.
    pub closed spec fn live(&self) -> nat {
        self.live@
    }

    /// The bridge is well-formed when its source is.
    pub open spec fn wf(&self) -> bool {
        self.source_spec().wf()
    }

    /// Creates a bridge serving `stream` once for the path `hint`.
    pub fn new(stream: S, hint: Option<&str>) -> (r: ReadOnlyStreamIO<S>)
        ensures
            r.wf(),
            r.live() == 0,
            r.source_spec().present(),
            r.source_spec().stream_spec() == Some(stream),
            r.source_spec().hint_spec() == match hint {
                Some(h) => Some(h.spec_bytes()),
                None => None::<Seq<u8>>,
            },
    {
        ReadOnlyStreamIO {
            source: HintedSource::new(stream, hint),
            id: Ghost(vstd::pervasive::arbitrary()),
            live: Ghost(0),
        }
    }

    /// Creates a bridge with no hint: every open falls back to a real file.
    pub fn new_nohint(stream: S) -> (r: ReadOnlyStreamIO<S>)
        ensures
            r.wf(),
            r.live() == 0,
            r.source_spec().present(),
            r.source_spec().stream_spec() == Some(stream),
            r.source_spec().hint_spec() is None,
    {
        ReadOnlyStreamIO::new(stream, None)
    }

    /// Wraps a fallback stream — the real file the boundary opened for a
    /// non-hinted path — into a file record of this bridge.  The boundary
    /// answers writes on such a record with the read-only no-op itself.
    pub fn make_fallback_file<T>(&mut self, stream: T) -> (r: AiFile<T>)
        ensures
            r.stream == stream,
            r.origin@ == old(self).id(),
            final(self).id() == old(self).id(),
            final(self).source_spec() == old(self).source_spec(),
            final(self).live() == old(self).live() + 1,
    {
        let ghost id = self.id@;
        self.live = Ghost(self.live@ + 1);
        AiFile { stream, origin: Ghost(id) }
    }
}

/// How an opener call on a [`ReadOnlyStreamIO`] bridge relates its states,
/// the requested path and the outcome; the claimed stream comes out wrapped
/// as a write-ignoring record.
pub open spec fn ro_stream_open_rel<S: AiReadOnlyStream>(
    pre: ReadOnlyStreamIO<S>,
    post: ReadOnlyStreamIO<S>,
    path: Seq<u8>,
    r: HintedOpen<ReadOnlyStream<S>>,
) -> bool {
    &&& post.id() == pre.id()
    &&& match r {
        HintedOpen::BadPath => !valid_utf8(path) && post == pre,
        HintedOpen::Claimed(file) => {
            &&& valid_utf8(path)
            &&& HintedSource::claim_rel(
                pre.source_spec(),
                post.source_spec(),
                path,
                Some(file.stream.inner_spec()),
            )
            &&& file.origin@ == pre.id()
            &&& post.live() == pre.live() + 1
        },
        HintedOpen::Fallback => {
            &&& valid_utf8(path)
            &&& HintedSource::claim_rel(pre.source_spec(), post.source_spec(), path, None::<S>)
            &&& post.live() == pre.live()
        },
    }
}

/// Opens a path through a [`ReadOnlyStreamIO`] bridge: claims the hinted
/// stream for the hinted path, asks for real-file fallback otherwise.
///
/// At the boundary this stands behind the table's open function pointer; on
/// `Fallback` the boundary opens the real file and hands it to
/// [`ReadOnlyStreamIO::make_fallback_file`].
pub fn ro_stream_open_proc<S: AiReadOnlyStream>(io: &mut ReadOnlyStreamIO<S>, path: &[u8]) -> (r:
    HintedOpen<ReadOnlyStream<S>>)
    requires
        old(io).wf(),
    ensures
        final(io).wf(),
        ro_stream_open_rel(*old(io), *final(io), path@, r),
{
    if decode_utf8_bytes(path).is_none() {
        return HintedOpen::BadPath;
    }
    match io.source.try_claim(path) {
        Some(stream) => {
            let ghost id = io.id@;
            io.live = Ghost(io.live@ + 1);
            HintedOpen::Claimed(AiFile { stream: ReadOnlyStream::new(stream), origin: Ghost(id) })
        },
        None => HintedOpen::Fallback,
    }
}

/// Closes a file record of a [`ReadOnlyStreamIO`] bridge by dropping the
/// record and the stream it owns — the two allocations the open created.
///
/// Only the bridge whose opener created the record may close it.
pub fn ro_stream_close_proc<S: AiReadOnlyStream, T>(
    io: &mut ReadOnlyStreamIO<S>,
    file: AiFile<T>,
)
    requires
        file.origin@ == old(io).id(),
        old(io).live() > 0,
    ensures
        final(io).id() == old(io).id(),
        final(io).source_spec() == old(io).source_spec(),
        final(io).live() == old(io).live() - 1,
{
    let AiFile { stream, origin: _ } = file;
    let _ = stream;
    io.live = Ghost((io.live@ - 1) as nat);
}

/// A path that does not match the configured hint never claims the hinted
/// stream: opening it through the read-only bridge falls back to the real
/// file at that path, with the source untouched.
pub proof fn lemma_ro_unhinted_falls_back<S: AiReadOnlyStream>(
    pre: ReadOnlyStreamIO<S>,
    post: ReadOnlyStreamIO<S>,
    path: Seq<u8>,
    r: HintedOpen<ReadOnlyStream<S>>,
)
    requires
        ro_stream_open_rel(pre, post, path, r),
        valid_utf8(path),
        !pre.source_spec().hint_matches(path),
    ensures
        r is Fallback,
        post.source_spec() == pre.source_spec(),
{
    match r {
        HintedOpen::Claimed(file) => {
            HintedSource::lemma_unhinted_never_claims(
                pre.source_spec(),
                post.source_spec(),
                path,
                Some(file.stream.inner_spec()),
            );
        },
        HintedOpen::Fallback => {
            HintedSource::lemma_unhinted_never_claims(
                pre.source_spec(),
                post.source_spec(),
                path,
                None::<S>,
            );
        },
        HintedOpen::BadPath => {},
    }
}

/// The read-only hinted bridge claims its pre-owned stream on at most one
/// open call across the bridge's lifetime, even under repeated opens of the
/// same hinted path; every later open falls back or is refused.
pub proof fn lemma_ro_claims_at_most_once<S: AiReadOnlyStream>(
    pre: ReadOnlyStreamIO<S>,
    mid: ReadOnlyStreamIO<S>,
    post: ReadOnlyStreamIO<S>,
    path1: Seq<u8>,
    path2: Seq<u8>,
    r1: HintedOpen<ReadOnlyStream<S>>,
    r2: HintedOpen<ReadOnlyStream<S>>,
)
    requires
        ro_stream_open_rel(pre, mid, path1, r1),
        ro_stream_open_rel(mid, post, path2, r2),
        r1 is Claimed,
    ensures
        !(r2 is Claimed),
{
    if let HintedOpen::Claimed(file1) = r1 {
        if let HintedOpen::Claimed(file2) = r2 {
            HintedSource::lemma_claim_at_most_once(
                pre.source_spec(),
                mid.source_spec(),
                post.source_spec(),
                path1,
                path2,
                Some(file1.stream.inner_spec()),
                Some(file2.stream.inner_spec()),
            );
        }
    }
}

} // verus!
