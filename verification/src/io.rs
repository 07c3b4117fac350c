//! The custom I/O bridging subsystem.
//!
//! A *bridge* owns the handler state behind one foreign I/O table and is
//! passed into an import call; a *handler* decides how a requested path
//! resolves to a stream; a *file record* represents one open stream together
//! with its dispatch table.  The opener procedures create file records, the
//! matching closer procedures destroy them, and the per-operation procedures
//! in [`procs`] delegate to the stream they carry.

pub mod default;
pub mod hinted;
pub mod mem;
pub mod multi;
pub mod procs;
pub mod read_only;
pub mod stream;

pub use crate::io::default::DefaultIO;

use vstd::prelude::*;
use vstd::utf8::{decode_utf8, valid_utf8};

use crate::error::{AiError, AiResult};
use crate::io::read_only::AiReadOnlyStream;
use crate::io::stream::{write_result, AiStream};
use crate::native::AiFile;
use crate::text::decode_utf8_bytes;

verus! {

/// Some type usable as a stream behind a [`CustomIO`] bridge: full capability
/// under another name.
pub trait IOStream: AiStream {

}

impl<T: AiStream> IOStream for T {

}

/// A write-emulating wrapper for read-only streams: writes report zero bytes
/// written without error and never touch the underlying data.
///
/// The engine's custom I/O contract has no notion of a read-only stream, so a
/// stream that cannot write still has to answer write calls; this wrapper
/// answers them with a no-op.
pub struct ReadOnlyStream<R: AiReadOnlyStream> {
    inner: R,
}

impl<R: AiReadOnlyStream> ReadOnlyStream<R> {
    /// The wrapped stream.
    pub closed spec fn inner_spec(&self) -> R {
        self.inner
    }

    /// Creates a new `ReadOnlyStream` over the given stream.
    pub fn new(stream: R) -> (r: ReadOnlyStream<R>)
        ensures
            r.inner_spec() == stream,
    {
        ReadOnlyStream { inner: stream }
    }

    /// Gets a reference to the underlying reader.
    pub fn get_ref(&self) -> (r: &R)
        ensures
            *r == self.inner_spec(),
    {
        &self.inner
    }

    /// Gets a mutable reference to the underlying reader.
    pub fn get_mut(&mut self) -> (r: &mut R)
        ensures
            *r == old(self).inner_spec(),
            final(self).inner_spec() == *final(r),
    {
        &mut self.inner
    }

    /// Unwraps the `ReadOnlyStream` and returns the underlying reader.
    pub fn into_inner(self) -> (r: R)
        ensures
            r == self.inner_spec(),
    {
        self.inner
    }
}

impl<R: AiReadOnlyStream> AiReadOnlyStream for ReadOnlyStream<R> {
    open spec fn data(&self) -> Seq<u8> {
        self.inner_spec().data()
    }

    open spec fn pos(&self) -> int {
        self.inner_spec().pos()
    }

    open spec fn inv(&self) -> bool {
        self.inner_spec().inv()
    }

    proof fn inv_bounds(&self) {
        self.inner_spec().inv_bounds();
    }

    fn read(&mut self, buf: &mut Vec<u8>) -> (r: usize) {
        self.inner.read(buf)
    }

    fn seek(&mut self, from: crate::native::SeekFrom) -> (r: AiResult<u64>) {
        self.inner.seek(from)
    }
}

impl<R: AiReadOnlyStream> AiStream for ReadOnlyStream<R> {
    /// Writes are accepted and ignored: zero bytes written, data untouched.
    fn write(&mut self, buf: &[u8]) -> (r: usize)
        ensures
            r == 0,
            *final(self) == *old(self),
    {
        proof {
            self.inv_bounds();
            assert(write_result(self.data(), self.pos(), buf@.subrange(0, 0)) =~= self.data());
        }
        0
    }

    fn flush(&mut self) -> (r: AiResult<()>) {
        Ok(())
    }
}

/// A policy deciding how a requested path resolves to a stream.
///
/// `open_spec` and `close_spec` are the policy's contract: every `open` and
/// `close` call relates its pre-state, post-state and result by them, so code
/// generic over a handler can pass exact knowledge of what a concrete policy
/// did back to its caller.
pub trait IOHandler<S>: Sized {
    /// The handler's well-formedness; `open` and `close` keep it.
    spec fn inv(&self) -> bool;

    /// How an `open` call's result relates to its states and path.
    spec fn open_spec(pre: Self, post: Self, path: Seq<char>, r: AiResult<S>) -> bool;

    /// How a `close` call's result relates to its states.
    spec fn close_spec(pre: Self, post: Self, r: AiResult<()>) -> bool;

    /// Resolves `path` to a stream, or refuses it.
    fn open(&mut self, path: &str) -> (r: AiResult<S>)
        requires
            old(self).inv(),
        ensures
            final(self).inv(),
            Self::open_spec(*old(self), *final(self), path@, r),
    ;

    /// Releases a stream this handler opened.
    fn close(&mut self, stream: S) -> (r: AiResult<()>)
        requires
            old(self).inv(),
        ensures
            final(self).inv(),
            Self::close_spec(*old(self), *final(self), r),
    ;
}

/// Callback-based handler: a caller-supplied closure is invoked on each
/// `open`; `close` does nothing, and streams are released when dropped.
///
/// The engine calls a handler from whatever single thread it uses for one
/// import, never reentrantly; `open` takes the handler exclusively, so each
/// call of the closure holds the only access to it, with no lock left to
/// poison.
pub struct CallbackIOHandler<F> {
    callback: F,
}

impl<F> CallbackIOHandler<F> {
    /// The stored closure.
    pub closed spec fn callback_spec(&self) -> F {
        self.callback
    }

    /// Wraps a callback into a handler.
    ///
    /// The closure must accept every path; a path it cannot serve is refused
    /// by returning an error, not by a precondition.
    pub fn new(cb: F) -> (r: CallbackIOHandler<F>)
        ensures
            r.callback_spec() == cb,
    {
        CallbackIOHandler { callback: cb }
    }
}

impl<S, F: Fn(&str) -> AiResult<S>> IOHandler<S> for CallbackIOHandler<F> {
    open spec fn inv(&self) -> bool {
        forall|p: &str| #[trigger] call_requires(self.callback_spec(), (p,))
    }

    open spec fn open_spec(pre: Self, post: Self, path: Seq<char>, r: AiResult<S>) -> bool {
        &&& post == pre
        &&& exists|p: &str|
            p@ == path && #[trigger] call_ensures(pre.callback_spec(), (p,), r)
    }

    open spec fn close_spec(pre: Self, post: Self, r: AiResult<()>) -> bool {
        post == pre && r is Ok
    }

    /// Invokes the callback once for the requested path.
    fn open(&mut self, path: &str) -> (r: AiResult<S>) {
        proof {
            assert(call_requires(self.callback_spec(), (path,)));
        }
        let r = (self.callback)(path);
        proof {
            assert(call_ensures(old(self).callback_spec(), (path,), r));
        }
        r
    }

    /// Dropping the stream is all the releasing there is to do.
    fn close(&mut self, stream: S) -> (r: AiResult<()>) {
        let _ = stream;
        Ok(())
    }
}

/// A custom input/output bridge: a handler together with the identity of the
/// foreign I/O table it backs.
///
/// `id` names this bridge; every file record its opener creates carries the
/// same identity, and only the matching closer may destroy it.  `live` counts
/// the records currently outstanding.
pub struct CustomIO<S, H: IOHandler<S>> {
    pub(crate) handler: H,
    pub(crate) id: Ghost<int>,
    pub(crate) live: Ghost<nat>,
    pub(crate) _types: core::marker::PhantomData<S>,
}

impl<S, H: IOHandler<S>> CustomIO<S, H> {
    /// The handler state behind the bridge.
    pub closed spec fn handler_spec(&self) -> H {
        self.handler
    }

    /// The bridge's identity.
    pub closed spec fn id(&self) -> int {
        self.id@
    }

    /// How many file records opened through this bridge are still open.
    pub closed spec fn live(&self) -> nat {
        self.live@
    }

    /// The bridge is well-formed when its handler is.
    pub open spec fn inv(&self) -> bool {
        self.handler_spec().inv()
    }

    /// Creates a new `CustomIO` bridge using the given handler.
    pub fn new(handler: H) -> (r: CustomIO<S, H>)
        ensures
            r.handler_spec() == handler,
            r.live() == 0,
    {
        CustomIO {
            handler,
            id: Ghost(vstd::pervasive::arbitrary()),
            live: Ghost(0),
            _types: core::marker::PhantomData,
        }
    }
}

impl<S, F: Fn(&str) -> AiResult<S>> CustomIO<S, CallbackIOHandler<F>> {
    /// Creates a `CustomIO` with a [`CallbackIOHandler`] directly from a
    /// provided callback.
    pub fn callback(cb: F) -> (r: CustomIO<S, CallbackIOHandler<F>>)
        ensures
            r.handler_spec().callback_spec() == cb,
            r.live() == 0,
    {
        CustomIO::new(CallbackIOHandler::new(cb))
    }
}

/// How an opener call relates the bridge's states, the requested path and
/// the outcome: a record is created exactly when the path decodes and the
/// handler accepts it, and the record carries the bridge's identity.
pub open spec fn custom_open_rel<S, H: IOHandler<S>>(
    pre: CustomIO<S, H>,
    post: CustomIO<S, H>,
    path: Seq<u8>,
    r: Option<AiFile<S>>,
) -> bool {
    &&& post.id() == pre.id()
    &&& match r {
        Some(file) => {
            &&& valid_utf8(path)
            &&& H::open_spec(
                pre.handler_spec(),
                post.handler_spec(),
                decode_utf8(path),
                Ok(file.stream),
            )
            &&& file.origin@ == pre.id()
            &&& post.live() == pre.live() + 1
        },
        None => {
            &&& post.live() == pre.live()
            &&& if valid_utf8(path) {
                exists|e: AiError|
                    #[trigger] H::open_spec(
                        pre.handler_spec(),
                        post.handler_spec(),
                        decode_utf8(path),
                        Err(e),
                    )
            } else {
                post.handler_spec() == pre.handler_spec()
            }
        },
    }
}

/// Opens a stream via the bridge's handler and wraps it into a file record.
///
/// At the boundary this stands behind the table's open function pointer.
/// Returns `None` — a null record — when the path does not decode or the
/// handler refuses it; both are the engine's recoverable "cannot serve this
/// path" answer.
pub fn open_proc<S: IOStream, H: IOHandler<S>>(
    file_io: &mut CustomIO<S, H>,
    path: &[u8],
) -> (r: Option<AiFile<S>>)
    requires
        old(file_io).inv(),
    ensures
        final(file_io).inv(),
        custom_open_rel(*old(file_io), *final(file_io), path@, r),
{
    let path_str = match decode_utf8_bytes(path) {
        Some(s) => s,
        None => {
            return None;
        },
    };
    match file_io.handler.open(path_str) {
        Ok(stream) => {
            let ghost id = file_io.id@;
            file_io.live = Ghost(file_io.live@ + 1);
            Some(AiFile { stream, origin: Ghost(id) })
        },
        Err(_) => None,
    }
}

/// Closes a file record by handing its stream back to the bridge's handler.
///
/// At the boundary this stands behind the table's close function pointer.
/// Only the bridge whose opener created the record may close it; the record
/// and the boxed stream it owns are the two allocations the opener made, and
/// consuming them here releases both.  Returns whether the handler's own
/// close succeeded; at the boundary a `false` is a fatal internal-contract
/// breach.
pub fn close_proc<S: IOStream, H: IOHandler<S>>(
    file_io: &mut CustomIO<S, H>,
    file: AiFile<S>,
) -> (r: bool)
    requires
        old(file_io).inv(),
        file.origin@ == old(file_io).id(),
        old(file_io).live() > 0,
    ensures
        final(file_io).inv(),
        final(file_io).id() == old(file_io).id(),
        final(file_io).live() == old(file_io).live() - 1,
        exists|res: AiResult<()>|
            #[trigger] H::close_spec(
                old(file_io).handler_spec(),
                final(file_io).handler_spec(),
                res,
            ) && (r <==> res is Ok),
{
    let AiFile { stream, origin: _ } = file;
    let res = file_io.handler.close(stream);
    file_io.live = Ghost((file_io.live@ - 1) as nat);
    let ok = res.is_ok();
    proof {
        assert(H::close_spec(old(file_io).handler_spec(), file_io.handler_spec(), res));
    }
    ok
}

/// A record opened through a bridge and then closed through it leaves the
/// bridge with as many outstanding records as it began with: the close
/// releases exactly what the matching open created.
pub proof fn lemma_open_close_balances<S, H: IOHandler<S>>(
    pre: CustomIO<S, H>,
    mid: CustomIO<S, H>,
    post: CustomIO<S, H>,
    path: Seq<u8>,
    file: AiFile<S>,
)
    requires
        custom_open_rel(pre, mid, path, Some(file)),
        post.live() == mid.live() - 1,
    ensures
        post.live() == pre.live(),
{
}

} // verus!
