//! The default filesystem bridge: every open resolves to a real file.

use vstd::prelude::*;
use vstd::utf8::valid_utf8;

use crate::native::AiFile;
use crate::text::decode_utf8_bytes;

verus! {

/// The outcome of an open call on the default bridge.
pub enum DefaultOpen {
    /// Open the real file at the requested path.
    Fallback,
    /// The path does not decode; the engine gets a null record.
    BadPath,
}

/// The default bridge: no handler state, no hint — every decodable path is
/// served by opening the real file, exactly as direct filesystem access
/// would.
pub struct DefaultIO {
    id: Ghost<int>,
    live: Ghost<nat>,
}

impl DefaultIO {
    /// The bridge's identity, carried by every record its opener creates.
    pub closed spec fn id(&self) -> int {
        self.id@
    }

    /// How many file records opened through this bridge are still open.
    pub closed spec fn live(&self) -> nat {
        self.live@
    }

    /// Creates the default bridge.
    pub fn new() -> (r: DefaultIO)
        ensures
            r.live() == 0,
    {
        DefaultIO { id: Ghost(vstd::pervasive::arbitrary()), live: Ghost(0) }
    }

    /// Wraps the real file the boundary opened into a file record of this
    /// bridge.
    pub fn make_file<T>(&mut self, stream: T) -> (r: AiFile<T>)
        ensures
            r.stream == stream,
            r.origin@ == old(self).id(),
            final(self).id() == old(self).id(),
            final(self).live() == old(self).live() + 1,
    {
        let ghost id = self.id@;
        self.live = Ghost(self.live@ + 1);
        AiFile { stream, origin: Ghost(id) }
    }
}

impl Default for DefaultIO {
    /// The default bridge needs no configuration.
    fn default() -> (r: DefaultIO)
        ensures
            r.live() == 0,
    {
        DefaultIO::new()
    }
}

/// Opens a path through the default bridge: every path that decodes is
/// served by the real file at that path — identical to direct filesystem
/// access — and an undecodable path is refused.
///
/// At the boundary this stands behind the table's open function pointer; on
/// `Fallback` the boundary opens the real file and hands it to
/// [`DefaultIO::make_file`].
pub fn default_open_proc(io: &mut DefaultIO, path: &[u8]) -> (r: DefaultOpen)
    ensures
        final(io).id() == old(io).id(),
        final(io).live() == old(io).live(),
        r is Fallback <==> valid_utf8(path@),
{
    if decode_utf8_bytes(path).is_none() {
        DefaultOpen::BadPath
    } else {
        DefaultOpen::Fallback
    }
}

/// Closes a file record of the default bridge by dropping the record and the
/// file it owns — the two allocations the open created.
///
/// Only the bridge whose opener created the record may close it.
pub fn default_close_proc<T>(io: &mut DefaultIO, file: AiFile<T>)
    requires
        file.origin@ == old(io).id(),
        old(io).live() > 0,
    ensures
        final(io).id() == old(io).id(),
        final(io).live() == old(io).live() - 1,
{
    let AiFile { stream, origin: _ } = file;
    let _ = stream;
    io.live = Ghost((io.live@ - 1) as nat);
}

} // verus!
