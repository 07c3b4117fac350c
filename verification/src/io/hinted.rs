//! The single-use hinted stream source shared by the hinted bridges.
//!
//! A hinted bridge is constructed with exactly one pre-owned stream and an
//! optional path hint.  The first open call whose requested path textually
//! equals the hint claims the stored stream; every other open call —
//! including a second call for the same path — falls through to opening a
//! fresh real file.  The claim flips the availability flag, so it can succeed
//! at most once over the source's lifetime; exclusive access to the source
//! makes the test-and-clear one step.

use vstd::prelude::*;
use vstd::string::{StrSliceExecFns, StringSliceAdditionalSpecFns};

use crate::native::AiFile;
use crate::text::bytes_eq;

verus! {

/// A pre-owned stream served at most once for one expected path, with the
/// real filesystem as fallback for every other open.
pub struct HintedSource<S> {
    stream: Option<S>,
    stream_present: bool,
    hint: Option<Vec<u8>>,
}

/// The outcome of an open call on a bridge with real-file fallback.
pub enum HintedOpen<S> {
    /// The hinted stream was claimed; here is its file record.
    Claimed(AiFile<S>),
    /// Open the real file at the requested path instead.
    Fallback,
    /// The path does not decode; the engine gets a null record.
    BadPath,
}

impl<S> HintedSource<S> {
    /// The stored stream, if it has not been claimed yet.
    pub closed spec fn stream_spec(&self) -> Option<S> {
        self.stream
    }

    /// The availability flag: whether the stream is still there to claim.
    pub closed spec fn present(&self) -> bool {
        self.stream_present
    }

    /// The stored path hint, as the bytes the engine would pass.
    pub closed spec fn hint_spec(&self) -> Option<Seq<u8>> {
        match self.hint {
            Some(h) => Some(h@),
            None => None,
        }
    }

    /// The availability flag tracks the stream.
    pub open spec fn wf(&self) -> bool {
        self.present() <==> self.stream_spec() is Some
    }

    /// Whether a requested path textually equals the stored hint.
    pub open spec fn hint_matches(&self, path: Seq<u8>) -> bool {
        self.hint_spec() matches Some(h) && h == path
    }

    /// Stores a stream and an optional hint; the stream starts present.
    pub fn new(stream: S, hint: Option<&str>) -> (r: HintedSource<S>)
        ensures
            r.wf(),
            r.present(),
            r.stream_spec() == Some(stream),
            r.hint_spec() == match hint {
                Some(h) => Some(h.spec_bytes()),
                None => None::<Seq<u8>>,
            },
    {
        HintedSource {
            stream: Some(stream),
            stream_present: true,
            hint: match hint {
                Some(h) => Some(h.as_bytes_vec()),
                None => None,
            },
        }
    }

    /// How a claim attempt relates the source's states, the requested path
    /// and the result: the stream comes out exactly when the path matches the
    /// hint and the stream is still present, and the claim clears the flag.
    pub open spec fn claim_rel(
        pre: HintedSource<S>,
        post: HintedSource<S>,
        path: Seq<u8>,
        r: Option<S>,
    ) -> bool {
        &&& post.hint_spec() == pre.hint_spec()
        &&& post.wf()
        &&& if pre.hint_matches(path) && pre.present() {
            &&& r == pre.stream_spec()
            &&& r is Some
            &&& !post.present()
            &&& post.stream_spec() is None
        } else {
            &&& r is None
            &&& post == pre
        }
    }

    /// Claims the hinted stream if `path` matches the hint and the stream is
    /// still present; the claim clears the availability flag.
    pub fn try_claim(&mut self, path: &[u8]) -> (r: Option<S>)
        requires
            old(self).wf(),
        ensures
            final(self).wf(),
            Self::claim_rel(*old(self), *final(self), path@, r),
    {
        let matched = match &self.hint {
            Some(h) => bytes_eq(path, h.as_slice()),
            None => false,
        };
        if matched && self.stream_present {
            self.stream_present = false;
            self.stream.take()
        } else {
            None
        }
    }

    /// The hinted stream is claimed on at most one open call across the
    /// source's lifetime: once a claim has succeeded, every later claim
    /// attempt fails, even for the same path.
    pub proof fn lemma_claim_at_most_once(
        pre: HintedSource<S>,
        mid: HintedSource<S>,
        post: HintedSource<S>,
        path1: Seq<u8>,
        path2: Seq<u8>,
        r1: Option<S>,
        r2: Option<S>,
    )
        requires
            Self::claim_rel(pre, mid, path1, r1),
            r1 is Some,
            Self::claim_rel(mid, post, path2, r2),
        ensures
            r2 is None,
    {
    }

    /// A claim attempt never brings an absent stream back: once the stream
    /// is gone, it stays gone, and every further attempt fails.
    pub proof fn lemma_absence_is_permanent(
        pre: HintedSource<S>,
        post: HintedSource<S>,
        path: Seq<u8>,
        r: Option<S>,
    )
        requires
            Self::claim_rel(pre, post, path, r),
            !pre.present(),
        ensures
            !post.present(),
            r is None,
    {
    }

    /// A sequence of claim attempts on one source: `states` walks from the
    /// source's first state through every attempt's result state.
    pub open spec fn claim_trace(
        states: Seq<HintedSource<S>>,
        paths: Seq<Seq<u8>>,
        results: Seq<Option<S>>,
    ) -> bool {
        &&& states.len() == paths.len() + 1
        &&& results.len() == paths.len()
        &&& forall|i: int|
            0 <= i < paths.len() ==> #[trigger] Self::claim_rel(
                states[i],
                states[i + 1],
                paths[i],
                results[i],
            )
    }

    /// Once the stream is absent, it is absent in every later state of the
    /// trace.
    pub proof fn lemma_absence_propagates(
        states: Seq<HintedSource<S>>,
        paths: Seq<Seq<u8>>,
        results: Seq<Option<S>>,
        k: int,
        j: int,
    )
        requires
            Self::claim_trace(states, paths, results),
            0 <= k <= j < states.len(),
            !states[k].present(),
        ensures
            !states[j].present(),
        decreases j - k,
    {
        if k < j {
            Self::lemma_absence_is_permanent(states[k], states[k + 1], paths[k], results[k]);
            Self::lemma_absence_propagates(states, paths, results, k + 1, j);
        }
    }

    /// Across the source's whole lifetime — any sequence of claim attempts,
    /// whatever paths they ask for — at most one attempt succeeds.
    pub proof fn lemma_at_most_one_claim_in_trace(
        states: Seq<HintedSource<S>>,
        paths: Seq<Seq<u8>>,
        results: Seq<Option<S>>,
        i: int,
        j: int,
    )
        requires
            Self::claim_trace(states, paths, results),
            0 <= i < j < results.len(),
            results[i] is Some,
        ensures
            results[j] is None,
    {
        assert(Self::claim_rel(states[i], states[i + 1], paths[i], results[i]));
        assert(!states[i + 1].present());
        Self::lemma_absence_propagates(states, paths, results, i + 1, j);
        Self::lemma_absence_is_permanent(states[j], states[j + 1], paths[j], results[j]);
    }

    /// A path that does not match the configured hint never claims the
    /// stream, and leaves the source untouched: such an open falls back to
    /// the real file at that path.
    pub proof fn lemma_unhinted_never_claims(
        pre: HintedSource<S>,
        post: HintedSource<S>,
        path: Seq<u8>,
        r: Option<S>,
    )
        requires
            Self::claim_rel(pre, post, path, r),
            !pre.hint_matches(path),
        ensures
            r is None,
            post == pre,
    {
    }
}

} // verus!
