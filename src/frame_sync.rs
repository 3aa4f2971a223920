use vstd::prelude::*;

verus! {

/// A marker for "the GPU has finished the work submitted up to here".
#[derive(Clone, Copy, Debug, PartialEq, Eq, Structural)]
pub enum FrameToken {
    /// Work was submitted and the queue will signal when it is done.
    Pending,
    /// Nothing is outstanding: waiting on this token never blocks.
    AlreadyComplete,
}

/// How the submission of one frame ended.
#[derive(Clone, Copy, Debug, PartialEq, Eq, Structural)]
pub enum FlushOutcome {
    /// The frame was submitted and presented; its completion token is pending.
    Flushed,
    /// The surface became stale while the frame was in flight.
    OutOfDate,
    /// Any other failure: the frame is dropped.
    Failed,
}

/// Holds the one live frame token.
///
/// In ghost state every pending token is numbered in the order it was issued
/// (`issued` of them so far), and `discarded` records the numbers of those
/// that were replaced and thrown away.
pub struct FrameSync {
    pub token: FrameToken,
    pub issued: Ghost<nat>,
    pub discarded: Ghost<Set<nat>>,
}

impl FrameSync {
    /// The number of the live pending token, if the token is pending.
    pub open spec fn live(&self) -> nat {
        (self.issued@ - 1) as nat
    }

    /// Exactly one token is live: every issued token but the live pending one
    /// has been discarded, and nothing else has.
    pub open spec fn wf(&self) -> bool {
        &&& self.token is Pending ==> self.issued@ > 0
        &&& forall|n: nat| #[trigger]
            self.discarded@.contains(n) <==> (n < self.issued@ && !(self.token is Pending && n
                == self.live()))
    }

    /// Whether the token that a new submission joins is one that was never
    /// discarded.
    pub open spec fn joinable(&self) -> bool {
        self.token is Pending ==> !self.discarded@.contains(self.live())
    }

    pub fn new() -> (r: FrameSync)
        ensures
            r.wf(),
            r.token == FrameToken::AlreadyComplete,
            r.issued@ == 0,
    {
        FrameSync {
            token: FrameToken::AlreadyComplete,
            issued: Ghost(0),
            discarded: Ghost(Set::empty()),
        }
    }

    /// The token that the next submission must wait on, together with the
    /// new image's acquire signal. It is the live token, never one that was
    /// discarded.
    pub fn join_target(&self) -> (r: FrameToken)
        requires
            self.wf(),
        ensures
            r == self.token,
            self.joinable(),
    {
        self.token
    }

    /// Replaces the live token after a submission: a pending token on
    /// success, a completed one on any failure, so that the loop never waits
    /// on a token that will not signal. Returns whether the surface was found
    /// out of date.
    pub fn complete_submission(&mut self, outcome: FlushOutcome) -> (stale: bool)
        requires
            old(self).wf(),
        ensures
            final(self).wf(),
            stale == (outcome == FlushOutcome::OutOfDate),
            outcome == FlushOutcome::Flushed ==> final(self).token == FrameToken::Pending
                && final(self).issued@ == old(self).issued@ + 1,
            outcome != FlushOutcome::Flushed ==> final(self).token == FrameToken::AlreadyComplete
                && final(self).issued@ == old(self).issued@,
            old(self).token is Pending ==> final(self).discarded@.contains(old(self).live()),
            old(self).discarded@.subset_of(final(self).discarded@),
    {
        let ghost old_live = self.live();
        let ghost was_pending = self.token is Pending;
        let ghost d = if was_pending {
            self.discarded@.insert(old_live)
        } else {
            self.discarded@
        };
        match outcome {
            FlushOutcome::Flushed => {
                self.token = FrameToken::Pending;
                self.issued = Ghost(self.issued@ + 1);
            },
            _ => {
                self.token = FrameToken::AlreadyComplete;
            },
        }
        self.discarded = Ghost(d);
        outcome == FlushOutcome::OutOfDate
    }
}

/// A token handed to a submission is never one that was already discarded:
/// the live token stays out of the discarded set through every replacement.
pub proof fn lemma_join_never_discarded(before: FrameSync, after: FrameSync)
    requires
        before.wf(),
        after.wf(),
        before.discarded@.subset_of(after.discarded@),
    ensures
        before.joinable(),
        after.joinable(),
        before.token is Pending && after.token is Pending && after.issued@ > before.issued@
            ==> after.live() != before.live(),
{
}

} // verus!
