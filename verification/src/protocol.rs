//! The access discipline of the shared exclusive cell, stated abstractly.
//!
//! A cell is either free or held by one of the two sides, and an acquisition
//! attempt is granted exactly when the cell is free: `acquire` and `release`
//! below are that rule, and [`crate::cell::SharedCell`] realizes it at run
//! time — `try_take` is one acquisition attempt, `store` the matching
//! release. The lemmas state the laws of the rule: while one side holds the
//! stream nothing is granted to anyone, a rejected attempt changes nothing,
//! racing attempts on a free cell are serialized with exactly one winner, and
//! a handle that acquires and releases can always acquire again — no two
//! sequential acquisitions ever deadlock.

use vstd::prelude::*;

verus! {

/// One side of the split: the read half or the write half.
#[derive(Clone, Copy, Debug, PartialEq, Eq, Structural)]
pub enum Side {
    Reader,
    Writer,
}

/// Who, if anyone, holds the shared stream.
#[derive(Clone, Copy, Debug, PartialEq, Eq, Structural)]
pub enum Holder {
    Nobody,
    Held(Side),
}

/// One acquisition attempt by `who`: granted, with the cell recording the new
/// holder, exactly when nobody holds the stream; otherwise rejected, with the
/// cell unchanged.
pub open spec fn acquire(h: Holder, who: Side) -> (Holder, bool) {
    if h == Holder::Nobody {
        (Holder::Held(who), true)
    } else {
        (h, false)
    }
}

/// `who` gives the stream back: the cell becomes free. Only the holder ever
/// releases; anyone else's release changes nothing.
pub open spec fn release(h: Holder, who: Side) -> Holder {
    if h == Holder::Held(who) {
        Holder::Nobody
    } else {
        h
    }
}

/// Mutual exclusion: while one side holds the stream, no acquisition is
/// granted — not to the other side and not to the holder's own side either —
/// so at most one delegated operation is ever in progress.
pub proof fn lemma_mutual_exclusion(holder: Side, who: Side)
    ensures
        !acquire(Holder::Held(holder), who).1,
        acquire(Holder::Held(holder), who).0 == Holder::Held(holder),
{
}

/// No loss on contention: a rejected acquisition leaves the cell exactly as
/// it was, so the rejected side has disturbed nothing.
pub proof fn lemma_rejected_changes_nothing(h: Holder, who: Side)
    requires
        !acquire(h, who).1,
    ensures
        acquire(h, who).0 == h,
{
}

/// Racing attempts on a free cell are serialized with exactly one winner: in
/// whichever order the cell takes them, the first is granted and the second
/// is rejected.
pub proof fn lemma_one_winner(first: Side, second: Side)
    ensures
        ({
            let (h1, granted1) = acquire(Holder::Nobody, first);
            let (h2, granted2) = acquire(h1, second);
            granted1 && !granted2 && h2 == Holder::Held(first)
        }),
{
}

/// Sequential acquisitions never deadlock: a side that acquires a free cell
/// and releases it is granted its next acquisition as well.
pub proof fn lemma_reacquire(who: Side)
    ensures
        ({
            let (h1, granted1) = acquire(Holder::Nobody, who);
            let h2 = release(h1, who);
            let (h3, granted3) = acquire(h2, who);
            granted1 && granted3 && h3 == Holder::Held(who)
        }),
{
}

} // verus!
