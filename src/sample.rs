use vstd::prelude::*;

use crate::error::Error;

verus! {

/// What must be done with a sample's region when the sample goes away.
#[derive(Debug, Clone, Copy, PartialEq, Eq, Structural)]
pub enum Release {
    /// Hand the region back to the ring unpublished.
    Discard,
    /// Nothing: the region was already published.
    Keep,
}

/// The release owed by a sample that goes away, submitted or not.
pub open spec fn release_on_drop(submitted: bool) -> Release {
    if submitted {
        Release::Keep
    } else {
        Release::Discard
    }
}

/// How many discard calls a sample that goes away makes against its ring.
pub open spec fn discard_calls(r: Release) -> nat {
    match r {
        Release::Discard => 1,
        Release::Keep => 0,
    }
}

/// The life of one reserved sample: reserved, then submitted at most once.
#[derive(Debug)]
pub struct SampleState {
    submitted: bool,
}

impl SampleState {
    /// Whether the sample has been submitted.
    pub closed spec fn is_submitted(&self) -> bool {
        self.submitted
    }

    /// A freshly reserved sample, not yet submitted.
    pub fn reserved() -> (s: SampleState)
        ensures
            !s.is_submitted(),
    {
        SampleState { submitted: false }
    }

    /// Whether the sample has been submitted.
    pub fn submitted(&self) -> (b: bool)
        ensures
            b == self.is_submitted(),
    {
        self.submitted
    }

    /// Records that the sample was published to the ring. Publishing reports
    /// no failure, so this always succeeds.
    pub fn submit(&mut self) -> (r: Result<(), Error>)
        requires
            !old(self).is_submitted(),
        ensures
            final(self).is_submitted(),
            r == Ok::<(), Error>(()),
    {
        self.submitted = true;
        Ok(())
    }

    /// What the sample owes its ring as it goes away.
    pub fn on_drop(&self) -> (r: Release)
        ensures
            r == release_on_drop(self.is_submitted()),
    {
        if self.submitted {
            Release::Keep
        } else {
            Release::Discard
        }
    }
}

/// A sample that goes away unsubmitted makes exactly one discard call against
/// its ring; one that was submitted makes none.
pub proof fn lemma_drop_discards_once(submitted: bool)
    ensures
        discard_calls(release_on_drop(submitted)) == if submitted {
            0nat
        } else {
            1nat
        },
{
}

/// A reserved sample owes one discard if it goes away as it is; once
/// submitted (the state that `submit` leaves), it owes nothing.
pub proof fn lemma_submit_then_drop(before: SampleState, after: SampleState)
    requires
        !before.is_submitted(),
        after.is_submitted(),
    ensures
        release_on_drop(before.is_submitted()) == Release::Discard,
        release_on_drop(after.is_submitted()) == Release::Keep,
        discard_calls(release_on_drop(after.is_submitted())) == 0,
{
}

} // verus!
