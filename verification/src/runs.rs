//! Facts about runs of events.
use vstd::prelude::*;

verus! {

/// What happened early in a run happened in the run.
pub proof fn lemma_earlier_event<E>(events: Seq<E>, event: E)
    requires
        events.len() > 0,
        events.drop_last().contains(event),
    ensures
        events.contains(event),
{
    let i = choose|i: int| 0 <= i < events.drop_last().len() && events.drop_last()[i] == event;
    assert(events[i] == event);
}

/// The last event of a run happened in it.
pub proof fn lemma_last_event<E>(events: Seq<E>)
    requires
        events.len() > 0,
    ensures
        events.contains(events.last()),
{
    assert(events[events.len() - 1] == events.last());
}

} // verus!
