//! The ordered buffer between the network-receive path and the consumer.
use std::collections::VecDeque;
use vstd::prelude::*;

use crate::game::{apply_event, apply_events, GameModel, GameState, HangmanEvent};

verus! {

/// Events in arrival order: appended at the tail, drained from the head.
/// It neither reorders nor coalesces; callers that share it between threads
/// hold it behind a mutex.
pub struct EventQueue {
    items: VecDeque<HangmanEvent>,
}

impl View for EventQueue {
    type V = Seq<HangmanEvent>;

    closed spec fn view(&self) -> Seq<HangmanEvent> {
        self.items@
    }
}

impl EventQueue {
    pub fn new() -> (r: EventQueue)
        ensures
            r@ == Seq::<HangmanEvent>::empty(),
    {
        EventQueue { items: VecDeque::new() }
    }

    /// Appends `e` at the tail.
    pub fn push(&mut self, e: HangmanEvent)
        ensures
            final(self)@ == old(self)@.push(e),
    {
        self.items.push_back(e);
    }

    /// Removes every queued event and returns them, oldest first.
    pub fn drain_all(&mut self) -> (r: Vec<HangmanEvent>)
        ensures
            r@ == old(self)@,
            final(self)@ == Seq::<HangmanEvent>::empty(),
    {
        let ghost all = self.items@;
        let mut out: Vec<HangmanEvent> = Vec::new();
        loop
            invariant
                out@ + self.items@ == all,
            ensures
                out@ == all,
                self.items@ == Seq::<HangmanEvent>::empty(),
            decreases self.items@.len(),
        {
            match self.items.pop_front() {
                Some(e) => {
                    let ghost rest = self.items@;
                    out.push(e);
                    assert(out@ + rest =~= all);
                },
                None => {
                    assert(out@ =~= all);
                    assert(self.items@ =~= Seq::<HangmanEvent>::empty());
                    break;
                },
            }
        }
        out
    }

    pub fn len(&self) -> (r: usize)
        ensures
            r == self@.len(),
    {
        self.items.len()
    }

    pub fn is_empty(&self) -> (r: bool)
        ensures
            r == (self@.len() == 0),
    {
        self.items.len() == 0
    }
}

/// Applies each event of `events` to `state`, in order.
pub fn apply_all(state: &mut GameState, events: &Vec<HangmanEvent>)
    requires
        old(state).wf(),
    ensures
        final(state).wf(),
        final(state)@ == apply_events(old(state)@, events@),
{
    let ghost start = state@;
    let mut i: usize = 0;
    while i < events.len()
        invariant
            i <= events@.len(),
            state.wf(),
            state@ == apply_events(start, events@.subrange(0, i as int)),
        decreases events@.len() - i,
    {
        state.apply(&events[i]);
        proof {
            assert(events@.subrange(0, i + 1).drop_last() =~= events@.subrange(0, i as int));
        }
        i = i + 1;
    }
    assert(events@.subrange(0, i as int) =~= events@);
}

/// Events pushed one after another are drained after whatever was already
/// queued, in the order they were pushed, so applying the drained batch
/// applies the earlier events first and then `a` before `b`.
pub proof fn lemma_drain_keeps_arrival_order(
    g: GameModel,
    queued: Seq<HangmanEvent>,
    a: HangmanEvent,
    b: HangmanEvent,
)
    ensures
        apply_events(g, queued.push(a).push(b)) == apply_event(
            apply_event(apply_events(g, queued), a),
            b,
        ),
{
    assert(queued.push(a).push(b).drop_last() =~= queued.push(a));
    assert(queued.push(a).drop_last() =~= queued);
    assert(apply_events(g, queued.push(a)) == apply_event(apply_events(g, queued), a));
}

} // verus!
