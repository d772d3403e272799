//! The screen: an ordered container of drawable components.

use vstd::prelude::*;

use crate::components::Component;
use crate::components::Draw;
use crate::components::DrawEvent;

verus! {

/// An ordered sequence of owned, heterogeneous drawable components.
/// Insertion order is significant: it is the order in which `run` draws.
pub struct Screen {
    pub components: Vec<Component>,
}

impl Screen {
    /// The events one run of this screen records: one per component, in
    /// the order the components stand in the screen.
    pub open spec fn draw_events(&self) -> Seq<DrawEvent> {
        self.components@.map_values(|c: Component| c.draw_event())
    }

    /// Draw every component, front to back, exactly once each.
    ///
    /// The ghost result is the trace of `draw` invocations: exactly one
    /// event per component, in the screen's own order. An empty screen
    /// yields an empty trace. The trace depends on the components alone,
    /// so repeated runs of an unmodified screen record equal traces.
    pub fn run(&self) -> (trace: Ghost<Seq<DrawEvent>>)
        ensures
            trace@ == self.draw_events(),
            trace@.len() == self.components@.len(),
            forall|i: int|
                0 <= i < self.components@.len() ==> trace@[i]
                    == self.components@[i].draw_event(),
    {
        let mut trace: Ghost<Seq<DrawEvent>> = Ghost(Seq::empty());
        let mut idx: usize = 0;
        while idx < self.components.len()
            invariant
                idx <= self.components@.len(),
                trace@.len() == idx,
                forall|i: int|
                    0 <= i < idx ==> trace@[i] == self.components@[i].draw_event(),
            decreases self.components@.len() - idx,
        {
            let e = self.components[idx].draw();
            trace = Ghost(trace@.push(e@));
            idx = idx + 1;
        }
        proof {
            assert(trace@ =~= self.draw_events());
        }
        trace
    }
}

/// A run records exactly one draw event per component — as many events as
/// the screen has components — and the event at each position is the one
/// of the component at that position.
pub proof fn lemma_one_event_per_component(s: Screen)
    ensures
        s.draw_events().len() == s.components@.len(),
        forall|i: int|
            0 <= i < s.components@.len() ==> s.draw_events()[i]
                == s.components@[i].draw_event(),
{
}

/// A screen with no components records no draw events.
pub proof fn lemma_empty_screen_draws_nothing(s: Screen)
    requires
        s.components@.len() == 0,
    ensures
        s.draw_events() == Seq::<DrawEvent>::empty(),
{
    assert(s.draw_events() =~= Seq::<DrawEvent>::empty());
}

/// What one invocation records depends on the invoked component alone,
/// never on the mix of variants around it: equal components at any two
/// positions of any two screens record equal events.
pub proof fn lemma_event_depends_on_component_alone(s1: Screen, s2: Screen, i: int, j: int)
    requires
        0 <= i < s1.components@.len(),
        0 <= j < s2.components@.len(),
        s1.components@[i] == s2.components@[j],
    ensures
        s1.draw_events()[i] == s2.draw_events()[j],
{
}

/// Running the same unmodified screen again records the same trace: two
/// traces that `run`'s contract ties to one screen are equal.
pub proof fn lemma_run_is_idempotent(s: Screen, first: Seq<DrawEvent>, second: Seq<DrawEvent>)
    requires
        first == s.draw_events(),
        second == s.draw_events(),
    ensures
        first == second,
{
}

} // verus!
