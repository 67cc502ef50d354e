//! Focus-area routing: which panel owns the keyboard, how Tab and BackTab
//! cycle through the panels, and the dispatch of one key event to the
//! handler of the active area.

pub mod query;
pub mod results;
pub mod unfocused;
pub mod variables;

use vstd::prelude::*;

use crate::events::KeyEvent;
use crate::ui::State;

verus! {

/// The mutually exclusive panels that can hold keyboard focus. Exactly one
/// is active at any time; it is the sole piece of routing state.
#[derive(Clone, Copy, PartialEq, Eq, Structural, Debug)]
pub enum Area {
    Unfocused,
    Results,
    Variables,
    Query,
}

/// Where Tab moves focus from each area: the cycle
/// unfocused, results, variables, query, and around again.
pub open spec fn tab_next(a: Area) -> Area {
    match a {
        Area::Unfocused => Area::Results,
        Area::Results => Area::Variables,
        Area::Variables => Area::Query,
        Area::Query => Area::Unfocused,
    }
}

/// Where BackTab moves focus from each area: the reverse of the Tab cycle,
/// except that the unfocused state has no predecessor and BackTab leaves it
/// in place.
pub open spec fn backtab_next(a: Area) -> Area {
    match a {
        Area::Unfocused => Area::Unfocused,
        Area::Results => Area::Unfocused,
        Area::Variables => Area::Results,
        Area::Query => Area::Variables,
    }
}

/// Four Tab presses from any area return focus to where it started: Tab
/// walks a cycle over all four areas.
pub proof fn lemma_tab_cycle(a: Area)
    ensures
        tab_next(tab_next(tab_next(tab_next(a)))) == a,
{
}

/// BackTab undoes Tab from every area but the query panel: Tab leaves the
/// query panel for the unfocused state, whose BackTab is a no-op.
pub proof fn lemma_tab_backtab_roundtrip(a: Area)
    requires
        a != Area::Query,
    ensures
        backtab_next(tab_next(a)) == a,
{
}

/// Tab undoes BackTab from every area but the unfocused state, whose
/// BackTab is a no-op.
pub proof fn lemma_backtab_tab_roundtrip(a: Area)
    requires
        a != Area::Unfocused,
    ensures
        tab_next(backtab_next(a)) == a,
{
}

/// The complete routing relation: what one key event does to the session
/// state when the given area is the active one.
pub open spec fn step_for(a: Area, pre: State, post: State, ev: KeyEvent) -> bool {
    match a {
        Area::Unfocused => unfocused::step(pre, post, ev),
        Area::Results => results::step(pre, post, ev),
        Area::Variables => variables::step(pre, post, ev),
        Area::Query => query::step(pre, post, ev),
    }
}

impl Area {
    /// Routes one key event to the handler of this area. Exactly one
    /// handler runs; the match is exhaustive over the areas.
    pub fn handle_event(&self, state: &mut State, key_event: &KeyEvent)
        requires
            old(state).wf(),
        ensures
            final(state).wf(),
            step_for(*self, *old(state), *final(state), *key_event),
    {
        match self {
            Area::Unfocused => unfocused::handle_event(state, key_event),
            Area::Results => results::handle_event(state, key_event),
            Area::Variables => variables::handle_event(state, key_event),
            Area::Query => query::handle_event(state, key_event),
        }
    }
}

} // verus!
