//! What holds of the timeline under every sequence of user actions.

use vstd::prelude::*;
use crate::timeline::Timeline;
use crate::keys::{holds, shortcut_of, Shortcut, KEY_LEFT, KEY_RIGHT, MOD1_MASK};
use crate::text::{is_blank, resolved};

verus! {

/// Every transition keeps the position inside the history.
pub proof fn transitions_keep_wf(t: Timeline, input: Seq<char>, home: Seq<char>)
    requires
        t.wf(),
    ensures
        t.navigate(input).wf(),
        t.go_back().wf(),
        t.go_forward().wf(),
        t.opened(home).wf(),
        Timeline::empty().wf(),
{
}

/// Going back or forward moves the position by at most one and leaves the
/// entries as they are.
pub proof fn moves_keep_entries(t: Timeline)
    requires
        t.wf(),
    ensures
        t.go_back().entries == t.entries,
        t.go_forward().entries == t.entries,
        t.current > 0 ==> t.go_back().current == t.current - 1,
        t.current == 0 ==> t.go_back().current == 0,
        t.current + 1 < t.entries.len() ==> t.go_forward().current == t.current + 1,
        t.current + 1 >= t.entries.len() ==> t.go_forward().current == t.current,
{
}

/// A navigation that is not ignored ends at the newest entry, with nothing
/// left to go forward to; what stood before the old position stays, and one
/// can go back exactly if something did.
pub proof fn navigate_ends_at_tip(t: Timeline, input: Seq<char>)
    requires
        t.wf(),
        !is_blank(input),
    ensures
        t.navigate(input).at_tip(),
        !t.navigate(input).can_go_forward(),
        t.navigate(input).can_go_back() <==> t.entries.len() > 0,
        t.navigate(input).entries.len() == t.kept().len() + 1,
        forall|i: int| 0 <= i < t.kept().len() ==> t.navigate(input).entries[i] == t.entries[i],
{
}

/// From a timeline that stands at its newest entry, as that of a window just
/// opened does, any sequence of navigations, ignored ones among them, ends at
/// the newest entry again, and one can go back exactly if the position is not
/// the first.
pub proof fn navigations_stay_at_tip(t: Timeline, inputs: Seq<Seq<char>>)
    requires
        t.wf(),
        t.at_tip(),
    ensures
        t.navigate_all(inputs).wf(),
        t.navigate_all(inputs).at_tip(),
        t.navigate_all(inputs).current == t.navigate_all(inputs).entries.len() - 1,
        t.navigate_all(inputs).can_go_back() <==> t.navigate_all(inputs).current > 0,
    decreases inputs.len(),
{
    if inputs.len() > 0 {
        navigations_stay_at_tip(t, inputs.drop_last());
    }
}

/// The same after each navigation of the sequence, not only the last.
pub proof fn navigations_stay_at_tip_throughout(t: Timeline, inputs: Seq<Seq<char>>)
    requires
        t.wf(),
        t.at_tip(),
    ensures
        forall|k: int|
            0 <= k <= inputs.len() ==> {
                let after = #[trigger] t.navigate_all(inputs.take(k));
                &&& after.wf()
                &&& after.current == after.entries.len() - 1
                &&& (after.can_go_back() <==> after.current > 0)
            },
{
    assert forall|k: int| 0 <= k <= inputs.len() implies {
        let after = #[trigger] t.navigate_all(inputs.take(k));
        &&& after.wf()
        &&& after.current == after.entries.len() - 1
        &&& (after.can_go_back() <==> after.current > 0)
    } by {
        navigations_stay_at_tip(t, inputs.take(k));
    }
}

/// Going back and then navigating puts the new address in the place of the
/// entry that was on display and drops all that followed: the position is
/// the old one again.
pub proof fn back_then_navigate_replaces_current(t: Timeline, input: Seq<char>)
    requires
        t.wf(),
        t.can_go_back(),
        !is_blank(input),
    ensures
        t.go_back().navigate(input).entries == t.entries.take(t.current as int).push(
            resolved(input),
        ),
        t.go_back().navigate(input).current == t.current,
{
}

/// Going back at the first position changes nothing.
pub proof fn go_back_at_oldest_is_inert(t: Timeline)
    requires
        t.current == 0,
    ensures
        t.go_back() == t,
{
}

/// Going forward at the last position changes nothing.
pub proof fn go_forward_at_newest_is_inert(t: Timeline)
    requires
        t.current == t.entries.len() - 1,
    ensures
        t.go_forward() == t,
{
}

/// Alt+Left is a chord whatever the position: at the first position the press
/// counts as handled although the timeline stays as it is. Alt+Right at the
/// last position likewise.
pub proof fn chord_at_boundary_is_handled(t: Timeline, state: u32)
    requires
        holds(state, MOD1_MASK),
    ensures
        shortcut_of(state, KEY_LEFT) == Some(Shortcut::Back),
        shortcut_of(state, KEY_RIGHT) == Some(Shortcut::Forward),
        t.current == 0 ==> t.after_key(shortcut_of(state, KEY_LEFT)) == t,
        t.current == t.entries.len() - 1 ==> t.after_key(shortcut_of(state, KEY_RIGHT)) == t,
{
}

} // verus!
