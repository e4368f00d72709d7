use vstd::prelude::*;
use std::collections::HashSet;

verus! {

broadcast use vstd::std_specs::hash::group_hash_axioms;

/// An edge of a key's activity.
#[derive(Clone, Copy, Debug, PartialEq, Eq, Structural)]
pub enum StateChange {
    /// Rising edge at index
    Add(u8),
    /// Falling edge at index
    Remove(u8),
}

/// The edges that the first `n` entries of `states` give against the
/// active set `saved`, in index order.
pub open spec fn diff_events(saved: Set<u8>, states: Seq<bool>, n: int) -> Seq<StateChange>
    decreases n,
{
    if n <= 0 {
        Seq::empty()
    } else {
        let prev = diff_events(saved, states, n - 1);
        let i = (n - 1) as u8;
        if states[n - 1] && !saved.contains(i) {
            prev.push(StateChange::Add(i))
        } else if !states[n - 1] && saved.contains(i) {
            prev.push(StateChange::Remove(i))
        } else {
            prev
        }
    }
}

/// The active set `saved` once the first `n` entries of `states` are taken in.
pub open spec fn updated_upto(saved: Set<u8>, states: Seq<bool>, n: int) -> Set<u8> {
    Set::new(|x: u8| if (x as int) < n { states[x as int] } else { saved.contains(x) })
}

/// The active set `saved` once all of `states` is taken in: the indices
/// below its length where it is true, and the other members of `saved`.
pub open spec fn updated_set(saved: Set<u8>, states: Seq<bool>) -> Set<u8> {
    updated_upto(saved, states, states.len() as int)
}

/// Generate edge triggered events from a list of states
pub fn state_diff(saved_states: &mut HashSet<u8>, new_states: &[bool]) -> (r: Vec<StateChange>)
    requires
        new_states@.len() <= 256,
    ensures
        final(saved_states)@ == updated_set(old(saved_states)@, new_states@),
        r@ == diff_events(old(saved_states)@, new_states@, new_states@.len() as int),
{
    let ghost before = saved_states@;
    let n = new_states.len();
    let mut events: Vec<StateChange> = Vec::new();
    let mut i: usize = 0;
    while i < n
        invariant
            n == new_states@.len(),
            n <= 256,
            i <= n,
            saved_states@ == updated_upto(before, new_states@, i as int),
            events@ == diff_events(before, new_states@, i as int),
        decreases n - i,
    {
        let idx = i as u8;
        let active = new_states[i];
        assert(saved_states@.contains(idx) == before.contains(idx));
        if active != saved_states.contains(&idx) {
            if active {
                saved_states.insert(idx);
                events.push(StateChange::Add(idx));
            } else {
                saved_states.remove(&idx);
                events.push(StateChange::Remove(idx));
            }
        }
        i += 1;
        assert(saved_states@ =~= updated_upto(before, new_states@, i as int));
    }
    events
}

proof fn lemma_no_events_upto(saved: Set<u8>, states: Seq<bool>, n: int)
    requires
        states.len() <= 256,
        n <= states.len(),
    ensures
        diff_events(updated_set(saved, states), states, n) == Seq::<StateChange>::empty(),
    decreases n,
{
    if n > 0 {
        lemma_no_events_upto(saved, states, n - 1);
        let i = (n - 1) as u8;
        assert(updated_set(saved, states).contains(i) == states[n - 1]);
    }
}

/// Feeding the same activity vector a second time, to the set that the
/// first call left, gives no events and leaves the set as it is.
pub proof fn lemma_state_diff_idempotent(saved: Set<u8>, states: Seq<bool>)
    requires
        states.len() <= 256,
    ensures
        diff_events(updated_set(saved, states), states, states.len() as int) == Seq::<
            StateChange,
        >::empty(),
        updated_set(updated_set(saved, states), states) == updated_set(saved, states),
{
    lemma_no_events_upto(saved, states, states.len() as int);
    assert(updated_set(updated_set(saved, states), states) =~= updated_set(saved, states));
}

} // verus!
