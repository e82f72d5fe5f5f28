//! The update phase of one frame: every entity takes one update tick, with
//! the pong ball's horizontal position sampled once before any entity moves.

use vstd::prelude::*;
use crate::entity::Entity;
use crate::entity::update_spec;
use crate::entity::update_ok;

verus! {

/// Applies one update tick to every entity in list order, handing each the
/// pong ball's horizontal position as it was before any entity moved.
pub fn update_entities(entities: &mut Vec<Entity>, pong: usize)
    requires
        pong < old(entities).len(),
        forall|i: int| 0 <= i < old(entities)@.len() ==> update_ok(old(entities)@[i]),
    ensures
        final(entities)@.len() == old(entities)@.len(),
        forall|i: int|
            0 <= i < old(entities)@.len() ==> final(entities)@[i] == update_spec(
                old(entities)@[i],
                old(entities)@[pong as int].x,
            ),
{
    let pong_x = entities[pong].x;
    let n = entities.len();
    let mut i: usize = 0;
    while i < n
        invariant
            n == old(entities)@.len(),
            entities@.len() == n,
            i <= n,
            pong_x == old(entities)@[pong as int].x,
            forall|j: int|
                0 <= j < i ==> entities@[j] == update_spec(old(entities)@[j], pong_x),
            forall|j: int| i <= j < n ==> entities@[j] == old(entities)@[j],
            forall|j: int| 0 <= j < n ==> update_ok(old(entities)@[j]),
        decreases n - i,
    {
        let mut e = entities[i];
        e.update(&pong_x);
        entities.set(i, e);
        i = i + 1;
    }
}

/// Perfect tracking: immediately after the update phase, before any
/// collision clamping, the bot's horizontal position equals the pong ball's.
/// The bot snapped to the position the ball had when the phase began, and
/// the ball's own tick moves it only vertically.
pub proof fn lemma_bot_tracks_pong(s: Seq<Entity>, pong: int, bot: int)
    requires
        0 <= pong < s.len(),
        0 <= bot < s.len(),
        s[pong].entity_type is Pong,
        s[bot].entity_type is Bot,
    ensures
        update_spec(s[bot], s[pong].x).x == update_spec(s[pong], s[pong].x).x,
{
}

/// Every entity's update tick stays within machine integer bounds; callers
/// outside the verified world use this to test the precondition of
/// `update_entities`.
pub fn update_all_in_bounds(entities: &Vec<Entity>) -> (r: bool)
    ensures
        r == forall|i: int| 0 <= i < entities@.len() ==> update_ok(entities@[i]),
{
    let n = entities.len();
    let mut i: usize = 0;
    while i < n
        invariant
            n == entities@.len(),
            i <= n,
            forall|j: int| 0 <= j < i ==> update_ok(entities@[j]),
        decreases n - i,
    {
        if !entities[i].update_in_bounds() {
            return false;
        }
        i = i + 1;
    }
    true
}

} // verus!
