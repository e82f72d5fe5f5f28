//! Input-event decisions: which events end the loop and how key presses and
//! releases drive the player's movement intent. Auto-repeated key events are
//! ignored.

use vstd::prelude::*;
use crate::entity::Entity;
use crate::entity::Movement;

verus! {

/// A key the game cares about; anything else is `Other`.
#[derive(Clone, Copy, PartialEq, Eq, Structural, Debug)]
pub enum Key {
    Left,
    Right,
    Other,
}

/// One input event, as the windowing layer hands it over: a quit signal, a
/// key press or release with its auto-repeat flag, or anything else.
#[derive(Clone, Copy, PartialEq, Eq, Structural, Debug)]
pub enum InputEvent {
    Quit,
    KeyDown { key: Key, repeat: bool },
    KeyUp { key: Key, repeat: bool },
    Other,
}

/// The two states of the main loop. The only transition is `Running` to
/// `Terminated`, taken on a quit event; there is no win or lose condition.
#[derive(Clone, Copy, PartialEq, Eq, Structural, Debug)]
pub enum LoopState {
    Running,
    Terminated,
}

/// The player's movement intent after one event: a non-repeat press of left
/// or right sets that direction, a non-repeat release of either resets to
/// idle, and every other event leaves the intent alone.
pub open spec fn movement_after_event(mv: Movement, ev: InputEvent) -> Movement {
    match ev {
        InputEvent::KeyDown { key: Key::Left, repeat: false } => Movement::Left,
        InputEvent::KeyDown { key: Key::Right, repeat: false } => Movement::Right,
        InputEvent::KeyUp { key: Key::Left, repeat: false } => Movement::Idle,
        InputEvent::KeyUp { key: Key::Right, repeat: false } => Movement::Idle,
        _ => mv,
    }
}

/// Consumes one input event: a quit event moves the loop to `Terminated`,
/// and any other event only rewrites the player's movement intent as
/// `movement_after_event` says, leaving every other field and entity alone.
pub fn handle_event(entities: &mut Vec<Entity>, player: usize, ev: InputEvent) -> (state:
    LoopState)
    requires
        player < old(entities).len(),
    ensures
        state is Terminated <==> ev is Quit,
        final(entities)@ =~= old(entities)@.update(
            player as int,
            Entity {
                movement: movement_after_event(old(entities)@[player as int].movement, ev),
                ..old(entities)@[player as int]
            },
        ),
{
    match ev {
        InputEvent::Quit => LoopState::Terminated,
        InputEvent::KeyDown { key: Key::Left, repeat: false } => {
            let e = entities[player];
            entities.set(player, Entity { movement: Movement::Left, ..e });
            LoopState::Running
        },
        InputEvent::KeyDown { key: Key::Right, repeat: false } => {
            let e = entities[player];
            entities.set(player, Entity { movement: Movement::Right, ..e });
            LoopState::Running
        },
        InputEvent::KeyUp { key: Key::Left, repeat: false } => {
            let e = entities[player];
            entities.set(player, Entity { movement: Movement::Idle, ..e });
            LoopState::Running
        },
        InputEvent::KeyUp { key: Key::Right, repeat: false } => {
            let e = entities[player];
            entities.set(player, Entity { movement: Movement::Idle, ..e });
            LoopState::Running
        },
        _ => LoopState::Running,
    }
}

} // verus!
