//! The entity model: three movable rectangles (player, pong ball, bot) that
//! share one record tagged with a behaviour variant, and the per-frame
//! movement rule for each variant.

use vstd::prelude::*;

verus! {

/// Width of the window in pixels.
pub const WIND_WIDTH: u32 = 800;
/// Height of the window in pixels.
pub const WIND_HEIGHT: u32 = 600;
/// Width of the player and bot paddles in pixels.
pub const PADDLE_WIDTH: u32 = 128;
/// Height of the player and bot paddles in pixels.
pub const PADDLE_HEIGHT: u32 = 32;
/// Side length of the square pong ball in pixels.
pub const PONG_SIZE: u32 = 16;

/// Which behaviour an entity follows; fixed at creation.
#[derive(Clone, Copy, PartialEq, Eq, Structural, Debug)]
pub enum EntityType {
    Player,
    Pong,
    Bot,
}

/// The player's current movement intent; only meaningful for the player.
#[derive(Clone, Copy, PartialEq, Eq, Structural, Debug)]
pub enum Movement {
    Left,
    Right,
    Idle,
}

/// One visible rectangle. `x`, `y` is the top-left corner in pixels; `w`, `h`
/// the size. `speed` is a step magnitude for the player, a signed vertical
/// velocity for the pong ball, and unused for the bot after creation.
#[derive(Clone, Copy, PartialEq, Eq, Structural, Debug)]
pub struct Entity {
    pub entity_type: EntityType,
    pub movement: Movement,
    pub x: i32,
    pub y: i32,
    pub w: u32,
    pub h: u32,
    pub speed: i32,
}

/// Every entity keeps a strictly positive size for its whole lifetime.
pub open spec fn size_positive(e: Entity) -> bool {
    e.w > 0 && e.h > 0
}

/// The value an entity takes after one update tick, given the pong ball's
/// horizontal position as sampled before any entity moved.
///
/// The pong ball moves only vertically here: its apparent horizontal motion
/// is produced solely by sign flips of `speed` in the collision phase, a
/// quirk of the original design that is kept as-is.
pub open spec fn update_spec(e: Entity, pong_x: i32) -> Entity {
    match e.entity_type {
        EntityType::Player => match e.movement {
            Movement::Left => Entity { x: (e.x - e.speed) as i32, ..e },
            Movement::Right => Entity { x: (e.x + e.speed) as i32, ..e },
            Movement::Idle => e,
        },
        EntityType::Pong => Entity { y: (e.y + e.speed) as i32, ..e },
        EntityType::Bot => Entity { x: pong_x, ..e },
    }
}

/// The one update tick on `e` stays within machine integer bounds.
pub open spec fn update_ok(e: Entity) -> bool {
    &&& e.entity_type is Player && e.movement is Left
        ==> i32::MIN <= e.x - e.speed <= i32::MAX
    &&& e.entity_type is Player && e.movement is Right
        ==> i32::MIN <= e.x + e.speed <= i32::MAX
    &&& e.entity_type is Pong ==> i32::MIN <= e.y + e.speed <= i32::MAX
}

impl Entity {
    /// Creates an entity at the given position and size, idle, with the
    /// given behaviour tag and speed.
    pub fn new(entity_type: EntityType, x: i32, y: i32, w: u32, h: u32, speed: i32) -> (e: Self)
        requires
            w > 0,
            h > 0,
        ensures
            e == (Entity { entity_type, movement: Movement::Idle, x, y, w, h, speed }),
            size_positive(e),
    {
        Self {
            entity_type,
            movement: Movement::Idle,
            x,
            y,
            w,
            h,
            speed,
        }
    }

    /// Applies one update tick in place: the player steps by `speed` in its
    /// movement direction, the pong ball falls or rises by `speed`, and the
    /// bot snaps its horizontal position to `pong_pos_x`.
    pub fn update(&mut self, pong_pos_x: &i32)
        requires
            update_ok(*old(self)),
        ensures
            *final(self) == update_spec(*old(self), *pong_pos_x),
    {
        match self.entity_type {
            EntityType::Player => {
                match self.movement {
                    Movement::Left => {
                        self.x = self.x - self.speed;
                    },
                    Movement::Right => {
                        self.x = self.x + self.speed;
                    },
                    Movement::Idle => {},
                }
            },
            EntityType::Pong => {
                self.y = self.y + self.speed;
            },
            EntityType::Bot => {
                self.x = *pong_pos_x;
            },
        }
    }

    /// Whether one update tick on this entity stays within machine integer
    /// bounds; callers outside the verified world use this to test the
    /// precondition of `update`.
    pub fn update_in_bounds(&self) -> (r: bool)
        ensures
            r == update_ok(*self),
    {
        match self.entity_type {
            EntityType::Player => {
                match self.movement {
                    Movement::Left => {
                        let d: i64 = self.x as i64 - self.speed as i64;
                        i32::MIN as i64 <= d && d <= i32::MAX as i64
                    },
                    Movement::Right => {
                        let d: i64 = self.x as i64 + self.speed as i64;
                        i32::MIN as i64 <= d && d <= i32::MAX as i64
                    },
                    Movement::Idle => true,
                }
            },
            EntityType::Pong => {
                let d: i64 = self.y as i64 + self.speed as i64;
                i32::MIN as i64 <= d && d <= i32::MAX as i64
            },
            EntityType::Bot => true,
        }
    }
}

/// An update tick never changes an entity's size, so positive sizes are kept
/// for the whole lifetime of the process.
pub proof fn lemma_update_preserves_size(e: Entity, pong_x: i32)
    ensures
        update_spec(e, pong_x).w == e.w,
        update_spec(e, pong_x).h == e.h,
        size_positive(e) ==> size_positive(update_spec(e, pong_x)),
{
}

} // verus!
