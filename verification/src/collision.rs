//! Collision resolution: paddle-ball rebounds with a freshly drawn random
//! magnitude, window clamping for the paddles, and window bouncing for the
//! pong ball.

use vstd::prelude::*;
use rand::Rng;
use crate::entity::Entity;
use crate::entity::PONG_SIZE;
use crate::entity::WIND_WIDTH;
use crate::entity::WIND_HEIGHT;

verus! {

/// Axis-aligned bounding-box overlap between a paddle `a` and the pong ball
/// `q`, with the pong side of each test taken from the fixed ball size
/// constant, not the ball's live width and height.
pub open spec fn pong_overlap(a: Entity, q: Entity) -> bool {
    &&& a.x < q.x + PONG_SIZE
    &&& a.x + a.w > q.x
    &&& a.y < q.y + PONG_SIZE
    &&& a.y + a.h > q.y
}

/// The bot-versus-ball overlap test. Its first comparison holds the bot's own
/// `x` on both sides, so it is always true; the test therefore depends only on
/// the bot's right bound and the vertical overlap. This degenerate geometry is
/// what the game ships with and is kept as-is.
pub open spec fn bot_pong_overlap(b: Entity, q: Entity) -> bool {
    &&& b.x < b.x + PONG_SIZE
    &&& b.x + b.w > q.x
    &&& b.y < q.y + PONG_SIZE
    &&& b.y + b.h > q.y
}

/// The pong ball's speed after one paddle rebound: the sign is inverted first,
/// and then the freshly drawn magnitude `m` is imposed on whatever sign came
/// out. A zero speed stays zero.
pub open spec fn rebound(v: int, m: int) -> int {
    if v > 0 {
        -m
    } else if v < 0 {
        m
    } else {
        0
    }
}

/// A paddle's horizontal position after the window clamp: first a value at or
/// below zero snaps to zero, then a value at or above `WIND_WIDTH - w` snaps
/// to that bound, in that order.
pub open spec fn clamp_x(x: int, w: int) -> int {
    let bound = WIND_WIDTH - w;
    let low = if x <= 0 {
        0
    } else {
        x
    };
    if low >= bound {
        bound
    } else {
        low
    }
}

/// The pong ball's speed after the four window-edge checks, each of which
/// independently inverts the sign when its edge condition holds. The
/// horizontal edges flip the same scalar that drives vertical motion; that is
/// the game's actual bounce mechanism and is kept as-is.
pub open spec fn bounced_speed(q: Entity, v: int) -> int {
    let v1 = if q.x <= 0 {
        -v
    } else {
        v
    };
    let v2 = if q.x + q.w >= WIND_WIDTH {
        -v1
    } else {
        v1
    };
    let v3 = if q.y <= 0 {
        -v2
    } else {
        v2
    };
    if q.y + q.h >= WIND_HEIGHT {
        -v3
    } else {
        v3
    }
}

/// The pong ball's speed after the whole resolution pass: a rebound for a
/// player hit, then a rebound for a bot hit, then the window-edge flips. Both
/// hits share the single per-frame magnitude `m`.
pub open spec fn resolved_pong_speed(p: Entity, q: Entity, b: Entity, m: int) -> int {
    let v1 = if pong_overlap(p, q) {
        rebound(q.speed as int, m)
    } else {
        q.speed as int
    };
    let v2 = if bot_pong_overlap(b, q) {
        rebound(v1, m)
    } else {
        v1
    };
    bounced_speed(q, v2)
}

/// The whole entity list after one collision-resolution pass with magnitude
/// `m`: the player and bot clamp their horizontal positions to the window,
/// and the pong ball keeps its position but takes its resolved speed.
pub open spec fn collision_spec(
    s: Seq<Entity>,
    player: int,
    pong: int,
    bot: int,
    m: int,
) -> Seq<Entity> {
    let p = s[player];
    let q = s[pong];
    let b = s[bot];
    s.update(player, Entity { x: clamp_x(p.x as int, p.w as int) as i32, ..p }).update(
        pong,
        Entity { speed: resolved_pong_speed(p, q, b, m) as i32, ..q },
    ).update(bot, Entity { x: clamp_x(b.x as int, b.w as int) as i32, ..b })
}

/// The arithmetic of the resolution pass stays within machine integer bounds
/// for entity `e`.
pub open spec fn collision_arith_ok(e: Entity) -> bool {
    &&& e.w <= i32::MAX
    &&& e.h <= i32::MAX
    &&& e.x + e.w <= i32::MAX
    &&& e.y + e.h <= i32::MAX
    &&& e.x + PONG_SIZE <= i32::MAX
    &&& e.y + PONG_SIZE <= i32::MAX
    &&& i32::MIN < e.speed
}

/// Everything the resolution pass needs of the list `s` and the three role
/// indices: indices in range and distinct, arithmetic in bounds, and paddle
/// widths that fit the window so the clamp bound is not negative.
pub open spec fn collision_ok(s: Seq<Entity>, player: int, pong: int, bot: int) -> bool {
    &&& 0 <= player < s.len()
    &&& 0 <= pong < s.len()
    &&& 0 <= bot < s.len()
    &&& player != pong
    &&& player != bot
    &&& pong != bot
    &&& collision_arith_ok(s[player])
    &&& collision_arith_ok(s[pong])
    &&& collision_arith_ok(s[bot])
    &&& s[player].w <= WIND_WIDTH
    &&& s[bot].w <= WIND_WIDTH
}

/// Relies on `rand::Rng::gen_range` over `rand::thread_rng()`: a uniform
/// sample from the half-open range `4..7`, so every outcome lies between 4
/// and 6. Nothing more is assumed of the draw.
#[verifier::external_body]
fn draw_rebound_magnitude() -> (m: i32)
    ensures
        4 <= m <= 6,
{
    rand::thread_rng().gen_range(4..7)
}

/// One paddle rebound applied to speed `v` with magnitude `m`: invert the
/// sign, then impose `m` on the result's sign.
fn rebound_step(v: i32, m: i32) -> (r: i32)
    requires
        i32::MIN < v,
        0 < m,
    ensures
        r == rebound(v as int, m as int),
        r == 0 || r == m || r == -m,
{
    let mut s: i32 = -v;
    if s < 0 {
        s = -m;
    }
    if s > 0 {
        s = m;
    }
    s
}

/// One collision-resolution pass with the rebound magnitude `m` given by the
/// caller. The pass is deterministic in its arguments: the result is exactly
/// `collision_spec`, and the player and bot come out clamped to the window.
pub fn collision_with_magnitude(
    entities: &mut Vec<Entity>,
    player: usize,
    pong: usize,
    bot: usize,
    m: i32,
)
    requires
        collision_ok(old(entities)@, player as int, pong as int, bot as int),
        0 < m,
    ensures
        final(entities)@ =~= collision_spec(
            old(entities)@,
            player as int,
            pong as int,
            bot as int,
            m as int,
        ),
        0 <= final(entities)@[player as int].x
            <= WIND_WIDTH - old(entities)@[player as int].w,
        0 <= final(entities)@[bot as int].x <= WIND_WIDTH - old(entities)@[bot as int].w,
{
    let p = entities[player];
    let q = entities[pong];
    let b = entities[bot];
    let pong_size: i32 = PONG_SIZE as i32;
    let mut speed: i32 = q.speed;

    // Player and pong collision
    if p.x < q.x + pong_size && p.x + p.w as i32 > q.x && p.y < q.y + pong_size && p.y + p.h as i32
        > q.y {
        speed = rebound_step(speed, m);
    }

    // Bot and pong collision
    if b.x < b.x + pong_size && b.x + b.w as i32 > q.x && b.y < q.y + pong_size && b.y + b.h as i32
        > q.y {
        speed = rebound_step(speed, m);
    }

    // Player window clamp
    let mut px: i32 = p.x;
    let player_bound: i32 = (WIND_WIDTH - p.w) as i32;
    if px <= 0 {
        px = 0;
    }
    if px >= player_bound {
        px = player_bound;
    }

    // Pong window bounce
    if q.x <= 0 {
        speed = -speed;
    }
    if q.x + q.w as i32 >= WIND_WIDTH as i32 {
        speed = -speed;
    }
    if q.y <= 0 {
        speed = -speed;
    }
    if q.y + q.h as i32 >= WIND_HEIGHT as i32 {
        speed = -speed;
    }

    // Bot window clamp
    let mut bx: i32 = b.x;
    let bot_bound: i32 = (WIND_WIDTH - b.w) as i32;
    if bx <= 0 {
        bx = 0;
    }
    if bx >= bot_bound {
        bx = bot_bound;
    }

    entities.set(player, Entity { x: px, ..p });
    entities.set(pong, Entity { speed, ..q });
    entities.set(bot, Entity { x: bx, ..b });
}

/// One collision-resolution pass as the game runs it: a single random rebound
/// magnitude is drawn for the frame, shared by the player and bot branches,
/// and the pass is otherwise `collision_spec` for that magnitude.
pub fn collision(entities: &mut Vec<Entity>, player: usize, pong: usize, bot: usize)
    requires
        collision_ok(old(entities)@, player as int, pong as int, bot as int),
    ensures
        exists|m: int|
            4 <= m <= 6 && final(entities)@ =~= collision_spec(
                old(entities)@,
                player as int,
                pong as int,
                bot as int,
                m,
            ),
        0 <= final(entities)@[player as int].x
            <= WIND_WIDTH - old(entities)@[player as int].w,
        0 <= final(entities)@[bot as int].x <= WIND_WIDTH - old(entities)@[bot as int].w,
{
    let m = draw_rebound_magnitude();
    collision_with_magnitude(entities, player, pong, bot, m);
    proof {
        assert(4 <= m as int <= 6 && entities@ =~= collision_spec(
            old(entities)@,
            player as int,
            pong as int,
            bot as int,
            m as int,
        ));
    }
}

/// The window clamp lands in `[0, WIND_WIDTH - w]`, and reapplying it to an
/// already-clamped value is a no-op.
pub proof fn lemma_clamp_bounds_and_idempotent(x: int, w: int)
    requires
        0 <= w <= WIND_WIDTH,
    ensures
        0 <= clamp_x(x, w) <= WIND_WIDTH - w,
        clamp_x(clamp_x(x, w), w) == clamp_x(x, w),
{
}

/// A collision-resolution pass never changes any entity's size, so positive
/// sizes are kept for the whole lifetime of the process.
pub proof fn lemma_collision_preserves_sizes(
    s: Seq<Entity>,
    player: int,
    pong: int,
    bot: int,
    m: int,
)
    requires
        0 <= player < s.len(),
        0 <= pong < s.len(),
        0 <= bot < s.len(),
    ensures
        collision_spec(s, player, pong, bot, m).len() == s.len(),
        forall|i: int|
            0 <= i < s.len() ==> #[trigger] collision_spec(s, player, pong, bot, m)[i].w == s[i].w
                && collision_spec(s, player, pong, bot, m)[i].h == s[i].h,
{
}

/// After a player or bot hit on a ball whose speed is not zero, the resolved
/// speed's magnitude is exactly the per-frame draw `m` — the window-edge
/// flips that follow change only its sign.
pub proof fn lemma_rebound_magnitude(p: Entity, q: Entity, b: Entity, m: int)
    requires
        pong_overlap(p, q) || bot_pong_overlap(b, q),
        q.speed != 0,
        0 < m,
    ensures
        resolved_pong_speed(p, q, b, m) == m || resolved_pong_speed(p, q, b, m) == -m,
{
}

/// The rebound itself flips the ball's direction and reassigns the freshly
/// drawn magnitude: a ball moving down rebounds to `-m`, a ball moving up
/// rebounds to `m`, and with `m` drawn from `[4, 7)` the magnitude lies in
/// `[4, 6]`.
pub proof fn lemma_rebound_sign_and_range(v: int, m: int)
    requires
        4 <= m <= 6,
    ensures
        v > 0 ==> rebound(v, m) == -m && -6 <= rebound(v, m) <= -4,
        v < 0 ==> rebound(v, m) == m && 4 <= rebound(v, m) <= 6,
        v == 0 ==> rebound(v, m) == 0,
{
}

/// Running the resolution pass twice with no update in between leaves the
/// player and the bot exactly where the first pass put them: the second
/// clamp is a no-op. Only the pong ball's speed sign may change again, since
/// the window-edge checks re-fire on the unchanged position.
pub proof fn lemma_collision_clamp_idempotent(
    s: Seq<Entity>,
    player: int,
    pong: int,
    bot: int,
    m1: int,
    m2: int,
)
    requires
        collision_ok(s, player, pong, bot),
    ensures
        collision_spec(collision_spec(s, player, pong, bot, m1), player, pong, bot, m2)[player]
            == collision_spec(s, player, pong, bot, m1)[player],
        collision_spec(collision_spec(s, player, pong, bot, m1), player, pong, bot, m2)[bot]
            == collision_spec(s, player, pong, bot, m1)[bot],
{
    let s1 = collision_spec(s, player, pong, bot, m1);
    assert(s1[player].x == clamp_x(s[player].x as int, s[player].w as int) as i32);
    assert(s1[bot].x == clamp_x(s[bot].x as int, s[bot].w as int) as i32);
    lemma_clamp_bounds_and_idempotent(s[player].x as int, s[player].w as int);
    lemma_clamp_bounds_and_idempotent(s[bot].x as int, s[bot].w as int);
}

/// The arithmetic-bounds side of the resolution pass's precondition for one
/// entity; callers outside the verified world use this to test it.
pub fn collision_arith_in_bounds(e: &Entity) -> (r: bool)
    ensures
        r == collision_arith_ok(*e),
{
    let x = e.x as i64;
    let y = e.y as i64;
    let max = i32::MAX as i64;
    e.w as i64 <= max && e.h as i64 <= max && x + e.w as i64 <= max && y + e.h as i64 <= max && x
        + PONG_SIZE as i64 <= max && y + PONG_SIZE as i64 <= max && i32::MIN < e.speed
}

} // verus!
