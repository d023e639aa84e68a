use vstd::prelude::*;
use crate::chunk::UnloadChunks;
use crate::units::{
    blend, lemma_blend_approaches, lerp_quarter, abs, Normal, Position, Velocity,
    MICROS_PER_SECOND, SUBPIXELS, TILE_SIZE,
};

verus! {

/// Side of the player's square body, in sub-pixel steps.
pub const PLAYER_SIZE: i64 = 28 * SUBPIXELS;

/// Where the player appears, in sub-pixel steps.
pub const SPAWN_X: i64 = 16 * SUBPIXELS;

/// Where the player appears, in sub-pixel steps.
pub const SPAWN_Y: i64 = 50 * SUBPIXELS;

/// How far below its body the ground probe reaches, in sub-pixel steps.
pub const GROUND_PROBE_REACH: i64 = 625;

/// Horizontal running speed, and vertical speed in fly-through mode.
pub const RUN_SPEED: i64 = 10 * TILE_SIZE * SUBPIXELS;

/// Upward speed given by a jump.
pub const JUMP_SPEED: i64 = 16 * TILE_SIZE * SUBPIXELS;

/// Downward acceleration per unit of tile size, in sub-pixel steps per second squared.
pub const GRAVITY_PER_TILE: i64 = 98_070;

/// Largest falling speed that gravity builds up.
pub const TERMINAL_FALL_SPEED: i64 = 530 * SUBPIXELS;

/// Angle units in one right angle.
pub const QUARTER_TURN: i64 = 1_000_000;

/// Angle units in one full turn.
pub const FULL_TURN: i64 = 4 * QUARTER_TURN;

/// Turning speed of the sprite while airborne, in angle units per second
/// (9.6 radians per second).
pub const TUMBLE_RATE: i64 = 6_111_550;

/// State of the player: resting on a surface, facing (-1 left, 0 neutral,
/// 1 right), and the debug fly-through mode.
#[derive(Clone, Copy, Debug, PartialEq, Eq, Structural)]
pub struct Player {
    pub is_on_ground: bool,
    pub direction: i8,
    pub noclip: bool,
}

/// Rotation of the player's visible sprite, in angle units within one turn.
#[derive(Clone, Copy, Debug, PartialEq, Eq, Structural)]
pub struct PlayerSprite {
    pub rotation: i64,
}

/// The keys held or pressed in one frame, grouped by what they do.
#[derive(Clone, Copy, Debug, PartialEq, Eq, Structural)]
pub struct FrameInput {
    /// The fly-through key went down this frame.
    pub toggle_noclip: bool,
    pub left: bool,
    pub right: bool,
    /// Jump, or up while flying through.
    pub up: bool,
    /// Down while flying through.
    pub down: bool,
}

/// One result of the downward ground probe: the surface normals at the hit,
/// seen from each of the two shapes.
#[derive(Clone, Copy, Debug, PartialEq, Eq, Structural)]
pub struct ShapeHit {
    pub normal1: Normal,
    pub normal2: Normal,
}

/// Everything that makes up a freshly spawned player.
#[derive(Clone, Copy, Debug, PartialEq, Eq, Structural)]
pub struct PlayerSpawn {
    pub player: Player,
    pub sprite: PlayerSprite,
    pub position: Position,
    /// Side of the square collision shape.
    pub size: i64,
    /// How far below the body the ground probe reaches.
    pub probe_reach: i64,
}

impl Player {
    /// The facing direction is one of -1, 0, 1.
    pub open spec fn wf(&self) -> bool {
        -1 <= self.direction <= 1
    }
}

impl PlayerSprite {
    /// The rotation lies within one turn.
    pub open spec fn wf(&self) -> bool {
        0 <= self.rotation < FULL_TURN
    }
}

/// Horizontal speed that the input steers toward.
pub open spec fn horizontal_target(i: FrameInput) -> int {
    if i.left {
        -RUN_SPEED
    } else if i.right {
        RUN_SPEED as int
    } else {
        0
    }
}

/// Vertical speed that the input steers toward in fly-through mode.
pub open spec fn vertical_target(i: FrameInput) -> int {
    if i.down {
        -RUN_SPEED
    } else if i.up {
        RUN_SPEED as int
    } else {
        0
    }
}

/// The player's state after one frame of input.
pub open spec fn player_after_input(p: Player, i: FrameInput) -> Player {
    Player {
        is_on_ground: p.is_on_ground,
        direction: if i.left {
            -1i8
        } else if i.right {
            1i8
        } else if p.is_on_ground {
            0i8
        } else {
            p.direction
        },
        noclip: if i.toggle_noclip {
            !p.noclip
        } else {
            p.noclip
        },
    }
}

/// The velocity after one frame of input.
pub open spec fn velocity_after_input(p: Player, v: Velocity, i: FrameInput) -> Velocity {
    let q = player_after_input(p, i);
    let y = if i.up && !q.noclip && q.is_on_ground {
        JUMP_SPEED as int
    } else {
        v.y as int
    };
    Velocity {
        x: blend(v.x as int, horizontal_target(i)) as i64,
        y: if q.noclip {
            blend(y, vertical_target(i)) as i64
        } else {
            y as i64
        },
    }
}

/// Applies one frame of input: toggles fly-through mode, steers the horizontal
/// speed a quarter of the way toward the running speed (or rest), jumps from
/// the ground, and steers the vertical speed while flying through.
pub fn player_input(player: &mut Player, velocity: &mut Velocity, input: &FrameInput)
    ensures
        *final(player) == player_after_input(*old(player), *input),
        *final(velocity) == velocity_after_input(*old(player), *old(velocity), *input),
        old(player).wf() ==> final(player).wf(),
{
    if input.toggle_noclip {
        player.noclip = !player.noclip;
    }
    if input.left {
        velocity.x = lerp_quarter(velocity.x, -RUN_SPEED);
        player.direction = -1;
    } else if input.right {
        velocity.x = lerp_quarter(velocity.x, RUN_SPEED);
        player.direction = 1;
    } else {
        velocity.x = lerp_quarter(velocity.x, 0);
        if player.is_on_ground {
            player.direction = 0;
        }
    }
    if input.up && !player.noclip && player.is_on_ground {
        velocity.y = JUMP_SPEED;
    }
    if player.noclip {
        if input.down {
            velocity.y = lerp_quarter(velocity.y, -RUN_SPEED);
        } else if input.up {
            velocity.y = lerp_quarter(velocity.y, RUN_SPEED);
        } else {
            velocity.y = lerp_quarter(velocity.y, 0);
        }
    }
}

/// Speed that gravity adds in a frame of `dt` microseconds.
pub open spec fn fall_delta(dt: u32) -> int {
    GRAVITY_PER_TILE * TILE_SIZE * dt / (MICROS_PER_SECOND as int)
}

/// The velocity after one frame of gravity.
pub open spec fn velocity_after_gravity(p: Player, v: Velocity, dt: u32) -> Velocity {
    if p.noclip || p.is_on_ground {
        v
    } else if v.y > -TERMINAL_FALL_SPEED {
        Velocity { x: v.x, y: (v.y - fall_delta(dt)) as i64 }
    } else if v.y < -TERMINAL_FALL_SPEED {
        Velocity { x: v.x, y: (-TERMINAL_FALL_SPEED) as i64 }
    } else {
        v
    }
}

/// Speeds the fall of an airborne player over a frame of `dt` microseconds
/// while it is slower than the terminal speed, and brings a faster fall back
/// to the terminal speed. Nothing happens on the ground or in fly-through mode.
pub fn apply_gravity(player: &Player, velocity: &mut Velocity, dt: u32)
    ensures
        *final(velocity) == velocity_after_gravity(*player, *old(velocity), dt),
        !player.noclip && !player.is_on_ground && old(velocity).y < -TERMINAL_FALL_SPEED
            ==> final(velocity).y == -TERMINAL_FALL_SPEED,
        old(velocity).y >= -TERMINAL_FALL_SPEED ==> final(velocity).y >= -TERMINAL_FALL_SPEED
            - fall_delta(dt),
{
    if !player.noclip && !player.is_on_ground {
        if velocity.y > -TERMINAL_FALL_SPEED {
            let accel: i64 = GRAVITY_PER_TILE * TILE_SIZE;
            let t: i64 = dt as i64;
            assert(0 <= accel * t <= 3_138_240 * 4_294_967_295) by (nonlinear_arith)
                requires
                    accel == 3_138_240,
                    0 <= t <= 4_294_967_295,
            ;
            let delta: i64 = accel * t / MICROS_PER_SECOND;
            velocity.y = velocity.y - delta;
        } else if velocity.y < -TERMINAL_FALL_SPEED {
            velocity.y = -TERMINAL_FALL_SPEED;
        }
    }
}

/// A probe hit that the player can stand on: a normal pointing up on either side.
pub open spec fn supports(h: ShapeHit) -> bool {
    h.normal1.y > 0 || h.normal2.y > 0
}

/// Whether any of the probe hits can carry the player.
pub open spec fn any_support(hits: Seq<ShapeHit>) -> bool {
    exists|i: int| 0 <= i < hits.len() && supports(#[trigger] hits[i])
}

/// Whether any of the probe hits can carry the player.
pub fn is_grounded(hits: &Vec<ShapeHit>) -> (r: bool)
    ensures
        r == any_support(hits@),
{
    let mut i: usize = 0;
    while i < hits.len()
        invariant
            i <= hits@.len(),
            forall|j: int| 0 <= j < i ==> !supports(#[trigger] hits@[j]),
        decreases hits@.len() - i,
    {
        let h = hits[i];
        if h.normal1.y > 0 || h.normal2.y > 0 {
            return true;
        }
        i = i + 1;
    }
    false
}

/// Records whether the player rests on a surface, from the ground probe's hits.
pub fn update_grounded(player: &mut Player, hits: &Vec<ShapeHit>)
    ensures
        *final(player) == (Player { is_on_ground: any_support(hits@), ..*old(player) }),
{
    player.is_on_ground = is_grounded(hits);
}

/// Whether collisions are resolved for this player: not in fly-through mode.
pub open spec fn collides(p: Player) -> bool {
    !p.noclip
}

/// Whether collisions are resolved for this player.
pub fn is_not_in_noclip(player: &Player) -> (r: bool)
    ensures
        r == collides(*player),
{
    !player.noclip
}

/// Angle that the airborne sprite turns through in a frame of `dt` microseconds.
pub open spec fn tumble(dt: u32) -> int {
    TUMBLE_RATE * dt / (MICROS_PER_SECOND as int)
}

/// The right angle nearest to a nonnegative angle, halves rounding up.
pub open spec fn nearest_right_angle(r: int) -> int {
    (r + QUARTER_TURN / 2) / (QUARTER_TURN as int) * QUARTER_TURN
}

/// The sprite's rotation after one frame: airborne it turns against the
/// facing direction; on the ground it eases a quarter of the way toward the
/// nearest right angle. The angle is kept within one turn.
pub open spec fn sprite_after(s: PlayerSprite, p: Player, dt: u32) -> PlayerSprite {
    let turned = if !p.is_on_ground {
        s.rotation - tumble(dt) * p.direction
    } else {
        blend(s.rotation as int, nearest_right_angle(s.rotation as int))
    };
    PlayerSprite { rotation: (turned % (FULL_TURN as int)) as i64 }
}

/// The angle within one turn equal to `a`.
fn wrap_turn(a: i64) -> (r: i64)
    ensures
        r == (a as int) % (FULL_TURN as int),
        0 <= r < FULL_TURN,
{
    match a.checked_rem_euclid(FULL_TURN) {
        Some(r) => r,
        None => {
            assert(false);
            0
        },
    }
}

/// Turns the sprite for one frame of `dt` microseconds: a steady tumble while
/// airborne, easing back to a right angle once grounded.
pub fn rotate_player(player: &Player, sprite: &mut PlayerSprite, dt: u32)
    requires
        player.wf(),
        old(sprite).wf(),
    ensures
        *final(sprite) == sprite_after(*old(sprite), *player, dt),
        final(sprite).wf(),
{
    let turned: i64 = if !player.is_on_ground {
        let t: i64 = dt as i64;
        assert(0 <= TUMBLE_RATE * t <= 6_111_550 * 4_294_967_295) by (nonlinear_arith)
            requires
                0 <= t <= 4_294_967_295,
        ;
        let step: i64 = TUMBLE_RATE * t / MICROS_PER_SECOND;
        let d: i64 = player.direction as i64;
        assert(-step <= step * d <= step) by (nonlinear_arith)
            requires
                -1 <= d <= 1,
                0 <= step,
        ;
        sprite.rotation - step * d
    } else {
        let nearest: i64 = (sprite.rotation + QUARTER_TURN / 2) / QUARTER_TURN * QUARTER_TURN;
        proof {
            lemma_blend_approaches(sprite.rotation as int, nearest as int);
        }
        lerp_quarter(sprite.rotation, nearest)
    };
    sprite.rotation = wrap_turn(turned);
}

/// Creates the player at its starting point, with its sprite upright, and asks
/// the streamer for one forced reload so that the world around it is fresh.
pub fn spawn_player(signals: &mut Vec<UnloadChunks>) -> (r: PlayerSpawn)
    ensures
        final(signals)@ == old(signals)@.push(UnloadChunks { force: true }),
        r.player == (Player { is_on_ground: false, direction: 0, noclip: false }),
        r.sprite == (PlayerSprite { rotation: 0 }),
        r.position == (Position { x: SPAWN_X, y: SPAWN_Y }),
        r.size == PLAYER_SIZE,
        r.probe_reach == GROUND_PROBE_REACH,
        r.player.wf(),
        r.sprite.wf(),
{
    signals.push(UnloadChunks { force: true });
    PlayerSpawn {
        player: Player { is_on_ground: false, direction: 0, noclip: false },
        sprite: PlayerSprite { rotation: 0 },
        position: Position { x: SPAWN_X, y: SPAWN_Y },
        size: PLAYER_SIZE,
        probe_reach: GROUND_PROBE_REACH,
    }
}

/// Pressing the fly-through key in two frames restores the mode it started
/// in, and with it the same gravity and collision handling as before.
pub proof fn lemma_double_toggle_restores(
    p: Player,
    first: FrameInput,
    second: FrameInput,
    v: Velocity,
    dt: u32,
)
    requires
        first.toggle_noclip,
        second.toggle_noclip,
    ensures
        player_after_input(player_after_input(p, first), second).noclip == p.noclip,
        collides(player_after_input(player_after_input(p, first), second)) == collides(p),
        velocity_after_gravity(player_after_input(player_after_input(p, first), second), v, dt)
            == velocity_after_gravity(p, v, dt),
{
}

/// A frame in which no key is held or pressed.
pub open spec fn idle_input() -> FrameInput {
    FrameInput { toggle_noclip: false, left: false, right: false, up: false, down: false }
}

/// The player and its velocity after `n` frames without input.
pub open spec fn idle_frames(p: Player, v: Velocity, n: nat) -> (Player, Velocity)
    decreases n,
{
    if n == 0 {
        (p, v)
    } else {
        idle_frames(
            player_after_input(p, idle_input()),
            velocity_after_input(p, v, idle_input()),
            (n - 1) as nat,
        )
    }
}

/// On the ground and without input, the player faces neutral after one frame
/// and its horizontal speed reaches zero within as many frames as its
/// starting speed has units.
pub proof fn lemma_idle_comes_to_rest(p: Player, v: Velocity, n: nat)
    requires
        p.is_on_ground,
        n >= 1,
        n >= abs(v.x as int),
    ensures
        idle_frames(p, v, n).0.direction == 0,
        idle_frames(p, v, n).0.is_on_ground,
        idle_frames(p, v, n).1.x == 0,
    decreases n,
{
    let q = player_after_input(p, idle_input());
    let w = velocity_after_input(p, v, idle_input());
    lemma_blend_approaches(v.x as int, 0);
    assert(w.x == blend(v.x as int, 0));
    assert(idle_frames(p, v, n) == idle_frames(q, w, (n - 1) as nat));
    if n == 1 {
        assert(idle_frames(q, w, 0) == (q, w));
    } else {
        lemma_idle_comes_to_rest(q, w, (n - 1) as nat);
    }
}

} // verus!
