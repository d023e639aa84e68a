use vstd::prelude::*;
use crate::chunk::{
    chunk_signals, is_inside_valid_chunk, recorded_after, set_chunk_pos, ChunkCoord,
    CurrentChunkPosition, UnloadChunks,
};
use crate::collision::{resolve_pairs, solve_collisions, Contacts, PlayerBody};
use crate::player::{
    any_support, apply_gravity, collides, is_not_in_noclip, player_after_input, player_input,
    rotate_player, sprite_after, spawn_player, update_grounded, velocity_after_gravity,
    velocity_after_input, FrameInput, Player, PlayerSprite, ShapeHit,
};
use crate::units::Velocity;

verus! {

/// The player systems together with the state they share, run in the order
/// the engine schedules them.
#[derive(Clone, Copy, Debug, PartialEq, Eq, Structural)]
pub struct PlayerPlugin {
    pub player: Player,
    pub sprite: PlayerSprite,
    pub body: PlayerBody,
    pub chunk: CurrentChunkPosition,
}

impl PlayerPlugin {
    /// The player's facing and the sprite's angle are in range.
    pub open spec fn wf(&self) -> bool {
        self.player.wf() && self.sprite.wf()
    }
}

/// The state after the per-frame systems: input, gravity, ground detection and
/// sprite rotation, all only while the recorded chunk is loaded; then chunk
/// tracking, which runs every frame.
pub open spec fn frame_after(
    w: PlayerPlugin,
    input: FrameInput,
    hits: Seq<ShapeHit>,
    dt: u32,
    loaded: Seq<ChunkCoord>,
) -> PlayerPlugin {
    let moved = if loaded.contains(w.chunk.position) {
        let steered = player_after_input(w.player, input);
        let v = velocity_after_gravity(
            steered,
            velocity_after_input(w.player, w.body.velocity, input),
            dt,
        );
        let landed = Player { is_on_ground: any_support(hits), ..steered };
        PlayerPlugin {
            player: landed,
            sprite: sprite_after(w.sprite, landed, dt),
            body: PlayerBody { position: w.body.position, velocity: v },
            chunk: w.chunk,
        }
    } else {
        w
    };
    PlayerPlugin { chunk: recorded_after(moved.chunk, moved.body.position), ..moved }
}

/// The state after the collision pass of one sub-step, which runs only outside
/// fly-through mode and while the recorded chunk is loaded.
pub open spec fn substep_after(w: PlayerPlugin, cs: Seq<Contacts>, loaded: Seq<ChunkCoord>) -> PlayerPlugin {
    if collides(w.player) && loaded.contains(w.chunk.position) {
        PlayerPlugin { body: resolve_pairs(w.body, cs), ..w }
    } else {
        w
    }
}

impl PlayerPlugin {
    /// Sets up the chunk record at the origin and spawns the player, which
    /// sends one forced reload request.
    pub fn build(signals: &mut Vec<UnloadChunks>) -> (r: PlayerPlugin)
        ensures
            final(signals)@ == old(signals)@.push(UnloadChunks { force: true }),
            r.wf(),
            r.player == (Player { is_on_ground: false, direction: 0, noclip: false }),
            r.sprite == (PlayerSprite { rotation: 0 }),
            r.body.velocity == (Velocity { x: 0, y: 0 }),
            r.chunk.position == (ChunkCoord { x: 0, y: 0 }),
    {
        let chunk = CurrentChunkPosition::new();
        let spawned = spawn_player(signals);
        PlayerPlugin {
            player: spawned.player,
            sprite: spawned.sprite,
            body: PlayerBody { position: spawned.position, velocity: Velocity { x: 0, y: 0 } },
            chunk,
        }
    }

    /// Runs the per-frame systems in order for a frame of `dt` microseconds.
    pub fn frame_update(
        &mut self,
        input: &FrameInput,
        hits: &Vec<ShapeHit>,
        dt: u32,
        loaded: &Vec<ChunkCoord>,
        signals: &mut Vec<UnloadChunks>,
    )
        requires
            old(self).wf(),
        ensures
            *final(self) == frame_after(*old(self), *input, hits@, dt, loaded@),
            final(signals)@ == old(signals)@ + chunk_signals(
                old(self).chunk,
                old(self).body.position,
            ),
            final(self).wf(),
    {
        if is_inside_valid_chunk(&self.chunk, loaded) {
            player_input(&mut self.player, &mut self.body.velocity, input);
            apply_gravity(&self.player, &mut self.body.velocity, dt);
            update_grounded(&mut self.player, hits);
            rotate_player(&self.player, &mut self.sprite, dt);
        }
        set_chunk_pos(&mut self.chunk, &self.body.position, signals);
    }

    /// Runs the collision pass of one physics sub-step.
    pub fn substep(&mut self, collisions: &Vec<Contacts>, loaded: &Vec<ChunkCoord>)
        ensures
            *final(self) == substep_after(*old(self), collisions@, loaded@),
    {
        if is_not_in_noclip(&self.player) && is_inside_valid_chunk(&self.chunk, loaded) {
            solve_collisions(&mut self.body, collisions);
        }
    }
}

} // verus!
