use player_controller::chunk::{
    chunk_position, is_inside_valid_chunk, set_chunk_pos, ChunkCoord, CurrentChunkPosition,
    UnloadChunks,
};
use player_controller::collision::{
    solve_collisions, ContactData, ContactManifold, Contacts, PlayerBody, PlayerSide,
};
use player_controller::player::{FrameInput, Player};
use player_controller::plugin::PlayerPlugin;
use player_controller::units::{Normal, Position, Velocity};

fn at(x: i64, y: i64) -> Position {
    Position { x, y }
}

fn body() -> PlayerBody {
    PlayerBody { position: at(0, 0), velocity: Velocity { x: 500, y: -1000 } }
}

fn pair(side: PlayerSide, during: bool, n1: (i32, i32), n2: (i32, i32), pens: &[i32]) -> Contacts {
    Contacts {
        side,
        during_current_substep: during,
        manifolds: vec![ContactManifold {
            normal1: Normal { x: n1.0, y: n1.1 },
            normal2: Normal { x: n2.0, y: n2.1 },
            contacts: pens.iter().map(|p| ContactData { penetration: *p }).collect(),
        }],
    }
}

#[test]
fn chunk_position_floors() {
    assert_eq!(chunk_position(&at(0, 0)), ChunkCoord { x: 0, y: 0 });
    assert_eq!(chunk_position(&at(1_023_999, 1_024_000)), ChunkCoord { x: 0, y: 1 });
    assert_eq!(chunk_position(&at(-1, -1_024_000)), ChunkCoord { x: -1, y: -1 });
    assert_eq!(chunk_position(&at(-1_024_001, 3_072_000)), ChunkCoord { x: -2, y: 3 });
}

#[test]
fn crossing_a_boundary_signals_once() {
    let mut current = CurrentChunkPosition::new();
    let mut signals = Vec::new();
    set_chunk_pos(&mut current, &at(1_024_000, 5), &mut signals);
    assert_eq!(signals, vec![UnloadChunks { force: false }]);
    assert_eq!(current.position, ChunkCoord { x: 1, y: 0 });
    set_chunk_pos(&mut current, &at(1_024_000, 5), &mut signals);
    assert_eq!(signals.len(), 1);
}

#[test]
fn staying_in_a_chunk_signals_nothing() {
    let mut current = CurrentChunkPosition::new();
    let mut signals = Vec::new();
    set_chunk_pos(&mut current, &at(1_000_000, -0), &mut signals);
    assert!(signals.is_empty());
    assert_eq!(current.position, ChunkCoord { x: 0, y: 0 });
}

#[test]
fn valid_chunk_gate() {
    let current = CurrentChunkPosition { position: ChunkCoord { x: 2, y: -1 } };
    assert!(!is_inside_valid_chunk(&current, &vec![]));
    assert!(!is_inside_valid_chunk(&current, &vec![ChunkCoord { x: -1, y: 2 }]));
    assert!(is_inside_valid_chunk(
        &current,
        &vec![ChunkCoord { x: 0, y: 0 }, ChunkCoord { x: 2, y: -1 }]
    ));
}

#[test]
fn vertical_contact_stops_vertical_motion() {
    let mut b = body();
    solve_collisions(&mut b, &vec![pair(PlayerSide::First, true, (0, -1000), (0, 1000), &[250])]);
    assert_eq!(b.position, at(0, 250));
    assert_eq!(b.velocity, Velocity { x: 500, y: 0 });
}

#[test]
fn second_side_uses_second_normal() {
    let mut b = body();
    solve_collisions(&mut b, &vec![pair(PlayerSide::Second, true, (0, -1000), (1000, 0), &[40, 0, -3, 2])]);
    assert_eq!(b.position, at(-42, 0));
    assert_eq!(b.velocity, Velocity { x: 0, y: -1000 });
}

#[test]
fn skipped_pairs_change_nothing() {
    let mut b = body();
    solve_collisions(
        &mut b,
        &vec![
            pair(PlayerSide::First, false, (0, -1000), (0, 1000), &[250]),
            pair(PlayerSide::Neither, true, (0, -1000), (0, 1000), &[250]),
            pair(PlayerSide::First, true, (0, -1000), (0, 1000), &[0, -7]),
        ],
    );
    assert_eq!(b, body());
}

#[test]
fn diagonal_contact_rounds_toward_zero() {
    let mut b = body();
    solve_collisions(&mut b, &vec![pair(PlayerSide::First, true, (707, -707), (0, 0), &[1000])]);
    assert_eq!(b.position, at(-707, 707));
    assert_eq!(b.velocity, Velocity { x: 0, y: 0 });
    let mut b = body();
    solve_collisions(&mut b, &vec![pair(PlayerSide::First, true, (333, 0), (0, 0), &[10])]);
    assert_eq!(b.position, at(-3, 0));
    assert_eq!(b.velocity, Velocity { x: 0, y: -1000 });
}

#[test]
fn push_saturates_at_the_edge() {
    let mut b = PlayerBody { position: at(i64::MAX - 1, 0), velocity: Velocity { x: 0, y: 0 } };
    solve_collisions(&mut b, &vec![pair(PlayerSide::First, true, (-1000, 0), (0, 0), &[50])]);
    assert_eq!(b.position.x, i64::MAX);
}

#[test]
fn plugin_runs_a_frame_where_loaded() {
    let mut signals = Vec::new();
    let mut w = PlayerPlugin::build(&mut signals);
    assert_eq!(signals, vec![UnloadChunks { force: true }]);
    let loaded = vec![ChunkCoord { x: 0, y: 0 }];
    let right = FrameInput { toggle_noclip: false, left: false, right: true, up: false, down: false };
    w.frame_update(&right, &vec![], 16_667, &loaded, &mut signals);
    assert_eq!(w.body.velocity, Velocity { x: 80_000, y: -52_305 });
    assert_eq!(w.player, Player { is_on_ground: false, direction: 1, noclip: false });
    assert_eq!(w.sprite.rotation, 3_898_139);
    assert_eq!(signals.len(), 1);
}

#[test]
fn plugin_waits_for_an_unloaded_chunk() {
    let mut signals = Vec::new();
    let mut w = PlayerPlugin::build(&mut signals);
    w.body.position = at(-5, 0);
    let before = w;
    let right = FrameInput { toggle_noclip: false, left: false, right: true, up: false, down: false };
    w.frame_update(&right, &vec![], 16_667, &vec![], &mut signals);
    assert_eq!(w.player, before.player);
    assert_eq!(w.body, before.body);
    assert_eq!(w.chunk.position, ChunkCoord { x: -1, y: 0 });
    assert_eq!(signals, vec![UnloadChunks { force: true }, UnloadChunks { force: false }]);
}

#[test]
fn plugin_substep_respects_fly_through() {
    let mut signals = Vec::new();
    let mut w = PlayerPlugin::build(&mut signals);
    let loaded = vec![ChunkCoord { x: 0, y: 0 }];
    let cs = vec![pair(PlayerSide::First, true, (0, -1000), (0, 1000), &[250])];
    w.player.noclip = true;
    w.substep(&cs, &loaded);
    assert_eq!(w.body.position, at(16_000, 50_000));
    w.player.noclip = false;
    w.substep(&cs, &vec![]);
    assert_eq!(w.body.position, at(16_000, 50_000));
    w.substep(&cs, &loaded);
    assert_eq!(w.body.position, at(16_000, 50_250));
}
