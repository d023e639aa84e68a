use vstd::prelude::*;
use crate::units::{Position, SUBPIXELS, TILE_SIZE};

verus! {

/// Side of one chunk, in tiles.
pub const CHUNK_SIZE: i64 = 32;

/// Side of one chunk, in sub-pixel steps.
pub const CHUNK_SPAN: i64 = SUBPIXELS * TILE_SIZE * CHUNK_SIZE;

/// Coordinates of a chunk of the world grid.
#[derive(Clone, Copy, Debug, PartialEq, Eq, Structural)]
pub struct ChunkCoord {
    pub x: i64,
    pub y: i64,
}

/// The chunk the player was last seen in.
#[derive(Clone, Copy, Debug, PartialEq, Eq, Structural)]
pub struct CurrentChunkPosition {
    pub position: ChunkCoord,
}

/// A request to the chunk streamer to unload and reload the world around the
/// player; `force` asks for a reload even where the chunk is unchanged.
#[derive(Clone, Copy, Debug, PartialEq, Eq, Structural)]
pub struct UnloadChunks {
    pub force: bool,
}

/// The chunk holding a world coordinate: floor division by the chunk span.
pub open spec fn chunk_index(v: int) -> int {
    v / (CHUNK_SPAN as int)
}

/// The chunk holding a world position.
pub open spec fn chunk_of(p: Position) -> ChunkCoord {
    ChunkCoord { x: chunk_index(p.x as int) as i64, y: chunk_index(p.y as int) as i64 }
}

/// What one tracking step sends to the streamer: one non-forced request when
/// the player has left the recorded chunk, nothing otherwise.
pub open spec fn chunk_signals(current: CurrentChunkPosition, p: Position) -> Seq<UnloadChunks> {
    if current.position != chunk_of(p) {
        seq![UnloadChunks { force: false }]
    } else {
        seq![]
    }
}

/// The chunk record after one tracking step.
pub open spec fn recorded_after(current: CurrentChunkPosition, p: Position) -> CurrentChunkPosition {
    CurrentChunkPosition { position: chunk_of(p) }
}

/// The chunk index of one coordinate, rounding toward negative infinity.
fn chunk_index_of(v: i64) -> (r: i64)
    ensures
        r == chunk_index(v as int),
{
    assert(CHUNK_SPAN == 1_024_000);
    assert(i64::MIN <= (v as int) / 1_024_000 <= i64::MAX) by (nonlinear_arith)
        requires
            i64::MIN <= v <= i64::MAX,
    ;
    match v.checked_div_euclid(CHUNK_SPAN) {
        Some(q) => q,
        None => {
            assert(false);
            0
        },
    }
}

/// The chunk holding a world position.
pub fn chunk_position(p: &Position) -> (r: ChunkCoord)
    ensures
        r == chunk_of(*p),
{
    ChunkCoord { x: chunk_index_of(p.x), y: chunk_index_of(p.y) }
}

impl CurrentChunkPosition {
    /// The record at start-up: the chunk at the origin.
    pub fn new() -> (r: CurrentChunkPosition)
        ensures
            r.position == (ChunkCoord { x: 0, y: 0 }),
    {
        CurrentChunkPosition { position: ChunkCoord { x: 0, y: 0 } }
    }
}

/// Whether the recorded chunk is among the loaded ones.
pub fn is_inside_valid_chunk(current: &CurrentChunkPosition, loaded: &Vec<ChunkCoord>) -> (r: bool)
    ensures
        r == loaded@.contains(current.position),
{
    let mut i: usize = 0;
    while i < loaded.len()
        invariant
            i <= loaded@.len(),
            forall|j: int| 0 <= j < i ==> loaded@[j] != current.position,
        decreases loaded@.len() - i,
    {
        if loaded[i] == current.position {
            return true;
        }
        i = i + 1;
    }
    false
}

/// Records the chunk the player stands in, and asks the streamer for a
/// non-forced reload when that chunk differs from the recorded one.
pub fn set_chunk_pos(
    current: &mut CurrentChunkPosition,
    player_pos: &Position,
    signals: &mut Vec<UnloadChunks>,
)
    ensures
        *final(current) == recorded_after(*old(current), *player_pos),
        final(signals)@ == old(signals)@ + chunk_signals(*old(current), *player_pos),
{
    let now = chunk_position(player_pos);
    if current.position != now {
        signals.push(UnloadChunks { force: false });
        current.position = now;
    }
    assert(final(signals)@ =~= old(signals)@ + chunk_signals(*old(current), *player_pos));
}

/// Crossing into another chunk sends exactly one non-forced reload request and
/// records the new chunk; a second step from the same position sends nothing.
pub proof fn lemma_crossing_signals_once(current: CurrentChunkPosition, p: Position)
    requires
        current.position != chunk_of(p),
    ensures
        chunk_signals(current, p) == seq![UnloadChunks { force: false }],
        recorded_after(current, p).position == chunk_of(p),
        chunk_signals(recorded_after(current, p), p) == Seq::<UnloadChunks>::empty(),
{
    assert(chunk_signals(recorded_after(current, p), p) =~= Seq::<UnloadChunks>::empty());
}

} // verus!
