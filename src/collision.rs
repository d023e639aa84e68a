use vstd::prelude::*;
use crate::units::{saturated, saturating_sum, Normal, Position, Velocity, NORMAL_SCALE};

verus! {

/// The player's place and motion, as the collision pass reads and moves them.
#[derive(Clone, Copy, Debug, PartialEq, Eq, Structural)]
pub struct PlayerBody {
    pub position: Position,
    pub velocity: Velocity,
}

/// One contact point; a positive penetration is an overlap to undo.
#[derive(Clone, Copy, Debug, PartialEq, Eq, Structural)]
pub struct ContactData {
    pub penetration: i32,
}

/// Contact points that share one normal; `normal1` points out of the first
/// shape of the pair, `normal2` out of the second.
#[derive(Debug)]
pub struct ContactManifold {
    pub normal1: Normal,
    pub normal2: Normal,
    pub contacts: Vec<ContactData>,
}

/// Which shape of a colliding pair is the player's.
#[derive(Clone, Copy, Debug, PartialEq, Eq, Structural)]
pub enum PlayerSide {
    First,
    Second,
    Neither,
}

/// A colliding pair, as the physics step reports it.
#[derive(Debug)]
pub struct Contacts {
    pub side: PlayerSide,
    pub during_current_substep: bool,
    pub manifolds: Vec<ContactManifold>,
}

/// The product `n * pen` scaled down by `NORMAL_SCALE`, rounded toward zero.
pub open spec fn push_amount(n: int, pen: int) -> int {
    let p = n * pen;
    if p >= 0 {
        p / (NORMAL_SCALE as int)
    } else {
        -((-p) / (NORMAL_SCALE as int))
    }
}

/// The body after undoing one contact along the normal `(nx, ny)`: pushed out
/// by the penetration, with the velocity along each axis that the normal
/// touches set to zero. A contact without penetration changes nothing.
pub open spec fn resolve_contact(b: PlayerBody, nx: int, ny: int, pen: int) -> PlayerBody {
    if pen <= 0 {
        b
    } else {
        PlayerBody {
            position: Position {
                x: saturated(b.position.x + push_amount(nx, pen)) as i64,
                y: saturated(b.position.y + push_amount(ny, pen)) as i64,
            },
            velocity: Velocity {
                x: if nx != 0 {
                    0
                } else {
                    b.velocity.x
                },
                y: if ny != 0 {
                    0
                } else {
                    b.velocity.y
                },
            },
        }
    }
}

/// The body after undoing each contact point in turn along one normal.
pub open spec fn resolve_points(b: PlayerBody, nx: int, ny: int, pts: Seq<ContactData>) -> PlayerBody
    decreases pts.len(),
{
    if pts.len() == 0 {
        b
    } else {
        resolve_contact(
            resolve_points(b, nx, ny, pts.drop_last()),
            nx,
            ny,
            pts.last().penetration as int,
        )
    }
}

/// The normal of a manifold, turned to point out of the surface and into the player.
pub open spec fn facing_normal(side: PlayerSide, m: ContactManifold) -> (int, int) {
    if side == PlayerSide::First {
        (-m.normal1.x, -m.normal1.y)
    } else {
        (-m.normal2.x, -m.normal2.y)
    }
}

/// The body after undoing the contacts of each manifold in turn.
pub open spec fn resolve_manifolds(b: PlayerBody, side: PlayerSide, ms: Seq<ContactManifold>) -> PlayerBody
    decreases ms.len(),
{
    if ms.len() == 0 {
        b
    } else {
        let n = facing_normal(side, ms.last());
        resolve_points(resolve_manifolds(b, side, ms.drop_last()), n.0, n.1, ms.last().contacts@)
    }
}

/// Whether the pass acts on a pair: it touches the player in this sub-step.
pub open spec fn acts_on(c: Contacts) -> bool {
    c.during_current_substep && c.side != PlayerSide::Neither
}

/// The body after the collision pass over the given pairs, in order.
pub open spec fn resolve_pairs(b: PlayerBody, cs: Seq<Contacts>) -> PlayerBody
    decreases cs.len(),
{
    if cs.len() == 0 {
        b
    } else {
        let prev = resolve_pairs(b, cs.drop_last());
        if acts_on(cs.last()) {
            resolve_manifolds(prev, cs.last().side, cs.last().manifolds@)
        } else {
            prev
        }
    }
}

/// Undoes the contacts of one manifold along the normal `(nx, ny)`.
fn resolve_manifold_points(body: &mut PlayerBody, nx: i64, ny: i64, contacts: &Vec<ContactData>)
    requires
        -0x8000_0000 <= nx <= 0x8000_0000,
        -0x8000_0000 <= ny <= 0x8000_0000,
    ensures
        *final(body) == resolve_points(*old(body), nx as int, ny as int, contacts@),
{
    let ghost b0 = *body;
    let mut i: usize = 0;
    while i < contacts.len()
        invariant
            i <= contacts@.len(),
            -0x8000_0000 <= nx <= 0x8000_0000,
            -0x8000_0000 <= ny <= 0x8000_0000,
            *body == resolve_points(b0, nx as int, ny as int, contacts@.take(i as int)),
        decreases contacts@.len() - i,
    {
        let pen: i64 = contacts[i].penetration as i64;
        assert(contacts@.take(i + 1).drop_last() =~= contacts@.take(i as int));
        if pen > 0 {
            assert(-0x4000_0000_0000_0000 <= nx * pen <= 0x4000_0000_0000_0000) by (nonlinear_arith)
                requires
                    -0x8000_0000 <= nx <= 0x8000_0000,
                    0 < pen < 0x8000_0000,
            ;
            assert(-0x4000_0000_0000_0000 <= ny * pen <= 0x4000_0000_0000_0000) by (nonlinear_arith)
                requires
                    -0x8000_0000 <= ny <= 0x8000_0000,
                    0 < pen < 0x8000_0000,
            ;
            let px: i64 = nx * pen;
            let py: i64 = ny * pen;
            let dx: i64 = if px >= 0 {
                px / NORMAL_SCALE
            } else {
                -((-px) / NORMAL_SCALE)
            };
            let dy: i64 = if py >= 0 {
                py / NORMAL_SCALE
            } else {
                -((-py) / NORMAL_SCALE)
            };
            body.position.x = saturating_sum(body.position.x, dx);
            body.position.y = saturating_sum(body.position.y, dy);
            if ny != 0 {
                body.velocity.y = 0;
            }
            if nx != 0 {
                body.velocity.x = 0;
            }
        }
        i = i + 1;
    }
    assert(contacts@.take(contacts@.len() as int) =~= contacts@);
}

/// Undoes the contacts of each manifold of a pair that touches the player.
fn resolve_pair(body: &mut PlayerBody, side: PlayerSide, manifolds: &Vec<ContactManifold>)
    ensures
        *final(body) == resolve_manifolds(*old(body), side, manifolds@),
{
    let ghost b0 = *body;
    let mut i: usize = 0;
    while i < manifolds.len()
        invariant
            i <= manifolds@.len(),
            *body == resolve_manifolds(b0, side, manifolds@.take(i as int)),
        decreases manifolds@.len() - i,
    {
        let m = &manifolds[i];
        assert(manifolds@.take(i + 1).drop_last() =~= manifolds@.take(i as int));
        let (nx, ny) = match side {
            PlayerSide::First => (-(m.normal1.x as i64), -(m.normal1.y as i64)),
            _ => (-(m.normal2.x as i64), -(m.normal2.y as i64)),
        };
        resolve_manifold_points(body, nx, ny, &m.contacts);
        i = i + 1;
    }
    assert(manifolds@.take(manifolds@.len() as int) =~= manifolds@);
}

/// The collision pass of one physics sub-step: for each pair that touches the
/// player during this sub-step, pushes the player out of every penetrating
/// contact along the contact normal and stops its motion along each axis
/// that normal touches.
pub fn solve_collisions(body: &mut PlayerBody, collisions: &Vec<Contacts>)
    ensures
        *final(body) == resolve_pairs(*old(body), collisions@),
{
    let ghost b0 = *body;
    let mut i: usize = 0;
    while i < collisions.len()
        invariant
            i <= collisions@.len(),
            *body == resolve_pairs(b0, collisions@.take(i as int)),
        decreases collisions@.len() - i,
    {
        let c = &collisions[i];
        assert(collisions@.take(i + 1).drop_last() =~= collisions@.take(i as int));
        if c.during_current_substep && c.side != PlayerSide::Neither {
            resolve_pair(body, c.side, &c.manifolds);
        }
        i = i + 1;
    }
    assert(collisions@.take(collisions@.len() as int) =~= collisions@);
}

/// A penetrating contact whose normal is purely vertical stops all vertical
/// motion, keeps the horizontal one, and moves the body along the normal by
/// exactly the penetration.
pub proof fn lemma_vertical_contact(b: PlayerBody, ny: int, pen: int)
    requires
        ny == NORMAL_SCALE || ny == -NORMAL_SCALE,
        pen > 0,
        i64::MIN <= b.position.y + (if ny > 0 { pen } else { -pen }) <= i64::MAX,
    ensures
        resolve_contact(b, 0, ny, pen).velocity.y == 0,
        resolve_contact(b, 0, ny, pen).velocity.x == b.velocity.x,
        resolve_contact(b, 0, ny, pen).position.y == b.position.y + (if ny > 0 { pen } else { -pen }),
        resolve_contact(b, 0, ny, pen).position.x == b.position.x,
{
    assert(push_amount(0, pen) == 0);
    if ny == NORMAL_SCALE {
        assert(ny * pen == NORMAL_SCALE * pen) by (nonlinear_arith)
            requires
                ny == NORMAL_SCALE,
        ;
        assert((NORMAL_SCALE * pen) / (NORMAL_SCALE as int) == pen) by (nonlinear_arith)
            requires
                NORMAL_SCALE == 1000,
        ;
        assert(push_amount(ny, pen) == pen);
    } else {
        assert(-(ny * pen) == NORMAL_SCALE * pen) by (nonlinear_arith)
            requires
                ny == -NORMAL_SCALE,
        ;
        assert((NORMAL_SCALE * pen) / (NORMAL_SCALE as int) == pen) by (nonlinear_arith)
            requires
                NORMAL_SCALE == 1000,
        ;
        assert(push_amount(ny, pen) == -pen);
    }
}

} // verus!
