//! The compute half of rendering: what to draw and where, extracted from
//! the physics world. Actual draw-call submission belongs to the
//! windowing layer.

use vstd::prelude::*;

use crate::physics::{center_x, center_y, ObjectType, Physics2D};
use crate::util::Vec2;

verus! {

/// The kinds of pawn the renderer knows a sprite for.
#[derive(PartialEq, Eq, Structural, Debug, Clone, Copy)]
pub enum DrawPawnType {
    Player,
}

/// One pawn to draw: its world position, rotation, and sprite kind.
#[derive(PartialEq, Eq, Structural, Debug, Clone, Copy)]
pub struct PawnDrawData {
    pub position: Vec2,
    pub rotation: i64,
    pub pawn_type: DrawPawnType,
}

/// An axis-aligned bounding box for debug-drawing a collider.
#[derive(PartialEq, Eq, Structural, Debug, Clone, Copy)]
pub struct Aabb {
    pub mins: Vec2,
    pub extents: Vec2,
}

/// The pawns among the first `n` colliders: every `Player`-tagged
/// collider, at its world center, unrotated.
pub open spec fn pawn_list(w: Physics2D, n: int) -> Seq<PawnDrawData>
    decreases n,
{
    if n <= 0 {
        Seq::empty()
    } else {
        let rest = pawn_list(w, n - 1);
        if w.colliders@[n - 1].tag == ObjectType::Player {
            rest.push(
                PawnDrawData {
                    position: Vec2 { x: center_x(w, n - 1) as i64, y: center_y(w, n - 1) as i64 },
                    rotation: 0,
                    pawn_type: DrawPawnType::Player,
                },
            )
        } else {
            rest
        }
    }
}

/// The bounding box of collider `k`: its box center minus the
/// half-extents, with the full extents alongside.
pub open spec fn collider_aabb(w: Physics2D, k: int) -> Aabb {
    Aabb {
        mins: Vec2 {
            x: (center_x(w, k) - w.colliders@[k].half_extents.x) as i64,
            y: (center_y(w, k) - w.colliders@[k].half_extents.y) as i64,
        },
        extents: Vec2 {
            x: (2 * w.colliders@[k].half_extents.x) as i64,
            y: (2 * w.colliders@[k].half_extents.y) as i64,
        },
    }
}

/// Collect the draw data of every pawn in the world.
pub fn pawn_draw_data(w: &Physics2D) -> (r: Vec<PawnDrawData>)
    requires
        w.wf(),
    ensures
        r@ == pawn_list(*w, w.colliders@.len() as int),
{
    let m = w.colliders.len();
    let mut r: Vec<PawnDrawData> = Vec::new();
    let mut k: usize = 0;
    while k < m
        invariant
            w.wf(),
            m == w.colliders@.len(),
            k <= m,
            r@ == pawn_list(*w, k as int),
        decreases m - k,
    {
        let c = w.colliders[k];
        match c.tag {
            ObjectType::Player => {
                let b = w.bodies[c.body.index];
                r.push(
                    PawnDrawData {
                        position: Vec2 {
                            x: b.position.x + c.offset.x,
                            y: b.position.y + c.offset.y,
                        },
                        rotation: 0,
                        pawn_type: DrawPawnType::Player,
                    },
                );
            },
            _ => (),
        }
        k += 1;
    }
    r
}

/// Collect the bounding box of every collider, for debug rendering.
pub fn collider_aabbs(w: &Physics2D) -> (r: Vec<Aabb>)
    requires
        w.wf(),
    ensures
        r@.len() == w.colliders@.len(),
        forall|k: int| 0 <= k < r@.len() ==> #[trigger] r@[k] == collider_aabb(*w, k),
{
    let m = w.colliders.len();
    let mut r: Vec<Aabb> = Vec::new();
    let mut k: usize = 0;
    while k < m
        invariant
            w.wf(),
            m == w.colliders@.len(),
            k <= m,
            r@.len() == k,
            forall|i: int| 0 <= i < k ==> #[trigger] r@[i] == collider_aabb(*w, i),
        decreases m - k,
    {
        let c = w.colliders[k];
        let b = w.bodies[c.body.index];
        r.push(
            Aabb {
                mins: Vec2 {
                    x: b.position.x + c.offset.x - c.half_extents.x,
                    y: b.position.y + c.offset.y - c.half_extents.y,
                },
                extents: Vec2 { x: 2 * c.half_extents.x, y: 2 * c.half_extents.y },
            },
        );
        k += 1;
    }
    r
}

} // verus!
