//! Circle-overlap collision testing.
use vstd::prelude::*;

use crate::actor::Actor;

verus! {

/// Two actors collide iff the squared distance between their positions
/// is strictly less than the squared sum of their bounding radii:
/// touching exactly does not count.
pub open spec fn collide_spec(a: Actor, b: Actor) -> bool {
    let dx = a.point.x - b.point.x;
    let dy = a.point.y - b.point.y;
    let r = a.bbox_size + b.bbox_size;
    r * r > dx * dx + dy * dy
}

/// Collision is symmetric in its two actors.
pub proof fn lemma_collide_symmetric(a: Actor, b: Actor)
    ensures
        collide_spec(a, b) == collide_spec(b, a),
{
    let dx = a.point.x - b.point.x;
    let dy = a.point.y - b.point.y;
    assert(dx * dx == (-dx) * (-dx) && dy * dy == (-dy) * (-dy)) by (nonlinear_arith);
}

/// The executable hit test.
pub fn in_bbox(ac1: &Actor, ac2: &Actor) -> (r: bool)
    requires
        ac1.wf(),
        ac2.wf(),
    ensures
        r == collide_spec(*ac1, *ac2),
{
    let x = (ac1.point.x as i128) - (ac2.point.x as i128);
    let y = (ac1.point.y as i128) - (ac2.point.y as i128);
    let r = (ac1.bbox_size as i128) + (ac2.bbox_size as i128);
    proof {
        let m = 2 * crate::FIX_MAX as int;
        assert(x * x <= m * m && y * y <= m * m && r * r <= m * m) by (nonlinear_arith)
            requires
                -m <= x <= m,
                -m <= y <= m,
                -m <= r <= m,
        ;
        assert(x * x >= 0 && y * y >= 0) by (nonlinear_arith);
    }
    let xx = x * x;
    let yy = y * y;
    let rr = r * r;
    rr > xx + yy
}

} // verus!
