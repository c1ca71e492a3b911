//! Reference frame resolver: parent-before-child validation and the single forward
//! pass that composes local offsets into absolute positions.
use vstd::prelude::*;
use crate::units::{LOCAL_LIMIT, MAX_BODIES, WORLD_LIMIT, Vec3, within, triple};
use crate::body::Body;

verus! {

/// Every parent link points to an earlier body.
pub open spec fn parents_ordered(bodies: Seq<Body>) -> bool {
    forall|i: int| 0 <= i < bodies.len() && (#[trigger] bodies[i].parent).is_some()
        ==> bodies[i].parent.unwrap() < i
}

/// The first index whose parent is not earlier than itself, if any.
pub open spec fn first_misplaced(bodies: Seq<Body>, i: int) -> bool {
    &&& 0 <= i < bodies.len()
    &&& bodies[i].parent.is_some()
    &&& bodies[i].parent.unwrap() >= i
    &&& forall|j: int| 0 <= j < i && (#[trigger] bodies[j].parent).is_some()
        ==> bodies[j].parent.unwrap() < j
}

/// Absolute position of body `i`: its local offset plus its parent's absolute position.
pub open spec fn world_of(bodies: Seq<Body>, locals: Seq<Vec3>, i: int) -> (int, int, int)
    decreases i,
{
    if i < 0 {
        (0, 0, 0)
    } else {
        let l = triple(locals[i]);
        match bodies[i].parent {
            Some(p) => if p < i {
                let w = world_of(bodies, locals, p as int);
                (l.0 + w.0, l.1 + w.1, l.2 + w.2)
            } else {
                l
            },
            None => l,
        }
    }
}

/// Checks the parent-before-child ordering: `Ok` exactly when every parent index is
/// below its child's, else the first index that breaks it.
pub fn check_parent_order(bodies: &Vec<Body>) -> (r: Result<(), usize>)
    ensures
        r is Ok <==> parents_ordered(bodies@),
        r matches Err(i) ==> first_misplaced(bodies@, i as int),
{
    let mut i: usize = 0;
    while i < bodies.len()
        invariant
            i <= bodies.len(),
            forall|j: int| 0 <= j < i && (#[trigger] bodies@[j].parent).is_some()
                ==> bodies@[j].parent.unwrap() < j,
        decreases bodies.len() - i,
    {
        if let Some(p) = bodies[i].parent {
            if p >= i {
                return Err(i);
            }
        }
        i += 1;
    }
    Ok(())
}

/// Composes local offsets into absolute positions in one forward pass:
/// `world[i] = local[i] + world[parent[i]]`, or `local[i]` for a root.
pub fn resolve_world(bodies: &Vec<Body>, locals: &Vec<Vec3>) -> (r: Vec<Vec3>)
    requires
        bodies.len() == locals.len(),
        bodies.len() <= MAX_BODIES,
        parents_ordered(bodies@),
        forall|i: int| 0 <= i < locals.len() ==> within(#[trigger] locals@[i], LOCAL_LIMIT as int),
    ensures
        r.len() == locals.len(),
        forall|i: int| 0 <= i < r.len() ==> triple(#[trigger] r@[i]) == world_of(bodies@, locals@, i),
        forall|i: int| 0 <= i < r.len() ==> within(#[trigger] r@[i], WORLD_LIMIT as int),
{
    let mut out: Vec<Vec3> = Vec::new();
    let mut i: usize = 0;
    while i < locals.len()
        invariant
            i <= locals.len(),
            bodies.len() == locals.len(),
            locals.len() <= MAX_BODIES,
            parents_ordered(bodies@),
            forall|k: int| 0 <= k < locals.len() ==> within(#[trigger] locals@[k], LOCAL_LIMIT as int),
            out.len() == i,
            forall|k: int| 0 <= k < i ==> triple(#[trigger] out@[k]) == world_of(bodies@, locals@, k),
            forall|k: int| 0 <= k < i ==> within(#[trigger] out@[k], (k + 1) * LOCAL_LIMIT),
        decreases locals.len() - i,
    {
        let l = locals[i];
        let ghost bi = bodies@[i as int];
        assert(bodies@[i as int].parent.is_some() ==> bodies@[i as int].parent.unwrap() < i);
        let w = match bodies[i].parent {
            Some(p) => {
                let pw = out[p];
                assert(within(pw, (p + 1) * LOCAL_LIMIT));
                assert((p + 1) * LOCAL_LIMIT + LOCAL_LIMIT <= (i + 1) * LOCAL_LIMIT) by (nonlinear_arith)
                    requires
                        p < i,
                        LOCAL_LIMIT > 0,
                ;
                assert((i + 1) * LOCAL_LIMIT <= WORLD_LIMIT) by (nonlinear_arith)
                    requires
                        i < MAX_BODIES,
                        LOCAL_LIMIT == 70_368_744_177_664,
                        MAX_BODIES == 32_768,
                        WORLD_LIMIT == 2_305_843_009_213_693_952,
                ;
                Vec3 { x: l.x + pw.x, y: l.y + pw.y, z: l.z + pw.z }
            },
            None => {
                assert(LOCAL_LIMIT <= (i + 1) * LOCAL_LIMIT) by (nonlinear_arith)
                    requires
                        LOCAL_LIMIT > 0,
                ;
                l
            },
        };
        out.push(w);
        i += 1;
    }
    assert forall|k: int| 0 <= k < out.len() implies within(#[trigger] out@[k], WORLD_LIMIT as int) by {
        assert((k + 1) * LOCAL_LIMIT <= WORLD_LIMIT) by (nonlinear_arith)
            requires
                0 <= k < MAX_BODIES,
                LOCAL_LIMIT == 70_368_744_177_664,
                MAX_BODIES == 32_768,
                WORLD_LIMIT == 2_305_843_009_213_693_952,
        ;
    }
    out
}

} // verus!
