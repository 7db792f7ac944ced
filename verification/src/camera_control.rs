//! What the camera controller does in one update, decided from the input state.
//!
//! Holding the middle button orbits around a picked pivot; otherwise the camera flies
//! freely (right button rotates, W/S/A/D/E/Q move). The geometry itself (rays,
//! rotations, distances) is floating point and stays with the caller.
use vstd::prelude::*;

verus! {

/// Which movement keys are held.
#[derive(Clone, Copy, Debug, PartialEq, Eq, Structural)]
pub struct MovementKeys {
    /// W
    pub forward: bool,
    /// S
    pub backward: bool,
    /// A
    pub left: bool,
    /// D
    pub right: bool,
    /// E
    pub up: bool,
    /// Q
    pub down: bool,
}

/// Axis of one camera move.
#[derive(Clone, Copy, Debug, PartialEq, Eq, Structural)]
pub enum CameraAxis {
    Forward,
    Right,
    Up,
}

/// One move of `speed * delta_time` along `axis`, forwards or backwards.
#[derive(Clone, Copy, Debug, PartialEq, Eq, Structural)]
pub struct CameraMove {
    pub axis: CameraAxis,
    pub positive: bool,
}

/// The camera update decided for one frame.
#[derive(Clone, Debug)]
pub enum CameraUpdatePlan {
    /// The middle button is held: no free flight this frame.
    Pivot {
        /// The button was pressed this frame: drop the orbit and request a pivot
        /// raycast at the pointer.
        start_raycast: bool,
        /// Keep orbiting the current pivot.
        continue_orbit: bool,
    },
    /// The middle button is up: drop any pending raycast and orbit, then fly.
    FreeFly {
        /// Rotate by the pointer motion (right button held).
        rotate: bool,
        /// Moves to apply, in order.
        moves: Vec<CameraMove>,
    },
}

pub open spec fn mv(axis: CameraAxis, positive: bool) -> CameraMove {
    CameraMove { axis, positive }
}

/// The moves the held keys ask for, in the order W, S, A, D, E, Q.
pub open spec fn key_moves(k: MovementKeys) -> Seq<CameraMove> {
    (if k.forward { seq![mv(CameraAxis::Forward, true)] } else { Seq::empty() })
    + (if k.backward { seq![mv(CameraAxis::Forward, false)] } else { Seq::empty() })
    + (if k.left { seq![mv(CameraAxis::Right, false)] } else { Seq::empty() })
    + (if k.right { seq![mv(CameraAxis::Right, true)] } else { Seq::empty() })
    + (if k.up { seq![mv(CameraAxis::Up, true)] } else { Seq::empty() })
    + (if k.down { seq![mv(CameraAxis::Up, false)] } else { Seq::empty() })
}

/// Decides the camera update: while the middle button is held, a press this frame
/// starts a pivot raycast (dropping the orbit) and otherwise an active orbit goes
/// on; with the middle button up the camera flies.
pub fn plan_camera_update(
    middle_pressed: bool,
    middle_just_pressed: bool,
    orbit_active: bool,
    right_pressed: bool,
    keys: MovementKeys,
) -> (plan: CameraUpdatePlan)
    ensures
        middle_pressed ==> (plan matches CameraUpdatePlan::Pivot { start_raycast, continue_orbit }
            && start_raycast == middle_just_pressed && continue_orbit == (!middle_just_pressed
            && orbit_active)),
        !middle_pressed ==> (plan matches CameraUpdatePlan::FreeFly { rotate, moves } && rotate
            == right_pressed && moves@ == key_moves(keys)),
{
    if middle_pressed {
        return CameraUpdatePlan::Pivot {
            start_raycast: middle_just_pressed,
            continue_orbit: !middle_just_pressed && orbit_active,
        };
    }
    let mut moves: Vec<CameraMove> = Vec::new();
    if keys.forward {
        moves.push(CameraMove { axis: CameraAxis::Forward, positive: true });
    }
    if keys.backward {
        moves.push(CameraMove { axis: CameraAxis::Forward, positive: false });
    }
    if keys.left {
        moves.push(CameraMove { axis: CameraAxis::Right, positive: false });
    }
    if keys.right {
        moves.push(CameraMove { axis: CameraAxis::Right, positive: true });
    }
    if keys.up {
        moves.push(CameraMove { axis: CameraAxis::Up, positive: true });
    }
    if keys.down {
        moves.push(CameraMove { axis: CameraAxis::Up, positive: false });
    }
    assert(moves@ =~= key_moves(keys));
    CameraUpdatePlan::FreeFly { rotate: right_pressed, moves }
}


proof fn lemma_concat_contains<A>(a: Seq<A>, b: Seq<A>, x: A)
    ensures
        (a + b).contains(x) <==> a.contains(x) || b.contains(x),
{
    if (a + b).contains(x) {
        let k = choose|k: int| 0 <= k < (a + b).len() && (a + b)[k] == x;
        if k < a.len() {
            assert(a[k] == x);
        } else {
            assert(b[k - a.len()] == x);
        }
    }
    if a.contains(x) {
        let k = choose|k: int| 0 <= k < a.len() && a[k] == x;
        assert((a + b)[k] == x);
    }
    if b.contains(x) {
        let k = choose|k: int| 0 <= k < b.len() && b[k] == x;
        assert((a + b)[k + a.len()] == x);
    }
}

proof fn lemma_optional_contains<A>(held: bool, m: A, x: A)
    ensures
        (if held { seq![m] } else { Seq::<A>::empty() }).contains(x) <==> held && x == m,
{
    if held {
        assert(seq![m][0] == m);
    }
}

/// What each movement key does during free flight: W moves forward and S back
/// along the view axis, D moves right and A left, E moves up and Q down. A key's
/// move is planned exactly when the key is held, and each held key gives one move.
pub proof fn lemma_key_moves_directions(k: MovementKeys)
    ensures
        key_moves(k).contains((CameraMove { axis: CameraAxis::Forward, positive: true })) <==> k.forward,
        key_moves(k).contains((CameraMove { axis: CameraAxis::Forward, positive: false })) <==> k.backward,
        key_moves(k).contains((CameraMove { axis: CameraAxis::Right, positive: true })) <==> k.right,
        key_moves(k).contains((CameraMove { axis: CameraAxis::Right, positive: false })) <==> k.left,
        key_moves(k).contains((CameraMove { axis: CameraAxis::Up, positive: true })) <==> k.up,
        key_moves(k).contains((CameraMove { axis: CameraAxis::Up, positive: false })) <==> k.down,
        key_moves(k).len() == (if k.forward { 1int } else { 0 }) + (if k.backward { 1int } else { 0 }) + (
        if k.left { 1int } else { 0 }) + (if k.right { 1int } else { 0 }) + (if k.up { 1int } else { 0 }) + (
        if k.down { 1int } else { 0 }),
{
    let p1: Seq<CameraMove> = if k.forward { seq![mv(CameraAxis::Forward, true)] } else { Seq::empty() };
    let p2: Seq<CameraMove> = if k.backward { seq![mv(CameraAxis::Forward, false)] } else { Seq::empty() };
    let p3: Seq<CameraMove> = if k.left { seq![mv(CameraAxis::Right, false)] } else { Seq::empty() };
    let p4: Seq<CameraMove> = if k.right { seq![mv(CameraAxis::Right, true)] } else { Seq::empty() };
    let p5: Seq<CameraMove> = if k.up { seq![mv(CameraAxis::Up, true)] } else { Seq::empty() };
    let p6: Seq<CameraMove> = if k.down { seq![mv(CameraAxis::Up, false)] } else { Seq::empty() };
    assert(key_moves(k) == p1 + p2 + p3 + p4 + p5 + p6);
    assert forall|x: CameraMove| #[trigger] key_moves(k).contains(x) <==> (
        (k.forward && x == mv(CameraAxis::Forward, true))
        || (k.backward && x == mv(CameraAxis::Forward, false))
        || (k.left && x == mv(CameraAxis::Right, false))
        || (k.right && x == mv(CameraAxis::Right, true))
        || (k.up && x == mv(CameraAxis::Up, true))
        || (k.down && x == mv(CameraAxis::Up, false))) by {
        lemma_concat_contains(p1 + p2 + p3 + p4 + p5, p6, x);
        lemma_concat_contains(p1 + p2 + p3 + p4, p5, x);
        lemma_concat_contains(p1 + p2 + p3, p4, x);
        lemma_concat_contains(p1 + p2, p3, x);
        lemma_concat_contains(p1, p2, x);
        lemma_optional_contains(k.forward, mv(CameraAxis::Forward, true), x);
        lemma_optional_contains(k.backward, mv(CameraAxis::Forward, false), x);
        lemma_optional_contains(k.left, mv(CameraAxis::Right, false), x);
        lemma_optional_contains(k.right, mv(CameraAxis::Right, true), x);
        lemma_optional_contains(k.up, mv(CameraAxis::Up, true), x);
        lemma_optional_contains(k.down, mv(CameraAxis::Up, false), x);
    }
    assert(key_moves(k).contains((CameraMove { axis: CameraAxis::Forward, positive: true })) <==> k.forward);
    assert(key_moves(k).contains((CameraMove { axis: CameraAxis::Forward, positive: false })) <==> k.backward);
    assert(key_moves(k).contains((CameraMove { axis: CameraAxis::Right, positive: true })) <==> k.right);
    assert(key_moves(k).contains((CameraMove { axis: CameraAxis::Right, positive: false })) <==> k.left);
    assert(key_moves(k).contains((CameraMove { axis: CameraAxis::Up, positive: true })) <==> k.up);
    assert(key_moves(k).contains((CameraMove { axis: CameraAxis::Up, positive: false })) <==> k.down);
}

} // verus!
