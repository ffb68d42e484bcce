use vstd::prelude::*;
use crate::geometry::{Dir3, Fixed3};

verus! {

/// The movement keys held this tick.
#[derive(Clone, Copy, Debug, PartialEq, Eq, Structural)]
pub struct MoveKeys {
    pub forward: bool,
    pub backward: bool,
    pub left: bool,
    pub right: bool,
}

/// The horizontal axes of the active camera, as unit vectors in millionths.
#[derive(Clone, Copy, Debug, PartialEq, Eq, Structural)]
pub struct CameraBasis {
    pub forward: Dir3,
    pub left: Dir3,
}

/// +1, -1 or 0 for a pair of opposite keys.
pub open spec fn axis(plus: bool, minus: bool) -> int {
    (if plus { 1int } else { 0int }) - (if minus { 1int } else { 0int })
}

/// The torque that rolls the ball where the keys point, as seen from the
/// camera: a ball rolls forward when turned about the camera's left axis and
/// rolls right when turned about its forward axis. Held keys add up, so
/// opposite keys cancel.
pub open spec fn torque_for(keys: MoveKeys, c: CameraBasis) -> (int, int, int) {
    let along_left = axis(keys.forward, keys.backward);
    let along_forward = axis(keys.right, keys.left);
    (
        along_left * c.left.x + along_forward * c.forward.x,
        along_left * c.left.y + along_forward * c.forward.y,
        along_left * c.left.z + along_forward * c.forward.z,
    )
}

fn signed(plus: bool, minus: bool, v: i32) -> (r: i64)
    ensures
        r == axis(plus, minus) * v,
        -0x8000_0000 <= r <= 0x8000_0000,
{
    if plus == minus {
        assert(axis(plus, minus) == 0);
        0
    } else if plus {
        assert(axis(plus, minus) == 1);
        v as i64
    } else {
        assert(axis(plus, minus) == -1);
        -(v as i64)
    }
}

/// The torque to apply to the ball this tick, which replaces last tick's:
/// none without a camera, and otherwise `torque_for` the held keys, zero when
/// none is held.
pub fn steering_torque(keys: MoveKeys, camera: Option<CameraBasis>) -> (r: Option<Fixed3>)
    ensures
        camera is None ==> r is None,
        camera matches Some(c) ==> r matches Some(t) && (t.x as int, t.y as int, t.z as int)
            == torque_for(keys, c),
{
    match camera {
        None => None,
        Some(c) => {
            let x = signed(keys.forward, keys.backward, c.left.x) + signed(keys.right, keys.left, c.forward.x);
            let y = signed(keys.forward, keys.backward, c.left.y) + signed(keys.right, keys.left, c.forward.y);
            let z = signed(keys.forward, keys.backward, c.left.z) + signed(keys.right, keys.left, c.forward.z);
            Some(Fixed3 { x, y, z })
        },
    }
}

} // verus!
