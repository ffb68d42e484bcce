use vstd::prelude::*;
use crate::geometry::{Dir3, Fixed3};

verus! {

/// How far behind its target a new orbit camera sits, in millionths.
pub const DEFAULT_DISTANCE: u64 = 4_000_000;

/// Mouse sensitivity of a new orbit camera: nanoradians per pixel of mouse
/// motion per pixel of the window's smaller side.
pub const DEFAULT_SENSITIVITY: u16 = 2000;

/// Largest pitch of an orbit camera either way, in nanoradians.
pub const PITCH_LIMIT: i64 = 1_540_000_000;

/// One in fixed point: the scale of the components of a `Dir3`.
pub const UNIT: i128 = 1_000_000;

/// A camera that orbits an entity at a fixed distance, steered by the mouse.
#[derive(Clone, Copy, Debug, PartialEq, Eq, Structural)]
pub struct ThirdPersonCamera {
    pub follow_entity: u64,
    /// Distance from the target, in millionths.
    pub distance: u64,
    /// Nanoradians per pixel of mouse motion per pixel of the window's
    /// smaller side.
    pub sensitivity: u16,
}

/// The control mode of a camera: exactly one at any time.
#[derive(Clone, Copy, Debug, PartialEq, Eq, Structural)]
pub enum CameraMode {
    FreeFly,
    Orbit(ThirdPersonCamera),
}

/// One mouse motion event, in whole pixels.
#[derive(Clone, Copy, Debug, PartialEq, Eq, Structural)]
pub struct MouseMotion {
    pub dx: i16,
    pub dy: i16,
}

/// The orientation of an orbit camera, in nanoradians.
#[derive(Clone, Copy, Debug, PartialEq, Eq, Structural)]
pub struct OrbitAngles {
    pub yaw: i128,
    pub pitch: i64,
}

pub open spec fn orbit_following(ball: u64) -> ThirdPersonCamera {
    ThirdPersonCamera { follow_entity: ball, distance: DEFAULT_DISTANCE, sensitivity: DEFAULT_SENSITIVITY }
}

impl ThirdPersonCamera {
    /// An orbit camera on `ball` with the default distance and sensitivity.
    pub fn following(ball: u64) -> (r: ThirdPersonCamera)
        ensures
            r == orbit_following(ball),
    {
        ThirdPersonCamera { follow_entity: ball, distance: DEFAULT_DISTANCE, sensitivity: DEFAULT_SENSITIVITY }
    }
}

/// The one ball, when exactly one exists.
pub open spec fn single_ball(balls: Seq<u64>) -> Option<u64> {
    if balls.len() == 1 {
        Some(balls[0])
    } else {
        None
    }
}

pub open spec fn to_orbit(m: CameraMode, ball: u64) -> CameraMode {
    match m {
        CameraMode::FreeFly => CameraMode::Orbit(orbit_following(ball)),
        CameraMode::Orbit(c) => CameraMode::Orbit(c),
    }
}

pub open spec fn to_fly(m: CameraMode) -> CameraMode {
    CameraMode::FreeFly
}

/// The cameras after switching to orbit mode around `ball`.
pub open spec fn all_to_orbit(ms: Seq<CameraMode>, ball: u64) -> Seq<CameraMode> {
    Seq::new(ms.len(), |i: int| to_orbit(ms[i], ball))
}

/// The cameras after switching to free flight.
pub open spec fn all_to_fly(ms: Seq<CameraMode>) -> Seq<CameraMode> {
    Seq::new(ms.len(), |i: int| to_fly(ms[i]))
}

/// Finds the ball that an orbit camera follows: the only one, or none when
/// there are none or several.
pub fn the_ball(balls: &Vec<u64>) -> (r: Option<u64>)
    ensures
        r == single_ball(balls@),
{
    if balls.len() == 1 {
        Some(balls[0])
    } else {
        None
    }
}

/// Switches every free-flying camera to orbit the one ball, with the default
/// distance and sensitivity; orbiting cameras stay as they are. Without
/// exactly one ball nothing changes and the result is false.
pub fn activate_third_person_camera(cams: &mut Vec<CameraMode>, balls: &Vec<u64>) -> (switched: bool)
    ensures
        switched == (single_ball(balls@) is Some),
        switched ==> final(cams)@ == all_to_orbit(old(cams)@, balls@[0]),
        !switched ==> final(cams)@ == old(cams)@,
{
    let ball = match the_ball(balls) {
        Some(b) => b,
        None => {
            return false;
        },
    };
    let mut i: usize = 0;
    while i < cams.len()
        invariant
            i <= cams@.len(),
            cams@.len() == old(cams)@.len(),
            forall|j: int| 0 <= j < i ==> #[trigger] cams@[j] == to_orbit(old(cams)@[j], ball),
            forall|j: int| i <= j < cams@.len() ==> #[trigger] cams@[j] == old(cams)@[j],
        decreases cams@.len() - i,
    {
        match cams[i] {
            CameraMode::FreeFly => {
                cams.set(i, CameraMode::Orbit(ThirdPersonCamera::following(ball)));
            },
            CameraMode::Orbit(_) => {},
        }
        i = i + 1;
    }
    proof {
        assert(cams@ == all_to_orbit(old(cams)@, ball));
    }
    true
}

/// Switches every camera to free flight.
pub fn activate_fly_camera(cams: &mut Vec<CameraMode>)
    ensures
        final(cams)@ == all_to_fly(old(cams)@),
{
    let mut i: usize = 0;
    while i < cams.len()
        invariant
            i <= cams@.len(),
            cams@.len() == old(cams)@.len(),
            forall|j: int| 0 <= j < i ==> #[trigger] cams@[j] == CameraMode::FreeFly,
        decreases cams@.len() - i,
    {
        cams.set(i, CameraMode::FreeFly);
        i = i + 1;
    }
    proof {
        assert(cams@ == all_to_fly(old(cams)@));
    }
}

/// Total horizontal motion of `ms`, in pixels.
pub open spec fn motion_x(ms: Seq<MouseMotion>) -> int
    decreases ms.len(),
{
    if ms.len() == 0 {
        0
    } else {
        motion_x(ms.drop_last()) + ms.last().dx
    }
}

/// Total vertical motion of `ms`, in pixels.
pub open spec fn motion_y(ms: Seq<MouseMotion>) -> int
    decreases ms.len(),
{
    if ms.len() == 0 {
        0
    } else {
        motion_y(ms.drop_last()) + ms.last().dy
    }
}

/// Radians, in nanoradians, that one pixel of mouse motion turns a camera
/// with `sensitivity` in a window of `width` by `height` pixels.
pub open spec fn turn_per_pixel(sensitivity: u16, width: u16, height: u16) -> int {
    sensitivity * if height <= width { height as int } else { width as int }
}

pub open spec fn clamp_pitch(p: int) -> int {
    if p < -PITCH_LIMIT {
        -PITCH_LIMIT as int
    } else if p > PITCH_LIMIT {
        PITCH_LIMIT as int
    } else {
        p
    }
}

proof fn lemma_product_bound(a: int, b: int, ba: int, bb: int)
    requires
        -ba <= a <= ba,
        -bb <= b <= bb,
    ensures
        -(ba * bb) <= a * b <= ba * bb,
{
    assert(-(ba * bb) <= a * b <= ba * bb) by (nonlinear_arith)
        requires
            -ba <= a <= ba,
            -bb <= b <= bb,
    ;
}

/// One tick of an orbit camera's orientation, from its yaw and pitch. While
/// the cursor is captured the tick's mouse motion turns it, moving right or
/// down lowering yaw or pitch by `turn_per_pixel` per pixel; otherwise the
/// motion is dropped. The pitch then stays within `PITCH_LIMIT` either way,
/// however much motion came in; the yaw is not bounded.
pub fn orbit_angles(
    yaw: i64,
    pitch: i64,
    captured: bool,
    sensitivity: u16,
    width: u16,
    height: u16,
    motions: &Vec<MouseMotion>,
) -> (r: OrbitAngles)
    ensures
        captured ==> r.yaw == yaw - turn_per_pixel(sensitivity, width, height) * motion_x(motions@),
        captured ==> r.pitch == clamp_pitch(
            pitch - turn_per_pixel(sensitivity, width, height) * motion_y(motions@),
        ),
        !captured ==> r.yaw == yaw && r.pitch == clamp_pitch(pitch as int),
        -PITCH_LIMIT <= r.pitch <= PITCH_LIMIT,
{
    let mut sx: i128 = 0;
    let mut sy: i128 = 0;
    if captured {
        let mut i: usize = 0;
        while i < motions.len()
            invariant
                i <= motions@.len(),
                sx == motion_x(motions@.subrange(0, i as int)),
                sy == motion_y(motions@.subrange(0, i as int)),
                -(i * 32768) <= sx <= i * 32768,
                -(i * 32768) <= sy <= i * 32768,
            decreases motions@.len() - i,
        {
            proof {
                assert(motions@.subrange(0, i + 1).drop_last() == motions@.subrange(0, i as int));
            }
            let m = motions[i];
            sx = sx + m.dx as i128;
            sy = sy + m.dy as i128;
            i = i + 1;
        }
        proof {
            assert(motions@.subrange(0, motions@.len() as int) == motions@);
        }
    }
    let side: u16 = if height <= width {
        height
    } else {
        width
    };
    assert(0 <= sensitivity * side <= 65535 * 65535) by (nonlinear_arith)
        requires
            0 <= sensitivity <= 65535,
            0 <= side <= 65535,
    ;
    let turn: i128 = sensitivity as i128 * side as i128;
    let n: usize = motions.len();
    proof {
        assert(n <= usize::MAX);
        assert(motions@.len() * 32768 <= 0x1_0000_0000_0000_0000 * 32768) by (nonlinear_arith)
            requires
                motions@.len() <= 0xffff_ffff_ffff_ffff,
        ;
        lemma_product_bound(turn as int, sx as int, 65535int * 65535, 0x1_0000_0000_0000_0000int * 32768);
        lemma_product_bound(turn as int, sy as int, 65535int * 65535, 0x1_0000_0000_0000_0000int * 32768);
    }
    let new_yaw: i128 = yaw as i128 - turn * sx;
    let raw_pitch: i128 = pitch as i128 - turn * sy;
    let new_pitch: i64 = if raw_pitch < -(PITCH_LIMIT as i128) {
        -PITCH_LIMIT
    } else if raw_pitch > PITCH_LIMIT as i128 {
        PITCH_LIMIT
    } else {
        raw_pitch as i64
    };
    OrbitAngles { yaw: new_yaw, pitch: new_pitch }
}

/// `c` millionths of `distance`, rounded toward zero.
pub open spec fn scaled(c: i32, distance: u64) -> int {
    if c >= 0 {
        (c * distance) / UNIT as int
    } else {
        -(((-c) * distance) / UNIT as int)
    }
}

/// Where an orbit camera sits: `distance` behind the target along the
/// camera's backward direction `back`, each coordinate rounded toward the
/// target.
pub open spec fn behind(target: Fixed3, back: Dir3, distance: u64) -> (int, int, int) {
    (
        target.x + scaled(back.x, distance),
        target.y + scaled(back.y, distance),
        target.z + scaled(back.z, distance),
    )
}

pub open spec fn fits_i64(v: int) -> bool {
    i64::MIN <= v <= i64::MAX
}

fn scale_component(c: i32, distance: u64) -> (r: i128)
    ensures
        r == scaled(c, distance),
{
    let mag: u128 = if c >= 0 {
        c as u128
    } else {
        (-(c as i64)) as u128
    };
    assert(mag * distance <= 0x1_0000_0000 * 0x1_0000_0000_0000_0000) by (nonlinear_arith)
        requires
            mag <= 0x1_0000_0000,
            distance <= 0xffff_ffff_ffff_ffff,
    ;
    let part: u128 = mag * (distance as u128) / (UNIT as u128);
    assert(part <= mag * distance);
    if c >= 0 {
        part as i128
    } else {
        -(part as i128)
    }
}

fn shift(base: i64, offset: i128) -> (r: Option<i64>)
    requires
        -0x1_0000_0000_0000_0000_0000_0000 <= offset <= 0x1_0000_0000_0000_0000_0000_0000,
    ensures
        fits_i64(base + offset) ==> r == Some((base + offset) as i64),
        !fits_i64(base + offset) ==> r is None,
{
    let v: i128 = base as i128 + offset;
    if v < i64::MIN as i128 || v > i64::MAX as i128 {
        None
    } else {
        Some(v as i64)
    }
}

/// Places an orbit camera `distance` behind `target` along its backward
/// direction `back`; none when a coordinate leaves the range of positions.
pub fn follow_position(target: Fixed3, back: Dir3, distance: u64) -> (r: Option<Fixed3>)
    ensures
        ({
            let (x, y, z) = behind(target, back, distance);
            if fits_i64(x) && fits_i64(y) && fits_i64(z) {
                r == Some(Fixed3 { x: x as i64, y: y as i64, z: z as i64 })
            } else {
                r is None
            }
        }),
{
    let ox = scale_component(back.x, distance);
    let oy = scale_component(back.y, distance);
    let oz = scale_component(back.z, distance);
    proof {
        assert(-0x1_0000_0000_0000_0000_0000_0000 <= ox <= 0x1_0000_0000_0000_0000_0000_0000) by {
            lemma_scaled_bound(back.x, distance);
        }
        assert(-0x1_0000_0000_0000_0000_0000_0000 <= oy <= 0x1_0000_0000_0000_0000_0000_0000) by {
            lemma_scaled_bound(back.y, distance);
        }
        assert(-0x1_0000_0000_0000_0000_0000_0000 <= oz <= 0x1_0000_0000_0000_0000_0000_0000) by {
            lemma_scaled_bound(back.z, distance);
        }
    }
    match (shift(target.x, ox), shift(target.y, oy), shift(target.z, oz)) {
        (Some(x), Some(y), Some(z)) => Some(Fixed3 { x, y, z }),
        _ => None,
    }
}

proof fn lemma_scaled_bound(c: i32, distance: u64)
    ensures
        -0x1_0000_0000_0000_0000_0000_0000 <= scaled(c, distance) <= 0x1_0000_0000_0000_0000_0000_0000,
{
    let m: int = if c >= 0 { c as int } else { -c };
    assert(0 <= m * distance <= 0x1_0000_0000 * 0x1_0000_0000_0000_0000) by (nonlinear_arith)
        requires
            0 <= m <= 0x1_0000_0000,
            0 <= distance <= 0xffff_ffff_ffff_ffff,
    ;
    assert(0 <= (m * distance) / UNIT as int <= m * distance) by (nonlinear_arith)
        requires
            0 <= m * distance,
            UNIT == 1_000_000,
    ;
}

/// Switching to free flight and back to orbit gives every camera an orbit
/// around the ball with the default distance and sensitivity, as the first
/// orbit camera had; in between each camera is in exactly one mode.
pub proof fn lemma_orbit_fly_orbit(ms: Seq<CameraMode>, ball: u64)
    ensures
        all_to_orbit(all_to_fly(ms), ball).len() == ms.len(),
        forall|i: int|
            0 <= i < ms.len() ==> #[trigger] all_to_orbit(all_to_fly(ms), ball)[i] == CameraMode::Orbit(
                orbit_following(ball),
            ),
        forall|i: int|
            0 <= i < ms.len() && ms[i] == CameraMode::Orbit(orbit_following(ball)) ==> #[trigger] all_to_orbit(
                all_to_fly(ms),
                ball,
            )[i] == ms[i],
        forall|i: int| 0 <= i < ms.len() ==> #[trigger] all_to_fly(ms)[i] is FreeFly,
{
}

} // verus!
