//! Gameplay coordination for a physics-driven rolling-ball game.
//!
//! The modules hold the per-tick rules that sit between the engine and the
//! level: waiting for the level to load, turning named placeholder nodes into
//! physics bodies, watching the ball fall, classifying contacts, steering the
//! ball and driving the cameras. Positions and velocities are fixed-point
//! integers in millionths of a world unit, angles are in nanoradians.

pub mod ball;
pub mod bounds;
pub mod camera;
pub mod clock;
pub mod colliders;
pub mod contacts;
pub mod geometry;
pub mod overlay;
pub mod restart;
pub mod scene;
pub mod skybox;
pub mod steering;

pub use ball::{Ball, BallMotion};
pub use bounds::{find_bottom, BoundsMonitor, BoundsReport, BoundsWatch};
pub use camera::{
    activate_fly_camera, activate_third_person_camera, follow_position, orbit_angles, the_ball,
    CameraMode, MouseMotion, OrbitAngles, ThirdPersonCamera, DEFAULT_DISTANCE, DEFAULT_SENSITIVITY,
    PITCH_LIMIT, UNIT,
};
pub use clock::format_clock;
pub use colliders::{
    node_role, plan_attachments, Attachment, Body, NodeRole, SceneNode, SolidKind, BOTTOM_NAME,
    COLLIDER_PREFIX, GOAL_PREFIX, RESTITUTION_PERMILLE,
};
pub use contacts::{
    classify, classify_all, count_wins, on_ball_contact, rolling_volume, Contact, ContactEvent,
    RollingSound, SoundAction, ROLL_GAIN_DEN, ROLL_GAIN_NUM,
};
pub use geometry::{Dir3, Fixed3};
pub use overlay::{Banner, BannerKind, Overlay};
pub use restart::{restart, RestartOrders};
pub use scene::{LoadEvent, SceneLoadState};
pub use skybox::{CubemapState, SkyboxAction, CUBEMAP_FACES};
pub use steering::{steering_torque, CameraBasis, MoveKeys};
