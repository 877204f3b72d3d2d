//! Core logic of a fixed-timestep 2D physics testbed: a step driver that
//! turns a variable elapsed frame time into a bounded number of fixed-size
//! physics substeps, a camera state moved by discrete key commands, and an
//! exact (rational-arithmetic) orthographic projection / view pipeline.

mod bootstrap;
mod camera;
mod geometry;
mod projection;
mod rat;
mod rng;
mod stepper;

pub use bootstrap::BODY_COUNT;
pub use bootstrap::BodyInit;
pub use bootstrap::HALF_EXTENT_MICRO;
pub use bootstrap::SCATTER_SEED_A;
pub use bootstrap::SCATTER_SEED_B;
pub use bootstrap::bootstrap_positions;
pub use bootstrap::position_from_draws;
pub use bootstrap::scatter_positions;
pub use camera::CameraState;
pub use camera::Command;
pub use camera::Key;
pub use camera::on_key_down;
pub use camera::on_key_up;
pub use geometry::GeometryError;
pub use geometry::outline_corner_count;
pub use projection::DEPTH_FAR;
pub use projection::DEPTH_NEAR;
pub use projection::Mat4;
pub use projection::ProjectionError;
pub use projection::Transforms;
pub use projection::WORLD_HEIGHT_UNITS;
pub use projection::aspect_corrected_width;
pub use projection::frame_transforms;
pub use projection::orthographic;
pub use projection::view;
pub use rat::Rat;
pub use rat::rat_eq;
pub use rng::ScatterGen;
pub use stepper::MAX_SUBSTEPS_PER_FRAME;
pub use stepper::SUBSTEP_MICROS;
pub use stepper::StepBudget;
pub use stepper::plan_substeps;
pub use stepper::substep_count;
