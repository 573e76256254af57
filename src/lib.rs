//! Camera control state and frame-freeze coordination for a ray-marching
//! volume viewer. Angles are kept as whole millidegrees, so wrapping a full
//! turn is exact; the floating-point geometry that turns this state into
//! matrices lives with the renderer.
pub mod basis;
pub mod camera;
pub mod density;
pub mod freeze;
pub mod input;
pub mod orientation;
