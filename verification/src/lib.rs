//! Face-following gaze pipeline in fixed-point arithmetic.
//!
//! A colour frame is reduced to intensities, a detected face region is mapped
//! to a resolution-independent position, the position is handed over through a
//! single-slot store, and a smoother turns it into yaw and pitch angles.
//! Positions are held in millionths of the half-frame, angles in microradians.

pub mod frame;
pub mod gaze;
pub mod region;
pub mod smoother;
pub mod pipeline;
pub mod detector;
pub mod locator;
