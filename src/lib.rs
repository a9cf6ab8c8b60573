//! Decision core of a live audio pass-through player: binding slots for the
//! capture stream and the playback sink, the per-buffer routing rule of the
//! run loop, gain and volume levels, and the control surface's update plan.

pub mod control;
pub mod device;
pub mod format;
pub mod levels;
pub mod pipeline;
pub mod slots;
