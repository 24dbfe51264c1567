//! Core logic of a tiny side-scrolling game: parallax background strips
//! drift left each frame and snap back to a configured loop position once
//! they reach or cross the origin, plus the small per-frame decisions the
//! game makes (quitting on a window event, reacting to the fire action).
//!
//! All geometry is fixed point: coordinates and lengths are measured in
//! milliunits (one thousandth of a world unit), times in milliseconds, and
//! scroll speeds in milliunits per millisecond, which is numerically the
//! same as world units per second.

pub mod control;
pub mod scene;
pub mod scroll;
