//! Driver core for an analog XY vector display.
//!
//! A display of this kind is steered by two pulse-width-modulated signals,
//! one per axis.  The library maps logical coordinates, given as fixed-point
//! integers, onto integer duty-cycle values through a calibrated, clamped
//! linear transform, and commits the two values to a pair of independently
//! owned output channels in a fixed order.

pub mod channel;
pub mod display;
pub mod mapper;
