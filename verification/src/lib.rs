//! Playback-clock and transport-control core of an equalizing audio player.
//!
//! All times are whole nanoseconds. Every operation of the clock and of the
//! transport controller is a function of the state it is applied to and of
//! the wall-clock reading it is given; the controller can also take the
//! reading itself from the machine's monotonic clock.

pub mod bands;
pub mod clock;
pub mod transport;
pub mod wall;
