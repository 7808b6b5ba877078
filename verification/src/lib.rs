//! A connection counter that reports, at each tick, how many connections are
//! active and how many were opened and closed since the previous tick.

pub mod decimal;
pub mod clock;
pub mod counter;
pub mod laws;
pub mod fixtures;
