//! Countdown engine: remaining-time breakdown, progress, deadline arithmetic,
//! time-of-day parsing and the tick state machine of a terminal countdown.

pub mod breakdown;
pub mod progress;
pub mod timeparse;
pub mod deadline;
pub mod countdown;
pub mod completion;
