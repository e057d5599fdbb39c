//! Verified core of a LÖVR plugin: the codes that cross LÖVR's C interface,
//! the decoding of polled events, the graphics enumerations, the error report,
//! and the per-frame decisions of the run loop.
pub mod lovr;
pub mod sys;
