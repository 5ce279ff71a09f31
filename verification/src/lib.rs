//! A verified model of a full-screen terminal application loop.
//!
//! The library owns the decisions of such a loop: which input event ends the
//! session, how the loop state advances each frame, what a whole run over a
//! given stream of frame outcomes produces, and how the acquire/run/release
//! lifecycle reports its errors. The unverified binary around the library
//! performs the actual terminal I/O and feeds its outcomes to these functions.

pub mod event;
pub mod machine;
pub mod script;
pub mod session;
