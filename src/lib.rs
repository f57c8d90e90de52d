//! Decisions of a damped two-body spring joint, and the boundary that carries
//! its inputs and result across a call.
//!
//! Scalars are IEEE-754 binary32 values held as their bit patterns; the
//! arithmetic that produces them is done by the caller, the decisions taken on
//! them are made and proved here.
pub mod binary32;
pub mod joint;
pub mod boundary;
pub mod buffer;
