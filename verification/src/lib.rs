//! Enumeration of connected display monitors and retrieval of their pixel
//! dimensions.
//!
//! The platform's display subsystem issues an opaque handle for each active
//! output and reports each monitor's bounding rectangle in virtual-screen
//! coordinates. This crate holds the logic around those calls: collecting
//! handles in report order, and turning a reported rectangle into a
//! width/height pair or a query failure. The calls into the operating
//! system themselves live outside the crate and hand plain values in.

pub mod enumerate;
pub mod size;
