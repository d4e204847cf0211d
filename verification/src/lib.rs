//! Decision logic of an entraining parcel-path ECAPE calculator.
//!
//! The numerical parcel ascent works on floating-point profiles; this crate
//! holds the parts of the calculation that decide rather than compute: how a
//! sounding is validated, where a parcel starts, which storm motion is used,
//! which levels bracket a target, and which levels of an ascent count toward
//! CAPE, CIN, the LFC and the EL.

pub mod types;
pub mod validate;
pub mod bracket;
pub mod levels;
pub mod origin;
pub mod storm;
pub mod scan;
pub mod ascent;
pub mod ecape;
