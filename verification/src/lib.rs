//! Verified core of a small GPU-painted panel: the per-frame input state
//! (drag offset and zoom level), the renderer lifecycle, and the fixed
//! square geometry that the renderer uploads.
//!
//! All windowing, widget, and graphics-API work lives outside this crate;
//! the library holds the state transitions and constants those callers use,
//! each with a proved contract.

pub mod geometry;
pub mod lifecycle;
pub mod state;
