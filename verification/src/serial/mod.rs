//! Serial port settings and framing.
pub mod types;
pub mod error;
pub mod config;
pub mod protocol;
pub mod ports;
pub mod reader;

use vstd::prelude::*;

verus! {

/// The version of this serial module, that of the crate.
pub const VERSION: &'static str = "0.1.0";

} // verus!
