//! Export pipeline for themed desktop-wallpaper bundles.
//!
//! The library holds the decision logic of the exporter: parsing rational
//! frame-rate strings, interpreting probed media metadata, choosing encoding
//! parameters, building the external transcoder's argument vectors, rendering
//! the bundle manifest, assembling the archive, and sequencing the whole
//! export as a state machine. A thin shell performs the process and file
//! system work the machine asks for.

use vstd::prelude::*;

pub mod frac;
pub mod errors;
pub mod policy;
pub mod naming;
pub mod args;
pub mod probe;
pub mod archive;
pub mod pipeline;
pub mod locate;

verus! {

/// Liveness check: a fixed acknowledgement for the shell.
pub fn ping() -> (r: &'static str)
    ensures
        r@ == "ok"@,
{
    "ok"
}

} // verus!
