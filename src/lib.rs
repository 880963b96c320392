//! A launch orchestrator for named, pluggable versions: a registry of
//! launchable versions, two single-slot extension hooks, an event bus, and
//! the staged launch pipeline that ties them together.
use vstd::prelude::*;

pub mod names;
pub mod registry;
pub mod hooks;
pub mod launch;
pub mod orchestrator;

verus! {

/// The line that tells a host the module is loaded.
pub fn wasm_ready() -> (r: String)
    ensures
        r@ == "game_engine (improved) wasm ready"@,
{
    "game_engine (improved) wasm ready".to_owned()
}

} // verus!
