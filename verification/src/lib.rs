//! A bridge between native code and a garbage-collected host runtime.
//!
//! Native code holds references to host values only inside nested activation
//! regions; the region discipline, the exception-safe call boundary, and the
//! typed value decoder are verified against an explicit model of the host
//! engine's observable state.

pub mod args;
pub mod convert;
pub mod de;
pub mod engine;
pub mod json;
pub mod scope;
pub mod value;

use vstd::prelude::*;

verus! {

/// An opaque identifier for the connection to one host runtime instance.
///
/// Exactly one exists per native module; it is copied by value wherever it
/// is needed and is never mutated.
#[derive(Clone, Copy, PartialEq, Eq, Structural, Debug)]
pub struct Env {
    pub id: u64,
}

impl Env {
    /// The raw representation handed over by the host runtime's loader.
    pub fn to_raw(self) -> (r: u64)
        ensures
            r == self.id,
    {
        let Self { id } = self;
        id
    }
}

impl From<u64> for Env {
    fn from(env: u64) -> (r: Self)
        ensures
            r.id == env,
    {
        Self { id: env }
    }
}

impl vstd::std_specs::convert::FromSpecImpl<u64> for Env {
    open spec fn obeys_from_spec() -> bool {
        true
    }

    open spec fn from_spec(env: u64) -> Self {
        Env { id: env }
    }
}

} // verus!
