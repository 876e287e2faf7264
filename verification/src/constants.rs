use vstd::prelude::*;

verus! {

/// Version string reported by the command-line front end.
pub const VERSION: &'static str = "0.1.0";

} // verus!
