//! Names of configuration values that more than one module reads.

use vstd::prelude::*;

verus! {

/// Where the dynamic linker of Linux looks for libraries.
pub const LD_LIBRARY_PATH_VAR: &'static str = "LD_LIBRARY_PATH";

/// The libraries that the dynamic linker of Linux loads before all others.
pub const LD_PRELOAD_VAR: &'static str = "LD_PRELOAD";

} // verus!
