//! The configuration that the build writes into the kernel.

use vstd::prelude::*;

verus! {

/// The name of the project.
pub const PROJECT_NAME: &'static str = "Rinux";

/// The version of the project.
pub const PROJECT_VERSION: &'static str = "v0.1.0";

/// Whether the project boots quietly.
pub const QUIET_BOOT: bool = false;

} // verus!
