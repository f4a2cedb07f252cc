//! The configuration errors that stop the runtime.

use vstd::prelude::*;

verus! {

/// Why the runtime cannot go on: a value required before use was never set.
#[derive(Debug, Clone, Copy, PartialEq, Eq, Structural)]
pub enum ConfigError {
    MissingSetup,
    MissingDraw,
    MissingWidth,
    MissingHeight,
    GpuNotInitialized,
    MissingShaderSource,
}

} // verus!
