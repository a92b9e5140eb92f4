//! The failures that the presentation layer reports.

use vstd::prelude::*;

verus! {

/// Why an operation of the presentation layer was abandoned.
#[derive(Debug, Clone, Copy, PartialEq, Eq, Structural)]
pub enum RenderError {
    /// The device rejected the construction of a chain, a view or a framebuffer.
    Setup,
    /// The surface advertises no configuration that a chain can be built with.
    Config,
    /// Recording the draw commands of a target failed.
    Recording,
    /// The device failed during acquisition or flush in a way that is not
    /// the recognised stale-chain condition.
    Fatal,
}

impl RenderError {
    /// Whether the caller may go on using the chain after this failure.
    /// Only a failed recording leaves the chain usable.
    pub open spec fn recoverable(self) -> bool {
        self == RenderError::Recording
    }

    /// Executable form of [`RenderError::recoverable`].
    pub fn is_recoverable(&self) -> (r: bool)
        ensures
            r == self.recoverable(),
    {
        match self {
            RenderError::Recording => true,
            _ => false,
        }
    }
}

} // verus!
