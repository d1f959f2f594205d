//! The error of setting up a drawing surface.
use vstd::prelude::*;

verus! {

/// The drawing surface could not be obtained or attached to the document.
/// Nothing can be drawn without it, so the application cannot proceed.
#[derive(Debug)]
pub struct Error(());

impl Error {
    /// The error for a surface that is unavailable.
    pub fn surface_unavailable() -> Error {
        Error(())
    }
}

} // verus!
