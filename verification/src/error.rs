//! Error taxonomy of the renderer core. Nothing here is retried: every
//! failure during initialization aborts startup, and every failure during
//! the steady-state frame loop is fatal in this design.

use vstd::prelude::*;

verus! {

/// A fatal renderer error.
#[derive(Debug, Clone, PartialEq, Eq)]
pub enum RenderError {
    /// The graphics loader/runtime could not be found or failed to load.
    Loading,
    /// A native API call returned a non-success status; the originating
    /// status code is carried unchanged.
    Vk(i32),
    /// A native window or display handle could not be obtained.
    Handle,
    /// A required validation layer is absent; carries the layer's name.
    ValidationLayerNotFound(String),
    /// No physical device meets the hard requirements.
    UnsupportedDevice,
    /// Reading shader bytecode failed.
    Io,
}

impl RenderError {
    /// A short description of the error's kind.
    pub fn describe(&self) -> (r: &'static str)
        ensures
            self is Loading ==> r@ == "error initializing renderer"@,
            self is Vk ==> r@ == "graphics API error"@,
            self is Handle ==> r@ == "error obtaining handle"@,
            self is ValidationLayerNotFound ==> r@ == "validation layer not found"@,
            self is UnsupportedDevice ==> r@ == "no supported graphics devices were found"@,
            self is Io ==> r@ == "I/O error"@,
    {
        match self {
            RenderError::Loading => "error initializing renderer",
            RenderError::Vk(_) => "graphics API error",
            RenderError::Handle => "error obtaining handle",
            RenderError::ValidationLayerNotFound(_) => "validation layer not found",
            RenderError::UnsupportedDevice => "no supported graphics devices were found",
            RenderError::Io => "I/O error",
        }
    }
}

/// The result type of the renderer core.
pub type RenderResult<T> = Result<T, RenderError>;

} // verus!
