//! Context acquisition.
//!
//! Resolving a canvas id to a drawing context walks a fixed chain:
//! window, document, element, canvas cast, context request.  The host
//! layer probes the chain and reports what it found; this module
//! decides the outcome, and the fixed initial state of a granted
//! context.  Acquisition allocates no pipeline resource: a failure
//! here leaves nothing behind.

use crate::gl_types::ContextAcquisitionError;
use vstd::prelude::*;

verus! {

/// What the host found while resolving a canvas id.
#[derive(Clone, Copy, Debug, PartialEq, Eq, Structural)]
pub struct DomProbe {
    /// A window object exists.
    pub window: bool,
    /// The window has a document.
    pub document: bool,
    /// The document has an element with the given id.
    pub element_found: bool,
    /// That element is a canvas.
    pub is_canvas: bool,
    /// The canvas granted a context of the required profile.
    pub context_granted: bool,
}

/// How a granted context compares depths.
#[derive(Clone, Copy, Debug, PartialEq, Eq, Structural)]
pub enum DepthFunc {
    Less,
    LessOrEqual,
}

/// The fixed initial state of a granted drawing context.
#[derive(Clone, Copy, Debug, PartialEq, Eq, Structural)]
pub struct GlContextState {
    pub depth_test: bool,
    pub depth_func: DepthFunc,
}

/// The outcome of context acquisition: the first missing link of the
/// chain decides the error; a complete chain yields a context with
/// depth testing enabled and less-or-equal depth comparison.
pub open spec fn context_outcome_spec(probe: DomProbe) -> Result<
    GlContextState,
    ContextAcquisitionError,
> {
    if !probe.window {
        Err(ContextAcquisitionError::MissingWindow)
    } else if !probe.document {
        Err(ContextAcquisitionError::MissingDocument)
    } else if !probe.element_found {
        Err(ContextAcquisitionError::MissingElement)
    } else if !probe.is_canvas {
        Err(ContextAcquisitionError::NotACanvas)
    } else if !probe.context_granted {
        Err(ContextAcquisitionError::ContextRefused)
    } else {
        Ok(GlContextState { depth_test: true, depth_func: DepthFunc::LessOrEqual })
    }
}

/// Decides context acquisition from what the host probed: either the
/// context's fixed initial state, or exactly the error of the first
/// missing link.
pub fn init_gl_context(probe: &DomProbe) -> (r: Result<GlContextState, ContextAcquisitionError>)
    ensures
        r == context_outcome_spec(*probe),
{
    if !probe.window {
        Err(ContextAcquisitionError::MissingWindow)
    } else if !probe.document {
        Err(ContextAcquisitionError::MissingDocument)
    } else if !probe.element_found {
        Err(ContextAcquisitionError::MissingElement)
    } else if !probe.is_canvas {
        Err(ContextAcquisitionError::NotACanvas)
    } else if !probe.context_granted {
        Err(ContextAcquisitionError::ContextRefused)
    } else {
        Ok(GlContextState { depth_test: true, depth_func: DepthFunc::LessOrEqual })
    }
}

} // verus!
