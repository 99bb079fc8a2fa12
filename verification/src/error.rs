use vstd::prelude::*;

verus! {

/// What can go wrong at the renderer's entry points.
#[derive(Clone, Copy, Debug, PartialEq, Eq, Structural)]
pub enum RendererError {
    /// No adapter, device or usable surface format was available.
    Acquisition,
    /// A pipeline or binding layout was rejected.
    Configuration,
    /// The next surface image could not be acquired.
    Render,
    /// The GPU resources of the object at this position could not be created.
    Upload(usize),
    /// An input had a malformed length.
    ContractViolation,
}

} // verus!
