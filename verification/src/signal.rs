//! Messages between the pipeline and its host.

use vstd::prelude::*;

verus! {

/// A window size, in logical pixels.
#[derive(Clone, Copy, Debug, PartialEq, Eq, Structural)]
pub struct Resize {
    pub width: u32,
    pub height: u32,
}

/// A transform that replaces the object's.
#[derive(Debug)]
pub struct PyramidTransformUpdate<T> {
    pub transform: T,
}

/// A model that replaces the object's.
#[derive(Debug)]
pub struct PyramidModelUpdate<M> {
    pub model: M,
}

/// A message to or from the pipeline. Messages are passed on, never shared.
#[derive(Debug)]
pub enum Signal<T, M> {
    /// Asks the host to give the window a new size.
    Resize(Resize),
    /// Overwrites the object's transform.
    PyramidTransformUpdate(PyramidTransformUpdate<T>),
    /// Overwrites the object's model.
    PyramidModelUpdate(PyramidModelUpdate<M>),
}

} // verus!
