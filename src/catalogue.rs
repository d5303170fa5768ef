//! The operation catalogue: the kinds of activation, the two directions of
//! evaluation, the supported numeric widths, and the error kinds.

use vstd::prelude::*;

verus! {

/// An elementwise activation function.
#[derive(Clone, Copy, Debug, PartialEq, Eq, Structural)]
pub enum ActivationMode {
    Tanh,
    Sigmoid,
    ReLu,
    Elu,
}

/// Whether a kernel evaluates the function or its derivative-weighted gradient.
#[derive(Clone, Copy, Debug, PartialEq, Eq, Structural)]
pub enum Direction {
    Forward,
    Backward,
}

/// The numeric width of tensor elements.
#[derive(Clone, Copy, Debug, PartialEq, Eq, Structural)]
pub enum FloatWidth {
    F32,
    F64,
}

/// The ways an operation of this extension can fail.
#[derive(Clone, Copy, Debug, PartialEq, Eq, Structural)]
pub enum Error {
    /// The kernel program failed to compile, or an entry point is missing.
    Build,
    /// The capacities of the operands of one call differ.
    ShapeMismatch,
    /// A reserved catalogue entry point was invoked.
    NotImplemented,
    /// The backend holds no kernels of this extension for its framework.
    BackendNotInitialized,
}

/// One value per supported numeric width.
#[derive(Debug)]
pub struct Precision<T> {
    pub single: T,
    pub double: T,
}

impl<T> Precision<T> {
    pub open spec fn at(&self, width: FloatWidth) -> T {
        match width {
            FloatWidth::F32 => self.single,
            FloatWidth::F64 => self.double,
        }
    }

    /// The value held for `width`.
    pub fn get(&self, width: FloatWidth) -> (r: &T)
        ensures
            *r == self.at(width),
    {
        match width {
            FloatWidth::F32 => &self.single,
            FloatWidth::F64 => &self.double,
        }
    }
}

/// The position of a mode in the catalogue's order.
pub open spec fn mode_index(mode: ActivationMode) -> nat {
    match mode {
        ActivationMode::Tanh => 0,
        ActivationMode::Sigmoid => 1,
        ActivationMode::ReLu => 2,
        ActivationMode::Elu => 3,
    }
}

pub open spec fn direction_index(direction: Direction) -> nat {
    match direction {
        Direction::Forward => 0,
        Direction::Backward => 1,
    }
}

pub open spec fn width_index(width: FloatWidth) -> nat {
    match width {
        FloatWidth::F32 => 0,
        FloatWidth::F64 => 1,
    }
}

} // verus!
