//! How device kernel entry points are named.
//!
//! An entry point is named `<op>[_backward]_<suffix>`, where the suffix tells
//! the numeric width apart.

use vstd::prelude::*;
use vstd::string::StringExecFns;
use crate::catalogue::{ActivationMode, Direction, FloatWidth};

verus! {

/// The spelling of the width suffix that a kernel source uses.
#[derive(Clone, Copy, Debug, PartialEq, Eq, Structural)]
pub enum NameScheme {
    /// `float` and `double`, the kernel language's own type names.
    KernelType,
    /// `f32` and `f64`, the host language's type names.
    HostType,
}

pub open spec fn width_suffix_spec(width: FloatWidth, scheme: NameScheme) -> Seq<char> {
    match (width, scheme) {
        (FloatWidth::F32, NameScheme::KernelType) => "float"@,
        (FloatWidth::F64, NameScheme::KernelType) => "double"@,
        (FloatWidth::F32, NameScheme::HostType) => "f32"@,
        (FloatWidth::F64, NameScheme::HostType) => "f64"@,
    }
}

/// The operation part of an entry point's name.
pub open spec fn base_name_spec(mode: ActivationMode, direction: Direction) -> Seq<char> {
    match (mode, direction) {
        (ActivationMode::Tanh, Direction::Forward) => "tanh"@,
        (ActivationMode::Sigmoid, Direction::Forward) => "sigmoid"@,
        (ActivationMode::ReLu, Direction::Forward) => "relu"@,
        (ActivationMode::Elu, Direction::Forward) => "elu"@,
        (ActivationMode::Tanh, Direction::Backward) => "tanh_backward"@,
        (ActivationMode::Sigmoid, Direction::Backward) => "sigmoid_backward"@,
        (ActivationMode::ReLu, Direction::Backward) => "relu_backward"@,
        (ActivationMode::Elu, Direction::Backward) => "elu_backward"@,
    }
}

/// The full name `<base>_<suffix>`.
pub open spec fn entry_point_spec(base: Seq<char>, width: FloatWidth, scheme: NameScheme) -> Seq<char> {
    base + "_"@ + width_suffix_spec(width, scheme)
}

pub open spec fn kernel_name_spec(
    mode: ActivationMode,
    direction: Direction,
    width: FloatWidth,
    scheme: NameScheme,
) -> Seq<char> {
    entry_point_spec(base_name_spec(mode, direction), width, scheme)
}

pub fn width_suffix(width: FloatWidth, scheme: NameScheme) -> (r: &'static str)
    ensures
        r@ == width_suffix_spec(width, scheme),
{
    match (width, scheme) {
        (FloatWidth::F32, NameScheme::KernelType) => "float",
        (FloatWidth::F64, NameScheme::KernelType) => "double",
        (FloatWidth::F32, NameScheme::HostType) => "f32",
        (FloatWidth::F64, NameScheme::HostType) => "f64",
    }
}

pub fn base_name(mode: ActivationMode, direction: Direction) -> (r: &'static str)
    ensures
        r@ == base_name_spec(mode, direction),
{
    match (mode, direction) {
        (ActivationMode::Tanh, Direction::Forward) => "tanh",
        (ActivationMode::Sigmoid, Direction::Forward) => "sigmoid",
        (ActivationMode::ReLu, Direction::Forward) => "relu",
        (ActivationMode::Elu, Direction::Forward) => "elu",
        (ActivationMode::Tanh, Direction::Backward) => "tanh_backward",
        (ActivationMode::Sigmoid, Direction::Backward) => "sigmoid_backward",
        (ActivationMode::ReLu, Direction::Backward) => "relu_backward",
        (ActivationMode::Elu, Direction::Backward) => "elu_backward",
    }
}

/// The entry point named `base` for elements of `width`.
pub fn entry_point(base: &str, width: FloatWidth, scheme: NameScheme) -> (r: String)
    ensures
        r@ == entry_point_spec(base@, width, scheme),
{
    let mut name = String::from_str(base);
    name.append("_");
    name.append(width_suffix(width, scheme));
    name
}

/// The entry point of the kernel for one catalogue operation.
pub fn kernel_name(
    mode: ActivationMode,
    direction: Direction,
    width: FloatWidth,
    scheme: NameScheme,
) -> (r: String)
    ensures
        r@ == kernel_name_spec(mode, direction, width, scheme),
{
    entry_point(base_name(mode, direction), width, scheme)
}

} // verus!
