//! Planning of one catalogue operation against concrete tensors: capacity
//! validation, kernel selection, argument binding and work size.
//!
//! A plan names the tensors of the call by position (`0` is the first tensor
//! argument). Whoever drives the device binds a readable view of each `Read`
//! operand, a writable view of each `Write` operand and each `Count` scalar,
//! in the plan's order, then enqueues the kernel over `global_work`.

use vstd::prelude::*;
use crate::catalogue::{ActivationMode, Direction, Error, FloatWidth};
use crate::package::{KernelKey, ParenchymaDeep};

verus! {

/// One kernel argument.
#[derive(Clone, Copy, Debug, PartialEq, Eq, Structural)]
pub enum KernelArg {
    /// A readable device view of the tensor operand at this position.
    Read(usize),
    /// A writable device view of the tensor operand at this position.
    Write(usize),
    /// The element count of the operands.
    Count(usize),
}

/// The kernel to enqueue, its arguments in binding order, and the global
/// work size.
#[derive(Debug)]
pub struct Dispatch {
    pub key: KernelKey,
    pub args: Vec<KernelArg>,
    pub global_work: Vec<usize>,
}

/// The mathematical content of a `Dispatch`.
pub struct DispatchView {
    pub key: KernelKey,
    pub args: Seq<KernelArg>,
    pub global_work: Seq<usize>,
}

impl View for Dispatch {
    type V = DispatchView;

    open spec fn view(&self) -> DispatchView {
        DispatchView { key: self.key, args: self.args@, global_work: self.global_work@ }
    }
}

pub open spec fn outcome_view(r: Result<Dispatch, Error>) -> Result<DispatchView, Error> {
    match r {
        Ok(d) => Ok(d@),
        Err(e) => Err(e),
    }
}

/// A forward activation: input at position 0, output at position 1, one
/// work item per element.
pub open spec fn forward_spec(
    mode: ActivationMode,
    width: FloatWidth,
    input: usize,
    output: usize,
) -> Result<DispatchView, Error> {
    if input != output {
        Err(Error::ShapeMismatch)
    } else {
        Ok(
            DispatchView {
                key: KernelKey { mode, direction: Direction::Forward, width },
                args: seq![KernelArg::Read(0), KernelArg::Write(1), KernelArg::Count(input)],
                global_work: seq![input],
            },
        )
    }
}

/// A backward activation: input at position 0, input gradient at 1, output
/// gradient at 2, one work item per element.
pub open spec fn backward_spec(
    mode: ActivationMode,
    width: FloatWidth,
    input: usize,
    input_diff: usize,
    output_diff: usize,
) -> Result<DispatchView, Error> {
    if input != input_diff || input != output_diff {
        Err(Error::ShapeMismatch)
    } else {
        Ok(
            DispatchView {
                key: KernelKey { mode, direction: Direction::Backward, width },
                args: seq![
                    KernelArg::Read(0),
                    KernelArg::Read(1),
                    KernelArg::Write(2),
                    KernelArg::Count(input),
                ],
                global_work: seq![input],
            },
        )
    }
}

/// Plans a forward activation over tensors of `input` and `output` elements.
pub fn forward_dispatch(mode: ActivationMode, width: FloatWidth, input: usize, output: usize) -> (r:
    Result<Dispatch, Error>)
    ensures
        outcome_view(r) == forward_spec(mode, width, input, output),
{
    if input != output {
        return Err(Error::ShapeMismatch);
    }
    let args = vec![KernelArg::Read(0), KernelArg::Write(1), KernelArg::Count(input)];
    let global_work = vec![input];
    let r = Dispatch { key: KernelKey { mode, direction: Direction::Forward, width }, args, global_work };
    assert(r@.args =~= seq![KernelArg::Read(0), KernelArg::Write(1), KernelArg::Count(input)]);
    assert(r@.global_work =~= seq![input]);
    Ok(r)
}

/// Plans a backward activation over tensors of `input`, `input_diff` and
/// `output_diff` elements.
pub fn backward_dispatch(
    mode: ActivationMode,
    width: FloatWidth,
    input: usize,
    input_diff: usize,
    output_diff: usize,
) -> (r: Result<Dispatch, Error>)
    ensures
        outcome_view(r) == backward_spec(mode, width, input, input_diff, output_diff),
{
    if input != input_diff || input != output_diff {
        return Err(Error::ShapeMismatch);
    }
    let args = vec![
        KernelArg::Read(0),
        KernelArg::Read(1),
        KernelArg::Write(2),
        KernelArg::Count(input),
    ];
    let global_work = vec![input];
    let r = Dispatch { key: KernelKey { mode, direction: Direction::Backward, width }, args, global_work };
    assert(r@.args =~= seq![
        KernelArg::Read(0),
        KernelArg::Read(1),
        KernelArg::Write(2),
        KernelArg::Count(input),
    ]);
    assert(r@.global_work =~= seq![input]);
    Ok(r)
}


/// The standalone sigmoid: input at position 0, output at position 1, one
/// work item per element laid out over the input's dimensions.
pub open spec fn sigmoid_spec(
    width: FloatWidth,
    dims: Seq<usize>,
    input: usize,
    output: usize,
) -> Result<DispatchView, Error> {
    if input != output {
        Err(Error::ShapeMismatch)
    } else {
        Ok(
            DispatchView {
                key: KernelKey { mode: ActivationMode::Sigmoid, direction: Direction::Forward, width },
                args: seq![KernelArg::Read(0), KernelArg::Write(1)],
                global_work: dims,
            },
        )
    }
}

/// Plans the standalone sigmoid kernel of an `OpenCLNNPackage` over an input
/// of dimensions `dims` holding `input` elements and an output of `output`
/// elements.
pub fn sigmoid_dispatch(width: FloatWidth, dims: &Vec<usize>, input: usize, output: usize) -> (r:
    Result<Dispatch, Error>)
    ensures
        outcome_view(r) == sigmoid_spec(width, dims@, input, output),
{
    if input != output {
        return Err(Error::ShapeMismatch);
    }
    let args = vec![KernelArg::Read(0), KernelArg::Write(1)];
    let global_work = dims.clone();
    let r = Dispatch {
        key: KernelKey { mode: ActivationMode::Sigmoid, direction: Direction::Forward, width },
        args,
        global_work,
    };
    assert(r@.args =~= seq![KernelArg::Read(0), KernelArg::Write(1)]);
    Ok(r)
}

/// What a backend returns for a planned call: the plan's error if it has one,
/// else the plan where the backend has kernels of this extension.
pub open spec fn on_backend(ready: bool, planned: Result<DispatchView, Error>) -> Result<
    DispatchView,
    Error,
> {
    match planned {
        Err(e) => Err(e),
        Ok(d) => if ready {
            Ok(d)
        } else {
            Err(Error::BackendNotInitialized)
        },
    }
}

/// Operands of differing capacities in one call always give the
/// shape-mismatch error, whatever the backend, and so never a dispatch.
pub proof fn lemma_capacity_mismatch(
    mode: ActivationMode,
    width: FloatWidth,
    ready: bool,
    dims: Seq<usize>,
    a: usize,
    b: usize,
    c: usize,
)
    ensures
        a != b ==> forward_spec(mode, width, a, b) == Err::<DispatchView, Error>(Error::ShapeMismatch),
        a != b ==> on_backend(ready, forward_spec(mode, width, a, b)) == Err::<DispatchView, Error>(
            Error::ShapeMismatch,
        ),
        a != b ==> sigmoid_spec(width, dims, a, b) == Err::<DispatchView, Error>(Error::ShapeMismatch),
        (a != b || b != c || a != c) ==> backward_spec(mode, width, a, b, c) == Err::<
            DispatchView,
            Error,
        >(Error::ShapeMismatch),
        (a != b || b != c || a != c) ==> on_backend(ready, backward_spec(mode, width, a, b, c))
            == Err::<DispatchView, Error>(Error::ShapeMismatch),
{
}

/// Forward evaluation of the catalogue.
pub trait Forward {
    /// The backend holds the forward kernels.
    spec fn has_forward_kernels(&self) -> bool;

    /// Plans `mode` over tensors of `input` and `output` elements.
    fn activation(&self, mode: ActivationMode, width: FloatWidth, input: usize, output: usize) -> (r:
        Result<Dispatch, Error>)
        ensures
            outcome_view(r) == on_backend(
                self.has_forward_kernels(),
                forward_spec(mode, width, input, output),
            ),
    ;

    /// The hyperbolic tangent.
    fn tanh(&self, width: FloatWidth, input: usize, output: usize) -> (r: Result<Dispatch, Error>)
        ensures
            outcome_view(r) == on_backend(
                self.has_forward_kernels(),
                forward_spec(ActivationMode::Tanh, width, input, output),
            ),
    {
        self.activation(ActivationMode::Tanh, width, input, output)
    }

    /// The logistic sigmoid.
    fn sigmoid(&self, width: FloatWidth, input: usize, output: usize) -> (r: Result<Dispatch, Error>)
        ensures
            outcome_view(r) == on_backend(
                self.has_forward_kernels(),
                forward_spec(ActivationMode::Sigmoid, width, input, output),
            ),
    {
        self.activation(ActivationMode::Sigmoid, width, input, output)
    }

    /// The rectified linear unit.
    fn relu(&self, width: FloatWidth, input: usize, output: usize) -> (r: Result<Dispatch, Error>)
        ensures
            outcome_view(r) == on_backend(
                self.has_forward_kernels(),
                forward_spec(ActivationMode::ReLu, width, input, output),
            ),
    {
        self.activation(ActivationMode::ReLu, width, input, output)
    }

    /// The exponential linear unit.
    fn elu(&self, width: FloatWidth, input: usize, output: usize) -> (r: Result<Dispatch, Error>)
        ensures
            outcome_view(r) == on_backend(
                self.has_forward_kernels(),
                forward_spec(ActivationMode::Elu, width, input, output),
            ),
    {
        self.activation(ActivationMode::Elu, width, input, output)
    }

    /// A convolution of `x` by `filter`: reserved, always fails and plans nothing.
    fn convolution(&self, filter: usize, x: usize, result: usize) -> (r: Result<Dispatch, Error>)
        ensures
            r is Err && r->Err_0 == Error::NotImplemented,
    {
        Err(Error::NotImplemented)
    }

    /// A logarithmic softmax of `x`: reserved, always fails and plans nothing.
    fn log_softmax(&self, width: FloatWidth, x: usize, result: usize) -> (r: Result<Dispatch, Error>)
        ensures
            r is Err && r->Err_0 == Error::NotImplemented,
    {
        Err(Error::NotImplemented)
    }
}

/// Gradient evaluation of the catalogue.
pub trait Backward {
    /// The backend holds the backward kernels.
    spec fn has_backward_kernels(&self) -> bool;

    /// Plans the gradient of `mode` at `x`, weighted by `x_diff`, into `result_diff`.
    fn activation_backward(
        &self,
        mode: ActivationMode,
        width: FloatWidth,
        x: usize,
        x_diff: usize,
        result_diff: usize,
    ) -> (r: Result<Dispatch, Error>)
        ensures
            outcome_view(r) == on_backend(
                self.has_backward_kernels(),
                backward_spec(mode, width, x, x_diff, result_diff),
            ),
    ;

    fn tanh_backward(&self, width: FloatWidth, x: usize, x_diff: usize, result_diff: usize) -> (r:
        Result<Dispatch, Error>)
        ensures
            outcome_view(r) == on_backend(
                self.has_backward_kernels(),
                backward_spec(ActivationMode::Tanh, width, x, x_diff, result_diff),
            ),
    {
        self.activation_backward(ActivationMode::Tanh, width, x, x_diff, result_diff)
    }

    fn sigmoid_backward(&self, width: FloatWidth, x: usize, x_diff: usize, result_diff: usize) -> (r:
        Result<Dispatch, Error>)
        ensures
            outcome_view(r) == on_backend(
                self.has_backward_kernels(),
                backward_spec(ActivationMode::Sigmoid, width, x, x_diff, result_diff),
            ),
    {
        self.activation_backward(ActivationMode::Sigmoid, width, x, x_diff, result_diff)
    }

    fn relu_backward(&self, width: FloatWidth, x: usize, x_diff: usize, result_diff: usize) -> (r:
        Result<Dispatch, Error>)
        ensures
            outcome_view(r) == on_backend(
                self.has_backward_kernels(),
                backward_spec(ActivationMode::ReLu, width, x, x_diff, result_diff),
            ),
    {
        self.activation_backward(ActivationMode::ReLu, width, x, x_diff, result_diff)
    }

    fn elu_backward(&self, width: FloatWidth, x: usize, x_diff: usize, result_diff: usize) -> (r:
        Result<Dispatch, Error>)
        ensures
            outcome_view(r) == on_backend(
                self.has_backward_kernels(),
                backward_spec(ActivationMode::Elu, width, x, x_diff, result_diff),
            ),
    {
        self.activation_backward(ActivationMode::Elu, width, x, x_diff, result_diff)
    }

    /// The gradient of the logarithmic softmax: reserved, always fails and
    /// plans nothing.
    fn log_softmax_backward(&self, width: FloatWidth, x: usize, x_diff: usize, result_diff: usize) -> (r:
        Result<Dispatch, Error>)
        ensures
            r is Err && r->Err_0 == Error::NotImplemented,
    {
        Err(Error::NotImplemented)
    }
}

/// A backend that offers the whole catalogue, in both directions.
pub trait Deep: Forward + Backward {

}

impl<P, K> Forward for ParenchymaDeep<P, K> {
    open spec fn has_forward_kernels(&self) -> bool {
        self is Cl
    }

    fn activation(&self, mode: ActivationMode, width: FloatWidth, input: usize, output: usize) -> (r:
        Result<Dispatch, Error>) {
        let plan = forward_dispatch(mode, width, input, output);
        if plan.is_ok() {
            if let Err(e) = self.cl() {
                return Err(e);
            }
        }
        plan
    }
}

impl<P, K> Backward for ParenchymaDeep<P, K> {
    open spec fn has_backward_kernels(&self) -> bool {
        self is Cl
    }

    fn activation_backward(
        &self,
        mode: ActivationMode,
        width: FloatWidth,
        x: usize,
        x_diff: usize,
        result_diff: usize,
    ) -> (r: Result<Dispatch, Error>) {
        let plan = backward_dispatch(mode, width, x, x_diff, result_diff);
        if plan.is_ok() {
            if let Err(e) = self.cl() {
                return Err(e);
            }
        }
        plan
    }
}

impl<P, K> Deep for ParenchymaDeep<P, K> {

}

} // verus!
