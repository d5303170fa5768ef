use parenchyma_deep::catalogue::{ActivationMode, Direction, Error, FloatWidth, Precision};
use parenchyma_deep::dispatch::{
    backward_dispatch, forward_dispatch, sigmoid_dispatch, Backward, Dispatch, Forward, KernelArg,
};
use parenchyma_deep::naming::{entry_point, kernel_name, NameScheme};
use parenchyma_deep::package::{
    catalogue_entry_points, key_at, sigmoid_entry_points, KernelKey, OpenCLNNPackage, Package,
    ParenchymaDeep, CATALOGUE_SIZE,
};

fn key(mode: ActivationMode, direction: Direction, width: FloatWidth) -> KernelKey {
    KernelKey { mode, direction, width }
}

/// A cache whose kernels are the indices of their entry points.
fn indexed_package() -> Package<&'static str, usize> {
    let kernels: Vec<usize> = (0..CATALOGUE_SIZE).collect();
    Package::assemble("program", kernels).unwrap()
}

#[test]
fn kernel_names_follow_the_convention() {
    assert_eq!(
        kernel_name(ActivationMode::Tanh, Direction::Backward, FloatWidth::F64, NameScheme::HostType),
        "tanh_backward_f64"
    );
    assert_eq!(
        kernel_name(ActivationMode::Sigmoid, Direction::Forward, FloatWidth::F32, NameScheme::KernelType),
        "sigmoid_float"
    );
    assert_eq!(
        kernel_name(ActivationMode::Elu, Direction::Backward, FloatWidth::F64, NameScheme::KernelType),
        "elu_backward_double"
    );
    assert_eq!(
        kernel_name(ActivationMode::ReLu, Direction::Forward, FloatWidth::F32, NameScheme::HostType),
        "relu_f32"
    );
    assert_eq!(entry_point("array_sigmoid", FloatWidth::F64, NameScheme::HostType), "array_sigmoid_f64");
}

#[test]
fn catalogue_lists_every_entry_point_once_in_order() {
    let names = catalogue_entry_points(NameScheme::KernelType);
    let expected = vec![
        "tanh_float", "tanh_double", "sigmoid_float", "sigmoid_double",
        "relu_float", "relu_double", "elu_float", "elu_double",
        "tanh_backward_float", "tanh_backward_double",
        "sigmoid_backward_float", "sigmoid_backward_double",
        "relu_backward_float", "relu_backward_double",
        "elu_backward_float", "elu_backward_double",
    ];
    assert_eq!(names, expected);
}

#[test]
fn sigmoid_entry_points_use_host_type_suffixes() {
    assert_eq!(sigmoid_entry_points(), vec!["array_sigmoid_f32", "array_sigmoid_f64"]);
}

#[test]
fn key_at_walks_the_catalogue_order() {
    assert_eq!(key_at(0), key(ActivationMode::Tanh, Direction::Forward, FloatWidth::F32));
    assert_eq!(key_at(5), key(ActivationMode::ReLu, Direction::Forward, FloatWidth::F64));
    assert_eq!(key_at(15), key(ActivationMode::Elu, Direction::Backward, FloatWidth::F64));
}

#[test]
fn lookup_returns_the_kernel_built_for_the_key() {
    let package = indexed_package();
    for i in 0..CATALOGUE_SIZE {
        assert_eq!(*package.kernel(key_at(i)), i);
    }
    assert_eq!(*package.kernel(key(ActivationMode::Sigmoid, Direction::Backward, FloatWidth::F32)), 10);
    assert_eq!(*package.program(), "program");
}

#[test]
fn building_twice_gives_the_same_lookups() {
    let resolve = |name: &String| name.len() * 100 + name.chars().filter(|c| *c == 'd').count();
    let first: Vec<usize> = catalogue_entry_points(NameScheme::HostType).iter().map(resolve).collect();
    let second: Vec<usize> = catalogue_entry_points(NameScheme::HostType).iter().map(resolve).collect();
    let a = Package::assemble((), first).unwrap();
    let b = Package::assemble((), second).unwrap();
    for i in 0..CATALOGUE_SIZE {
        assert_eq!(a.kernel(key_at(i)), b.kernel(key_at(i)));
    }
}

#[test]
fn incomplete_catalogue_is_a_build_error() {
    let r = Package::assemble((), vec![0usize; CATALOGUE_SIZE - 1]);
    assert!(matches!(r, Err(Error::Build)));
    let r = Package::assemble((), vec![0usize; CATALOGUE_SIZE + 1]);
    assert!(matches!(r, Err(Error::Build)));
    let r = Package::<(), usize>::assemble((), Vec::new());
    assert!(matches!(r, Err(Error::Build)));
}

#[test]
fn nn_package_holds_one_sigmoid_per_width() {
    let package = OpenCLNNPackage::assemble(7u8, vec![11usize, 22]).unwrap();
    assert_eq!(*package.kernel(FloatWidth::F32), 11);
    assert_eq!(*package.kernel(FloatWidth::F64), 22);
    assert_eq!(*package.program(), 7);
    assert!(matches!(OpenCLNNPackage::assemble(7u8, vec![11usize]), Err(Error::Build)));
}

#[test]
fn precision_picks_the_width() {
    let p = Precision { single: 'a', double: 'b' };
    assert_eq!(*p.get(FloatWidth::F32), 'a');
    assert_eq!(*p.get(FloatWidth::F64), 'b');
}

fn expect_plan(r: Result<Dispatch, Error>, key: KernelKey, args: Vec<KernelArg>, work: Vec<usize>) {
    let d = r.unwrap();
    assert_eq!(d.key, key);
    assert_eq!(d.args, args);
    assert_eq!(d.global_work, work);
}

#[test]
fn forward_binds_input_output_and_count() {
    expect_plan(
        forward_dispatch(ActivationMode::Tanh, FloatWidth::F64, 6, 6),
        key(ActivationMode::Tanh, Direction::Forward, FloatWidth::F64),
        vec![KernelArg::Read(0), KernelArg::Write(1), KernelArg::Count(6)],
        vec![6],
    );
}

#[test]
fn backward_binds_input_gradients_and_count() {
    expect_plan(
        backward_dispatch(ActivationMode::Elu, FloatWidth::F32, 3, 3, 3),
        key(ActivationMode::Elu, Direction::Backward, FloatWidth::F32),
        vec![KernelArg::Read(0), KernelArg::Read(1), KernelArg::Write(2), KernelArg::Count(3)],
        vec![3],
    );
}

#[test]
fn empty_tensors_plan_no_work_items() {
    expect_plan(
        forward_dispatch(ActivationMode::ReLu, FloatWidth::F32, 0, 0),
        key(ActivationMode::ReLu, Direction::Forward, FloatWidth::F32),
        vec![KernelArg::Read(0), KernelArg::Write(1), KernelArg::Count(0)],
        vec![0],
    );
}

#[test]
fn largest_capacity_is_planned_as_is() {
    let r = forward_dispatch(ActivationMode::Sigmoid, FloatWidth::F64, usize::MAX, usize::MAX);
    assert_eq!(r.unwrap().global_work, vec![usize::MAX]);
}

#[test]
fn capacity_mismatch_is_a_shape_error() {
    assert!(matches!(forward_dispatch(ActivationMode::Tanh, FloatWidth::F32, 4, 5), Err(Error::ShapeMismatch)));
    assert!(matches!(backward_dispatch(ActivationMode::Tanh, FloatWidth::F32, 4, 4, 5), Err(Error::ShapeMismatch)));
    assert!(matches!(backward_dispatch(ActivationMode::Tanh, FloatWidth::F32, 4, 5, 4), Err(Error::ShapeMismatch)));
    assert!(matches!(backward_dispatch(ActivationMode::Tanh, FloatWidth::F32, 5, 4, 4), Err(Error::ShapeMismatch)));
    assert!(matches!(sigmoid_dispatch(FloatWidth::F32, &vec![2, 2], 4, 3), Err(Error::ShapeMismatch)));
}

#[test]
fn sigmoid_of_four_elements_is_one_work_item_each() {
    // The input [3.5, 12.4, 0.5, 6.5] in 32-bit precision.
    let backend: ParenchymaDeep<&'static str, usize> = ParenchymaDeep::Cl(indexed_package());
    let data: Vec<f32> = vec![3.5, 12.4, 0.5, 6.5];
    expect_plan(
        backend.sigmoid(FloatWidth::F32, data.len(), data.len()),
        key(ActivationMode::Sigmoid, Direction::Forward, FloatWidth::F32),
        vec![KernelArg::Read(0), KernelArg::Write(1), KernelArg::Count(4)],
        vec![4],
    );
}

#[test]
fn sigmoid_of_one_element() {
    let backend: ParenchymaDeep<&'static str, usize> = ParenchymaDeep::Cl(indexed_package());
    let d = backend.sigmoid(FloatWidth::F32, 1, 1).unwrap();
    assert_eq!(d.global_work, vec![1]);
    let kernel = *backend.cl().unwrap().kernel(d.key);
    assert_eq!(kernel, 2);
}

#[test]
fn standalone_sigmoid_spans_the_input_dimensions() {
    expect_plan(
        sigmoid_dispatch(FloatWidth::F64, &vec![2, 3], 6, 6),
        key(ActivationMode::Sigmoid, Direction::Forward, FloatWidth::F64),
        vec![KernelArg::Read(0), KernelArg::Write(1)],
        vec![2, 3],
    );
}

#[test]
fn sugar_entry_points_fix_the_mode() {
    let backend: ParenchymaDeep<&'static str, usize> = ParenchymaDeep::Cl(indexed_package());
    assert_eq!(backend.tanh(FloatWidth::F32, 2, 2).unwrap().key.mode, ActivationMode::Tanh);
    assert_eq!(backend.relu(FloatWidth::F32, 2, 2).unwrap().key.mode, ActivationMode::ReLu);
    assert_eq!(backend.elu(FloatWidth::F64, 2, 2).unwrap().key.mode, ActivationMode::Elu);
    let d = backend.sigmoid_backward(FloatWidth::F64, 2, 2, 2).unwrap();
    assert_eq!(d.key, key(ActivationMode::Sigmoid, Direction::Backward, FloatWidth::F64));
    assert_eq!(*backend.cl().unwrap().kernel(d.key), 11);
    assert_eq!(backend.tanh_backward(FloatWidth::F32, 1, 1, 1).unwrap().key.mode, ActivationMode::Tanh);
    assert_eq!(backend.relu_backward(FloatWidth::F32, 1, 1, 1).unwrap().key.mode, ActivationMode::ReLu);
    assert_eq!(backend.elu_backward(FloatWidth::F32, 1, 1, 1).unwrap().key.mode, ActivationMode::Elu);
}

#[test]
fn backend_without_kernels_is_not_initialized() {
    let backend: ParenchymaDeep<&'static str, usize> = ParenchymaDeep::Native;
    assert!(matches!(backend.cl(), Err(Error::BackendNotInitialized)));
    assert!(matches!(backend.sigmoid(FloatWidth::F32, 4, 4), Err(Error::BackendNotInitialized)));
    assert!(matches!(backend.relu_backward(FloatWidth::F32, 4, 4, 4), Err(Error::BackendNotInitialized)));
    // A mismatch is reported before the backend is consulted.
    assert!(matches!(backend.sigmoid(FloatWidth::F32, 4, 3), Err(Error::ShapeMismatch)));
}

#[test]
fn reserved_entry_points_are_not_implemented() {
    let backend: ParenchymaDeep<&'static str, usize> = ParenchymaDeep::Cl(indexed_package());
    assert!(matches!(backend.convolution(9, 16, 16), Err(Error::NotImplemented)));
    assert!(matches!(backend.log_softmax(FloatWidth::F32, 4, 4), Err(Error::NotImplemented)));
    assert!(matches!(backend.log_softmax_backward(FloatWidth::F64, 4, 4, 4), Err(Error::NotImplemented)));
    let native: ParenchymaDeep<&'static str, usize> = ParenchymaDeep::Native;
    assert!(matches!(native.log_softmax(FloatWidth::F32, 4, 4), Err(Error::NotImplemented)));
}
