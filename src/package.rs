//! The kernel cache: one compiled kernel per (mode, direction, width),
//! built once for a backend context and only read afterwards.

use vstd::prelude::*;
use crate::catalogue::{
    ActivationMode, Direction, Error, FloatWidth, Precision, direction_index, mode_index,
    width_index,
};
use crate::naming::{NameScheme, entry_point, entry_point_spec, kernel_name, kernel_name_spec};

verus! {

/// The name under which this extension registers with a backend.
pub const PACKAGE_NAME: &'static str = "parenchyma/dnn";

/// The number of kernels in the catalogue: four modes, two directions, two widths.
pub const CATALOGUE_SIZE: usize = 16;

/// Identifies one kernel of the catalogue.
#[derive(Clone, Copy, Debug, PartialEq, Eq, Structural)]
pub struct KernelKey {
    pub mode: ActivationMode,
    pub direction: Direction,
    pub width: FloatWidth,
}

/// The position of a kernel in the catalogue's order: forward kernels first,
/// modes in declaration order, the narrow width before the wide one.
pub open spec fn slot(key: KernelKey) -> nat {
    direction_index(key.direction) * 8 + mode_index(key.mode) * 2 + width_index(key.width)
}

pub open spec fn key_at_spec(i: int) -> KernelKey {
    let direction = if i / 8 == 0 { Direction::Forward } else { Direction::Backward };
    let m = (i % 8) / 2;
    let mode = if m == 0 {
        ActivationMode::Tanh
    } else if m == 1 {
        ActivationMode::Sigmoid
    } else if m == 2 {
        ActivationMode::ReLu
    } else {
        ActivationMode::Elu
    };
    let width = if i % 2 == 0 { FloatWidth::F32 } else { FloatWidth::F64 };
    KernelKey { mode, direction, width }
}

/// The entry point names of the whole catalogue, in catalogue order.
pub open spec fn catalogue_names(scheme: NameScheme) -> Seq<Seq<char>> {
    Seq::new(
        CATALOGUE_SIZE as nat,
        |i: int|
            kernel_name_spec(
                key_at_spec(i).mode,
                key_at_spec(i).direction,
                key_at_spec(i).width,
                scheme,
            ),
    )
}

/// The key at catalogue position `i`.
pub fn key_at(i: usize) -> (r: KernelKey)
    requires
        i < CATALOGUE_SIZE,
    ensures
        r == key_at_spec(i as int),
{
    let direction = if i / 8 == 0 { Direction::Forward } else { Direction::Backward };
    let m: usize = (i % 8) / 2;
    let mode = if m == 0 {
        ActivationMode::Tanh
    } else if m == 1 {
        ActivationMode::Sigmoid
    } else if m == 2 {
        ActivationMode::ReLu
    } else {
        ActivationMode::Elu
    };
    let width = if i % 2 == 0 { FloatWidth::F32 } else { FloatWidth::F64 };
    KernelKey { mode, direction, width }
}

/// Catalogue positions and keys correspond one to one.
pub proof fn lemma_slot_bijective(key: KernelKey, i: int)
    ensures
        slot(key) < CATALOGUE_SIZE,
        key_at_spec(slot(key) as int) == key,
        0 <= i < CATALOGUE_SIZE ==> slot(key_at_spec(i)) == i,
{
}

/// The names of the entry points that a context must resolve to build its
/// cache, in catalogue order.
pub fn catalogue_entry_points(scheme: NameScheme) -> (r: Vec<String>)
    ensures
        r@.len() == CATALOGUE_SIZE,
        forall|i: int| 0 <= i < CATALOGUE_SIZE ==> #[trigger] r@[i]@ == catalogue_names(scheme)[i],
{
    let mut names: Vec<String> = Vec::new();
    let mut i: usize = 0;
    while i < CATALOGUE_SIZE
        invariant
            i <= CATALOGUE_SIZE,
            names@.len() == i,
            forall|j: int| 0 <= j < i ==> #[trigger] names@[j]@ == catalogue_names(scheme)[j],
        decreases CATALOGUE_SIZE - i,
    {
        let key = key_at(i);
        names.push(kernel_name(key.mode, key.direction, key.width, scheme));
        i = i + 1;
    }
    names
}


/// Takes the last two kernels of `kernels` as the narrow and the wide variant.
fn take_precision<K>(kernels: &mut Vec<K>) -> (r: Precision<K>)
    requires
        old(kernels)@.len() >= 2,
    ensures
        final(kernels)@ == old(kernels)@.subrange(0, old(kernels)@.len() - 2),
        r.single == old(kernels)@[old(kernels)@.len() - 2],
        r.double == old(kernels)@[old(kernels)@.len() - 1],
{
    let double = kernels.pop().unwrap();
    let single = kernels.pop().unwrap();
    Precision { single, double }
}

/// The compiled program of the catalogue and its kernels, one per key.
#[derive(Debug)]
pub struct Package<P, K> {
    program: P,
    tanh: Precision<K>,
    sigmoid: Precision<K>,
    relu: Precision<K>,
    elu: Precision<K>,
    tanh_backward: Precision<K>,
    sigmoid_backward: Precision<K>,
    relu_backward: Precision<K>,
    elu_backward: Precision<K>,
}

impl<P, K> Package<P, K> {
    /// The kernel stored for `key`.
    pub closed spec fn entry(&self, key: KernelKey) -> K {
        let p = match (key.mode, key.direction) {
            (ActivationMode::Tanh, Direction::Forward) => self.tanh,
            (ActivationMode::Sigmoid, Direction::Forward) => self.sigmoid,
            (ActivationMode::ReLu, Direction::Forward) => self.relu,
            (ActivationMode::Elu, Direction::Forward) => self.elu,
            (ActivationMode::Tanh, Direction::Backward) => self.tanh_backward,
            (ActivationMode::Sigmoid, Direction::Backward) => self.sigmoid_backward,
            (ActivationMode::ReLu, Direction::Backward) => self.relu_backward,
            (ActivationMode::Elu, Direction::Backward) => self.elu_backward,
        };
        p.at(key.width)
    }

    pub closed spec fn program_spec(&self) -> P {
        self.program
    }

    /// Every key resolves to the kernel at its catalogue position in `kernels`.
    pub open spec fn holds(&self, kernels: Seq<K>) -> bool {
        forall|key: KernelKey| #[trigger] self.entry(key) == kernels[slot(key) as int]
    }

    /// Builds the cache from `program` and the kernels resolved from it, given
    /// in the order of `catalogue_entry_points`. Fails with a build error when
    /// the catalogue is not complete.
    pub fn assemble(program: P, kernels: Vec<K>) -> (r: Result<Package<P, K>, Error>)
        ensures
            r is Ok <==> kernels@.len() == CATALOGUE_SIZE,
            r is Err ==> r->Err_0 == Error::Build,
            r is Ok ==> r->Ok_0.holds(kernels@) && r->Ok_0.program_spec() == program,
    {
        if kernels.len() != CATALOGUE_SIZE {
            return Err(Error::Build);
        }
        let ghost all = kernels@;
        let mut ks = kernels;
        let elu_backward = take_precision(&mut ks);
        let relu_backward = take_precision(&mut ks);
        let sigmoid_backward = take_precision(&mut ks);
        let tanh_backward = take_precision(&mut ks);
        let elu = take_precision(&mut ks);
        let relu = take_precision(&mut ks);
        let sigmoid = take_precision(&mut ks);
        let tanh = take_precision(&mut ks);
        let package = Package {
            program,
            tanh,
            sigmoid,
            relu,
            elu,
            tanh_backward,
            sigmoid_backward,
            relu_backward,
            elu_backward,
        };
        assert forall|key: KernelKey| #[trigger] package.entry(key) == all[slot(key) as int] by {}
        Ok(package)
    }

    /// The kernel for `key`.
    pub fn kernel(&self, key: KernelKey) -> (r: &K)
        ensures
            *r == self.entry(key),
    {
        let p = match (key.mode, key.direction) {
            (ActivationMode::Tanh, Direction::Forward) => &self.tanh,
            (ActivationMode::Sigmoid, Direction::Forward) => &self.sigmoid,
            (ActivationMode::ReLu, Direction::Forward) => &self.relu,
            (ActivationMode::Elu, Direction::Forward) => &self.elu,
            (ActivationMode::Tanh, Direction::Backward) => &self.tanh_backward,
            (ActivationMode::Sigmoid, Direction::Backward) => &self.sigmoid_backward,
            (ActivationMode::ReLu, Direction::Backward) => &self.relu_backward,
            (ActivationMode::Elu, Direction::Backward) => &self.elu_backward,
        };
        p.get(key.width)
    }

    /// The compiled program the kernels come from.
    pub fn program(&self) -> (r: &P)
        ensures
            *r == self.program_spec(),
    {
        &self.program
    }
}


/// Building the cache twice for one context gives the same lookups: where the
/// context resolves each entry point name to a kernel that depends on the name
/// alone, both caches hold, for every key, the kernel resolved from that key's
/// entry point name.
pub proof fn lemma_build_idempotent<P, K>(
    scheme: NameScheme,
    resolve: spec_fn(Seq<char>) -> K,
    first_kernels: Seq<K>,
    second_kernels: Seq<K>,
    first: Package<P, K>,
    second: Package<P, K>,
    key: KernelKey,
)
    requires
        first_kernels.len() == CATALOGUE_SIZE,
        second_kernels.len() == CATALOGUE_SIZE,
        forall|i: int|
            0 <= i < CATALOGUE_SIZE ==> #[trigger] first_kernels[i] == resolve(
                catalogue_names(scheme)[i],
            ),
        forall|i: int|
            0 <= i < CATALOGUE_SIZE ==> #[trigger] second_kernels[i] == resolve(
                catalogue_names(scheme)[i],
            ),
        first.holds(first_kernels),
        second.holds(second_kernels),
    ensures
        first.entry(key) == second.entry(key),
        first.entry(key) == resolve(kernel_name_spec(key.mode, key.direction, key.width, scheme)),
{
    lemma_slot_bijective(key, 0);
    let i = slot(key) as int;
    assert(first_kernels[i] == resolve(catalogue_names(scheme)[i]));
    assert(second_kernels[i] == resolve(catalogue_names(scheme)[i]));
}

/// The base name of the standalone sigmoid kernel.
pub open spec fn array_sigmoid_spec() -> Seq<char> {
    "array_sigmoid"@
}

/// The standalone sigmoid program and its kernel for each width.
#[derive(Debug)]
pub struct OpenCLNNPackage<P, K> {
    program: P,
    sigmoid: Precision<K>,
}

/// The entry point names of the standalone sigmoid kernel, narrow width first.
pub fn sigmoid_entry_points() -> (r: Vec<String>)
    ensures
        r@.len() == 2,
        r@[0]@ == entry_point_spec(array_sigmoid_spec(), FloatWidth::F32, NameScheme::HostType),
        r@[1]@ == entry_point_spec(array_sigmoid_spec(), FloatWidth::F64, NameScheme::HostType),
{
    let mut names: Vec<String> = Vec::new();
    names.push(entry_point("array_sigmoid", FloatWidth::F32, NameScheme::HostType));
    names.push(entry_point("array_sigmoid", FloatWidth::F64, NameScheme::HostType));
    names
}

impl<P, K> OpenCLNNPackage<P, K> {
    pub closed spec fn sigmoid_spec(&self, width: FloatWidth) -> K {
        self.sigmoid.at(width)
    }

    pub closed spec fn program_spec(&self) -> P {
        self.program
    }

    /// Builds the package from `program` and the kernels resolved for the
    /// names of `sigmoid_entry_points`, in that order. Fails with a build
    /// error unless exactly two kernels are given.
    pub fn assemble(program: P, kernels: Vec<K>) -> (r: Result<OpenCLNNPackage<P, K>, Error>)
        ensures
            r is Ok <==> kernels@.len() == 2,
            r is Err ==> r->Err_0 == Error::Build,
            r is Ok ==> r->Ok_0.sigmoid_spec(FloatWidth::F32) == kernels@[0]
                && r->Ok_0.sigmoid_spec(FloatWidth::F64) == kernels@[1]
                && r->Ok_0.program_spec() == program,
    {
        if kernels.len() != 2 {
            return Err(Error::Build);
        }
        let mut ks = kernels;
        let sigmoid = take_precision(&mut ks);
        Ok(OpenCLNNPackage { program, sigmoid })
    }

    /// The sigmoid kernel for `width`.
    pub fn kernel(&self, width: FloatWidth) -> (r: &K)
        ensures
            *r == self.sigmoid_spec(width),
    {
        self.sigmoid.get(width)
    }

    /// The compiled program the kernels come from.
    pub fn program(&self) -> (r: &P)
        ensures
            *r == self.program_spec(),
    {
        &self.program
    }
}

/// The state this extension keeps in a backend, by the backend's framework.
#[derive(Debug)]
pub enum ParenchymaDeep<P, K> {
    /// An OpenCL backend, with its kernel cache.
    Cl(Package<P, K>),
    /// A backend of a framework for which this extension has no kernels.
    Native,
}

impl<P, K> ParenchymaDeep<P, K> {
    /// The OpenCL kernel cache; fails when the backend is of another framework.
    pub fn cl(&self) -> (r: Result<&Package<P, K>, Error>)
        ensures
            self is Cl <==> r is Ok,
            self is Cl ==> *r->Ok_0 == self->Cl_0,
            self is Native ==> r->Err_0 == Error::BackendNotInitialized,
    {
        match self {
            ParenchymaDeep::Cl(package) => Ok(package),
            ParenchymaDeep::Native => Err(Error::BackendNotInitialized),
        }
    }
}

} // verus!
