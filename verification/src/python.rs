//! Python objects and functions, as the plan carries them.

use vstd::prelude::*;

use crate::ir::{DataType, DataTypeView};

verus! {

/// A python object, held in its pickled form.
///
/// That an object is stored as the vector of its pickled bytes is a choice of this library, as
/// are the bytes of `None`. The pickle is neither made nor checked here: whoever makes an
/// object pickles it, or says why that failed, and any bytes are taken for a pickle when a
/// message is read.
#[derive(Debug, PartialEq, Eq)]
pub struct RuntimePyObject {
    pickled: Result<Vec<u8>, String>,
}

/// The view of a `RuntimePyObject`.
#[verifier::ext_equal]
pub enum PyObjectView {
    /// An object, by its pickle.
    Pickled(Seq<u8>),
    /// An object that could not be pickled, for this reason.
    Unpicklable(Seq<char>),
}

/// The pickle of `None` that this library writes: the shortest one, which every pickle
/// protocol reads.
pub open spec fn pickled_none() -> Seq<u8> {
    seq![0x4Eu8, 0x2Eu8]
}

impl RuntimePyObject {
    /// A pickle can be stored with its length before it.
    #[verifier::type_invariant]
    spec fn storable(self) -> bool {
        self.pickled matches Ok(pickled) ==> pickled@.len() + 8 <= isize::MAX
    }

    /// The object, by its pickle where it has one.
    pub closed spec fn view(&self) -> PyObjectView {
        match self.pickled {
            Ok(pickled) => PyObjectView::Pickled(pickled@),
            Err(reason) => PyObjectView::Unpicklable(reason@),
        }
    }

    /// The object whose pickle is `pickled`.
    pub fn from_pickled(pickled: Vec<u8>) -> (r: RuntimePyObject)
        requires
            pickled@.len() + 8 <= isize::MAX,
        ensures
            r@ == PyObjectView::Pickled(pickled@),
    {
        RuntimePyObject { pickled: Ok(pickled) }
    }

    /// An object that could not be pickled, for the given reason.
    pub fn unpicklable(reason: String) -> (r: RuntimePyObject)
        ensures
            r@ == PyObjectView::Unpicklable(reason@),
    {
        RuntimePyObject { pickled: Err(reason) }
    }

    /// Python's `None`.
    pub fn new_none() -> (r: RuntimePyObject)
        ensures
            r@ == PyObjectView::Pickled(pickled_none()),
    {
        let pickled: Vec<u8> = vec![0x4E, 0x2E];
        RuntimePyObject { pickled: Ok(pickled) }
    }

    /// The pickled form, or why there is none.
    pub fn pickled(&self) -> (r: Result<&Vec<u8>, &String>)
        ensures
            match r {
                Ok(pickled) => {
                    &&& self@ == PyObjectView::Pickled(pickled@)
                    &&& pickled@.len() + 8 <= isize::MAX
                },
                Err(reason) => self@ == PyObjectView::Unpicklable(reason@),
            },
    {
        proof {
            use_type_invariant(self);
        }
        match &self.pickled {
            Ok(pickled) => Ok(pickled),
            Err(reason) => Err(reason),
        }
    }

    /// A pickle is no longer than a vector can be.
    pub(crate) proof fn lemma_length(object: RuntimePyObject)
        ensures
            object@ matches PyObjectView::Pickled(pickled) ==> pickled.len() <= usize::MAX,
    {
        if let Ok(pickled) = object.pickled {
            assert(pickled@.len() == pickled.len());
        }
    }
}

/// What a function asks for, in whole units. Nothing is asked for where a field is `None`.
/// Which requests are valid is decided elsewhere: see `Environment::try_new_request`.
#[derive(Clone, Copy, Debug, PartialEq, Eq)]
pub struct ResourceRequest {
    pub num_cpus: Option<u64>,
    pub num_gpus: Option<u64>,
    pub memory_bytes: Option<usize>,
}

/// The callable of a python function.
#[derive(Debug, PartialEq, Eq)]
pub enum MaybeInitializedUDF {
    /// The callable itself.
    Initialized(RuntimePyObject),
    /// A class, and the arguments that make a callable of it.
    Uninitialized { inner: RuntimePyObject, init_args: RuntimePyObject },
}

/// The view of a `MaybeInitializedUDF`.
#[verifier::ext_equal]
pub enum CallableView {
    Initialized(PyObjectView),
    Uninitialized { inner: PyObjectView, init_args: PyObjectView },
}

impl MaybeInitializedUDF {
    pub open spec fn view(&self) -> CallableView {
        match self {
            MaybeInitializedUDF::Initialized(object) => CallableView::Initialized(object@),
            MaybeInitializedUDF::Uninitialized { inner, init_args } => CallableView::Uninitialized {
                inner: inner@,
                init_args: init_args@,
            },
        }
    }
}

/// A python function that works on whole columns.
#[derive(Debug, PartialEq, Eq)]
pub struct LegacyPythonUDF {
    pub name: String,
    pub func: MaybeInitializedUDF,
    /// The arguments that are bound besides the call's own.
    pub bound_args: RuntimePyObject,
    /// The number of arguments that are expressions.
    pub num_expressions: usize,
    pub return_dtype: DataType,
    pub resource_request: Option<ResourceRequest>,
    pub batch_size: Option<usize>,
    pub concurrency: Option<usize>,
    pub use_process: Option<bool>,
}

/// The view of a `LegacyPythonUDF`.
#[verifier::ext_equal]
pub struct LegacyView {
    pub name: Seq<char>,
    pub func: CallableView,
    pub bound_args: PyObjectView,
    pub num_expressions: usize,
    pub return_dtype: DataTypeView,
    pub resource_request: Option<ResourceRequest>,
    pub batch_size: Option<usize>,
    pub concurrency: Option<usize>,
    pub use_process: Option<bool>,
}

impl LegacyPythonUDF {
    pub open spec fn view(&self) -> LegacyView {
        LegacyView {
            name: self.name@,
            func: self.func@,
            bound_args: self.bound_args@,
            num_expressions: self.num_expressions,
            return_dtype: self.return_dtype@,
            resource_request: self.resource_request,
            batch_size: self.batch_size,
            concurrency: self.concurrency,
            use_process: self.use_process,
        }
    }
}

} // verus!
