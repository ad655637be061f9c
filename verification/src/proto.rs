//! The protobuf messages, and their mathematical views.
//!
//! A field that protobuf cannot mark as required is an `Option`, also where every
//! message that makes sense sets it.

use vstd::prelude::*;

verus! {

/// A data type, in the encoding that the data type codec reads and writes.
#[derive(Debug, PartialEq, Eq)]
pub struct DataType {
    pub variant: Option<Vec<u8>>,
}

impl DataType {
    pub open spec fn view(&self) -> Option<Seq<u8>> {
        match self.variant {
            Some(bytes) => Some(bytes@),
            None => None,
        }
    }
}

/// A serialised python object.
#[derive(Debug, PartialEq, Eq)]
pub struct PyObject {
    pub object: Vec<u8>,
}

impl PyObject {
    pub open spec fn view(&self) -> Seq<u8> {
        self.object@
    }
}

/// The view of a field that holds a serialised python object.
pub open spec fn py_field(field: Option<PyObject>) -> Option<Seq<u8>> {
    match field {
        Some(object) => Some(object@),
        None => None,
    }
}

/// The view of a field that holds a data type.
pub open spec fn dtype_field(field: Option<DataType>) -> Option<Option<Seq<u8>>> {
    match field {
        Some(dtype) => Some(dtype@),
        None => None,
    }
}

/// A builtin function, by its name.
#[derive(Debug, PartialEq, Eq)]
pub struct BuiltinFn {
    pub name: String,
}

/// A python function that works on whole columns.
#[derive(Debug, PartialEq, Eq)]
pub struct LegacyFn {
    pub name: String,
    pub arity: u64,
    pub return_type: Option<DataType>,
    pub callable: Option<PyObject>,
    pub callable_init_args: Option<PyObject>,
    pub callable_call_args: Option<PyObject>,
    pub concurrency: Option<u64>,
    pub batch_size: Option<u64>,
    pub num_cpus: Option<u64>,
    pub num_gpus: Option<u64>,
    pub max_memory_bytes: Option<u64>,
    pub use_process: Option<bool>,
}

/// The view of a `LegacyFn`.
#[verifier::ext_equal]
pub struct LegacyFnView {
    pub name: Seq<char>,
    pub arity: u64,
    pub return_type: Option<Option<Seq<u8>>>,
    pub callable: Option<Seq<u8>>,
    pub callable_init_args: Option<Seq<u8>>,
    pub callable_call_args: Option<Seq<u8>>,
    pub concurrency: Option<u64>,
    pub batch_size: Option<u64>,
    pub num_cpus: Option<u64>,
    pub num_gpus: Option<u64>,
    pub max_memory_bytes: Option<u64>,
    pub use_process: Option<bool>,
}

impl LegacyFn {
    pub open spec fn view(&self) -> LegacyFnView {
        LegacyFnView {
            name: self.name@,
            arity: self.arity,
            return_type: dtype_field(self.return_type),
            callable: py_field(self.callable),
            callable_init_args: py_field(self.callable_init_args),
            callable_call_args: py_field(self.callable_call_args),
            concurrency: self.concurrency,
            batch_size: self.batch_size,
            num_cpus: self.num_cpus,
            num_gpus: self.num_gpus,
            max_memory_bytes: self.max_memory_bytes,
            use_process: self.use_process,
        }
    }
}

/// A python function that works on one row at a time.
#[derive(Debug, PartialEq, Eq)]
pub struct RowWiseFn {
    pub name: String,
    pub return_dtype: Option<DataType>,
    pub inner: Option<PyObject>,
    pub original_args: Option<PyObject>,
}

/// The view of a `RowWiseFn`.
#[verifier::ext_equal]
pub struct RowWiseFnView {
    pub name: Seq<char>,
    pub return_dtype: Option<Option<Seq<u8>>>,
    pub inner: Option<Seq<u8>>,
    pub original_args: Option<Seq<u8>>,
}

impl RowWiseFn {
    pub open spec fn view(&self) -> RowWiseFnView {
        RowWiseFnView {
            name: self.name@,
            return_dtype: dtype_field(self.return_dtype),
            inner: py_field(self.inner),
            original_args: py_field(self.original_args),
        }
    }
}

/// The kinds of python functions.
#[derive(Debug, PartialEq, Eq)]
pub enum PyFnVariant {
    Legacy(LegacyFn),
    RowWise(RowWiseFn),
}

/// The view of a `PyFnVariant`.
#[verifier::ext_equal]
pub enum PyFnVariantView {
    Legacy(LegacyFnView),
    RowWise(RowWiseFnView),
}

impl PyFnVariant {
    pub open spec fn view(&self) -> PyFnVariantView {
        match self {
            PyFnVariant::Legacy(legacy) => PyFnVariantView::Legacy(legacy@),
            PyFnVariant::RowWise(row_wise) => PyFnVariantView::RowWise(row_wise@),
        }
    }
}

/// A python function.
#[derive(Debug, PartialEq, Eq)]
pub struct PyFn {
    pub variant: Option<PyFnVariant>,
}

impl PyFn {
    pub open spec fn view(&self) -> Option<PyFnVariantView> {
        match self.variant {
            Some(variant) => Some(variant@),
            None => None,
        }
    }
}

/// Which function is called.
#[derive(Debug, PartialEq, Eq)]
pub enum Descriptor {
    Builtin(BuiltinFn),
    Py(PyFn),
}

/// The view of a `Descriptor`.
#[verifier::ext_equal]
pub enum DescriptorView {
    Builtin(Seq<char>),
    Py(Option<PyFnVariantView>),
}

impl Descriptor {
    pub open spec fn view(&self) -> DescriptorView {
        match self {
            Descriptor::Builtin(builtin) => DescriptorView::Builtin(builtin.name@),
            Descriptor::Py(py) => DescriptorView::Py(py@),
        }
    }
}

/// One argument, as the caller passed it: with the name of a parameter, or without.
#[derive(Debug, PartialEq, Eq)]
pub struct Arg {
    pub param: Option<String>,
    pub expr: Option<Expr>,
}

/// The arguments of a call.
#[derive(Debug, PartialEq, Eq)]
pub struct Args {
    pub args: Vec<Arg>,
}

/// A call of a scalar function.
#[derive(Debug, PartialEq, Eq)]
pub struct ScalarFn {
    pub descriptor: Option<Descriptor>,
    pub args: Option<Args>,
}

/// The kinds of expressions.
#[derive(Debug, PartialEq, Eq)]
pub enum ExprVariant {
    ScalarFn(ScalarFn),
    /// Any other expression, in the encoding that its own codec reads and writes.
    Other(Vec<u8>),
}

/// An expression.
#[derive(Debug, PartialEq, Eq)]
pub struct Expr {
    pub variant: Option<ExprVariant>,
}

/// The view of an `Arg`.
#[verifier::ext_equal]
pub struct ArgView {
    pub param: Option<Seq<char>>,
    pub expr: Option<ExprView>,
}

/// The view of a `ScalarFn`.
#[verifier::ext_equal]
pub struct ScalarFnView {
    pub descriptor: Option<DescriptorView>,
    pub args: Option<Seq<ArgView>>,
}

/// The view of an `Expr`.
#[verifier::ext_equal]
pub enum ExprView {
    /// The variant is not set.
    Unset,
    ScalarFn(ScalarFnView),
    Other(Seq<u8>),
}

/// The view of an optional name.
pub open spec fn name_view(name: Option<String>) -> Option<Seq<char>> {
    match name {
        Some(name) => Some(name@),
        None => None,
    }
}

impl Arg {
    pub open spec fn view(&self) -> ArgView
        decreases self,
    {
        ArgView {
            param: name_view(self.param),
            expr: match self.expr {
                Some(expr) => Some(expr.view()),
                None => None,
            },
        }
    }
}

impl Args {
    pub open spec fn view(&self) -> Seq<ArgView>
        decreases self,
    {
        arg_views(self.args@)
    }
}

/// The views of a sequence of arguments.
pub open spec fn arg_views(args: Seq<Arg>) -> Seq<ArgView>
    decreases args,
{
    if args.len() == 0 {
        Seq::empty()
    } else {
        arg_views(args.drop_last()).push(args.last().view())
    }
}

impl ScalarFn {
    pub open spec fn view(&self) -> ScalarFnView
        decreases self,
    {
        ScalarFnView {
            descriptor: match self.descriptor {
                Some(descriptor) => Some(descriptor@),
                None => None,
            },
            args: match self.args {
                Some(args) => Some(args.view()),
                None => None,
            },
        }
    }
}

impl Expr {
    pub open spec fn view(&self) -> ExprView
        decreases self,
    {
        match self.variant {
            Some(ExprVariant::ScalarFn(call)) => ExprView::ScalarFn(call.view()),
            Some(ExprVariant::Other(bytes)) => ExprView::Other(bytes@),
            None => ExprView::Unset,
        }
    }
}

} // verus!
