//! The expressions of a query plan, and their mathematical views.

use std::sync::Arc;

use vstd::prelude::*;

use crate::python::{LegacyPythonUDF, LegacyView, PyObjectView, RuntimePyObject};

verus! {

/// A data type.
#[derive(Debug, PartialEq, Eq)]
pub enum DataType {
    /// In the encoding that the data type codec reads and writes.
    Encoded(Vec<u8>),
    /// One that messages cannot express, by its name.
    Unsupported(&'static str),
}

/// The view of a `DataType`.
#[verifier::ext_equal]
pub enum DataTypeView {
    Encoded(Seq<u8>),
    Unsupported(&'static str),
}

impl DataType {
    pub open spec fn view(&self) -> DataTypeView {
        match *self {
            DataType::Encoded(encoded) => DataTypeView::Encoded(encoded@),
            DataType::Unsupported(name) => DataTypeView::Unsupported(name),
        }
    }
}

/// Access to a map.
#[derive(Debug, PartialEq, Eq)]
pub enum MapExpr {
    Get,
}

/// Reading a sketch.
#[derive(Debug, PartialEq, Eq)]
pub enum SketchExpr {
    Percentile,
}

/// Access to a struct.
#[derive(Debug, PartialEq, Eq)]
pub enum StructExpr {
    /// The field of the given name.
    Get(String),
}

/// The partition transforms.
#[derive(Debug, PartialEq, Eq)]
pub enum PartitioningExpr {
    Years,
    Months,
    Days,
    Hours,
    IcebergBucket(i32),
    IcebergTruncate(i64),
}

/// A function that keeps its arguments beside it: a special form, or a python function
/// that works on whole columns.
#[derive(Debug, PartialEq, Eq)]
pub enum FunctionExpr {
    MapExpr(MapExpr),
    Sketch(SketchExpr),
    Struct(StructExpr),
    Partitioning(PartitioningExpr),
    Python(LegacyPythonUDF),
}

/// The view of a `FunctionExpr`.
#[verifier::ext_equal]
pub enum FunctionExprView {
    MapExpr(MapExpr),
    Sketch(SketchExpr),
    Struct(StructExpr),
    Partitioning(PartitioningExpr),
    Python(LegacyView),
}

impl FunctionExpr {
    pub open spec fn view(&self) -> FunctionExprView {
        match *self {
            FunctionExpr::MapExpr(form) => FunctionExprView::MapExpr(form),
            FunctionExpr::Sketch(form) => FunctionExprView::Sketch(form),
            FunctionExpr::Struct(form) => FunctionExprView::Struct(form),
            FunctionExpr::Partitioning(form) => FunctionExprView::Partitioning(form),
            FunctionExpr::Python(func) => FunctionExprView::Python(func@),
        }
    }
}

/// A shared expression.
pub type ExprRef = Arc<Expr>;

/// One argument of a call, as the caller passed it.
#[derive(Debug, PartialEq, Eq)]
pub enum FunctionArg {
    Named { name: String, arg: ExprRef },
    Unnamed(ExprRef),
}

/// The arguments of a call, not yet bound to parameters.
#[derive(Debug, PartialEq, Eq)]
pub struct FunctionArgs {
    pub args: Vec<FunctionArg>,
}

/// A builtin function with its arguments. The function is known by its name.
#[derive(Debug, PartialEq, Eq)]
pub struct BuiltinScalarFn {
    pub func: String,
    pub inputs: FunctionArgs,
}

/// A python function that works on one row at a time, with its arguments.
#[derive(Debug, PartialEq, Eq)]
pub struct RowWisePyFn {
    pub function_name: String,
    pub inner: RuntimePyObject,
    pub return_dtype: DataType,
    pub original_args: RuntimePyObject,
    pub args: Vec<ExprRef>,
}

/// The python functions that carry their arguments.
#[derive(Debug, PartialEq, Eq)]
pub enum PyScalarFn {
    RowWise(RowWisePyFn),
}

/// A function that carries its arguments.
#[derive(Debug, PartialEq, Eq)]
pub enum ScalarFn {
    Builtin(BuiltinScalarFn),
    Python(PyScalarFn),
}

/// An expression.
#[derive(Debug, PartialEq, Eq)]
pub enum Expr {
    Function { func: FunctionExpr, inputs: Vec<ExprRef> },
    ScalarFn(ScalarFn),
    /// Any other expression, in the encoding that its own codec reads and writes.
    Other(Vec<u8>),
    /// An expression that messages cannot express, by its name.
    Unsupported(&'static str),
}

/// The view of a `FunctionArg`.
#[verifier::ext_equal]
pub struct ArgView {
    pub name: Option<Seq<char>>,
    pub expr: ExprView,
}

/// The view of a `RowWisePyFn`.
#[verifier::ext_equal]
pub struct RowWiseView {
    pub function_name: Seq<char>,
    pub inner: PyObjectView,
    pub return_dtype: DataTypeView,
    pub original_args: PyObjectView,
    pub args: Seq<ExprView>,
}

/// The view of a `ScalarFn`.
#[verifier::ext_equal]
pub enum ScalarFnView {
    Builtin { func: Seq<char>, inputs: Seq<ArgView> },
    RowWise(RowWiseView),
}

/// The view of an `Expr`.
#[verifier::ext_equal]
pub enum ExprView {
    Function { func: FunctionExprView, inputs: Seq<ExprView> },
    ScalarFn(ScalarFnView),
    Other(Seq<u8>),
    Unsupported(&'static str),
}

/// The views of a sequence of expressions.
pub open spec fn expr_views(exprs: Seq<ExprRef>) -> Seq<ExprView>
    decreases exprs,
{
    if exprs.len() == 0 {
        Seq::empty()
    } else {
        expr_views(exprs.drop_last()).push((*exprs.last()).view())
    }
}

/// The views of a sequence of arguments.
pub open spec fn arg_views(args: Seq<FunctionArg>) -> Seq<ArgView>
    decreases args,
{
    if args.len() == 0 {
        Seq::empty()
    } else {
        arg_views(args.drop_last()).push(args.last().view())
    }
}

impl FunctionArg {
    pub open spec fn view(&self) -> ArgView
        decreases self,
    {
        match self {
            FunctionArg::Named { name, arg } => ArgView {
                name: Some(name@),
                expr: (**arg).view(),
            },
            FunctionArg::Unnamed(arg) => ArgView { name: None, expr: (**arg).view() },
        }
    }

    /// An argument that was passed by the name of its parameter.
    pub fn named(name: String, arg: ExprRef) -> (r: FunctionArg)
        ensures
            r@ == (ArgView { name: Some(name@), expr: (*arg)@ }),
    {
        FunctionArg::Named { name, arg }
    }

    /// An argument that was passed by its position.
    pub fn unnamed(arg: ExprRef) -> (r: FunctionArg)
        ensures
            r@ == (ArgView { name: None, expr: (*arg)@ }),
    {
        FunctionArg::Unnamed(arg)
    }

    /// The argument itself, without the name it was passed by.
    pub fn into_inner(self) -> (r: ExprRef)
        ensures
            (*r)@ == self@.expr,
    {
        match self {
            FunctionArg::Named { name: _, arg } => arg,
            FunctionArg::Unnamed(arg) => arg,
        }
    }
}

impl FunctionArgs {
    pub open spec fn view(&self) -> Seq<ArgView>
        decreases self,
    {
        arg_views(self.args@)
    }
}

/// The arguments without the names that they were passed by.
pub open spec fn inner_exprs(args: Seq<ArgView>) -> Seq<ExprView> {
    args.map_values(|arg: ArgView| arg.expr)
}

impl FunctionArgs {
    /// Arguments that are taken as they are, in any order and with any names.
    pub fn new_unchecked(args: Vec<FunctionArg>) -> (r: FunctionArgs)
        ensures
            r@ == arg_views(args@),
    {
        FunctionArgs { args }
    }

    /// The arguments, without the names that they were passed by.
    pub fn into_inner(self) -> (r: Vec<ExprRef>)
        ensures
            expr_views(r@) == inner_exprs(self@),
    {
        let ghost args = self.args@;
        let mut exprs: Vec<ExprRef> = Vec::new();
        for arg in it: self.args.into_iter()
            invariant
                it.seq() == args,
                expr_views(exprs@) == inner_exprs(arg_views(args.take(it.index()))),
        {
            let ghost before = exprs@;
            let ghost i = it.index();
            assert(args.take(i + 1).drop_last() =~= args.take(i));
            exprs.push(arg.into_inner());
            assert(exprs@.drop_last() =~= before);
        }
        assert(args.take(args.len() as int) =~= args);
        exprs
    }
}

impl ScalarFn {
    pub open spec fn view(&self) -> ScalarFnView
        decreases self,
    {
        match self {
            ScalarFn::Builtin(builtin) => ScalarFnView::Builtin {
                func: builtin.func@,
                inputs: builtin.inputs.view(),
            },
            ScalarFn::Python(PyScalarFn::RowWise(row_wise)) => ScalarFnView::RowWise(
                RowWiseView {
                    function_name: row_wise.function_name@,
                    inner: row_wise.inner@,
                    return_dtype: row_wise.return_dtype@,
                    original_args: row_wise.original_args@,
                    args: expr_views(row_wise.args@),
                },
            ),
        }
    }
}

impl Expr {
    pub open spec fn view(&self) -> ExprView
        decreases self,
    {
        match self {
            Expr::Function { func, inputs } => ExprView::Function {
                func: func@,
                inputs: expr_views(inputs@),
            },
            Expr::ScalarFn(call) => ExprView::ScalarFn(call.view()),
            Expr::Other(encoded) => ExprView::Other(encoded@),
            Expr::Unsupported(name) => ExprView::Unsupported(*name),
        }
    }
}

} // verus!
