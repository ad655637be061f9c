//! Calls of scalar functions, to and from their messages.

use std::sync::Arc;

use vstd::prelude::*;

use crate::environment::{Environment, EnvironmentView};
use crate::error::{Field, ProtoError, ProtoErrorView, ProtoResult};
use crate::ir;
use crate::ir::{
    BuiltinScalarFn, DataType, Expr, ExprRef, FunctionArg, FunctionArgs, FunctionExpr, PyScalarFn,
    RowWisePyFn, ScalarFn,
};
use crate::model::{
    decode_arg, decode_args, decode_call, decode_descriptor, decode_expr, encode_arg, encode_args,
    encode_call, encode_expr, encode_function_call, encode_unnamed,
};
use crate::proto;
use crate::python::{LegacyPythonUDF, RuntimePyObject};

verus! {

/// An error among the first arguments of a message is the error of all of them.
proof fn lemma_decode_args_error(messages: Seq<proto::Arg>, n: int, env: EnvironmentView)
    requires
        0 <= n <= messages.len(),
        decode_args(proto::arg_views(messages.take(n)), env) is Err,
    ensures
        decode_args(proto::arg_views(messages), env) == decode_args(
            proto::arg_views(messages.take(n)),
            env,
        ),
    decreases messages.len(),
{
    if n == messages.len() {
        assert(messages.take(n) =~= messages);
    } else {
        let front = messages.drop_last();
        assert(front.take(n) =~= messages.take(n));
        lemma_decode_args_error(front, n, env);
        assert(proto::arg_views(messages).drop_last() =~= proto::arg_views(front));
    }
}

/// An error among the first arguments is the error of all of them.
proof fn lemma_encode_args_error(args: Seq<FunctionArg>, n: int)
    requires
        0 <= n <= args.len(),
        encode_args(ir::arg_views(args.take(n))) is Err,
    ensures
        encode_args(ir::arg_views(args)) == encode_args(ir::arg_views(args.take(n))),
    decreases args.len(),
{
    if n == args.len() {
        assert(args.take(n) =~= args);
    } else {
        let front = args.drop_last();
        assert(front.take(n) =~= args.take(n));
        lemma_encode_args_error(front, n);
        assert(ir::arg_views(args).drop_last() =~= ir::arg_views(front));
    }
}

/// An error among the first arguments is the error of all of them.
proof fn lemma_encode_unnamed_error(args: Seq<ExprRef>, n: int)
    requires
        0 <= n <= args.len(),
        encode_unnamed(ir::expr_views(args.take(n))) is Err,
    ensures
        encode_unnamed(ir::expr_views(args)) == encode_unnamed(ir::expr_views(args.take(n))),
    decreases args.len(),
{
    if n == args.len() {
        assert(args.take(n) =~= args);
    } else {
        let front = args.drop_last();
        assert(front.take(n) =~= args.take(n));
        lemma_encode_unnamed_error(front, n);
        assert(ir::expr_views(args).drop_last() =~= ir::expr_views(front));
    }
}

impl FunctionArg {
    /// The argument of a message.
    pub fn from_proto<E: Environment>(message: proto::Arg, env: &E) -> (r: ProtoResult<
        FunctionArg,
    >)
        ensures
            match r {
                Ok(arg) => decode_arg(message@, env@) == Ok::<_, ProtoErrorView>(arg@),
                Err(e) => decode_arg(message@, env@) == Err::<ir::ArgView, _>(e@),
            },
        decreases message,
    {
        match message.expr {
            Some(expr) => {
                let expr = Arc::new(Expr::from_proto(expr, env)?);
                match message.param {
                    Some(name) => Ok(FunctionArg::named(name, expr)),
                    None => Ok(FunctionArg::unnamed(expr)),
                }
            },
            None => Err(ProtoError::Null(Field::ArgExpr)),
        }
    }

    /// The message about an argument.
    pub fn to_proto(&self) -> (r: ProtoResult<proto::Arg>)
        ensures
            match r {
                Ok(message) => encode_arg(self@) == Ok::<_, ProtoErrorView>(message@),
                Err(e) => encode_arg(self@) == Err::<proto::ArgView, _>(e@),
            },
        decreases self, 0int,
    {
        match self {
            FunctionArg::Named { name, arg } => {
                let expr = (**arg).to_proto()?;
                Ok(proto::Arg { param: Some(name.clone()), expr: Some(expr) })
            },
            FunctionArg::Unnamed(arg) => {
                let expr = (**arg).to_proto()?;
                Ok(proto::Arg { param: None, expr: Some(expr) })
            },
        }
    }
}

impl FunctionArgs {
    /// The arguments of a message.
    pub fn from_proto<E: Environment>(message: proto::Args, env: &E) -> (r: ProtoResult<
        FunctionArgs,
    >)
        ensures
            match r {
                Ok(args) => decode_args(message@, env@) == Ok::<_, ProtoErrorView>(
                    args@,
                ),
                Err(e) => decode_args(message@, env@) == Err::<
                    Seq<ir::ArgView>,
                    _,
                >(e@),
            },
        decreases message,
    {
        let ghost messages = message.args@;
        let mut args: Vec<FunctionArg> = Vec::new();
        for arg in it: message.args.into_iter()
            invariant
                it.seq() == messages,
                decode_args(proto::arg_views(messages.take(it.index())), env@)
                    == Ok::<_, ProtoErrorView>(ir::arg_views(args@)),
        {
            let ghost i = it.index();
            let ghost before = args@;
            proof {
                assert(messages.take(i + 1).drop_last() =~= messages.take(i));
                assert(proto::arg_views(messages.take(i + 1)).drop_last() =~= proto::arg_views(
                    messages.take(i),
                ));
            }
            match FunctionArg::from_proto(arg, env) {
                Ok(arg) => args.push(arg),
                Err(e) => {
                    proof {
                        lemma_decode_args_error(messages, i + 1, env@);
                    }
                    return Err(e);
                },
            }
            assert(args@.drop_last() =~= before);
        }
        assert(messages.take(messages.len() as int) =~= messages);
        Ok(FunctionArgs::new_unchecked(args))
    }
}

impl Expr {
    /// The expression of a message.
    pub fn from_proto<E: Environment>(message: proto::Expr, env: &E) -> (r: ProtoResult<
        Expr,
    >)
        ensures
            match r {
                Ok(expr) => decode_expr(message@, env@) == Ok::<_, ProtoErrorView>(
                    expr@,
                ),
                Err(e) => decode_expr(message@, env@) == Err::<ir::ExprView, _>(e@),
            },
        decreases message,
    {
        match message.variant {
            Some(proto::ExprVariant::ScalarFn(call)) => from_proto_function(call, env),
            Some(proto::ExprVariant::Other(encoded)) => Ok(Expr::Other(encoded)),
            None => Err(ProtoError::Null(Field::ExprVariant)),
        }
    }

    /// The message about an expression.
    pub fn to_proto(&self) -> (r: ProtoResult<proto::Expr>)
        ensures
            match r {
                Ok(message) => encode_expr(self@) == Ok::<_, ProtoErrorView>(message@),
                Err(e) => encode_expr(self@) == Err::<proto::ExprView, _>(e@),
            },
        decreases self, 0int,
    {
        let variant = match self {
            Expr::Function { func, inputs } => proto::ExprVariant::ScalarFn(
                function_expr_to_proto(func, inputs.as_slice())?,
            ),
            Expr::ScalarFn(call) => proto::ExprVariant::ScalarFn(scalar_fn_to_proto(call)?),
            Expr::Other(encoded) => {
                let copy = encoded.clone();
                proto::ExprVariant::Other(copy)
            },
            Expr::Unsupported(name) => {
                return Err(ProtoError::NotImplemented(*name));
            },
        };
        Ok(proto::Expr { variant: Some(variant) })
    }
}

/// The call of a python function that works on whole columns.
pub fn from_py_legacy_func(func: LegacyPythonUDF, args: Vec<ExprRef>) -> (r: Expr)
    ensures
        r@ == (ir::ExprView::Function {
            func: ir::FunctionExprView::Python(func@),
            inputs: ir::expr_views(args@),
        }),
{
    Expr::Function { func: FunctionExpr::Python(func), inputs: args }
}

/// The call of a row-wise python function, which has its arguments in it.
pub fn from_py_rowwise_func(func: RowWisePyFn) -> (r: Expr)
    ensures
        r@ == ir::ExprView::ScalarFn(ScalarFn::Python(PyScalarFn::RowWise(func))@),
{
    Expr::ScalarFn(ScalarFn::Python(PyScalarFn::RowWise(func)))
}

/// The call of a builtin function.
pub fn from_builtin_func(func: String, args: FunctionArgs) -> (r: Expr)
    ensures
        r@ == ir::ExprView::ScalarFn(ir::ScalarFnView::Builtin { func: func@, inputs: args@ }),
{
    Expr::ScalarFn(ScalarFn::Builtin(BuiltinScalarFn { func, inputs: args }))
}

/// The expression of a message about a call.
///
/// Scalar functions stand in two places of the plan: a python function that works on whole
/// columns is a function expression with its arguments beside it, the others carry their
/// arguments. Their common type is the expression, so that is what comes back.
pub fn from_proto_function<E: Environment>(message: proto::ScalarFn, env: &E) -> (r:
    ProtoResult<Expr>)
    ensures
        match r {
            Ok(expr) => decode_call(message@, env@) == Ok::<_, ProtoErrorView>(expr@),
            Err(e) => decode_call(message@, env@) == Err::<ir::ExprView, _>(e@),
        },
    decreases message,
{
    let args = match message.args {
        Some(args) => FunctionArgs::from_proto(args, env)?,
        None => {
            return Err(ProtoError::Null(Field::ScalarFnArgs));
        },
    };
    from_proto_descriptor(message.descriptor, args, env)
}

/// The expression that calls the function of `descriptor` with `args`.
fn from_proto_descriptor<E: Environment>(
    descriptor: Option<proto::Descriptor>,
    args: FunctionArgs,
    env: &E,
) -> (r: ProtoResult<Expr>)
    ensures
        ({
            let view = match descriptor {
                Some(descriptor) => Some(descriptor@),
                None => None,
            };
            match r {
                Ok(expr) => decode_descriptor(view, args@, env@) == Ok::<
                    _,
                    ProtoErrorView,
                >(expr@),
                Err(e) => decode_descriptor(view, args@, env@) == Err::<
                    ir::ExprView,
                    _,
                >(e@),
            }
        }),
{
    match descriptor {
        None => Err(ProtoError::Null(Field::ScalarFnDescriptor)),
        Some(proto::Descriptor::Builtin(builtin)) => match env.get_function(
            &builtin.name,
            &args,
        ) {
            Ok(func) => Ok(from_builtin_func(func, args)),
            Err(e) => Err(ProtoError::Function(e)),
        },
        Some(proto::Descriptor::Py(py)) => match py.variant {
            None => Err(ProtoError::Null(Field::PyFnVariant)),
            Some(proto::PyFnVariant::Legacy(legacy)) => {
                let func = LegacyPythonUDF::from_proto(legacy, env)?;
                Ok(from_py_legacy_func(func, args.into_inner()))
            },
            Some(proto::PyFnVariant::RowWise(row_wise)) => {
                let inner = RuntimePyObject::from_field(row_wise.inner, Field::RowWiseInner)?;
                let return_dtype = DataType::from_field(
                    row_wise.return_dtype,
                    Field::RowWiseReturnDtype,
                )?;
                let original_args = RuntimePyObject::from_field(
                    row_wise.original_args,
                    Field::RowWiseOriginalArgs,
                )?;
                Ok(
                    from_py_rowwise_func(
                        RowWisePyFn {
                            function_name: row_wise.name,
                            inner,
                            return_dtype,
                            original_args,
                            args: args.into_inner(),
                        },
                    ),
                )
            },
        },
    }
}

impl FunctionArgs {
    /// The message about arguments.
    pub fn to_proto(&self) -> (r: ProtoResult<proto::Args>)
        ensures
            match r {
                Ok(message) => encode_args(self@) == Ok::<_, ProtoErrorView>(message@),
                Err(e) => encode_args(self@) == Err::<Seq<proto::ArgView>, _>(e@),
            },
        decreases self, 0int,
    {
        let mut args: Vec<proto::Arg> = Vec::new();
        for i in 0..self.args.len()
            invariant
                encode_args(ir::arg_views(self.args@.take(i as int))) == Ok::<_, ProtoErrorView>(
                    proto::arg_views(args@),
                ),
        {
            let ghost before = args@;
            proof {
                assert(self.args@.take(i + 1).drop_last() =~= self.args@.take(i as int));
                assert(ir::arg_views(self.args@.take(i + 1)).drop_last() =~= ir::arg_views(
                    self.args@.take(i as int),
                ));
            }
            match self.args[i].to_proto() {
                Ok(arg) => args.push(arg),
                Err(e) => {
                    proof {
                        lemma_encode_args_error(self.args@, i + 1);
                    }
                    return Err(e);
                },
            }
            assert(args@.drop_last() =~= before);
        }
        assert(self.args@.take(self.args@.len() as int) =~= self.args@);
        Ok(proto::Args { args })
    }
}

/// The message about arguments that are passed by position.
fn unnamed_to_proto(args: &[ExprRef]) -> (r: ProtoResult<proto::Args>)
    ensures
        match r {
            Ok(message) => encode_unnamed(ir::expr_views(args@)) == Ok::<_, ProtoErrorView>(message@),
            Err(e) => encode_unnamed(ir::expr_views(args@)) == Err::<Seq<proto::ArgView>, _>(e@),
        },
    decreases args@, 0int,
{
    let mut messages: Vec<proto::Arg> = Vec::new();
    for i in 0..args.len()
        invariant
            encode_unnamed(ir::expr_views(args@.take(i as int))) == Ok::<_, ProtoErrorView>(
                proto::arg_views(messages@),
            ),
    {
        let ghost before = messages@;
        proof {
            assert(args@.take(i + 1).drop_last() =~= args@.take(i as int));
            assert(ir::expr_views(args@.take(i + 1)).drop_last() =~= ir::expr_views(
                args@.take(i as int),
            ));
        }
        match (*args[i]).to_proto() {
            Ok(expr) => {
                let ghost view = expr@;
                messages.push(proto::Arg { param: None, expr: Some(expr) });
                assert(messages@.last()@ == (proto::ArgView { param: None, expr: Some(view) }));
            },
            Err(e) => {
                proof {
                    lemma_encode_unnamed_error(args@, i + 1);
                }
                return Err(e);
            },
        }
        assert(messages@.drop_last() =~= before);
    }
    assert(args@.take(args@.len() as int) =~= args@);
    Ok(proto::Args { args: messages })
}

/// The message about a call of a function that carries its arguments.
pub fn scalar_fn_to_proto(sf: &ScalarFn) -> (r: ProtoResult<proto::ScalarFn>)
    ensures
        match r {
            Ok(message) => encode_call(sf@) == Ok::<_, ProtoErrorView>(message@),
            Err(e) => encode_call(sf@) == Err::<proto::ScalarFnView, _>(e@),
        },
    decreases sf, 0int,
{
    match sf {
        ScalarFn::Builtin(builtin) => {
            let args = builtin.inputs.to_proto()?;
            Ok(
                proto::ScalarFn {
                    descriptor: Some(
                        proto::Descriptor::Builtin(
                            proto::BuiltinFn { name: builtin.func.clone() },
                        ),
                    ),
                    args: Some(args),
                },
            )
        },
        ScalarFn::Python(PyScalarFn::RowWise(row_wise)) => {
            let args = unnamed_to_proto(row_wise.args.as_slice())?;
            let variant = proto::PyFnVariant::RowWise(
                proto::RowWiseFn {
                    name: row_wise.function_name.clone(),
                    return_dtype: Some(row_wise.return_dtype.to_proto()?),
                    inner: Some(row_wise.inner.to_proto()?),
                    original_args: Some(row_wise.original_args.to_proto()?),
                },
            );
            Ok(
                proto::ScalarFn {
                    descriptor: Some(
                        proto::Descriptor::Py(proto::PyFn { variant: Some(variant) }),
                    ),
                    args: Some(args),
                },
            )
        },
    }
}

/// The message about a call of a function that has its arguments beside it.
pub fn function_expr_to_proto(func: &FunctionExpr, args: &[ExprRef]) -> (r: ProtoResult<
    proto::ScalarFn,
>)
    ensures
        match r {
            Ok(message) => encode_function_call(func@, ir::expr_views(args@)) == Ok::<
                _,
                ProtoErrorView,
            >(message@),
            Err(e) => encode_function_call(func@, ir::expr_views(args@)) == Err::<
                proto::ScalarFnView,
                _,
            >(e@),
        },
    decreases args@, 1int,
{
    let descriptor = match func {
        FunctionExpr::MapExpr(form) => proto::Descriptor::Builtin(form.to_proto()?),
        FunctionExpr::Sketch(form) => proto::Descriptor::Builtin(form.to_proto()?),
        FunctionExpr::Struct(form) => proto::Descriptor::Builtin(form.to_proto()?),
        FunctionExpr::Partitioning(form) => proto::Descriptor::Builtin(form.to_proto()?),
        FunctionExpr::Python(udf) => proto::Descriptor::Py(
            proto::PyFn { variant: Some(proto::PyFnVariant::Legacy(udf.to_proto()?)) },
        ),
    };
    let args = unnamed_to_proto(args)?;
    Ok(proto::ScalarFn { descriptor: Some(descriptor), args: Some(args) })
}

} // verus!
