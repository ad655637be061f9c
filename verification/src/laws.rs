//! What holds of the conversions together.

use vstd::prelude::*;

use crate::environment::{Admission, Environment, EnvironmentView, Session};
use crate::error::{Field, FunctionErrorView, ProtoErrorView, ResourceErrorView};
use crate::ir;
use crate::model::{
    arg_requests, args_requests, as_number, asked_resources, call_requests, callable_parts,
    decode_arg, decode_args, decode_call, decode_dtype, decode_expr, decode_legacy,
    decode_object, decode_py, decode_row_wise, descriptor_requests, encode_arg, encode_args,
    encode_call, encode_expr, encode_function_call, encode_legacy, encode_object,
    encode_row_wise, encode_unnamed, expr_requests,
};
use crate::payload::{frame, law_frame_round_trip, law_stored_form_is_unique, le_value, unframe};
use crate::proto;
use crate::python::{
    CallableView, LegacyPythonUDF, LegacyView, MaybeInitializedUDF, PyObjectView,
    ResourceRequest, RuntimePyObject,
};

verus! {

/// The callable as an object and the arguments that it is still to be initialised with.
pub open spec fn normal_callable(func: CallableView) -> CallableView {
    let (inner, init_args) = callable_parts(func);
    CallableView::Uninitialized { inner, init_args }
}

/// The request asks for something.
pub open spec fn asks(request: ResourceRequest) -> bool {
    request.num_cpus is Some || request.num_gpus is Some || request.memory_bytes is Some
}

/// A request that asks for nothing is no request.
pub open spec fn normal_request(request: Option<ResourceRequest>) -> Option<ResourceRequest> {
    match request {
        Some(asked) => if asks(asked) {
            request
        } else {
            None
        },
        None => None,
    }
}

/// What a message keeps of a python function that works on whole columns.
pub open spec fn normal_legacy(func: LegacyView) -> LegacyView {
    LegacyView {
        func: normal_callable(func.func),
        resource_request: normal_request(func.resource_request),
        ..func
    }
}

/// What a message keeps of a function expression.
pub open spec fn normal_function(func: ir::FunctionExprView) -> ir::FunctionExprView {
    match func {
        ir::FunctionExprView::Python(func) => ir::FunctionExprView::Python(normal_legacy(func)),
        form => form,
    }
}

/// What a message keeps of an expression.
pub open spec fn normal_expr(expr: ir::ExprView) -> ir::ExprView
    decreases expr,
{
    match expr {
        ir::ExprView::Function { func, inputs } => ir::ExprView::Function {
            func: normal_function(func),
            inputs: normal_exprs(inputs),
        },
        ir::ExprView::ScalarFn(call) => ir::ExprView::ScalarFn(normal_call(call)),
        other => other,
    }
}

/// What a message keeps of a call.
pub open spec fn normal_call(call: ir::ScalarFnView) -> ir::ScalarFnView
    decreases call,
{
    match call {
        ir::ScalarFnView::Builtin { func, inputs } => ir::ScalarFnView::Builtin {
            func,
            inputs: normal_args(inputs),
        },
        ir::ScalarFnView::RowWise(func) => ir::ScalarFnView::RowWise(
            ir::RowWiseView { args: normal_exprs(func.args), ..func },
        ),
    }
}

/// What a message keeps of arguments that are passed by position.
pub open spec fn normal_exprs(exprs: Seq<ir::ExprView>) -> Seq<ir::ExprView>
    decreases exprs,
{
    if exprs.len() == 0 {
        Seq::empty()
    } else {
        normal_exprs(exprs.drop_last()).push(normal_expr(exprs.last()))
    }
}

/// What a message keeps of arguments.
pub open spec fn normal_args(args: Seq<ir::ArgView>) -> Seq<ir::ArgView>
    decreases args,
{
    if args.len() == 0 {
        Seq::empty()
    } else {
        normal_args(args.drop_last()).push(normal_arg(args.last()))
    }
}

/// What a message keeps of an argument.
pub open spec fn normal_arg(arg: ir::ArgView) -> ir::ArgView
    decreases arg,
{
    ir::ArgView { name: arg.name, expr: normal_expr(arg.expr) }
}

/// A request of the function is granted as it is, if it asks for something.
pub open spec fn granted_legacy(func: LegacyView, admission: Admission) -> bool {
    normal_request(func.resource_request) matches Some(asked) ==> admission(asked) == Ok::<
        _,
        ResourceErrorView,
    >(asked)
}

/// A request of the function expression is granted as it is, if it asks for something.
pub open spec fn granted(func: ir::FunctionExprView, admission: Admission) -> bool {
    func matches ir::FunctionExprView::Python(func) ==> granted_legacy(func, admission)
}

/// Each builtin function in `expr` is found again by its own name, and each request in it is
/// granted as it is.
pub open spec fn known(expr: ir::ExprView, env: EnvironmentView) -> bool
    decreases expr,
{
    match expr {
        ir::ExprView::Function { func, inputs } => granted(func, env.admission) && known_exprs(
            inputs,
            env,
        ),
        ir::ExprView::ScalarFn(call) => known_call(call, env),
        _ => true,
    }
}

/// Each builtin function in `call` is found again by its own name, and each request in it is
/// granted as it is.
pub open spec fn known_call(call: ir::ScalarFnView, env: EnvironmentView) -> bool
    decreases call,
{
    match call {
        ir::ScalarFnView::Builtin { func, inputs } => {
            &&& (env.resolution)(func, normal_args(inputs)) == Ok::<_, FunctionErrorView>(func)
            &&& known_args(inputs, env)
        },
        ir::ScalarFnView::RowWise(func) => known_exprs(func.args, env),
    }
}

/// Each builtin function in `exprs` is found again by its own name, and each request in them is
/// granted as it is.
pub open spec fn known_exprs(exprs: Seq<ir::ExprView>, env: EnvironmentView) -> bool
    decreases exprs,
{
    forall|i: int| 0 <= i < exprs.len() ==> known(#[trigger] exprs[i], env)
}

/// Each builtin function in `args` is found again by its own name, and each request in them is
/// granted as it is.
pub open spec fn known_args(args: Seq<ir::ArgView>, env: EnvironmentView) -> bool
    decreases args,
{
    forall|i: int| 0 <= i < args.len() ==> known((#[trigger] args[i]).expr, env)
}

/// The length of a pickle can be held by a message.
pub open spec fn storable(object: PyObjectView) -> bool {
    object matches PyObjectView::Pickled(pickled) ==> pickled.len() <= u64::MAX
}

/// The pickles of a python function can be stored in a message.
pub open spec fn storable_legacy(func: LegacyView) -> bool {
    &&& storable(callable_parts(func.func).0)
    &&& storable(callable_parts(func.func).1)
    &&& storable(func.bound_args)
}

/// The pickles of a function expression can be stored in a message.
pub open spec fn storable_function(func: ir::FunctionExprView) -> bool {
    match func {
        ir::FunctionExprView::Python(func) => storable_legacy(func),
        _ => true,
    }
}

/// The pickles in `expr` can be stored in a message.
pub open spec fn storable_expr(expr: ir::ExprView) -> bool
    decreases expr,
{
    match expr {
        ir::ExprView::Function { func, inputs } => storable_function(func) && storable_exprs(
            inputs,
        ),
        ir::ExprView::ScalarFn(call) => storable_call(call),
        _ => true,
    }
}

/// The pickles in `call` can be stored in a message.
pub open spec fn storable_call(call: ir::ScalarFnView) -> bool
    decreases call,
{
    match call {
        ir::ScalarFnView::Builtin { func: _, inputs } => storable_args(inputs),
        ir::ScalarFnView::RowWise(func) => {
            &&& storable(func.inner)
            &&& storable(func.original_args)
            &&& storable_exprs(func.args)
        },
    }
}

/// The pickles in `exprs` can be stored in a message.
pub open spec fn storable_exprs(exprs: Seq<ir::ExprView>) -> bool
    decreases exprs,
{
    forall|i: int| 0 <= i < exprs.len() ==> storable_expr(#[trigger] exprs[i])
}

/// The pickles in `args` can be stored in a message.
pub open spec fn storable_args(args: Seq<ir::ArgView>) -> bool
    decreases args,
{
    forall|i: int| 0 <= i < args.len() ==> storable_expr((#[trigger] args[i]).expr)
}

proof fn lemma_py_round_trip(object: PyObjectView)
    requires
        storable(object),
    ensures
        encode_object(object) matches Ok(bytes) ==> decode_object(bytes) == Ok::<_, ProtoErrorView>(
            object,
        ),
{
    if let PyObjectView::Pickled(pickled) = object {
        law_frame_round_trip(pickled, Seq::empty());
    }
}

/// A python object that can be stored is read back as it was.
pub proof fn law_object_round_trip(object: RuntimePyObject)
    ensures
        encode_object(object@) matches Ok(bytes) ==> decode_object(bytes) == Ok::<
            _,
            ProtoErrorView,
        >(object@),
        object@ matches PyObjectView::Pickled(pickled) ==> unframe(frame(pickled)) == Some(pickled),
{
    RuntimePyObject::lemma_length(object);
    lemma_py_round_trip(object@);
}

proof fn lemma_legacy_round_trip(func: LegacyView, admission: Admission)
    requires
        storable_legacy(func),
        granted_legacy(func, admission),
        encode_legacy(func) is Ok,
    ensures
        decode_legacy(encode_legacy(func)->Ok_0, admission) == Ok::<_, ProtoErrorView>(
            normal_legacy(func),
        ),
{
    lemma_py_round_trip(callable_parts(func.func).0);
    lemma_py_round_trip(callable_parts(func.func).1);
    lemma_py_round_trip(func.bound_args);
}

proof fn lemma_round_trip(expr: ir::ExprView, env: EnvironmentView)
    requires
        storable_expr(expr),
        known(expr, env),
        encode_expr(expr) is Ok,
    ensures
        decode_expr(encode_expr(expr)->Ok_0, env) == Ok::<_, ProtoErrorView>(normal_expr(expr)),
    decreases expr, 2int,
{
    match expr {
        ir::ExprView::Function { func, inputs } => {
            lemma_function_round_trip(func, inputs, env);
        },
        ir::ExprView::ScalarFn(call) => {
            lemma_call_round_trip(call, env);
        },
        _ => {},
    }
}

proof fn lemma_function_round_trip(
    func: ir::FunctionExprView,
    args: Seq<ir::ExprView>,
    env: EnvironmentView,
)
    requires
        storable_function(func),
        granted(func, env.admission),
        storable_exprs(args),
        known_exprs(args, env),
        encode_function_call(func, args) is Ok,
    ensures
        decode_call(encode_function_call(func, args)->Ok_0, env) == Ok::<_, ProtoErrorView>(
            ir::ExprView::Function { func: normal_function(func), inputs: normal_exprs(args) },
        ),
    decreases args, 1int,
{
    lemma_unnamed_round_trip(args, env);
    match func {
        ir::FunctionExprView::Python(func) => {
            lemma_legacy_round_trip(func, env.admission);
        },
        _ => {},
    }
}

proof fn lemma_call_round_trip(call: ir::ScalarFnView, env: EnvironmentView)
    requires
        storable_call(call),
        known_call(call, env),
        encode_call(call) is Ok,
    ensures
        decode_call(encode_call(call)->Ok_0, env) == Ok::<_, ProtoErrorView>(
            ir::ExprView::ScalarFn(normal_call(call)),
        ),
    decreases call, 0int,
{
    match call {
        ir::ScalarFnView::Builtin { func: _, inputs } => lemma_args_round_trip(inputs, env),
        ir::ScalarFnView::RowWise(func) => {
            lemma_unnamed_round_trip(func.args, env);
            lemma_py_round_trip(func.inner);
            lemma_py_round_trip(func.original_args);
        },
    }
}

proof fn lemma_unnamed_round_trip(args: Seq<ir::ExprView>, env: EnvironmentView)
    requires
        storable_exprs(args),
        known_exprs(args, env),
        encode_unnamed(args) is Ok,
    ensures
        decode_args(encode_unnamed(args)->Ok_0, env) is Ok,
        ir::inner_exprs(decode_args(encode_unnamed(args)->Ok_0, env)->Ok_0) == normal_exprs(
            args,
        ),
    decreases args, 0int,
{
    if args.len() > 0 {
        let front = args.drop_last();
        lemma_unnamed_round_trip(front, env);
        lemma_round_trip(args.last(), env);
        let messages = encode_unnamed(args)->Ok_0;
        assert(messages.drop_last() =~= encode_unnamed(front)->Ok_0);
        assert(decode_arg(messages.last(), env) == Ok::<_, ProtoErrorView>(
            ir::ArgView { name: None, expr: normal_expr(args.last()) },
        ));
    }
}

proof fn lemma_args_round_trip(args: Seq<ir::ArgView>, env: EnvironmentView)
    requires
        storable_args(args),
        known_args(args, env),
        encode_args(args) is Ok,
    ensures
        decode_args(encode_args(args)->Ok_0, env) == Ok::<_, ProtoErrorView>(normal_args(args)),
    decreases args, 0int,
{
    if args.len() > 0 {
        let front = args.drop_last();
        lemma_args_round_trip(front, env);
        assert(encode_arg(args.last()) is Ok);
        lemma_round_trip(args.last().expr, env);
        let messages = encode_args(args)->Ok_0;
        assert(messages.drop_last() =~= encode_args(front)->Ok_0);
        assert(decode_arg(messages.last(), env) == Ok::<_, ProtoErrorView>(
            normal_arg(args.last()),
        ));
    }
}

proof fn lemma_storable_legacy(func: LegacyPythonUDF)
    ensures
        storable_legacy(func@),
{
    RuntimePyObject::lemma_length(func.bound_args);
    match func.func {
        MaybeInitializedUDF::Initialized(object) => {
            RuntimePyObject::lemma_length(object);
        },
        MaybeInitializedUDF::Uninitialized { inner, init_args } => {
            RuntimePyObject::lemma_length(inner);
            RuntimePyObject::lemma_length(init_args);
        },
    }
}

proof fn lemma_storable_function(func: ir::FunctionExpr)
    ensures
        storable_function(func@),
{
    match func {
        ir::FunctionExpr::Python(func) => lemma_storable_legacy(func),
        _ => {},
    }
}

proof fn lemma_storable_expr(expr: &ir::Expr)
    ensures
        storable_expr(expr@),
    decreases expr,
{
    match *expr {
        ir::Expr::Function { func, inputs } => {
            lemma_storable_function(func);
            lemma_storable_exprs(inputs@);
        },
        ir::Expr::ScalarFn(call) => {
            lemma_storable_call(call);
        },
        _ => {},
    }
}

proof fn lemma_storable_call(call: ir::ScalarFn)
    ensures
        storable_call(call@),
    decreases call,
{
    match call {
        ir::ScalarFn::Builtin(builtin) => {
            lemma_storable_args(builtin.inputs.args@);
        },
        ir::ScalarFn::Python(ir::PyScalarFn::RowWise(func)) => {
            RuntimePyObject::lemma_length(func.inner);
            RuntimePyObject::lemma_length(func.original_args);
            lemma_storable_exprs(func.args@);
        },
    }
}

proof fn lemma_storable_exprs(exprs: Seq<ir::ExprRef>)
    ensures
        storable_exprs(ir::expr_views(exprs)),
    decreases exprs,
{
    if exprs.len() > 0 {
        lemma_storable_exprs(exprs.drop_last());
        lemma_storable_expr(&*exprs.last());
    }
}

proof fn lemma_storable_args(args: Seq<ir::FunctionArg>)
    ensures
        storable_args(ir::arg_views(args)),
    decreases args,
{
    if args.len() > 0 {
        lemma_storable_args(args.drop_last());
        match args.last() {
            ir::FunctionArg::Named { name: _, arg } => lemma_storable_expr(&*arg),
            ir::FunctionArg::Unnamed(arg) => lemma_storable_expr(&*arg),
        }
        assert(storable_expr(args.last()@.expr));
    }
}

/// An expression that has a message is read back from it: as it was, but that the callables
/// of its python functions are to be initialised again, and that requests for nothing are
/// gone.
pub proof fn law_expr_round_trip(expr: ir::Expr, env: EnvironmentView)
    requires
        known(expr@, env),
        encode_expr(expr@) is Ok,
    ensures
        decode_expr(encode_expr(expr@)->Ok_0, env) == Ok::<_, ProtoErrorView>(
            normal_expr(expr@),
        ),
{
    lemma_storable_expr(&expr);
    lemma_round_trip(expr@, env);
}

/// The call of a function that carries its arguments is read back from its message: as it
/// was, but for what `normal_expr` changes in its arguments.
pub proof fn law_scalar_fn_round_trip(call: ir::ScalarFn, env: EnvironmentView)
    requires
        known_call(call@, env),
        encode_call(call@) is Ok,
    ensures
        decode_call(encode_call(call@)->Ok_0, env) == Ok::<_, ProtoErrorView>(
            ir::ExprView::ScalarFn(normal_call(call@)),
        ),
{
    lemma_storable_call(call);
    lemma_call_round_trip(call@, env);
}

/// The call of a function that has its arguments beside it is read back from its message: as
/// it was, but that a python function is to be initialised again and has no request for
/// nothing, and for what `normal_expr` changes in its arguments.
pub proof fn law_function_expr_round_trip(
    func: ir::FunctionExpr,
    args: Seq<ir::ExprRef>,
    env: EnvironmentView,
)
    requires
        granted(func@, env.admission),
        known_exprs(ir::expr_views(args), env),
        encode_function_call(func@, ir::expr_views(args)) is Ok,
    ensures
        decode_call(encode_function_call(func@, ir::expr_views(args))->Ok_0, env) == Ok::<
            _,
            ProtoErrorView,
        >(
            ir::ExprView::Function {
                func: normal_function(func@),
                inputs: normal_exprs(ir::expr_views(args)),
            },
        ),
{
    lemma_storable_function(func);
    lemma_storable_exprs(args);
    lemma_function_round_trip(func@, ir::expr_views(args), env);
}

/// Arguments are read back from their message: in their order, each under the name it was
/// passed by, or without one.
pub proof fn law_args_round_trip(args: ir::FunctionArgs, env: EnvironmentView)
    requires
        known_args(args@, env),
        encode_args(args@) is Ok,
    ensures
        decode_args(encode_args(args@)->Ok_0, env) == Ok::<_, ProtoErrorView>(
            normal_args(args@),
        ),
{
    lemma_storable_args(args.args@);
    lemma_args_round_trip(args@, env);
}

/// A python function that works on whole columns is read back from its message: as it was,
/// but that it is to be initialised again, and that a request for nothing is gone.
pub proof fn law_legacy_round_trip(func: LegacyPythonUDF, admission: Admission)
    requires
        granted_legacy(func@, admission),
        encode_legacy(func@) is Ok,
    ensures
        decode_legacy(encode_legacy(func@)->Ok_0, admission) == Ok::<_, ProtoErrorView>(
            normal_legacy(func@),
        ),
{
    lemma_storable_legacy(func);
    lemma_legacy_round_trip(func@, admission);
}

/// The callable is to be initialised, and a request asks for something.
pub open spec fn plain_legacy(func: LegacyView) -> bool {
    &&& func.func is Uninitialized
    &&& func.resource_request matches Some(asked) ==> asks(asked)
}

/// The python functions in `expr` have callables that are to be initialised, and requests
/// that ask for something.
pub open spec fn plain(expr: ir::ExprView) -> bool
    decreases expr,
{
    match expr {
        ir::ExprView::Function { func, inputs } => {
            &&& func matches ir::FunctionExprView::Python(func) ==> plain_legacy(func)
            &&& plain_exprs(inputs)
        },
        ir::ExprView::ScalarFn(ir::ScalarFnView::Builtin { func: _, inputs }) => plain_args(inputs),
        ir::ExprView::ScalarFn(ir::ScalarFnView::RowWise(func)) => plain_exprs(func.args),
        _ => true,
    }
}

/// Each of `exprs` is plain.
pub open spec fn plain_exprs(exprs: Seq<ir::ExprView>) -> bool
    decreases exprs,
{
    forall|i: int| 0 <= i < exprs.len() ==> plain(#[trigger] exprs[i])
}

/// Each of `args` is plain.
pub open spec fn plain_args(args: Seq<ir::ArgView>) -> bool
    decreases args,
{
    forall|i: int| 0 <= i < args.len() ==> plain((#[trigger] args[i]).expr)
}

proof fn lemma_plain(expr: ir::ExprView)
    requires
        plain(expr),
    ensures
        normal_expr(expr) == expr,
    decreases expr,
{
    match expr {
        ir::ExprView::Function { func: _, inputs } => lemma_plain_exprs(inputs),
        ir::ExprView::ScalarFn(ir::ScalarFnView::Builtin { func: _, inputs }) => {
            lemma_plain_args(inputs);
        },
        ir::ExprView::ScalarFn(ir::ScalarFnView::RowWise(func)) => lemma_plain_exprs(func.args),
        _ => {},
    }
}

proof fn lemma_plain_exprs(exprs: Seq<ir::ExprView>)
    requires
        plain_exprs(exprs),
    ensures
        normal_exprs(exprs) == exprs,
    decreases exprs,
{
    if exprs.len() > 0 {
        let front = exprs.drop_last();
        lemma_plain_exprs(front);
        lemma_plain(exprs.last());
    }
}

proof fn lemma_plain_args(args: Seq<ir::ArgView>)
    requires
        plain_args(args),
    ensures
        normal_args(args) == args,
    decreases args,
{
    if args.len() > 0 {
        let front = args.drop_last();
        lemma_plain_args(front);
        lemma_plain(args.last().expr);
        assert(normal_arg(args.last()) == args.last());
    }
}

/// A plain expression that has a message is read back from it as it was.
pub proof fn law_plain_round_trip(expr: ir::Expr, env: EnvironmentView)
    requires
        plain(expr@),
        known(expr@, env),
        encode_expr(expr@) is Ok,
    ensures
        decode_expr(encode_expr(expr@)->Ok_0, env) == Ok::<_, ProtoErrorView>(expr@),
{
    law_expr_round_trip(expr, env);
    lemma_plain(expr@);
}

/// What is granted asks for something.
pub open spec fn grants_something(admission: Admission) -> bool {
    forall|asked: ResourceRequest| #[trigger] admission(asked) matches Ok(request) ==> asks(request)
}

/// A function that is found is found by its own name too, and what is granted asks for
/// something and is granted as it is.
pub open spec fn canonical(env: EnvironmentView) -> bool {
    &&& forall|name: Seq<char>, args: Seq<ir::ArgView>|
        #[trigger]
        (env.resolution)(name, args) matches Ok(func) ==> (env.resolution)(func, args) == Ok::<
            _,
            FunctionErrorView,
        >(func)
    &&& grants_something(env.admission)
    &&& forall|asked: ResourceRequest|
        #[trigger]
        (env.admission)(asked) matches Ok(request) ==> (env.admission)(request) == Ok::<
            _,
            ResourceErrorView,
        >(request)
}

/// A session is canonical if in it every function stands under its own name too, and every
/// request that was granted asks for something and is granted as it is.
pub proof fn law_session_is_canonical(session: Session)
    requires
        forall|name: Seq<char>|
            session.functions@.dom().contains(name) ==> (#[trigger] session.functions@[name] matches
                Ok(func) ==> session.functions@.dom().contains(func) && session.functions@[func]
                == Ok::<_, Seq<char>>(func)),
        forall|asked: ResourceRequest|
            session.rulings@.dom().contains(asked) ==> (#[trigger] session.rulings@[asked] matches
                Ok(request) ==> {
                &&& asks(request)
                &&& session.rulings@.dom().contains(request)
                &&& session.rulings@[request] == Ok::<_, ResourceErrorView>(request)
            }),
    ensures
        canonical(session@),
{
}

proof fn lemma_le_value_bound(bytes: Seq<u8>)
    requires
        bytes.len() == 8,
    ensures
        le_value(bytes) <= u64::MAX,
{
    reveal_with_fuel(le_value, 9);
}

proof fn lemma_decoded_py(bytes: Seq<u8>)
    ensures
        decode_object(bytes) matches Ok(object) ==> storable(object) && encode_object(object) is Ok,
{
    if bytes.len() >= 8 {
        lemma_le_value_bound(bytes.take(8));
    }
}

proof fn lemma_decoded_legacy(m: proto::LegacyFnView, admission: Admission)
    requires
        decode_legacy(m, admission) is Ok,
    ensures
        grants_something(admission) ==> plain_legacy(decode_legacy(m, admission)->Ok_0),
        storable_legacy(decode_legacy(m, admission)->Ok_0),
        encode_legacy(decode_legacy(m, admission)->Ok_0) is Ok,
{
    lemma_decoded_py(m.callable->0);
    lemma_decoded_py(m.callable_init_args->0);
    lemma_decoded_py(m.callable_call_args->0);
}

proof fn lemma_decoded_expr(m: proto::ExprView, env: EnvironmentView)
    requires
        decode_expr(m, env) is Ok,
    ensures
        grants_something(env.admission) ==> plain(decode_expr(m, env)->Ok_0),
        storable_expr(decode_expr(m, env)->Ok_0),
        encode_expr(decode_expr(m, env)->Ok_0) is Ok,
        canonical(env) ==> known(decode_expr(m, env)->Ok_0, env),
    decreases m,
{
    match m {
        proto::ExprView::ScalarFn(call) => lemma_decoded_call(call, env),
        _ => {},
    }
}

proof fn lemma_decoded_call(m: proto::ScalarFnView, env: EnvironmentView)
    requires
        decode_call(m, env) is Ok,
    ensures
        grants_something(env.admission) ==> plain(decode_call(m, env)->Ok_0),
        storable_expr(decode_call(m, env)->Ok_0),
        encode_expr(decode_call(m, env)->Ok_0) is Ok,
        canonical(env) ==> known(decode_call(m, env)->Ok_0, env),
    decreases m,
{
    lemma_decoded_args(m.args->0, env);
    let args = decode_args(m.args->0, env)->Ok_0;
    match m.descriptor->0 {
        proto::DescriptorView::Builtin(_) => {
            if grants_something(env.admission) {
                lemma_plain_args(args);
            }
        },
        proto::DescriptorView::Py(variant) => match variant->0 {
            proto::PyFnVariantView::Legacy(legacy) => lemma_decoded_legacy(legacy, env.admission),
            proto::PyFnVariantView::RowWise(row_wise) => {
                lemma_decoded_py(row_wise.inner->0);
                lemma_decoded_py(row_wise.original_args->0);
            },
        },
    }
}

proof fn lemma_decoded_args(m: Seq<proto::ArgView>, env: EnvironmentView)
    requires
        decode_args(m, env) is Ok,
    ensures
        ({
            let args = decode_args(m, env)->Ok_0;
            let exprs = ir::inner_exprs(args);
            &&& grants_something(env.admission) ==> plain_args(args)
            &&& grants_something(env.admission) ==> plain_exprs(exprs)
            &&& storable_args(args)
            &&& storable_exprs(exprs)
            &&& encode_args(args) is Ok
            &&& encode_unnamed(exprs) is Ok
            &&& canonical(env) ==> known_args(args, env)
            &&& canonical(env) ==> known_exprs(exprs, env)
        }),
    decreases m,
{
    let args = decode_args(m, env)->Ok_0;
    let exprs = ir::inner_exprs(args);
    if m.len() > 0 {
        lemma_decoded_args(m.drop_last(), env);
        assert(decode_arg(m.last(), env) is Ok);
        lemma_decoded_expr(m.last().expr->0, env);
        let front = decode_args(m.drop_last(), env)->Ok_0;
        assert(args.drop_last() =~= front);
        assert(exprs.drop_last() =~= ir::inner_exprs(front));
        assert(encode_arg(args.last()) is Ok);
    }
}

/// Where what is granted asks for something, what is read from a message is plain: no callable
/// in it is initialised, and no request in it asks for nothing.
pub proof fn law_decoded_is_plain(m: proto::ExprView, env: EnvironmentView)
    requires
        grants_something(env.admission),
    ensures
        decode_expr(m, env) matches Ok(expr) ==> plain(expr),
{
    if decode_expr(m, env) is Ok {
        lemma_decoded_expr(m, env);
    }
}

/// What is read from a message can be written to one.
pub proof fn law_decoded_has_message(m: proto::ExprView, env: EnvironmentView)
    ensures
        decode_expr(m, env) matches Ok(expr) ==> encode_expr(expr) is Ok,
{
    if decode_expr(m, env) is Ok {
        lemma_decoded_expr(m, env);
    }
}

/// What is read from a message, written, and read again, is the same.
pub proof fn law_decode_again(m: proto::ExprView, env: EnvironmentView)
    requires
        canonical(env),
    ensures
        decode_expr(m, env) matches Ok(expr) ==> decode_expr(
            encode_expr(expr)->Ok_0,
            env,
        ) == Ok::<_, ProtoErrorView>(expr),
{
    if decode_expr(m, env) is Ok {
        let expr = decode_expr(m, env)->Ok_0;
        lemma_decoded_expr(m, env);
        lemma_round_trip(expr, env);
        lemma_plain(expr);
    }
}

proof fn lemma_normal_exprs(exprs: Seq<ir::ExprView>)
    ensures
        encode_unnamed(normal_exprs(exprs)) == encode_unnamed(exprs),
    decreases exprs, 0int,
{
    if exprs.len() > 0 {
        lemma_normal_exprs(exprs.drop_last());
        law_normal_has_same_message(exprs.last());
        assert(normal_exprs(exprs).drop_last() =~= normal_exprs(exprs.drop_last()));
    }
}

proof fn lemma_normal_args(args: Seq<ir::ArgView>)
    ensures
        encode_args(normal_args(args)) == encode_args(args),
    decreases args, 0int,
{
    if args.len() > 0 {
        lemma_normal_args(args.drop_last());
        law_normal_has_same_message(args.last().expr);
        assert(encode_arg(normal_arg(args.last())) == encode_arg(args.last()));
        assert(normal_args(args).drop_last() =~= normal_args(args.drop_last()));
    }
}

/// What a message keeps of an expression has the same message, or the same error, as the
/// expression.
pub proof fn law_normal_has_same_message(expr: ir::ExprView)
    ensures
        encode_expr(normal_expr(expr)) == encode_expr(expr),
    decreases expr, 0int,
{
    match expr {
        ir::ExprView::Function { func: _, inputs } => lemma_normal_exprs(inputs),
        ir::ExprView::ScalarFn(call) => {
            match call {
                ir::ScalarFnView::Builtin { func: _, inputs } => lemma_normal_args(inputs),
                ir::ScalarFnView::RowWise(func) => lemma_normal_exprs(func.args),
            }
        },
        _ => {},
    }
}

/// Every name stands for the function of that name, and every request is granted.
spec fn by_name() -> EnvironmentView {
    EnvironmentView {
        resolution: |name: Seq<char>, args: Seq<ir::ArgView>| Ok(name),
        admission: |asked: ResourceRequest| Ok(asked),
    }
}

proof fn lemma_found_by_name(expr: ir::ExprView)
    ensures
        known(expr, by_name()),
    decreases expr, 0int,
{
    match expr {
        ir::ExprView::Function { func: _, inputs } => {
            assert forall|i: int| 0 <= i < inputs.len() implies known(
                #[trigger] inputs[i],
                by_name(),
            ) by {
                lemma_found_by_name(inputs[i]);
            }
        },
        ir::ExprView::ScalarFn(call) => {
            match call {
                ir::ScalarFnView::Builtin { func: _, inputs } => {
                    assert forall|i: int| 0 <= i < inputs.len() implies known(
                        (#[trigger] inputs[i]).expr,
                        by_name(),
                    ) by {
                        lemma_found_by_name(inputs[i].expr);
                    }
                },
                ir::ScalarFnView::RowWise(func) => {
                    assert forall|i: int| 0 <= i < func.args.len() implies known(
                        #[trigger] func.args[i],
                        by_name(),
                    ) by {
                        lemma_found_by_name(func.args[i]);
                    }
                },
            }
            assert(known_call(call, by_name()));
        },
        _ => {},
    }
}

/// Expressions with the same message differ in nothing that a message keeps.
pub proof fn law_message_is_unambiguous(first: ir::Expr, second: ir::Expr)
    requires
        encode_expr(first@) is Ok,
        encode_expr(first@) == encode_expr(second@),
    ensures
        normal_expr(first@) == normal_expr(second@),
{
    lemma_found_by_name(first@);
    lemma_found_by_name(second@);
    law_expr_round_trip(first, by_name());
    law_expr_round_trip(second, by_name());
}

/// Arguments are read one by one: each keeps its place, and the first that cannot be read
/// gives the error.
pub proof fn law_decode_args(m: Seq<proto::ArgView>, env: EnvironmentView)
    ensures
        match decode_args(m, env) {
            Ok(args) => {
                &&& args.len() == m.len()
                &&& forall|i: int|
                    0 <= i < m.len() ==> #[trigger] decode_arg(m[i], env) == Ok::<
                        _,
                        ProtoErrorView,
                    >(args[i])
            },
            Err(e) => exists|i: int|
                {
                    &&& 0 <= i < m.len()
                    &&& #[trigger] decode_arg(m[i], env) == Err::<ir::ArgView, _>(e)
                    &&& forall|j: int|
                        0 <= j < i ==> (#[trigger] decode_arg(m[j], env)) is Ok
                },
        },
    decreases m.len(),
{
    if m.len() > 0 {
        let front = m.drop_last();
        law_decode_args(front, env);
        assert forall|j: int| 0 <= j < front.len() implies #[trigger] m[j] == front[j] by {}
        assert(decode_arg(m[m.len() - 1], env) == decode_arg(m.last(), env));
    }
}

/// Arguments are written one by one: each keeps its place, and the first that cannot be
/// written gives the error.
pub proof fn law_encode_args(args: Seq<ir::ArgView>)
    ensures
        match encode_args(args) {
            Ok(m) => {
                &&& m.len() == args.len()
                &&& forall|i: int|
                    0 <= i < args.len() ==> #[trigger] encode_arg(args[i]) == Ok::<_, ProtoErrorView>(
                        m[i],
                    )
            },
            Err(e) => exists|i: int|
                {
                    &&& 0 <= i < args.len()
                    &&& #[trigger] encode_arg(args[i]) == Err::<proto::ArgView, _>(e)
                    &&& forall|j: int| 0 <= j < i ==> (#[trigger] encode_arg(args[j])) is Ok
                },
        },
    decreases args.len(),
{
    if args.len() > 0 {
        let front = args.drop_last();
        law_encode_args(front);
        assert forall|j: int| 0 <= j < front.len() implies #[trigger] args[j] == front[j] by {}
        assert(encode_arg(args[args.len() - 1]) == encode_arg(args.last()));
    }
}

/// The arguments, each without a name.
pub open spec fn unnamed(exprs: Seq<ir::ExprView>) -> Seq<ir::ArgView> {
    exprs.map_values(|expr: ir::ExprView| ir::ArgView { name: None, expr })
}

/// Arguments that are passed by position are written as arguments without names.
pub proof fn law_positional_args_are_unnamed(exprs: Seq<ir::ExprView>)
    ensures
        encode_unnamed(exprs) == encode_args(unnamed(exprs)),
    decreases exprs.len(),
{
    if exprs.len() > 0 {
        law_positional_args_are_unnamed(exprs.drop_last());
        let args = unnamed(exprs);
        assert(args.drop_last() =~= unnamed(exprs.drop_last()));
        assert(encode_arg(args.last()) == match encode_expr(exprs.last()) {
            Err(e) => Err(e),
            Ok(expr) => Ok(proto::ArgView { param: None, expr: Some(expr) }),
        });
    }
}

proof fn lemma_names_do_not_matter(
    first: Seq<proto::ArgView>,
    second: Seq<proto::ArgView>,
    env: EnvironmentView,
)
    requires
        first.len() == second.len(),
        forall|i: int| 0 <= i < first.len() ==> #[trigger] first[i].expr == second[i].expr,
    ensures
        match decode_args(first, env) {
            Ok(args) => decode_args(second, env) matches Ok(others) && ir::inner_exprs(args)
                == ir::inner_exprs(others),
            Err(e) => decode_args(second, env) == Err::<Seq<ir::ArgView>, _>(e),
        },
    decreases first.len(),
{
    if first.len() > 0 {
        let (front, other) = (first.drop_last(), second.drop_last());
        lemma_names_do_not_matter(front, other, env);
        let last = decode_arg(first.last(), env);
        assert(last is Err ==> decode_arg(second.last(), env) == last);
        if decode_args(first, env) is Ok {
            assert(ir::inner_exprs(decode_args(first, env)->Ok_0) =~= ir::inner_exprs(
                decode_args(front, env)->Ok_0,
            ).push(last->Ok_0.expr));
        }
    }
}

/// A python function takes its arguments by position: under which names a message passes
/// them makes no difference.
pub proof fn law_python_ignores_names(
    py: Option<proto::PyFnVariantView>,
    first: Seq<proto::ArgView>,
    second: Seq<proto::ArgView>,
    env: EnvironmentView,
)
    requires
        first.len() == second.len(),
        forall|i: int| 0 <= i < first.len() ==> #[trigger] first[i].expr == second[i].expr,
    ensures
        ({
            let descriptor = Some(proto::DescriptorView::Py(py));
            decode_call(proto::ScalarFnView { descriptor, args: Some(first) }, env)
                == decode_call(proto::ScalarFnView { descriptor, args: Some(second) }, env)
        }),
{
    lemma_names_do_not_matter(first, second, env);
}

/// Where the rest of a message about a whole-column python function is in order, the decision
/// on the resources that it asks for is the outcome: what is granted is the function's
/// request, and a refusal is the error.
pub proof fn law_request_is_decided(m: proto::LegacyFnView, admission: Admission)
    requires
        asked_resources(m) is Some,
        decode_dtype(m.return_type, Field::LegacyReturnType) is Ok,
        decode_py(m.callable, Field::LegacyCallable) is Ok,
        decode_py(m.callable_init_args, Field::LegacyCallableInitArgs) is Ok,
        decode_py(m.callable_call_args, Field::LegacyCallableCallArgs) is Ok,
    ensures
        match admission(asked_resources(m)->0) {
            Ok(request) => decode_legacy(m, admission) matches Ok(func) && func.resource_request
                == Some(request),
            Err(e) => decode_legacy(m, admission) == Err::<LegacyView, _>(ProtoErrorView::Resources(e)),
        },
{
}

/// The bytes `after` are those that `before` starts with.
pub open spec fn kept(before: Option<Seq<u8>>, after: Option<Seq<u8>>) -> bool {
    &&& before is Some && after is Some
    &&& after->0.len() <= before->0.len()
    &&& before->0.take(after->0.len() as int) == after->0
}

/// A number of a message is a size.
pub open spec fn fits(number: Option<u64>) -> bool {
    number matches Some(number) ==> number <= usize::MAX
}

/// A message about a whole-column python function, read and written again, is the same, but
/// that it asks for the resources that were granted, and that what followed the pickles in its
/// objects is gone. Where the resources were granted as asked for, it asks for the same.
pub proof fn law_legacy_message_is_kept(m: proto::LegacyFnView, admission: Admission)
    requires
        fits(Some(m.arity)),
        fits(m.concurrency),
        fits(m.batch_size),
        fits(m.max_memory_bytes),
    ensures
        decode_legacy(m, admission) matches Ok(func) ==> {
            &&& encode_legacy(func) is Ok
            &&& ({
                let again = encode_legacy(func)->Ok_0;
                &&& again.name == m.name
                &&& again.arity == m.arity
                &&& again.return_type == m.return_type
                &&& again.concurrency == m.concurrency
                &&& again.batch_size == m.batch_size
                &&& again.use_process == m.use_process
                &&& kept(m.callable, again.callable)
                &&& kept(m.callable_init_args, again.callable_init_args)
                &&& kept(m.callable_call_args, again.callable_call_args)
                &&& match asked_resources(m) {
                    None => {
                        &&& again.num_cpus is None
                        &&& again.num_gpus is None
                        &&& again.max_memory_bytes is None
                    },
                    Some(asked) => {
                        let granted = admission(asked)->Ok_0;
                        &&& again.num_cpus == granted.num_cpus
                        &&& again.num_gpus == granted.num_gpus
                        &&& again.max_memory_bytes == as_number(granted.memory_bytes)
                        &&& granted == asked ==> {
                            &&& again.num_cpus == m.num_cpus
                            &&& again.num_gpus == m.num_gpus
                            &&& again.max_memory_bytes == m.max_memory_bytes
                        }
                    },
                }
            })
        },
{
    if decode_legacy(m, admission) is Ok {
        law_stored_form_is_unique(m.callable->0);
        law_stored_form_is_unique(m.callable_init_args->0);
        law_stored_form_is_unique(m.callable_call_args->0);
    }
}

/// A message about a row-wise python function, read and written again, is the same, but that
/// what followed the pickles in its objects is gone.
pub proof fn law_row_wise_message_is_kept(m: proto::RowWiseFnView, args: Seq<ir::ExprView>)
    ensures
        decode_row_wise(m, args) matches Ok(func) ==> {
            &&& encode_row_wise(func) is Ok
            &&& encode_row_wise(func)->Ok_0.name == m.name
            &&& encode_row_wise(func)->Ok_0.return_dtype == m.return_dtype
            &&& kept(m.inner, encode_row_wise(func)->Ok_0.inner)
            &&& kept(m.original_args, encode_row_wise(func)->Ok_0.original_args)
        },
{
    if decode_row_wise(m, args) is Ok {
        law_stored_form_is_unique(m.inner->0);
        law_stored_form_is_unique(m.original_args->0);
    }
}

/// The function that a whole-column python function becomes by being written and read.
pub open spec fn legacy_trip(func: LegacyView, admission: Admission) -> Result<
    LegacyView,
    ProtoErrorView,
> {
    match encode_legacy(func) {
        Err(e) => Err(e),
        Ok(m) => decode_legacy(m, admission),
    }
}

/// A second trip of a whole-column python function through its message changes nothing but
/// what it has of resources: that is decided on again.
pub proof fn law_second_trip_decides_again(func: LegacyView, admission: Admission)
    requires
        legacy_trip(func, admission) is Ok,
    ensures
        ({
            let once = legacy_trip(func, admission)->Ok_0;
            legacy_trip(once, admission) == match normal_request(once.resource_request) {
                None => Ok(LegacyView { resource_request: None, ..once }),
                Some(asked) => match admission(asked) {
                    Err(e) => Err(ProtoErrorView::Resources(e)),
                    Ok(request) => Ok(LegacyView { resource_request: Some(request), ..once }),
                },
            }
        }),
{
    let m = encode_legacy(func)->Ok_0;
    let once = decode_legacy(m, admission)->Ok_0;
    lemma_decoded_legacy(m, admission);
    lemma_py_round_trip(callable_parts(once.func).0);
    lemma_py_round_trip(callable_parts(once.func).1);
    lemma_py_round_trip(once.bound_args);
}

/// Where a request that was granted asks for something and is granted as it is, if it is
/// granted at all, a second trip of a whole-column python function through its message changes
/// nothing.
pub proof fn law_second_trip_changes_nothing(func: LegacyView, admission: Admission)
    requires
        legacy_trip(func, admission) is Ok,
        legacy_trip(func, admission)->Ok_0.resource_request matches Some(granted) ==> {
            &&& asks(granted)
            &&& admission(granted) matches Ok(again) ==> again == granted
        },
    ensures
        legacy_trip(legacy_trip(func, admission)->Ok_0, admission) matches Ok(twice) ==> twice
            == legacy_trip(func, admission)->Ok_0,
{
    law_second_trip_decides_again(func, admission);
}

/// The two environments find the same functions, and decide the same on `requests`.
pub open spec fn agree(
    first: EnvironmentView,
    second: EnvironmentView,
    requests: Seq<ResourceRequest>,
) -> bool {
    &&& first.resolution == second.resolution
    &&& forall|i: int|
        0 <= i < requests.len() ==> (first.admission)(#[trigger] requests[i]) == (second.admission)(
            requests[i],
        )
}

proof fn lemma_agree_parts(
    first: EnvironmentView,
    second: EnvironmentView,
    left: Seq<ResourceRequest>,
    right: Seq<ResourceRequest>,
)
    requires
        agree(first, second, left + right),
    ensures
        agree(first, second, left),
        agree(first, second, right),
{
    let both = left + right;
    assert forall|i: int| 0 <= i < left.len() implies (first.admission)(#[trigger] left[i]) == (
    second.admission)(left[i]) by {
        assert(both[i] == left[i]);
    }
    assert forall|i: int| 0 <= i < right.len() implies (first.admission)(#[trigger] right[i]) == (
    second.admission)(right[i]) by {
        assert(both[left.len() + i] == right[i]);
    }
}

proof fn lemma_decisions_for_args(
    m: Seq<proto::ArgView>,
    first: EnvironmentView,
    second: EnvironmentView,
)
    requires
        agree(first, second, args_requests(m)),
    ensures
        decode_args(m, first) == decode_args(m, second),
    decreases m,
{
    if m.len() > 0 {
        lemma_agree_parts(first, second, args_requests(m.drop_last()), arg_requests(m.last()));
        lemma_decisions_for_args(m.drop_last(), first, second);
        if let Some(expr) = m.last().expr {
            law_listed_requests_are_decided(expr, first, second);
        }
        assert(decode_arg(m.last(), first) == decode_arg(m.last(), second));
    }
}

/// Reading a message depends on no decisions but those on the requests that are listed for it.
pub proof fn law_listed_requests_are_decided(
    m: proto::ExprView,
    first: EnvironmentView,
    second: EnvironmentView,
)
    requires
        agree(first, second, expr_requests(m)),
    ensures
        decode_expr(m, first) == decode_expr(m, second),
    decreases m,
{
    if let proto::ExprView::ScalarFn(call) = m {
        let function = descriptor_requests(call.descriptor);
        if let Some(args) = call.args {
            lemma_agree_parts(first, second, args_requests(args), function);
            lemma_decisions_for_args(args, first, second);
            if let Some(
                proto::DescriptorView::Py(Some(proto::PyFnVariantView::Legacy(legacy))),
            ) = call.descriptor {
                if let Some(asked) = asked_resources(legacy) {
                    assert(function[0] == asked);
                }
            }
        }
    }
}

/// One of `requests` is not granted, for the reason `e`.
pub open spec fn refused(
    requests: Seq<ResourceRequest>,
    admission: Admission,
    e: ResourceErrorView,
) -> bool {
    exists|i: int|
        0 <= i < requests.len() && admission(#[trigger] requests[i]) == Err::<ResourceRequest, _>(e)
}

proof fn lemma_refused_parts(
    left: Seq<ResourceRequest>,
    right: Seq<ResourceRequest>,
    admission: Admission,
    e: ResourceErrorView,
)
    requires
        refused(left, admission, e) || refused(right, admission, e),
    ensures
        refused(left + right, admission, e),
{
    let both = left + right;
    if refused(left, admission, e) {
        let i = choose|i: int|
            0 <= i < left.len() && admission(#[trigger] left[i]) == Err::<ResourceRequest, _>(e);
        assert(both[i] == left[i]);
    } else {
        let i = choose|i: int|
            0 <= i < right.len() && admission(#[trigger] right[i]) == Err::<ResourceRequest, _>(e);
        assert(both[left.len() + i] == right[i]);
    }
}

proof fn lemma_refusal_in_args(m: Seq<proto::ArgView>, env: EnvironmentView)
    ensures
        decode_args(m, env) matches Err(ProtoErrorView::Resources(e)) ==> refused(
            args_requests(m),
            env.admission,
            e,
        ),
    decreases m,
{
    if m.len() > 0 {
        lemma_refusal_in_args(m.drop_last(), env);
        let last = m.last();
        if let Some(expr) = last.expr {
            law_refused_request_is_listed(expr, env);
        }
        if let Err(ProtoErrorView::Resources(e)) = decode_args(m, env) {
            assert(decode_args(m.drop_last(), env) is Ok ==> decode_arg(last, env) is Err);
            lemma_refused_parts(
                args_requests(m.drop_last()),
                arg_requests(last),
                env.admission,
                e,
            );
        }
    }
}

/// A message that is not read for want of resources makes a request that was not granted, for
/// the reason that is reported.
pub proof fn law_refused_request_is_listed(m: proto::ExprView, env: EnvironmentView)
    ensures
        decode_expr(m, env) matches Err(ProtoErrorView::Resources(e)) ==> refused(
            expr_requests(m),
            env.admission,
            e,
        ),
    decreases m,
{
    if let proto::ExprView::ScalarFn(call) = m {
        if let Some(args) = call.args {
            let (left, right) = (args_requests(args), descriptor_requests(call.descriptor));
            lemma_refusal_in_args(args, env);
            if let Err(ProtoErrorView::Resources(e)) = decode_call(call, env) {
                if decode_args(args, env) is Ok {
                    let legacy = call.descriptor->0->Py_0->0->Legacy_0;
                    assert(right[0] == asked_resources(legacy)->0);
                }
                lemma_refused_parts(left, right, env.admission, e);
            }
        }
    }
}

/// A session that has decided on every request that is listed for a message reads the message
/// without missing a decision.
pub proof fn law_decisions_suffice(m: proto::ExprView, session: Session)
    requires
        forall|i: int|
            0 <= i < expr_requests(m).len() ==> {
                &&& session.rulings@.dom().contains(#[trigger] expr_requests(m)[i])
                &&& session.rulings@[expr_requests(m)[i]] != Err::<ResourceRequest, _>(
                    ResourceErrorView::Undecided,
                )
            },
    ensures
        decode_expr(m, session@) != Err::<ir::ExprView, _>(
            ProtoErrorView::Resources(ResourceErrorView::Undecided),
        ),
{
    law_refused_request_is_listed(m, session@);
}

} // verus!
