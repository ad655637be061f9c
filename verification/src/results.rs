//! What each conversion gives, part by part.

use vstd::prelude::*;

use crate::environment::{outcome_view, ruling, Admission, Environment, EnvironmentView, Session};
use crate::error::{
    Field, FunctionError, FunctionErrorView, ProtoError, ProtoErrorView, ResourceError,
    ResourceErrorView,
};
use crate::ir;
use crate::model::{
    arg_requests, args_requests, asked_resources, call_requests, decode_arg, decode_args,
    decode_call, decode_expr, decode_legacy, decode_object, decode_row_wise, descriptor_requests,
    encode_arg, encode_args, encode_call, encode_expr, encode_function_call, encode_legacy,
    encode_object, encode_row_wise, encode_unnamed, expr_requests,
};
use crate::payload::{frame, law_frame_round_trip, le_bytes, le_value, read_failure};
use crate::proto;
use crate::python::{
    CallableView, LegacyPythonUDF, LegacyView, MaybeInitializedUDF, PyObjectView, ResourceRequest,
    RuntimePyObject,
};
use crate::registry::lookup;
use crate::special::special_form;

verus! {

proof fn lemma_le_sum(bytes: Seq<u8>)
    requires
        bytes.len() == 8,
    ensures
        le_value(bytes) == bytes[0] + 0x100 * bytes[1] + 0x1_0000 * bytes[2] + 0x100_0000 * bytes[3]
            + 0x1_0000_0000 * bytes[4] + 0x100_0000_0000 * bytes[5] + 0x1_0000_0000_0000 * bytes[6]
            + 0x100_0000_0000_0000 * bytes[7],
{
    reveal_with_fuel(le_value, 9);
}

/// A pickle is stored as its length in eight bytes, the lowest first, and then itself, byte for
/// byte. An object without a pickle is not stored, for its own reason.
pub proof fn law_object_is_stored(object: RuntimePyObject)
    ensures
        match object@ {
            PyObjectView::Pickled(p) => {
                &&& encode_object(object@) is Ok
                &&& ({
                    let bytes = encode_object(object@)->Ok_0;
                    &&& bytes.len() == 8 + p.len()
                    &&& p.len() == bytes[0] + 0x100 * bytes[1] + 0x1_0000 * bytes[2] + 0x100_0000
                        * bytes[3] + 0x1_0000_0000 * bytes[4] + 0x100_0000_0000 * bytes[5]
                        + 0x1_0000_0000_0000 * bytes[6] + 0x100_0000_0000_0000 * bytes[7]
                    &&& forall|i: int| 0 <= i < p.len() ==> bytes[8 + i] == #[trigger] p[i]
                })
            },
            PyObjectView::Unpicklable(reason) => encode_object(object@) == Err::<Seq<u8>, _>(
                ProtoErrorView::Bincode(reason),
            ),
        },
{
    if let PyObjectView::Pickled(p) = object@ {
        RuntimePyObject::lemma_length(object);
        lemma_frame(p);
    }
}

proof fn lemma_frame(p: Seq<u8>)
    requires
        p.len() <= u64::MAX,
    ensures
        frame(p).len() == 8 + p.len(),
        p.len() == frame(p)[0] + 0x100 * frame(p)[1] + 0x1_0000 * frame(p)[2] + 0x100_0000
            * frame(p)[3] + 0x1_0000_0000 * frame(p)[4] + 0x100_0000_0000 * frame(p)[5]
            + 0x1_0000_0000_0000 * frame(p)[6] + 0x100_0000_0000_0000 * frame(p)[7],
        forall|i: int| 0 <= i < p.len() ==> frame(p)[8 + i] == #[trigger] p[i],
{
    reveal_with_fuel(le_bytes, 9);
    law_frame_round_trip(p, Seq::empty());
    assert(frame(p) + Seq::<u8>::empty() =~= frame(p));
    lemma_le_sum(frame(p).take(8));
}

/// Bytes that start with a length in eight bytes, the lowest first, and hold as many more, are
/// read as the object with just those as its pickle. Of other bytes nothing is read.
pub proof fn law_object_is_read(bytes: Seq<u8>)
    ensures
        ({
            let n = bytes[0] + 0x100 * bytes[1] + 0x1_0000 * bytes[2] + 0x100_0000 * bytes[3]
                + 0x1_0000_0000 * bytes[4] + 0x100_0000_0000 * bytes[5] + 0x1_0000_0000_0000
                * bytes[6] + 0x100_0000_0000_0000 * bytes[7];
            if bytes.len() >= 8 && bytes.len() >= 8 + n {
                &&& decode_object(bytes) matches Ok(PyObjectView::Pickled(p))
                &&& p.len() == n
                &&& forall|i: int| 0 <= i < n ==> #[trigger] p[i] == bytes[8 + i]
            } else {
                decode_object(bytes) == Err::<PyObjectView, _>(
                    ProtoErrorView::Bincode(read_failure(bytes, usize::MAX as nat)),
                )
            }
        }),
{
    if bytes.len() >= 8 {
        lemma_le_sum(bytes.take(8));
    }
}

/// A whole-column python function has each part from the field of its message that is for it.
/// It is not read only where a field is missing or broken, or the resources are not granted,
/// and the first of these is the error.
pub proof fn law_legacy_is_read(m: proto::LegacyFnView, admission: Admission)
    ensures
        ({
            let asked = ResourceRequest {
                num_cpus: m.num_cpus,
                num_gpus: m.num_gpus,
                memory_bytes: match m.max_memory_bytes {
                    Some(bytes) => Some(bytes as usize),
                    None => None,
                },
            };
            let asks = m.num_cpus is Some || m.num_gpus is Some || m.max_memory_bytes is Some;
            match decode_legacy(m, admission) {
                Ok(func) => {
                    &&& func.name == m.name
                    &&& func.num_expressions == m.arity as usize
                    &&& m.return_type matches Some(Some(encoded))
                    &&& func.return_dtype == ir::DataTypeView::Encoded(encoded)
                    &&& func.func matches CallableView::Uninitialized { inner, init_args }
                    &&& m.callable matches Some(bytes)
                    &&& decode_object(bytes) == Ok::<_, ProtoErrorView>(inner)
                    &&& m.callable_init_args matches Some(bytes)
                    &&& decode_object(bytes) == Ok::<_, ProtoErrorView>(init_args)
                    &&& m.callable_call_args matches Some(bytes)
                    &&& decode_object(bytes) == Ok::<_, ProtoErrorView>(func.bound_args)
                    &&& match m.concurrency {
                        Some(n) => func.concurrency == Some(n as usize),
                        None => func.concurrency is None,
                    }
                    &&& match m.batch_size {
                        Some(n) => func.batch_size == Some(n as usize),
                        None => func.batch_size is None,
                    }
                    &&& func.use_process == m.use_process
                    &&& match func.resource_request {
                        Some(request) => asks && admission(asked) == Ok::<_, ResourceErrorView>(
                            request,
                        ),
                        None => !asks,
                    }
                },
                Err(e) => if m.return_type is None {
                    e == ProtoErrorView::Null(Field::LegacyReturnType)
                } else if m.return_type->0 is None {
                    e == ProtoErrorView::Null(Field::DataTypeVariant)
                } else if m.callable is None {
                    e == ProtoErrorView::Null(Field::LegacyCallable)
                } else if decode_object(m.callable->0) is Err {
                    decode_object(m.callable->0) == Err::<PyObjectView, _>(e)
                } else if m.callable_init_args is None {
                    e == ProtoErrorView::Null(Field::LegacyCallableInitArgs)
                } else if decode_object(m.callable_init_args->0) is Err {
                    decode_object(m.callable_init_args->0) == Err::<PyObjectView, _>(e)
                } else if m.callable_call_args is None {
                    e == ProtoErrorView::Null(Field::LegacyCallableCallArgs)
                } else if decode_object(m.callable_call_args->0) is Err {
                    decode_object(m.callable_call_args->0) == Err::<PyObjectView, _>(e)
                } else {
                    &&& asks
                    &&& e matches ProtoErrorView::Resources(refusal)
                    &&& admission(asked) == Err::<ResourceRequest, _>(refusal)
                },
            }
        }),
{
}

/// The message of a whole-column python function has in each field the part of the function
/// that it is for. A callable that is initialised already is stored with the pickle of `None`
/// for its initial arguments. The function is not written only where its type or one of its
/// objects cannot be, and the first of these is the error.
pub proof fn law_legacy_is_written(func: LegacyView)
    ensures
        ({
            let callable = match func.func {
                CallableView::Initialized(object) => object,
                CallableView::Uninitialized { inner, init_args: _ } => inner,
            };
            match encode_legacy(func) {
                Ok(m) => {
                    &&& m.name == func.name
                    &&& m.arity == func.num_expressions
                    &&& func.return_dtype matches ir::DataTypeView::Encoded(encoded)
                    &&& m.return_type == Some(Some(encoded))
                    &&& m.callable matches Some(bytes)
                    &&& encode_object(callable) == Ok::<_, ProtoErrorView>(bytes)
                    &&& m.callable_init_args matches Some(bytes)
                    &&& match func.func {
                        CallableView::Initialized(_) => bytes == seq![
                            2u8,
                            0u8,
                            0u8,
                            0u8,
                            0u8,
                            0u8,
                            0u8,
                            0u8,
                            0x4Eu8,
                            0x2Eu8,
                        ],
                        CallableView::Uninitialized { inner: _, init_args } => encode_object(
                            init_args,
                        ) == Ok::<_, ProtoErrorView>(bytes),
                    }
                    &&& m.callable_call_args matches Some(bytes)
                    &&& encode_object(func.bound_args) == Ok::<_, ProtoErrorView>(bytes)
                    &&& match func.concurrency {
                        Some(n) => m.concurrency == Some(n as u64),
                        None => m.concurrency is None,
                    }
                    &&& match func.batch_size {
                        Some(n) => m.batch_size == Some(n as u64),
                        None => m.batch_size is None,
                    }
                    &&& m.use_process == func.use_process
                    &&& match func.resource_request {
                        Some(request) => {
                            &&& m.num_cpus == request.num_cpus
                            &&& m.num_gpus == request.num_gpus
                            &&& match request.memory_bytes {
                                Some(n) => m.max_memory_bytes == Some(n as u64),
                                None => m.max_memory_bytes is None,
                            }
                        },
                        None => {
                            &&& m.num_cpus is None
                            &&& m.num_gpus is None
                            &&& m.max_memory_bytes is None
                        },
                    }
                },
                Err(e) => match func.return_dtype {
                    ir::DataTypeView::Unsupported(name) => e == ProtoErrorView::NotImplemented(
                        name,
                    ),
                    ir::DataTypeView::Encoded(_) => if let PyObjectView::Unpicklable(reason) =
                        callable {
                        e == ProtoErrorView::Bincode(reason)
                    } else if let CallableView::Uninitialized {
                        inner: _,
                        init_args: PyObjectView::Unpicklable(reason),
                    } = func.func {
                        e == ProtoErrorView::Bincode(reason)
                    } else {
                        &&& func.bound_args matches PyObjectView::Unpicklable(reason)
                        &&& e == ProtoErrorView::Bincode(reason)
                    },
                },
            }
        }),
{
    let none = seq![0x4Eu8, 0x2Eu8];
    reveal_with_fuel(le_bytes, 9);
    assert(frame(none) =~= seq![2u8, 0u8, 0u8, 0u8, 0u8, 0u8, 0u8, 0u8, 0x4Eu8, 0x2Eu8]);
}

/// A row-wise python function has each part from the field of its message that is for it, and
/// the arguments of the call. It is not read only where a field is missing or broken, and the
/// first of these is the error.
pub proof fn law_row_wise_is_read(m: proto::RowWiseFnView, args: Seq<ir::ExprView>)
    ensures
        match decode_row_wise(m, args) {
            Ok(func) => {
                &&& func.function_name == m.name
                &&& func.args == args
                &&& m.inner matches Some(bytes)
                &&& decode_object(bytes) == Ok::<_, ProtoErrorView>(func.inner)
                &&& m.return_dtype matches Some(Some(encoded))
                &&& func.return_dtype == ir::DataTypeView::Encoded(encoded)
                &&& m.original_args matches Some(bytes)
                &&& decode_object(bytes) == Ok::<_, ProtoErrorView>(func.original_args)
            },
            Err(e) => if m.inner is None {
                e == ProtoErrorView::Null(Field::RowWiseInner)
            } else if decode_object(m.inner->0) is Err {
                decode_object(m.inner->0) == Err::<PyObjectView, _>(e)
            } else if m.return_dtype is None {
                e == ProtoErrorView::Null(Field::RowWiseReturnDtype)
            } else if m.return_dtype->0 is None {
                e == ProtoErrorView::Null(Field::DataTypeVariant)
            } else if m.original_args is None {
                e == ProtoErrorView::Null(Field::RowWiseOriginalArgs)
            } else {
                decode_object(m.original_args->0) == Err::<PyObjectView, _>(e)
            },
        },
{
}

/// The message of a row-wise python function has in each field the part of the function that it
/// is for. The function is not written only where its type or one of its objects cannot be, and
/// the first of these is the error.
pub proof fn law_row_wise_is_written(func: ir::RowWiseView)
    ensures
        match encode_row_wise(func) {
            Ok(m) => {
                &&& m.name == func.function_name
                &&& func.return_dtype matches ir::DataTypeView::Encoded(encoded)
                &&& m.return_dtype == Some(Some(encoded))
                &&& m.inner matches Some(bytes)
                &&& encode_object(func.inner) == Ok::<_, ProtoErrorView>(bytes)
                &&& m.original_args matches Some(bytes)
                &&& encode_object(func.original_args) == Ok::<_, ProtoErrorView>(bytes)
            },
            Err(e) => match func.return_dtype {
                ir::DataTypeView::Unsupported(name) => e == ProtoErrorView::NotImplemented(name),
                ir::DataTypeView::Encoded(_) => match func.inner {
                    PyObjectView::Unpicklable(reason) => e == ProtoErrorView::Bincode(reason),
                    PyObjectView::Pickled(_) => {
                        &&& func.original_args matches PyObjectView::Unpicklable(reason)
                        &&& e == ProtoErrorView::Bincode(reason)
                    },
                },
            },
        },
{
}

/// An argument has the name that its message has, or none, and the expression of its message.
pub proof fn law_arg_is_read(m: proto::ArgView, env: EnvironmentView)
    ensures
        match decode_arg(m, env) {
            Ok(arg) => {
                &&& arg.name == m.param
                &&& m.expr matches Some(expr)
                &&& decode_expr(expr, env) == Ok::<_, ProtoErrorView>(arg.expr)
            },
            Err(e) => match m.expr {
                Some(expr) => decode_expr(expr, env) == Err::<ir::ExprView, _>(e),
                None => e == ProtoErrorView::Null(Field::ArgExpr),
            },
        },
{
}

/// The message of an argument has the name of the argument, or none, and the message of its
/// expression.
pub proof fn law_arg_is_written(arg: ir::ArgView)
    ensures
        match encode_arg(arg) {
            Ok(m) => {
                &&& m.param == arg.name
                &&& m.expr matches Some(expr)
                &&& encode_expr(arg.expr) == Ok::<_, ProtoErrorView>(expr)
            },
            Err(e) => encode_expr(arg.expr) == Err::<proto::ExprView, _>(e),
        },
{
}

/// Arguments are read one for one and in their order, each with its own name and expression,
/// as many as there are. They are not read only where one of them cannot be, and the first of
/// these gives the error.
pub proof fn law_args_are_read(m: Seq<proto::ArgView>, env: EnvironmentView)
    ensures
        match decode_args(m, env) {
            Ok(args) => {
                &&& args.len() == m.len()
                &&& forall|i: int|
                    0 <= i < m.len() ==> {
                        &&& (#[trigger] args[i]).name == m[i].param
                        &&& m[i].expr matches Some(expr)
                        &&& decode_expr(expr, env) == Ok::<_, ProtoErrorView>(args[i].expr)
                    }
            },
            Err(e) => exists|i: int|
                {
                    &&& 0 <= i < m.len()
                    &&& match (#[trigger] m[i]).expr {
                        Some(expr) => decode_expr(expr, env) == Err::<ir::ExprView, _>(e),
                        None => e == ProtoErrorView::Null(Field::ArgExpr),
                    }
                    &&& forall|j: int|
                        0 <= j < i ==> (#[trigger] m[j]).expr is Some && decode_expr(
                            m[j].expr->0,
                            env,
                        ) is Ok
                },
        },
    decreases m.len(),
{
    if m.len() > 0 {
        let front = m.drop_last();
        law_args_are_read(front, env);
        law_arg_is_read(m.last(), env);
        assert forall|j: int| 0 <= j < front.len() implies #[trigger] m[j] == front[j] by {}
        if let Err(e) = decode_args(m, env) {
            if decode_args(front, env) is Ok {
                let args = decode_args(front, env)->Ok_0;
                assert forall|j: int| 0 <= j < front.len() implies (#[trigger] m[j]).expr is Some
                    && decode_expr(m[j].expr->0, env) is Ok by {
                    assert(args[j].name == front[j].param);
                }
                assert(m[m.len() - 1] == m.last());
            } else {
                let i = choose|i: int|
                    {
                        &&& 0 <= i < front.len()
                        &&& match (#[trigger] front[i]).expr {
                            Some(expr) => decode_expr(expr, env) == Err::<ir::ExprView, _>(e),
                            None => e == ProtoErrorView::Null(Field::ArgExpr),
                        }
                        &&& forall|j: int|
                            0 <= j < i ==> (#[trigger] front[j]).expr is Some && decode_expr(
                                front[j].expr->0,
                                env,
                            ) is Ok
                    };
                assert(m[i] == front[i]);
            }
        }
    }
}

/// Arguments are written one for one and in their order, each with its own name and expression,
/// as many as there are. They are not written only where one of them cannot be, and the first
/// of these gives the error.
pub proof fn law_args_are_written(args: Seq<ir::ArgView>)
    ensures
        match encode_args(args) {
            Ok(m) => {
                &&& m.len() == args.len()
                &&& forall|i: int|
                    0 <= i < args.len() ==> {
                        &&& (#[trigger] m[i]).param == args[i].name
                        &&& m[i].expr matches Some(expr)
                        &&& encode_expr(args[i].expr) == Ok::<_, ProtoErrorView>(expr)
                    }
            },
            Err(e) => exists|i: int|
                {
                    &&& 0 <= i < args.len()
                    &&& encode_expr((#[trigger] args[i]).expr) == Err::<proto::ExprView, _>(e)
                    &&& forall|j: int|
                        0 <= j < i ==> encode_expr((#[trigger] args[j]).expr) is Ok
                },
        },
    decreases args.len(),
{
    if args.len() > 0 {
        let front = args.drop_last();
        law_args_are_written(front);
        law_arg_is_written(args.last());
        assert forall|j: int| 0 <= j < front.len() implies #[trigger] args[j] == front[j] by {}
        if let Err(e) = encode_args(args) {
            if encode_args(front) is Ok {
                let m = encode_args(front)->Ok_0;
                assert forall|j: int| 0 <= j < front.len() implies encode_expr(
                    (#[trigger] args[j]).expr,
                ) is Ok by {
                    assert(m[j].param == front[j].name);
                }
                assert(args[args.len() - 1] == args.last());
            } else {
                let i = choose|i: int|
                    {
                        &&& 0 <= i < front.len()
                        &&& encode_expr((#[trigger] front[i]).expr) == Err::<proto::ExprView, _>(e)
                        &&& forall|j: int|
                            0 <= j < i ==> encode_expr((#[trigger] front[j]).expr) is Ok
                    };
                assert(args[i] == front[i]);
            }
        }
    }
}

/// Arguments that are passed by position are written one for one and in their order, without
/// names, as many as there are. They are not written only where one of them cannot be, and the
/// first of these gives the error.
pub proof fn law_positional_args_are_written(exprs: Seq<ir::ExprView>)
    ensures
        match encode_unnamed(exprs) {
            Ok(m) => {
                &&& m.len() == exprs.len()
                &&& forall|i: int|
                    0 <= i < exprs.len() ==> {
                        &&& (#[trigger] m[i]).param is None
                        &&& m[i].expr matches Some(expr)
                        &&& encode_expr(exprs[i]) == Ok::<_, ProtoErrorView>(expr)
                    }
            },
            Err(e) => exists|i: int|
                {
                    &&& 0 <= i < exprs.len()
                    &&& encode_expr(#[trigger] exprs[i]) == Err::<proto::ExprView, _>(e)
                    &&& forall|j: int| 0 <= j < i ==> encode_expr(#[trigger] exprs[j]) is Ok
                },
        },
    decreases exprs.len(),
{
    if exprs.len() > 0 {
        let front = exprs.drop_last();
        law_positional_args_are_written(front);
        assert forall|j: int| 0 <= j < front.len() implies #[trigger] exprs[j] == front[j] by {}
        if let Err(e) = encode_unnamed(exprs) {
            if encode_unnamed(front) is Ok {
                let m = encode_unnamed(front)->Ok_0;
                assert forall|j: int| 0 <= j < front.len() implies encode_expr(
                    #[trigger] exprs[j],
                ) is Ok by {
                    assert(m[j].param is None);
                }
                assert(exprs[exprs.len() - 1] == exprs.last());
            } else {
                let i = choose|i: int|
                    {
                        &&& 0 <= i < front.len()
                        &&& encode_expr(#[trigger] front[i]) == Err::<proto::ExprView, _>(e)
                        &&& forall|j: int| 0 <= j < i ==> encode_expr(#[trigger] front[j]) is Ok
                    };
                assert(exprs[i] == front[i]);
            }
        }
    }
}

/// The call of a builtin function has the arguments of its message, one for one and in their
/// order, each with its own name, and the function that its name stands for with just these
/// arguments. It is read whenever its arguments are and the function is found; else the first
/// argument that cannot be read gives the error, or the search for the function does.
pub proof fn law_builtin_call_is_read(
    name: Seq<char>,
    args: Seq<proto::ArgView>,
    env: EnvironmentView,
)
    ensures
        ({
            let descriptor = Some(proto::DescriptorView::Builtin(name));
            match decode_call(proto::ScalarFnView { descriptor, args: Some(args) }, env) {
                Ok(expr) => {
                    &&& expr matches ir::ExprView::ScalarFn(
                        ir::ScalarFnView::Builtin { func, inputs },
                    )
                    &&& inputs.len() == args.len()
                    &&& forall|i: int|
                        0 <= i < args.len() ==> {
                            &&& (#[trigger] inputs[i]).name == args[i].param
                            &&& args[i].expr matches Some(expr)
                            &&& decode_expr(expr, env) == Ok::<_, ProtoErrorView>(inputs[i].expr)
                        }
                    &&& (env.resolution)(name, inputs) == Ok::<_, FunctionErrorView>(func)
                },
                Err(e) => {
                    ||| exists|i: int|
                        {
                            &&& 0 <= i < args.len()
                            &&& match (#[trigger] args[i]).expr {
                                Some(expr) => decode_expr(expr, env) == Err::<ir::ExprView, _>(e),
                                None => e == ProtoErrorView::Null(Field::ArgExpr),
                            }
                            &&& forall|j: int|
                                0 <= j < i ==> (#[trigger] args[j]).expr is Some && decode_expr(
                                    args[j].expr->0,
                                    env,
                                ) is Ok
                        }
                    ||| {
                        &&& forall|i: int|
                            0 <= i < args.len() ==> (#[trigger] args[i]).expr is Some && decode_expr(
                                args[i].expr->0,
                                env,
                            ) is Ok
                        &&& e matches ProtoErrorView::Function(reason)
                        &&& exists|inputs: Seq<ir::ArgView>|
                            {
                                &&& #[trigger] (env.resolution)(name, inputs) == Err::<
                                    Seq<char>,
                                    _,
                                >(reason)
                                &&& inputs.len() == args.len()
                                &&& forall|i: int|
                                    0 <= i < args.len() ==> (#[trigger] inputs[i]).name
                                        == args[i].param && decode_expr(args[i].expr->0, env)
                                        == Ok::<_, ProtoErrorView>(inputs[i].expr)
                            }
                    }
                },
            }
        }),
{
    law_args_are_read(args, env);
    if let Ok(inputs) = decode_args(args, env) {
        assert forall|i: int| 0 <= i < args.len() implies (#[trigger] args[i]).expr is Some
            && decode_expr(args[i].expr->0, env) is Ok by {
            assert(inputs[i].name == args[i].param);
        }
    }
}

/// The call of a row-wise python function has the arguments of its message as its own, one for
/// one and in their order, and the function of its message. It is read whenever its arguments
/// and the function are; else the first argument that cannot be read gives the error, or the
/// function does.
pub proof fn law_row_wise_call_is_read(
    m: proto::RowWiseFnView,
    args: Seq<proto::ArgView>,
    env: EnvironmentView,
)
    ensures
        ({
            let descriptor = Some(
                proto::DescriptorView::Py(Some(proto::PyFnVariantView::RowWise(m))),
            );
            match decode_call(proto::ScalarFnView { descriptor, args: Some(args) }, env) {
                Ok(expr) => {
                    &&& expr matches ir::ExprView::ScalarFn(ir::ScalarFnView::RowWise(func))
                    &&& func.args.len() == args.len()
                    &&& forall|i: int|
                        0 <= i < args.len() ==> {
                            &&& args[i].expr matches Some(expr)
                            &&& decode_expr(expr, env) == Ok::<_, ProtoErrorView>(
                                #[trigger] func.args[i],
                            )
                        }
                    &&& decode_row_wise(m, func.args) == Ok::<_, ProtoErrorView>(func)
                },
                Err(e) => {
                    ||| exists|i: int|
                        {
                            &&& 0 <= i < args.len()
                            &&& match (#[trigger] args[i]).expr {
                                Some(expr) => decode_expr(expr, env) == Err::<ir::ExprView, _>(e),
                                None => e == ProtoErrorView::Null(Field::ArgExpr),
                            }
                            &&& forall|j: int|
                                0 <= j < i ==> (#[trigger] args[j]).expr is Some && decode_expr(
                                    args[j].expr->0,
                                    env,
                                ) is Ok
                        }
                    ||| {
                        &&& forall|i: int|
                            0 <= i < args.len() ==> (#[trigger] args[i]).expr is Some && decode_expr(
                                args[i].expr->0,
                                env,
                            ) is Ok
                        &&& exists|inputs: Seq<ir::ExprView>|
                            #[trigger] decode_row_wise(m, inputs) == Err::<ir::RowWiseView, _>(e)
                    }
                },
            }
        }),
{
    law_args_are_read(args, env);
    if let Ok(inputs) = decode_args(args, env) {
        let exprs = ir::inner_exprs(inputs);
        law_row_wise_is_read(m, exprs);
        assert forall|i: int| 0 <= i < args.len() implies (#[trigger] args[i]).expr is Some
            && decode_expr(args[i].expr->0, env) is Ok by {
            assert(inputs[i].name == args[i].param);
        }
        assert forall|i: int| 0 <= i < args.len() implies args[i].expr is Some && decode_expr(
            args[i].expr->0,
            env,
        ) == Ok::<_, ProtoErrorView>(#[trigger] exprs[i]) by {
            assert(inputs[i].name == args[i].param);
        }
    }
}

/// The call of a whole-column python function has the arguments of its message beside it, one
/// for one and in their order, and the function of its message. It is read whenever its
/// arguments and the function are, however many the arguments; else the first argument that
/// cannot be read gives the error, or the function does.
pub proof fn law_legacy_call_is_read(
    m: proto::LegacyFnView,
    args: Seq<proto::ArgView>,
    env: EnvironmentView,
)
    ensures
        ({
            let descriptor = Some(
                proto::DescriptorView::Py(Some(proto::PyFnVariantView::Legacy(m))),
            );
            match decode_call(proto::ScalarFnView { descriptor, args: Some(args) }, env) {
                Ok(expr) => {
                    &&& expr matches ir::ExprView::Function {
                        func: ir::FunctionExprView::Python(func),
                        inputs,
                    }
                    &&& inputs.len() == args.len()
                    &&& forall|i: int|
                        0 <= i < args.len() ==> {
                            &&& args[i].expr matches Some(expr)
                            &&& decode_expr(expr, env) == Ok::<_, ProtoErrorView>(
                                #[trigger] inputs[i],
                            )
                        }
                    &&& decode_legacy(m, env.admission) == Ok::<_, ProtoErrorView>(func)
                },
                Err(e) => {
                    ||| exists|i: int|
                        {
                            &&& 0 <= i < args.len()
                            &&& match (#[trigger] args[i]).expr {
                                Some(expr) => decode_expr(expr, env) == Err::<ir::ExprView, _>(e),
                                None => e == ProtoErrorView::Null(Field::ArgExpr),
                            }
                            &&& forall|j: int|
                                0 <= j < i ==> (#[trigger] args[j]).expr is Some && decode_expr(
                                    args[j].expr->0,
                                    env,
                                ) is Ok
                        }
                    ||| {
                        &&& forall|i: int|
                            0 <= i < args.len() ==> (#[trigger] args[i]).expr is Some && decode_expr(
                                args[i].expr->0,
                                env,
                            ) is Ok
                        &&& decode_legacy(m, env.admission) == Err::<LegacyView, _>(e)
                    }
                },
            }
        }),
{
    law_args_are_read(args, env);
    if let Ok(inputs) = decode_args(args, env) {
        let exprs = ir::inner_exprs(inputs);
        assert forall|i: int| 0 <= i < args.len() implies (#[trigger] args[i]).expr is Some
            && decode_expr(args[i].expr->0, env) is Ok by {
            assert(inputs[i].name == args[i].param);
        }
        assert forall|i: int| 0 <= i < args.len() implies args[i].expr is Some && decode_expr(
            args[i].expr->0,
            env,
        ) == Ok::<_, ProtoErrorView>(#[trigger] exprs[i]) by {
            assert(inputs[i].name == args[i].param);
        }
    }
}

/// A call without arguments, a function or the kind of a python function is not read: the
/// missing arguments are the error, then what is wrong in the arguments, then the missing
/// function.
pub proof fn law_incomplete_call_is_not_read(m: proto::ScalarFnView, env: EnvironmentView)
    ensures
        m.args is None ==> decode_call(m, env) == Err::<ir::ExprView, _>(
            ProtoErrorView::Null(Field::ScalarFnArgs),
        ),
        (m.args matches Some(args) && decode_args(args, env) is Err) ==> {
            &&& decode_call(m, env) matches Err(e)
            &&& decode_args(m.args->0, env) == Err::<Seq<ir::ArgView>, _>(e)
        },
        (m.args matches Some(args) && decode_args(args, env) is Ok && m.descriptor is None)
            ==> decode_call(m, env) == Err::<ir::ExprView, _>(
            ProtoErrorView::Null(Field::ScalarFnDescriptor),
        ),
        (m.args matches Some(args) && decode_args(args, env) is Ok && m.descriptor == Some(
            proto::DescriptorView::Py(None),
        )) ==> decode_call(m, env) == Err::<ir::ExprView, _>(
            ProtoErrorView::Null(Field::PyFnVariant),
        ),
{
}

/// The message of a call of a builtin function names the function, and has its arguments, one
/// for one and in their order, each with its own name. It is written whenever its arguments
/// are; else the first that cannot be gives the error.
pub proof fn law_builtin_call_is_written(func: Seq<char>, inputs: Seq<ir::ArgView>)
    ensures
        match encode_call(ir::ScalarFnView::Builtin { func, inputs }) {
            Ok(m) => {
                &&& m.descriptor == Some(proto::DescriptorView::Builtin(func))
                &&& m.args matches Some(args)
                &&& args.len() == inputs.len()
                &&& forall|i: int|
                    0 <= i < inputs.len() ==> {
                        &&& (#[trigger] args[i]).param == inputs[i].name
                        &&& args[i].expr matches Some(expr)
                        &&& encode_expr(inputs[i].expr) == Ok::<_, ProtoErrorView>(expr)
                    }
            },
            Err(e) => exists|i: int|
                {
                    &&& 0 <= i < inputs.len()
                    &&& encode_expr((#[trigger] inputs[i]).expr) == Err::<proto::ExprView, _>(e)
                    &&& forall|j: int|
                        0 <= j < i ==> encode_expr((#[trigger] inputs[j]).expr) is Ok
                },
        },
{
    law_args_are_written(inputs);
}

/// The message of a call of a row-wise python function has the message of the function, and its
/// arguments, one for one and in their order, without names. It is written whenever its
/// arguments and the function are; else the first argument that cannot be gives the error, or
/// the function does.
pub proof fn law_row_wise_call_is_written(func: ir::RowWiseView)
    ensures
        match encode_call(ir::ScalarFnView::RowWise(func)) {
            Ok(m) => {
                &&& m.descriptor matches Some(
                    proto::DescriptorView::Py(Some(proto::PyFnVariantView::RowWise(row_wise))),
                )
                &&& encode_row_wise(func) == Ok::<_, ProtoErrorView>(row_wise)
                &&& m.args matches Some(args)
                &&& args.len() == func.args.len()
                &&& forall|i: int|
                    0 <= i < args.len() ==> {
                        &&& (#[trigger] args[i]).param is None
                        &&& args[i].expr matches Some(expr)
                        &&& encode_expr(func.args[i]) == Ok::<_, ProtoErrorView>(expr)
                    }
            },
            Err(e) => {
                ||| exists|i: int|
                    {
                        &&& 0 <= i < func.args.len()
                        &&& encode_expr(#[trigger] func.args[i]) == Err::<proto::ExprView, _>(e)
                        &&& forall|j: int| 0 <= j < i ==> encode_expr(#[trigger] func.args[j]) is Ok
                    }
                ||| {
                    &&& forall|i: int|
                        0 <= i < func.args.len() ==> encode_expr(#[trigger] func.args[i]) is Ok
                    &&& encode_row_wise(func) == Err::<proto::RowWiseFnView, _>(e)
                }
            },
        },
{
    law_positional_args_are_written(func.args);
    if let Ok(m) = encode_unnamed(func.args) {
        assert forall|i: int| 0 <= i < func.args.len() implies encode_expr(
            #[trigger] func.args[i],
        ) is Ok by {
            assert(m[i].param is None);
        }
    }
}

/// The message of a call of a whole-column python function has the message of the function, and
/// its arguments, one for one and in their order, without names. It is written whenever the
/// function and its arguments are, however many the arguments; else the function gives the
/// error, or the first argument that cannot be written does.
pub proof fn law_legacy_call_is_written(func: LegacyView, inputs: Seq<ir::ExprView>)
    ensures
        match encode_function_call(ir::FunctionExprView::Python(func), inputs) {
            Ok(m) => {
                &&& m.descriptor matches Some(
                    proto::DescriptorView::Py(Some(proto::PyFnVariantView::Legacy(legacy))),
                )
                &&& encode_legacy(func) == Ok::<_, ProtoErrorView>(legacy)
                &&& m.args matches Some(args)
                &&& args.len() == inputs.len()
                &&& forall|i: int|
                    0 <= i < args.len() ==> {
                        &&& (#[trigger] args[i]).param is None
                        &&& args[i].expr matches Some(expr)
                        &&& encode_expr(inputs[i]) == Ok::<_, ProtoErrorView>(expr)
                    }
            },
            Err(e) => {
                ||| encode_legacy(func) == Err::<proto::LegacyFnView, _>(e)
                ||| {
                    &&& encode_legacy(func) is Ok
                    &&& exists|i: int|
                        {
                            &&& 0 <= i < inputs.len()
                            &&& encode_expr(#[trigger] inputs[i]) == Err::<proto::ExprView, _>(e)
                            &&& forall|j: int|
                                0 <= j < i ==> encode_expr(#[trigger] inputs[j]) is Ok
                        }
                }
            },
        },
{
    law_positional_args_are_written(inputs);
}

/// A special form is not written, whatever it holds and whatever its arguments are.
pub proof fn law_special_form_is_not_written(
    func: ir::FunctionExprView,
    inputs: Seq<ir::ExprView>,
)
    ensures
        match func {
            ir::FunctionExprView::MapExpr(_) => encode_function_call(func, inputs) == Err::<
                proto::ScalarFnView,
                _,
            >(ProtoErrorView::NotImplemented("map_expr")),
            ir::FunctionExprView::Sketch(_) => encode_function_call(func, inputs) == Err::<
                proto::ScalarFnView,
                _,
            >(ProtoErrorView::NotImplemented("sketch_expr")),
            ir::FunctionExprView::Struct(_) => encode_function_call(func, inputs) == Err::<
                proto::ScalarFnView,
                _,
            >(ProtoErrorView::NotImplemented("struct_expr")),
            ir::FunctionExprView::Partitioning(_) => encode_function_call(func, inputs) == Err::<
                proto::ScalarFnView,
                _,
            >(ProtoErrorView::NotImplemented("partitioning_expr")),
            ir::FunctionExprView::Python(_) => true,
        },
{
}

/// The expression of a message is the call in it, or what it holds of another codec as it is.
pub proof fn law_expr_is_read(m: proto::ExprView, env: EnvironmentView)
    ensures
        match m {
            proto::ExprView::ScalarFn(call) => decode_expr(m, env) == decode_call(call, env),
            proto::ExprView::Other(encoded) => decode_expr(m, env) == Ok::<_, ProtoErrorView>(
                ir::ExprView::Other(encoded),
            ),
            proto::ExprView::Unset => decode_expr(m, env) == Err::<ir::ExprView, _>(
                ProtoErrorView::Null(Field::ExprVariant),
            ),
        },
{
}

/// The message of an expression holds the call, or the expression as another codec has it.
pub proof fn law_expr_is_written(expr: ir::ExprView)
    ensures
        match expr {
            ir::ExprView::Function { func, inputs } => match encode_expr(expr) {
                Ok(m) => m matches proto::ExprView::ScalarFn(call) && encode_function_call(
                    func,
                    inputs,
                ) == Ok::<_, ProtoErrorView>(call),
                Err(e) => encode_function_call(func, inputs) == Err::<proto::ScalarFnView, _>(e),
            },
            ir::ExprView::ScalarFn(call) => match encode_expr(expr) {
                Ok(m) => m matches proto::ExprView::ScalarFn(message) && encode_call(call) == Ok::<
                    _,
                    ProtoErrorView,
                >(message),
                Err(e) => encode_call(call) == Err::<proto::ScalarFnView, _>(e),
            },
            ir::ExprView::Other(encoded) => encode_expr(expr) == Ok::<_, ProtoErrorView>(
                proto::ExprView::Other(encoded),
            ),
            ir::ExprView::Unsupported(name) => encode_expr(expr) == Err::<proto::ExprView, _>(
                ProtoErrorView::NotImplemented(name),
            ),
        },
{
}

/// A name is reserved for a special form if and only if it is one of nine, and each of these
/// for its own form.
pub proof fn law_reserved_names(name: Seq<char>)
    ensures
        special_form(name) == Some("map_expr") <==> name == "_map_get"@,
        special_form(name) == Some("sketch_expr") <==> name == "_sketch_percentile"@,
        special_form(name) == Some("struct_expr") <==> name == "_struct_get"@,
        special_form(name) == Some("partitioning_expr") <==> {
            ||| name == "_partitioning_years"@
            ||| name == "_partitioning_months"@
            ||| name == "_partitioning_days"@
            ||| name == "_partitioning_hours"@
            ||| name == "_partitioning_iceberg_bucket"@
            ||| name == "_partitioning_iceberg_truncate"@
        },
        special_form(name) matches Some(form) ==> {
            ||| form == "map_expr"
            ||| form == "sketch_expr"
            ||| form == "struct_expr"
            ||| form == "partitioning_expr"
        },
{
    reveal_strlit("map_expr");
    reveal_strlit("sketch_expr");
    reveal_strlit("struct_expr");
    reveal_strlit("partitioning_expr");
    reveal_strlit("_map_get");
    reveal_strlit("_sketch_percentile");
    reveal_strlit("_struct_get");
    reveal_strlit("_partitioning_years");
    reveal_strlit("_partitioning_months");
    reveal_strlit("_partitioning_days");
    reveal_strlit("_partitioning_hours");
    reveal_strlit("_partitioning_iceberg_bucket");
    reveal_strlit("_partitioning_iceberg_truncate");
    assert("_map_get"@.len() == 8);
    assert("_sketch_percentile"@.len() == 18);
    assert("_struct_get"@.len() == 11);
    assert("_partitioning_years"@.len() == 19);
    assert("_partitioning_months"@.len() == 20);
    assert("_partitioning_days"@.len() == 18);
    assert("_partitioning_hours"@.len() == 19);
    assert("_partitioning_iceberg_bucket"@.len() == 28);
    assert("_partitioning_iceberg_truncate"@.len() == 30);
    assert("_sketch_percentile"@[1] == 's' && "_partitioning_days"@[1] == 'p');
    assert("map_expr"@.len() == 8);
    assert("sketch_expr"@.len() == 11);
    assert("struct_expr"@[2] == 'r' && "sketch_expr"@[2] == 'e');
    assert("partitioning_expr"@.len() == 17);
}

/// A registered function is found under its name, or its reason is given, and what is
/// registered under one name does not change what is found under another. Under a name that
/// was never registered nothing is found.
pub proof fn law_registered_function_is_found(
    functions: Map<Seq<char>, Result<Seq<char>, Seq<char>>>,
    name: Seq<char>,
    other: Seq<char>,
    func: Seq<char>,
)
    ensures
        lookup(functions.insert(name, Ok(func)), name) == Ok::<_, FunctionErrorView>(func),
        lookup(functions.insert(name, Err(func)), name) == Err::<Seq<char>, _>(
            FunctionErrorView::Unresolved(func),
        ),
        other != name ==> lookup(functions.insert(name, Ok(func)), other) == lookup(
            functions,
            other,
        ),
        other != name ==> lookup(functions.insert(name, Err(func)), other) == lookup(
            functions,
            other,
        ),
        !functions.dom().contains(name) ==> lookup(functions, name) == Err::<Seq<char>, _>(
            FunctionErrorView::Unknown,
        ),
{
}

/// A recorded decision is the decision on its request, and does not change that on another. On
/// a request without one nothing is decided.
pub proof fn law_recorded_decision_counts(
    rulings: Map<ResourceRequest, Result<ResourceRequest, ResourceErrorView>>,
    asked: ResourceRequest,
    other: ResourceRequest,
    outcome: Result<ResourceRequest, ResourceErrorView>,
)
    ensures
        ruling(rulings.insert(asked, outcome), asked) == outcome,
        other != asked ==> ruling(rulings.insert(asked, outcome), other) == ruling(rulings, other),
        !rulings.dom().contains(asked) ==> ruling(rulings, asked) == Err::<ResourceRequest, _>(
            ResourceErrorView::Undecided,
        ),
{
}

/// A session finds the functions of its registry, whatever the arguments, and decides as its
/// rulings do.
pub proof fn law_session_uses_its_parts(
    session: Session,
    name: Seq<char>,
    args: Seq<ir::ArgView>,
    asked: ResourceRequest,
)
    ensures
        (session@.resolution)(name, args) == lookup(session.functions@, name),
        (session@.admission)(asked) == ruling(session.rulings@, asked),
{
}

/// A function asks for resources if and only if its message names one, and then for just those
/// that it names.
pub proof fn law_named_resources_are_asked_for(m: proto::LegacyFnView)
    ensures
        match asked_resources(m) {
            Some(asked) => {
                &&& m.num_cpus is Some || m.num_gpus is Some || m.max_memory_bytes is Some
                &&& asked.num_cpus == m.num_cpus
                &&& asked.num_gpus == m.num_gpus
                &&& match m.max_memory_bytes {
                    Some(n) => asked.memory_bytes == Some(n as usize),
                    None => asked.memory_bytes is None,
                }
            },
            None => m.num_cpus is None && m.num_gpus is None && m.max_memory_bytes is None,
        },
{
}

/// The requests of a list of arguments are those of its first arguments and then those of the
/// others, and those of a single argument are those of its expression.
pub proof fn law_requests_keep_the_order(first: Seq<proto::ArgView>, second: Seq<proto::ArgView>)
    ensures
        args_requests(first + second) == args_requests(first) + args_requests(second),
        first.len() == 0 ==> args_requests(first).len() == 0,
        first.len() == 1 ==> match first[0].expr {
            Some(expr) => args_requests(first) == expr_requests(expr),
            None => args_requests(first).len() == 0,
        },
    decreases second.len(),
{
    if first.len() == 1 {
        assert(args_requests(first.drop_last()) =~= Seq::empty());
        assert(args_requests(first) =~= arg_requests(first[0]));
        assert(first[0].expr matches Some(expr) ==> arg_requests(first[0]) == expr_requests(expr));
    }
    if second.len() == 0 {
        assert(first + second =~= first);
        assert(args_requests(first) + args_requests(second) =~= args_requests(first));
    } else {
        law_requests_keep_the_order(first, second.drop_last());
        assert((first + second).drop_last() =~= first + second.drop_last());
        assert((first + second).last() == second.last());
        assert(args_requests(first + second) =~= args_requests(first) + args_requests(second));
    }
}

/// The requests of an expression are those of its call: first those of the arguments, then that
/// of a whole-column python function that asks for something. Nothing else makes a request.
pub proof fn law_requests_of_a_call(call: proto::ScalarFnView)
    ensures
        ({
            let requests = expr_requests(proto::ExprView::ScalarFn(call));
            let inner = match call.args {
                Some(args) => args_requests(args),
                None => Seq::empty(),
            };
            &&& call_requests(call) == requests
            &&& match call.descriptor {
                Some(
                    proto::DescriptorView::Py(Some(proto::PyFnVariantView::Legacy(m))),
                ) => match asked_resources(m) {
                    Some(asked) => requests == inner.push(asked),
                    None => requests == inner,
                },
                _ => requests == inner,
            }
        }),
        forall|encoded: Seq<u8>|
            #[trigger] expr_requests(proto::ExprView::Other(encoded)) == Seq::<
                ResourceRequest,
            >::empty(),
        expr_requests(proto::ExprView::Unset) == Seq::<ResourceRequest>::empty(),
{
    assert(call_requests(call) == expr_requests(proto::ExprView::ScalarFn(call)));
    let own = descriptor_requests(call.descriptor);
    if let Some(args) = call.args {
        if own.len() == 0 {
            assert(args_requests(args) + own =~= args_requests(args));
        } else {
            assert(args_requests(args) + own =~= args_requests(args).push(own[0]));
        }
    }
}

/// The views of expressions are their own, in their order.
pub proof fn law_expr_views(exprs: Seq<ir::ExprRef>)
    ensures
        ir::expr_views(exprs).len() == exprs.len(),
        forall|i: int|
            0 <= i < exprs.len() ==> #[trigger] ir::expr_views(exprs)[i] == (*exprs[i])@,
    decreases exprs.len(),
{
    if exprs.len() > 0 {
        law_expr_views(exprs.drop_last());
    }
}

/// The views of arguments are their own, in their order.
pub proof fn law_arg_views(args: Seq<ir::FunctionArg>)
    ensures
        ir::arg_views(args).len() == args.len(),
        forall|i: int| 0 <= i < args.len() ==> #[trigger] ir::arg_views(args)[i] == args[i]@,
    decreases args.len(),
{
    if args.len() > 0 {
        law_arg_views(args.drop_last());
    }
}

/// The views of messages about arguments are their own, in their order.
pub proof fn law_arg_message_views(args: Seq<proto::Arg>)
    ensures
        proto::arg_views(args).len() == args.len(),
        forall|i: int| 0 <= i < args.len() ==> #[trigger] proto::arg_views(args)[i] == args[i]@,
    decreases args.len(),
{
    if args.len() > 0 {
        law_arg_message_views(args.drop_last());
    }
}

/// The arguments without their names are their expressions, in their order.
pub proof fn law_inner_exprs(args: Seq<ir::ArgView>)
    ensures
        ir::inner_exprs(args).len() == args.len(),
        forall|i: int| 0 <= i < args.len() ==> #[trigger] ir::inner_exprs(args)[i] == args[i].expr,
{
}

/// The view of an expression has what the expression has, each part in its own place.
pub proof fn law_expr_view(expr: ir::Expr)
    ensures
        match expr {
            ir::Expr::Function { func, inputs } => expr@ matches ir::ExprView::Function {
                func: f,
                inputs: i,
            } && f == func@ && i == ir::expr_views(inputs@),
            ir::Expr::ScalarFn(ir::ScalarFn::Builtin(builtin)) => expr@
                matches ir::ExprView::ScalarFn(ir::ScalarFnView::Builtin { func, inputs }) && func
                == builtin.func@ && inputs == ir::arg_views(builtin.inputs.args@),
            ir::Expr::ScalarFn(ir::ScalarFn::Python(ir::PyScalarFn::RowWise(func))) => {
                &&& expr@ matches ir::ExprView::ScalarFn(ir::ScalarFnView::RowWise(view))
                &&& view.function_name == func.function_name@
                &&& view.inner == func.inner@
                &&& view.return_dtype == func.return_dtype@
                &&& view.original_args == func.original_args@
                &&& view.args == ir::expr_views(func.args@)
            },
            ir::Expr::Other(encoded) => expr@ == ir::ExprView::Other(encoded@),
            ir::Expr::Unsupported(name) => expr@ == ir::ExprView::Unsupported(name),
        },
        expr matches ir::Expr::ScalarFn(call) ==> expr@ == ir::ExprView::ScalarFn(call@),
{
    if let ir::Expr::ScalarFn(call) = expr {
        assert(expr@ == ir::ExprView::ScalarFn(call@));
        if let ir::ScalarFn::Builtin(builtin) = call {
            assert(builtin.inputs.view() == ir::arg_views(builtin.inputs.args@));
        }
    }
}

/// The view of an argument has its name, or none, and the view of its expression.
pub proof fn law_arg_view(arg: ir::FunctionArg, args: ir::FunctionArgs)
    ensures
        match arg {
            ir::FunctionArg::Named { name, arg: expr } => arg@.name == Some(name@) && arg@.expr
                == (*expr)@,
            ir::FunctionArg::Unnamed(expr) => arg@.name is None && arg@.expr == (*expr)@,
        },
        args@ == ir::arg_views(args.args@),
{
}

/// The view of a function expression has what the function expression has.
pub proof fn law_function_view(func: ir::FunctionExpr, dtype: ir::DataType)
    ensures
        match func {
            ir::FunctionExpr::MapExpr(form) => func@ == ir::FunctionExprView::MapExpr(form),
            ir::FunctionExpr::Sketch(form) => func@ == ir::FunctionExprView::Sketch(form),
            ir::FunctionExpr::Struct(form) => func@ == ir::FunctionExprView::Struct(form),
            ir::FunctionExpr::Partitioning(form) => func@ == ir::FunctionExprView::Partitioning(
                form,
            ),
            ir::FunctionExpr::Python(udf) => func@ == ir::FunctionExprView::Python(udf@),
        },
        match dtype {
            ir::DataType::Encoded(encoded) => dtype@ == ir::DataTypeView::Encoded(encoded@),
            ir::DataType::Unsupported(name) => dtype@ == ir::DataTypeView::Unsupported(name),
        },
{
}

/// The view of a whole-column python function has what the function has, each part in its own
/// place.
pub proof fn law_legacy_view(func: LegacyPythonUDF)
    ensures
        func@.name == func.name@,
        match func.func {
            MaybeInitializedUDF::Initialized(object) => func@.func == CallableView::Initialized(
                object@,
            ),
            MaybeInitializedUDF::Uninitialized { inner, init_args } => func@.func
                matches CallableView::Uninitialized { inner: i, init_args: a } && i == inner@ && a
                == init_args@,
        },
        func@.bound_args == func.bound_args@,
        func@.num_expressions == func.num_expressions,
        func@.return_dtype == func.return_dtype@,
        func@.resource_request == func.resource_request,
        func@.batch_size == func.batch_size,
        func@.concurrency == func.concurrency,
        func@.use_process == func.use_process,
{
}

/// The view of a message about a call has what the message has, each part in its own place.
pub proof fn law_call_message_view(m: proto::ScalarFn, arg: proto::Arg, expr: proto::Expr)
    ensures
        match m.args {
            Some(args) => m@.args == Some(proto::arg_views(args.args@)),
            None => m@.args is None,
        },
        match m.descriptor {
            Some(proto::Descriptor::Builtin(builtin)) => m@.descriptor == Some(
                proto::DescriptorView::Builtin(builtin.name@),
            ),
            Some(proto::Descriptor::Py(py)) => m@.descriptor == Some(
                proto::DescriptorView::Py(
                    match py.variant {
                        Some(proto::PyFnVariant::Legacy(legacy)) => Some(
                            proto::PyFnVariantView::Legacy(legacy@),
                        ),
                        Some(proto::PyFnVariant::RowWise(row_wise)) => Some(
                            proto::PyFnVariantView::RowWise(row_wise@),
                        ),
                        None => None,
                    },
                ),
            ),
            None => m@.descriptor is None,
        },
        match arg.param {
            Some(name) => arg@.param == Some(name@),
            None => arg@.param is None,
        },
        match arg.expr {
            Some(inner) => arg@.expr == Some(inner@),
            None => arg@.expr is None,
        },
        match expr.variant {
            Some(proto::ExprVariant::ScalarFn(call)) => expr@ == proto::ExprView::ScalarFn(call@),
            Some(proto::ExprVariant::Other(encoded)) => expr@ == proto::ExprView::Other(encoded@),
            None => expr@ == proto::ExprView::Unset,
        },
{
    if let Some(args) = m.args {
        assert(args.view() == proto::arg_views(args.args@));
    }
}

/// The view of a message about a python function has what the message has, each part in its
/// own place.
pub proof fn law_python_message_view(m: proto::LegacyFn, row_wise: proto::RowWiseFn)
    ensures
        m@.name == m.name@,
        m@.arity == m.arity,
        m@.return_type == proto::dtype_field(m.return_type),
        m@.callable == proto::py_field(m.callable),
        m@.callable_init_args == proto::py_field(m.callable_init_args),
        m@.callable_call_args == proto::py_field(m.callable_call_args),
        m@.concurrency == m.concurrency,
        m@.batch_size == m.batch_size,
        m@.num_cpus == m.num_cpus,
        m@.num_gpus == m.num_gpus,
        m@.max_memory_bytes == m.max_memory_bytes,
        m@.use_process == m.use_process,
        row_wise@.name == row_wise.name@,
        row_wise@.return_dtype == proto::dtype_field(row_wise.return_dtype),
        row_wise@.inner == proto::py_field(row_wise.inner),
        row_wise@.original_args == proto::py_field(row_wise.original_args),
{
}

/// The view of a field is that of the bytes in it, if it is set.
pub proof fn law_field_view(object: Option<proto::PyObject>, dtype: Option<proto::DataType>)
    ensures
        match object {
            Some(object) => proto::py_field(Some(object)) == Some(object.object@),
            None => proto::py_field(object) is None,
        },
        match dtype {
            Some(proto::DataType { variant: Some(encoded) }) => proto::dtype_field(dtype) == Some(
                Some(encoded@),
            ),
            Some(proto::DataType { variant: None }) => proto::dtype_field(dtype) == Some(
                None::<Seq<u8>>,
            ),
            None => proto::dtype_field(dtype) is None,
        },
        object matches Some(o) ==> o@ == o.object@,
        dtype matches Some(d) ==> proto::dtype_field(dtype) == Some(d@),
{
}

/// The view of an error has the kind of the error, and the text that it carries.
pub proof fn law_error_view(e: ProtoError, outcome: Result<ResourceRequest, ResourceError>)
    ensures
        match e {
            ProtoError::Null(field) => e@ == ProtoErrorView::Null(field),
            ProtoError::NotImplemented(name) => e@ == ProtoErrorView::NotImplemented(name),
            ProtoError::Bincode(message) => e@ == ProtoErrorView::Bincode(message@),
            ProtoError::Function(FunctionError::Unknown) => e@ == ProtoErrorView::Function(
                FunctionErrorView::Unknown,
            ),
            ProtoError::Function(FunctionError::Unresolved(reason)) => e@
                == ProtoErrorView::Function(FunctionErrorView::Unresolved(reason@)),
            ProtoError::Resources(ResourceError::Refused(reason)) => e@
                == ProtoErrorView::Resources(ResourceErrorView::Refused(reason@)),
            ProtoError::Resources(ResourceError::Undecided) => e@ == ProtoErrorView::Resources(
                ResourceErrorView::Undecided,
            ),
        },
        match outcome {
            Ok(request) => outcome_view(outcome) == Ok::<_, ResourceErrorView>(request),
            Err(ResourceError::Refused(reason)) => outcome_view(outcome) == Err::<
                ResourceRequest,
                _,
            >(ResourceErrorView::Refused(reason@)),
            Err(ResourceError::Undecided) => outcome_view(outcome) == Err::<ResourceRequest, _>(
                ResourceErrorView::Undecided,
            ),
        },
{
}

} // verus!
