//! What the conversions compute, over the views of plans and messages.

use vstd::prelude::*;

use crate::environment::{Admission, EnvironmentView};
use crate::error::{Field, ProtoErrorView};
use crate::ir;
use crate::payload::{frame, read_failure, unframe};
use crate::proto;
use crate::python::{pickled_none, CallableView, LegacyView, PyObjectView, ResourceRequest};

verus! {

/// A number of a message as a size.
pub open spec fn as_size(number: Option<u64>) -> Option<usize> {
    match number {
        Some(number) => Some(number as usize),
        None => None,
    }
}

/// A size as a number of a message.
pub open spec fn as_number(size: Option<usize>) -> Option<u64> {
    match size {
        Some(size) => Some(size as u64),
        None => None,
    }
}

/// The data type of a field that must be set.
pub open spec fn decode_dtype(field: Option<Option<Seq<u8>>>, name: Field) -> Result<
    ir::DataTypeView,
    ProtoErrorView,
> {
    match field {
        None => Err(ProtoErrorView::Null(name)),
        Some(None) => Err(ProtoErrorView::Null(Field::DataTypeVariant)),
        Some(Some(encoded)) => Ok(ir::DataTypeView::Encoded(encoded)),
    }
}

/// The python object that is stored in `bytes`.
pub open spec fn decode_object(bytes: Seq<u8>) -> Result<PyObjectView, ProtoErrorView> {
    match unframe(bytes) {
        None => Err(ProtoErrorView::Bincode(read_failure(bytes, usize::MAX as nat))),
        Some(pickled) => Ok(PyObjectView::Pickled(pickled)),
    }
}

/// The python object of a field that must be set.
pub open spec fn decode_py(field: Option<Seq<u8>>, name: Field) -> Result<
    PyObjectView,
    ProtoErrorView,
> {
    match field {
        None => Err(ProtoErrorView::Null(name)),
        Some(bytes) => decode_object(bytes),
    }
}

/// The resources that a message asks for: none, unless it names at least one.
pub open spec fn asked_resources(m: proto::LegacyFnView) -> Option<ResourceRequest> {
    if m.num_cpus is None && m.num_gpus is None && m.max_memory_bytes is None {
        None
    } else {
        Some(
            ResourceRequest {
                num_cpus: m.num_cpus,
                num_gpus: m.num_gpus,
                memory_bytes: as_size(m.max_memory_bytes),
            },
        )
    }
}

/// The request of a function: what is granted of the resources that its message asks for.
/// Where nothing is asked for, nothing is decided.
pub open spec fn decode_resources(m: proto::LegacyFnView, admission: Admission) -> Result<
    Option<ResourceRequest>,
    ProtoErrorView,
> {
    match asked_resources(m) {
        None => Ok(None),
        Some(asked) => match admission(asked) {
            Err(e) => Err(ProtoErrorView::Resources(e)),
            Ok(request) => Ok(Some(request)),
        },
    }
}

/// The function of a message about a python function that works on whole columns.
/// Of several fields that are wrong the first in this order is reported: the return type,
/// the callable, its initial arguments, its bound arguments, the resources.
pub open spec fn decode_legacy(m: proto::LegacyFnView, admission: Admission) -> Result<
    LegacyView,
    ProtoErrorView,
> {
    match decode_dtype(m.return_type, Field::LegacyReturnType) {
        Err(e) => Err(e),
        Ok(return_dtype) => match decode_py(m.callable, Field::LegacyCallable) {
            Err(e) => Err(e),
            Ok(inner) => match decode_py(m.callable_init_args, Field::LegacyCallableInitArgs) {
                Err(e) => Err(e),
                Ok(init_args) => match decode_py(
                    m.callable_call_args,
                    Field::LegacyCallableCallArgs,
                ) {
                    Err(e) => Err(e),
                    Ok(bound_args) => match decode_resources(m, admission) {
                        Err(e) => Err(e),
                        Ok(resource_request) => Ok(
                            LegacyView {
                                name: m.name,
                                func: CallableView::Uninitialized { inner, init_args },
                                bound_args,
                                num_expressions: m.arity as usize,
                                return_dtype,
                                resource_request,
                                batch_size: as_size(m.batch_size),
                                concurrency: as_size(m.concurrency),
                                use_process: m.use_process,
                            },
                        ),
                    },
                },
            },
        },
    }
}

/// The function of a message about a row-wise python function, called with `args`.
pub open spec fn decode_row_wise(m: proto::RowWiseFnView, args: Seq<ir::ExprView>) -> Result<
    ir::RowWiseView,
    ProtoErrorView,
> {
    match decode_py(m.inner, Field::RowWiseInner) {
        Err(e) => Err(e),
        Ok(inner) => match decode_dtype(m.return_dtype, Field::RowWiseReturnDtype) {
            Err(e) => Err(e),
            Ok(return_dtype) => match decode_py(m.original_args, Field::RowWiseOriginalArgs) {
                Err(e) => Err(e),
                Ok(original_args) => Ok(
                    ir::RowWiseView {
                        function_name: m.name,
                        inner,
                        return_dtype,
                        original_args,
                        args,
                    },
                ),
            },
        },
    }
}

/// The expression that calls the function of `descriptor` with `args`.
/// A python function takes its arguments by position: their names are dropped.
pub open spec fn decode_descriptor(
    descriptor: Option<proto::DescriptorView>,
    args: Seq<ir::ArgView>,
    env: EnvironmentView,
) -> Result<ir::ExprView, ProtoErrorView> {
    match descriptor {
        None => Err(ProtoErrorView::Null(Field::ScalarFnDescriptor)),
        Some(proto::DescriptorView::Builtin(name)) => match (env.resolution)(name, args) {
            Err(e) => Err(ProtoErrorView::Function(e)),
            Ok(func) => Ok(
                ir::ExprView::ScalarFn(ir::ScalarFnView::Builtin { func, inputs: args }),
            ),
        },
        Some(proto::DescriptorView::Py(None)) => Err(ProtoErrorView::Null(Field::PyFnVariant)),
        Some(proto::DescriptorView::Py(Some(proto::PyFnVariantView::Legacy(m)))) => {
            match decode_legacy(m, env.admission) {
                Err(e) => Err(e),
                Ok(func) => Ok(
                    ir::ExprView::Function {
                        func: ir::FunctionExprView::Python(func),
                        inputs: ir::inner_exprs(args),
                    },
                ),
            }
        },
        Some(proto::DescriptorView::Py(Some(proto::PyFnVariantView::RowWise(m)))) => {
            match decode_row_wise(m, ir::inner_exprs(args)) {
                Err(e) => Err(e),
                Ok(func) => Ok(ir::ExprView::ScalarFn(ir::ScalarFnView::RowWise(func))),
            }
        },
    }
}

/// The expression of a message about a call. The arguments come before the function.
pub open spec fn decode_call(m: proto::ScalarFnView, env: EnvironmentView) -> Result<
    ir::ExprView,
    ProtoErrorView,
>
    decreases m,
{
    match m.args {
        None => Err(ProtoErrorView::Null(Field::ScalarFnArgs)),
        Some(args) => match decode_args(args, env) {
            Err(e) => Err(e),
            Ok(args) => decode_descriptor(m.descriptor, args, env),
        },
    }
}

/// The arguments of a call, in their order; or the first error among them.
pub open spec fn decode_args(m: Seq<proto::ArgView>, env: EnvironmentView) -> Result<
    Seq<ir::ArgView>,
    ProtoErrorView,
>
    decreases m,
{
    if m.len() == 0 {
        Ok(Seq::empty())
    } else {
        match decode_args(m.drop_last(), env) {
            Err(e) => Err(e),
            Ok(front) => match decode_arg(m.last(), env) {
                Err(e) => Err(e),
                Ok(arg) => Ok(front.push(arg)),
            },
        }
    }
}

/// One argument of a call, under the name it was passed by.
pub open spec fn decode_arg(m: proto::ArgView, env: EnvironmentView) -> Result<
    ir::ArgView,
    ProtoErrorView,
>
    decreases m,
{
    match m.expr {
        None => Err(ProtoErrorView::Null(Field::ArgExpr)),
        Some(expr) => match decode_expr(expr, env) {
            Err(e) => Err(e),
            Ok(expr) => Ok(ir::ArgView { name: m.param, expr }),
        },
    }
}

/// The expression of a message.
pub open spec fn decode_expr(m: proto::ExprView, env: EnvironmentView) -> Result<
    ir::ExprView,
    ProtoErrorView,
>
    decreases m,
{
    match m {
        proto::ExprView::Unset => Err(ProtoErrorView::Null(Field::ExprVariant)),
        proto::ExprView::ScalarFn(call) => decode_call(call, env),
        proto::ExprView::Other(encoded) => Ok(ir::ExprView::Other(encoded)),
    }
}

/// The request that a called function makes, if it makes one.
pub open spec fn descriptor_requests(descriptor: Option<proto::DescriptorView>) -> Seq<
    ResourceRequest,
> {
    match descriptor {
        Some(proto::DescriptorView::Py(Some(proto::PyFnVariantView::Legacy(m)))) => {
            match asked_resources(m) {
                Some(asked) => seq![asked],
                None => Seq::empty(),
            }
        },
        _ => Seq::empty(),
    }
}

/// The requests in a message about a call: those of the arguments, then that of the function.
pub open spec fn call_requests(m: proto::ScalarFnView) -> Seq<ResourceRequest>
    decreases m,
{
    match m.args {
        Some(args) => args_requests(args) + descriptor_requests(m.descriptor),
        None => descriptor_requests(m.descriptor),
    }
}

/// The requests in the arguments of a call, in their order.
pub open spec fn args_requests(m: Seq<proto::ArgView>) -> Seq<ResourceRequest>
    decreases m,
{
    if m.len() == 0 {
        Seq::empty()
    } else {
        args_requests(m.drop_last()) + arg_requests(m.last())
    }
}

/// The requests in one argument of a call.
pub open spec fn arg_requests(m: proto::ArgView) -> Seq<ResourceRequest>
    decreases m,
{
    match m.expr {
        Some(expr) => expr_requests(expr),
        None => Seq::empty(),
    }
}

/// The requests in the message of an expression.
pub open spec fn expr_requests(m: proto::ExprView) -> Seq<ResourceRequest>
    decreases m,
{
    match m {
        proto::ExprView::ScalarFn(call) => call_requests(call),
        _ => Seq::empty(),
    }
}

/// The object to call, and the arguments that it is initialised with.
pub open spec fn callable_parts(func: CallableView) -> (PyObjectView, PyObjectView) {
    match func {
        CallableView::Initialized(object) => (object, PyObjectView::Pickled(pickled_none())),
        CallableView::Uninitialized { inner, init_args } => (inner, init_args),
    }
}

/// The message about a data type.
pub open spec fn encode_dtype(dtype: ir::DataTypeView) -> Result<Option<Seq<u8>>, ProtoErrorView> {
    match dtype {
        ir::DataTypeView::Encoded(encoded) => Ok(Some(encoded)),
        ir::DataTypeView::Unsupported(name) => Err(ProtoErrorView::NotImplemented(name)),
    }
}

/// How a python object is stored.
pub open spec fn encode_object(object: PyObjectView) -> Result<Seq<u8>, ProtoErrorView> {
    match object {
        PyObjectView::Pickled(pickled) => Ok(frame(pickled)),
        PyObjectView::Unpicklable(reason) => Err(ProtoErrorView::Bincode(reason)),
    }
}

/// The message about a python function that works on whole columns.
/// Of several parts that cannot be written the first in this order is reported: the return
/// type, the callable, its initial arguments, its bound arguments.
pub open spec fn encode_legacy(func: LegacyView) -> Result<proto::LegacyFnView, ProtoErrorView> {
    let (callable, init_args) = callable_parts(func.func);
    match encode_dtype(func.return_dtype) {
        Err(e) => Err(e),
        Ok(return_type) => match encode_object(callable) {
            Err(e) => Err(e),
            Ok(callable) => match encode_object(init_args) {
                Err(e) => Err(e),
                Ok(init_args) => match encode_object(func.bound_args) {
                    Err(e) => Err(e),
                    Ok(bound_args) => Ok(
                        proto::LegacyFnView {
                            name: func.name,
                            arity: func.num_expressions as u64,
                            return_type: Some(return_type),
                            callable: Some(callable),
                            callable_init_args: Some(init_args),
                            callable_call_args: Some(bound_args),
                            concurrency: as_number(func.concurrency),
                            batch_size: as_number(func.batch_size),
                            num_cpus: match func.resource_request {
                                Some(request) => request.num_cpus,
                                None => None,
                            },
                            num_gpus: match func.resource_request {
                                Some(request) => request.num_gpus,
                                None => None,
                            },
                            max_memory_bytes: match func.resource_request {
                                Some(request) => as_number(request.memory_bytes),
                                None => None,
                            },
                            use_process: func.use_process,
                        },
                    ),
                },
            },
        },
    }
}

/// The message about a row-wise python function, without its arguments.
/// Of several parts that cannot be written the first in this order is reported: the return
/// type, the callable, its original arguments.
pub open spec fn encode_row_wise(func: ir::RowWiseView) -> Result<
    proto::RowWiseFnView,
    ProtoErrorView,
> {
    match encode_dtype(func.return_dtype) {
        Err(e) => Err(e),
        Ok(return_dtype) => match encode_object(func.inner) {
            Err(e) => Err(e),
            Ok(inner) => match encode_object(func.original_args) {
                Err(e) => Err(e),
                Ok(original_args) => Ok(
                    proto::RowWiseFnView {
                        name: func.function_name,
                        return_dtype: Some(return_dtype),
                        inner: Some(inner),
                        original_args: Some(original_args),
                    },
                ),
            },
        },
    }
}

/// Which function a function expression is. The special forms have no message.
pub open spec fn encode_function(func: ir::FunctionExprView) -> Result<
    proto::DescriptorView,
    ProtoErrorView,
> {
    match func {
        ir::FunctionExprView::MapExpr(_) => Err(ProtoErrorView::NotImplemented("map_expr")),
        ir::FunctionExprView::Sketch(_) => Err(ProtoErrorView::NotImplemented("sketch_expr")),
        ir::FunctionExprView::Struct(_) => Err(ProtoErrorView::NotImplemented("struct_expr")),
        ir::FunctionExprView::Partitioning(_) => Err(
            ProtoErrorView::NotImplemented("partitioning_expr"),
        ),
        ir::FunctionExprView::Python(func) => match encode_legacy(func) {
            Err(e) => Err(e),
            Ok(m) => Ok(proto::DescriptorView::Py(Some(proto::PyFnVariantView::Legacy(m)))),
        },
    }
}

/// The message about the call of a function expression with `args`. The function comes
/// before the arguments, and the arguments are passed by position.
pub open spec fn encode_function_call(
    func: ir::FunctionExprView,
    args: Seq<ir::ExprView>,
) -> Result<proto::ScalarFnView, ProtoErrorView>
    decreases args, 1int,
{
    match encode_function(func) {
        Err(e) => Err(e),
        Ok(descriptor) => match encode_unnamed(args) {
            Err(e) => Err(e),
            Ok(args) => Ok(
                proto::ScalarFnView { descriptor: Some(descriptor), args: Some(args) },
            ),
        },
    }
}

/// The message about a call. The arguments come before the function. Those of a row-wise
/// function are passed by position, those of a builtin function as they are.
pub open spec fn encode_call(call: ir::ScalarFnView) -> Result<proto::ScalarFnView, ProtoErrorView>
    decreases call, 0int,
{
    match call {
        ir::ScalarFnView::Builtin { func, inputs } => match encode_args(inputs) {
            Err(e) => Err(e),
            Ok(args) => Ok(
                proto::ScalarFnView {
                    descriptor: Some(proto::DescriptorView::Builtin(func)),
                    args: Some(args),
                },
            ),
        },
        ir::ScalarFnView::RowWise(func) => match encode_unnamed(func.args) {
            Err(e) => Err(e),
            Ok(args) => match encode_row_wise(func) {
                Err(e) => Err(e),
                Ok(m) => Ok(
                    proto::ScalarFnView {
                        descriptor: Some(
                            proto::DescriptorView::Py(Some(proto::PyFnVariantView::RowWise(m))),
                        ),
                        args: Some(args),
                    },
                ),
            },
        },
    }
}

/// The messages about arguments that are passed by position; or the first error among them.
pub open spec fn encode_unnamed(args: Seq<ir::ExprView>) -> Result<Seq<proto::ArgView>, ProtoErrorView>
    decreases args, 0int,
{
    if args.len() == 0 {
        Ok(Seq::empty())
    } else {
        match encode_unnamed(args.drop_last()) {
            Err(e) => Err(e),
            Ok(front) => match encode_expr(args.last()) {
                Err(e) => Err(e),
                Ok(expr) => Ok(front.push(proto::ArgView { param: None, expr: Some(expr) })),
            },
        }
    }
}

/// The messages about arguments; or the first error among them.
pub open spec fn encode_args(args: Seq<ir::ArgView>) -> Result<Seq<proto::ArgView>, ProtoErrorView>
    decreases args, 0int,
{
    if args.len() == 0 {
        Ok(Seq::empty())
    } else {
        match encode_args(args.drop_last()) {
            Err(e) => Err(e),
            Ok(front) => match encode_arg(args.last()) {
                Err(e) => Err(e),
                Ok(arg) => Ok(front.push(arg)),
            },
        }
    }
}

/// The message about one argument.
pub open spec fn encode_arg(arg: ir::ArgView) -> Result<proto::ArgView, ProtoErrorView>
    decreases arg, 0int,
{
    match encode_expr(arg.expr) {
        Err(e) => Err(e),
        Ok(expr) => Ok(proto::ArgView { param: arg.name, expr: Some(expr) }),
    }
}

/// The message about an expression.
pub open spec fn encode_expr(expr: ir::ExprView) -> Result<proto::ExprView, ProtoErrorView>
    decreases expr, 2int,
{
    match expr {
        ir::ExprView::Function { func, inputs } => match encode_function_call(func, inputs) {
            Err(e) => Err(e),
            Ok(call) => Ok(proto::ExprView::ScalarFn(call)),
        },
        ir::ExprView::ScalarFn(call) => match encode_call(call) {
            Err(e) => Err(e),
            Ok(call) => Ok(proto::ExprView::ScalarFn(call)),
        },
        ir::ExprView::Other(encoded) => Ok(proto::ExprView::Other(encoded)),
        ir::ExprView::Unsupported(name) => Err(ProtoErrorView::NotImplemented(name)),
    }
}

} // verus!
