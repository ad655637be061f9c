use std::sync::Arc;

use daft_function_proto::environment::{Environment, RequestRulings, Session};
use daft_function_proto::error::{Field, FunctionError, ProtoError, ResourceError};
use daft_function_proto::functions::{
    from_proto_function, function_expr_to_proto, scalar_fn_to_proto,
};
use daft_function_proto::ir::{
    BuiltinScalarFn, DataType, Expr, ExprRef, FunctionArg, FunctionArgs, FunctionExpr, MapExpr,
    PartitioningExpr, PyScalarFn, RowWisePyFn, ScalarFn, SketchExpr, StructExpr,
};
use daft_function_proto::proto;
use daft_function_proto::python::{
    LegacyPythonUDF, MaybeInitializedUDF, ResourceRequest, RuntimePyObject,
};
use daft_function_proto::registry::FunctionRegistry;
use daft_function_proto::special::from_special_form;

fn registry() -> FunctionRegistry {
    let mut registry = FunctionRegistry::new();
    registry.register("abs".to_string(), Ok("abs".to_string()));
    registry.register("length".to_string(), Ok("len".to_string()));
    registry.register("len".to_string(), Ok("len".to_string()));
    registry.register("broken".to_string(), Err("no kernel".to_string()));
    registry
}

fn request(num_cpus: Option<u64>, num_gpus: Option<u64>, memory: Option<usize>) -> ResourceRequest {
    ResourceRequest { num_cpus, num_gpus, memory_bytes: memory }
}

fn refusal(message: &str) -> ResourceError {
    ResourceError::Refused(message.to_string())
}

fn session() -> Session {
    let mut rulings = RequestRulings::new();
    let usual = request(Some(4), None, Some(1024));
    rulings.rule(usual, Ok(usual));
    let gpu = request(None, Some(1), None);
    rulings.rule(gpu, Ok(gpu));
    rulings.rule(request(Some(9), None, None), Err(refusal("too many")));
    Session { functions: registry(), rulings }
}

fn object(bytes: &[u8]) -> RuntimePyObject {
    RuntimePyObject::from_pickled(bytes.to_vec())
}

fn py(bytes: &[u8]) -> Option<proto::PyObject> {
    Some(proto::PyObject { object: bincode::serialize(&bytes.to_vec()).unwrap() })
}

fn dtype(bytes: &[u8]) -> Option<proto::DataType> {
    Some(proto::DataType { variant: Some(bytes.to_vec()) })
}

fn leaf(byte: u8) -> ExprRef {
    Arc::new(Expr::Other(vec![byte]))
}

fn leaf_message(byte: u8) -> Option<proto::Expr> {
    Some(proto::Expr { variant: Some(proto::ExprVariant::Other(vec![byte])) })
}

fn arg(param: Option<&str>, expr: Option<proto::Expr>) -> proto::Arg {
    proto::Arg { param: param.map(|p| p.to_string()), expr }
}

fn args(args: Vec<proto::Arg>) -> Option<proto::Args> {
    Some(proto::Args { args })
}

fn builtin(name: &str) -> Option<proto::Descriptor> {
    Some(proto::Descriptor::Builtin(proto::BuiltinFn { name: name.to_string() }))
}

fn py_fn(variant: proto::PyFnVariant) -> Option<proto::Descriptor> {
    Some(proto::Descriptor::Py(proto::PyFn { variant: Some(variant) }))
}

fn legacy() -> LegacyPythonUDF {
    LegacyPythonUDF {
        name: "udf".to_string(),
        func: MaybeInitializedUDF::Uninitialized { inner: object(&[1, 2, 3]), init_args: object(&[4]) },
        bound_args: object(&[]),
        num_expressions: 2,
        return_dtype: DataType::Encoded(vec![7]),
        resource_request: Some(ResourceRequest {
            num_cpus: Some(4),
            num_gpus: None,
            memory_bytes: Some(1024),
        }),
        batch_size: Some(64),
        concurrency: None,
        use_process: Some(true),
    }
}

fn legacy_message() -> proto::LegacyFn {
    proto::LegacyFn {
        name: "udf".to_string(),
        arity: 2,
        return_type: dtype(&[7]),
        callable: py(&[1, 2, 3]),
        callable_init_args: py(&[4]),
        callable_call_args: py(&[]),
        concurrency: None,
        batch_size: Some(64),
        num_cpus: Some(4),
        num_gpus: None,
        max_memory_bytes: Some(1024),
        use_process: Some(true),
    }
}

fn row_wise(args: Vec<ExprRef>) -> RowWisePyFn {
    RowWisePyFn {
        function_name: "row".to_string(),
        inner: object(&[9, 8]),
        return_dtype: DataType::Encoded(vec![5]),
        original_args: object(&[6]),
        args,
    }
}

fn row_wise_message() -> proto::RowWiseFn {
    proto::RowWiseFn {
        name: "row".to_string(),
        return_dtype: dtype(&[5]),
        inner: py(&[9, 8]),
        original_args: py(&[6]),
    }
}

fn read(message: proto::ScalarFn) -> Result<Expr, ProtoError> {
    from_proto_function(message, &session())
}

fn read_legacy(message: proto::LegacyFn) -> Result<Expr, ProtoError> {
    read(proto::ScalarFn {
        descriptor: py_fn(proto::PyFnVariant::Legacy(message)),
        args: args(vec![]),
    })
}

fn read_row_wise(message: proto::RowWiseFn) -> Result<Expr, ProtoError> {
    read(proto::ScalarFn {
        descriptor: py_fn(proto::PyFnVariant::RowWise(message)),
        args: args(vec![]),
    })
}

#[test]
fn python_object_is_stored_with_its_length() {
    let message = object(&[0xAB, 0xCD]).to_proto().unwrap();
    assert_eq!(message.object, vec![2, 0, 0, 0, 0, 0, 0, 0, 0xAB, 0xCD]);
}

#[test]
fn python_object_is_read_back() {
    let bytes: Vec<u8> = (0..=255u8).cycle().take(700).collect();
    let message = object(&bytes).to_proto().unwrap();
    assert_eq!(message.object.len(), 708);
    assert_eq!(&message.object[..8], &[0xBC, 0x02, 0, 0, 0, 0, 0, 0]);
    assert_eq!(RuntimePyObject::from_proto(message), Ok(object(&bytes)));
}

#[test]
fn bytes_behind_a_python_object_are_ignored() {
    let message = proto::PyObject { object: vec![1, 0, 0, 0, 0, 0, 0, 0, 5, 6, 7] };
    assert_eq!(RuntimePyObject::from_proto(message), Ok(object(&[5])));
}

#[test]
fn python_object_has_one_stored_form() {
    let mut stored = vec![3, 0, 0, 0, 0, 0, 0, 0, 7, 8, 9];
    let form = stored.clone();
    stored.push(200);
    let object = RuntimePyObject::from_proto(proto::PyObject { object: stored }).unwrap();
    assert_eq!(object.to_proto().unwrap().object, form);
}

#[test]
fn incomplete_python_objects_are_refused() {
    for bytes in [
        vec![],
        vec![0, 0, 0, 0, 0, 0, 0],
        vec![2, 0, 0, 0, 0, 0, 0, 0, 5],
        vec![0xFF, 0xFF, 0xFF, 0xFF, 0xFF, 0xFF, 0xFF, 0xFF, 5],
    ] {
        let reason = bincode::deserialize::<Vec<u8>>(&bytes).unwrap_err().to_string();
        assert!(reason.starts_with("io error: "));
        let message = proto::PyObject { object: bytes };
        assert_eq!(RuntimePyObject::from_proto(message), Err(ProtoError::Bincode(reason)));
    }
}

#[test]
fn none_is_a_pickle() {
    assert_eq!(RuntimePyObject::new_none().pickled(), Ok(&vec![b'N', b'.']));
}

fn unpicklable(reason: &str) -> RuntimePyObject {
    RuntimePyObject::unpicklable(reason.to_string())
}

fn bincode_error<T>(reason: &str) -> Result<T, ProtoError> {
    Err(ProtoError::Bincode(reason.to_string()))
}

#[test]
fn unpicklable_objects_have_no_message() {
    let object = unpicklable("a lock");
    assert_eq!(object.pickled(), Err(&"a lock".to_string()));
    assert_eq!(object.to_proto(), bincode_error("a lock"));
}

#[test]
fn first_unpicklable_object_of_a_legacy_function_is_reported() {
    let mut func = legacy();
    func.bound_args = unpicklable("bound");
    assert_eq!(func.to_proto(), bincode_error("bound"));
    func.func = MaybeInitializedUDF::Uninitialized {
        inner: object(&[1]),
        init_args: unpicklable("init"),
    };
    assert_eq!(func.to_proto(), bincode_error("init"));
    func.func = MaybeInitializedUDF::Uninitialized {
        inner: unpicklable("inner"),
        init_args: unpicklable("init"),
    };
    assert_eq!(func.to_proto(), bincode_error("inner"));
    func.func = MaybeInitializedUDF::Initialized(unpicklable("callable"));
    assert_eq!(func.to_proto(), bincode_error("callable"));
    func.return_dtype = DataType::Unsupported("extension");
    assert_eq!(func.to_proto(), Err(ProtoError::NotImplemented("extension")));
}

#[test]
fn first_unpicklable_object_of_a_row_wise_function_is_reported() {
    let mut func = row_wise(vec![leaf(1)]);
    func.original_args = unpicklable("original");
    let call = |func| ScalarFn::Python(PyScalarFn::RowWise(func));
    assert_eq!(scalar_fn_to_proto(&call(func)), bincode_error("original"));
    let mut func = row_wise(vec![leaf(1)]);
    func.inner = unpicklable("inner");
    func.original_args = unpicklable("original");
    assert_eq!(scalar_fn_to_proto(&call(func)), bincode_error("inner"));
    let mut func = row_wise(vec![Arc::new(Expr::Unsupported("window"))]);
    func.inner = unpicklable("inner");
    assert_eq!(scalar_fn_to_proto(&call(func)), Err(ProtoError::NotImplemented("window")));
}

#[test]
fn legacy_message_is_kept() {
    let mut message = legacy_message();
    message.concurrency = Some(3);
    message.callable.as_mut().unwrap().object.push(200);
    let func = LegacyPythonUDF::from_proto(message, &session()).unwrap();
    let mut again = legacy_message();
    again.concurrency = Some(3);
    assert_eq!(func.to_proto(), Ok(again));
}

#[test]
fn row_wise_message_is_kept() {
    let mut message = row_wise_message();
    message.inner.as_mut().unwrap().object.push(200);
    let Ok(Expr::ScalarFn(call)) = read_row_wise(message) else { panic!("not a row-wise call") };
    assert_eq!(
        scalar_fn_to_proto(&call).unwrap().descriptor,
        py_fn(proto::PyFnVariant::RowWise(row_wise_message()))
    );
}

#[test]
fn second_trip_changes_nothing() {
    let mut func = legacy();
    func.func = MaybeInitializedUDF::Initialized(object(&[1, 2, 3]));
    let trip = |func: &LegacyPythonUDF| {
        LegacyPythonUDF::from_proto(func.to_proto().unwrap(), &session()).unwrap()
    };
    let once = trip(&func);
    assert_ne!(once, func);
    assert_eq!(trip(&once), once);
}

#[test]
fn second_trip_decides_again() {
    let mut session = session();
    session.rulings.rule(request(Some(20), None, None), Ok(request(Some(9), None, None)));
    let once = LegacyPythonUDF::from_proto(asking(Some(20)), &session).unwrap();
    assert_eq!(once.resource_request, Some(request(Some(9), None, None)));
    assert_eq!(
        LegacyPythonUDF::from_proto(once.to_proto().unwrap(), &session),
        Err(ProtoError::Resources(refusal("too many")))
    );
}

#[test]
fn data_types() {
    assert_eq!(DataType::Encoded(vec![3]).to_proto(), Ok(dtype(&[3]).unwrap()));
    assert_eq!(
        DataType::Unsupported("extension").to_proto(),
        Err(ProtoError::NotImplemented("extension"))
    );
    assert_eq!(DataType::from_proto(dtype(&[3]).unwrap()), Ok(DataType::Encoded(vec![3])));
    assert_eq!(
        DataType::from_proto(proto::DataType { variant: None }),
        Err(ProtoError::Null(Field::DataTypeVariant))
    );
}

#[test]
fn legacy_function_to_message() {
    assert_eq!(legacy().to_proto(), Ok(legacy_message()));
}

#[test]
fn legacy_function_from_message() {
    assert_eq!(LegacyPythonUDF::from_proto(legacy_message(), &session()), Ok(legacy()));
}

#[test]
fn initialized_function_is_read_back_uninitialized() {
    let mut func = legacy();
    func.func = MaybeInitializedUDF::Initialized(object(&[1, 2, 3]));
    let message = func.to_proto().unwrap();
    assert_eq!(message.callable, py(&[1, 2, 3]));
    assert_eq!(message.callable_init_args, py(b"N."));
    let read = LegacyPythonUDF::from_proto(message, &session()).unwrap();
    assert_eq!(
        read.func,
        MaybeInitializedUDF::Uninitialized {
            inner: object(&[1, 2, 3]),
            init_args: RuntimePyObject::new_none(),
        }
    );
}

#[test]
fn request_for_nothing_is_gone() {
    let mut func = legacy();
    func.resource_request =
        Some(ResourceRequest { num_cpus: None, num_gpus: None, memory_bytes: None });
    let message = func.to_proto().unwrap();
    assert_eq!((message.num_cpus, message.num_gpus, message.max_memory_bytes), (None, None, None));
    assert_eq!(LegacyPythonUDF::from_proto(message, &session()).unwrap().resource_request, None);
}

#[test]
fn one_resource_makes_a_request() {
    let mut message = legacy_message();
    message.num_cpus = None;
    message.max_memory_bytes = None;
    message.num_gpus = Some(1);
    assert_eq!(
        LegacyPythonUDF::from_proto(message, &session()).unwrap().resource_request,
        Some(ResourceRequest { num_cpus: None, num_gpus: Some(1), memory_bytes: None })
    );
}

fn asking(num_cpus: Option<u64>) -> proto::LegacyFn {
    let mut message = legacy_message();
    message.num_cpus = num_cpus;
    message.num_gpus = None;
    message.max_memory_bytes = None;
    message
}

#[test]
fn refused_request_is_the_error() {
    assert_eq!(
        LegacyPythonUDF::from_proto(asking(Some(9)), &session()),
        Err(ProtoError::Resources(refusal("too many")))
    );
    assert_eq!(read_legacy(asking(Some(9))), Err(ProtoError::Resources(refusal("too many"))));

    let inner = proto::Expr {
        variant: Some(proto::ExprVariant::ScalarFn(proto::ScalarFn {
            descriptor: py_fn(proto::PyFnVariant::Legacy(asking(Some(9)))),
            args: args(vec![]),
        })),
    };
    assert_eq!(
        read(proto::ScalarFn {
            descriptor: builtin("nothing"),
            args: args(vec![arg(None, Some(inner))]),
        }),
        Err(ProtoError::Resources(refusal("too many")))
    );
}

#[test]
fn request_is_decided_last() {
    let mut message = asking(Some(9));
    message.callable_call_args = None;
    assert_eq!(
        LegacyPythonUDF::from_proto(message, &session()),
        Err(ProtoError::Null(Field::LegacyCallableCallArgs))
    );
}

#[test]
fn request_that_nobody_decided_on() {
    assert_eq!(
        LegacyPythonUDF::from_proto(asking(Some(10)), &session()),
        Err(ProtoError::Resources(ResourceError::Undecided))
    );
    assert_eq!(
        LegacyPythonUDF::from_proto(asking(None), &session()).unwrap().resource_request,
        None
    );
}

#[test]
fn what_is_granted_is_the_request() {
    let mut session = session();
    let exact = 9007199254740993;
    let rounded = exact as f64 as u64;
    let asked = request(Some(exact), None, None);
    session.rulings.rule(asked, Ok(request(Some(rounded), None, None)));
    assert_eq!(
        LegacyPythonUDF::from_proto(asking(Some(exact)), &session).unwrap().resource_request,
        Some(request(Some(9007199254740992), None, None))
    );
}

#[test]
fn last_ruling_counts() {
    let mut rulings = RequestRulings::new();
    let asked = request(Some(1), Some(2), Some(3));
    assert_eq!(rulings.ruling(asked), Err(ResourceError::Undecided));
    rulings.rule(asked, Ok(asked));
    rulings.rule(request(Some(1), Some(2), None), Err(refusal("no memory")));
    assert_eq!(rulings.ruling(asked), Ok(asked));
    rulings.rule(asked, Err(refusal("changed")));
    assert_eq!(rulings.ruling(asked), Err(refusal("changed")));
    let session = Session { functions: registry(), rulings };
    assert_eq!(session.try_new_request(asked), Err(refusal("changed")));
    assert_eq!(
        session.try_new_request(request(Some(1), Some(2), None)),
        Err(refusal("no memory"))
    );
}

#[test]
fn requests_of_a_message_are_listed() {
    let call = |message: proto::LegacyFn, inner: Vec<proto::Arg>| proto::ScalarFn {
        descriptor: py_fn(proto::PyFnVariant::Legacy(message)),
        args: args(inner),
    };
    let expr = |call: proto::ScalarFn| {
        Some(proto::Expr { variant: Some(proto::ExprVariant::ScalarFn(call)) })
    };
    let message = call(
        asking(Some(1)),
        vec![
            arg(None, expr(call(asking(Some(2)), vec![]))),
            arg(None, None),
            arg(Some("x"), expr(call(asking(None), vec![arg(None, leaf_message(1))]))),
            arg(None, expr(call(legacy_message(), vec![]))),
        ],
    );
    let listed = vec![
        request(Some(2), None, None),
        request(Some(4), None, Some(1024)),
        request(Some(1), None, None),
    ];
    assert_eq!(message.requests(), listed);
    assert_eq!(expr(message).unwrap().requests(), listed);
    assert_eq!(leaf_message(1).unwrap().requests(), vec![]);
}

#[test]
fn decisions_on_other_requests_do_not_matter() {
    let mut other = session();
    other.rulings.rule(request(Some(77), None, None), Err(refusal("never asked for")));
    let message = nested().to_proto().unwrap();
    assert_eq!(message.requests(), vec![request(Some(4), None, Some(1024))]);
    assert_eq!(Expr::from_proto(message, &other), Ok(nested()));
}

#[test]
fn legacy_function_with_an_unsupported_type() {
    let mut func = legacy();
    func.return_dtype = DataType::Unsupported("extension");
    assert_eq!(func.to_proto(), Err(ProtoError::NotImplemented("extension")));
}

#[test]
fn legacy_fields_must_be_set() {
    let mut message = legacy_message();
    message.callable_call_args = None;
    assert_eq!(read_legacy(message), Err(ProtoError::Null(Field::LegacyCallableCallArgs)));

    let mut message = legacy_message();
    message.callable_call_args = None;
    message.callable_init_args = None;
    assert_eq!(read_legacy(message), Err(ProtoError::Null(Field::LegacyCallableInitArgs)));

    let mut message = legacy_message();
    message.callable_init_args = None;
    message.callable = None;
    assert_eq!(read_legacy(message), Err(ProtoError::Null(Field::LegacyCallable)));

    let mut message = legacy_message();
    message.callable = None;
    message.return_type = None;
    assert_eq!(read_legacy(message), Err(ProtoError::Null(Field::LegacyReturnType)));

    let mut message = legacy_message();
    message.return_type = Some(proto::DataType { variant: None });
    assert_eq!(read_legacy(message), Err(ProtoError::Null(Field::DataTypeVariant)));

    let mut message = legacy_message();
    message.callable = Some(proto::PyObject { object: vec![1] });
    let reason = bincode::deserialize::<Vec<u8>>(&[1]).unwrap_err().to_string();
    assert_eq!(read_legacy(message), Err(ProtoError::Bincode(reason)));
}

#[test]
fn row_wise_fields_must_be_set() {
    let mut message = row_wise_message();
    message.original_args = None;
    assert_eq!(read_row_wise(message), Err(ProtoError::Null(Field::RowWiseOriginalArgs)));

    let mut message = row_wise_message();
    message.original_args = None;
    message.return_dtype = None;
    assert_eq!(read_row_wise(message), Err(ProtoError::Null(Field::RowWiseReturnDtype)));

    let mut message = row_wise_message();
    message.return_dtype = None;
    message.inner = None;
    assert_eq!(read_row_wise(message), Err(ProtoError::Null(Field::RowWiseInner)));
}

#[test]
fn call_fields_must_be_set() {
    assert_eq!(
        read(proto::ScalarFn { descriptor: None, args: None }),
        Err(ProtoError::Null(Field::ScalarFnArgs))
    );
    assert_eq!(
        read(proto::ScalarFn { descriptor: None, args: args(vec![]) }),
        Err(ProtoError::Null(Field::ScalarFnDescriptor))
    );
    assert_eq!(
        read(proto::ScalarFn {
            descriptor: Some(proto::Descriptor::Py(proto::PyFn { variant: None })),
            args: args(vec![]),
        }),
        Err(ProtoError::Null(Field::PyFnVariant))
    );
}

#[test]
fn first_bad_argument_gives_the_error() {
    let bad = proto::Expr { variant: None };
    assert_eq!(
        read(proto::ScalarFn {
            descriptor: None,
            args: args(vec![arg(None, leaf_message(1)), arg(None, Some(bad)), arg(None, None)]),
        }),
        Err(ProtoError::Null(Field::ExprVariant))
    );
    assert_eq!(
        read(proto::ScalarFn {
            descriptor: None,
            args: args(vec![arg(None, None), arg(None, Some(proto::Expr { variant: None }))]),
        }),
        Err(ProtoError::Null(Field::ArgExpr))
    );
}

#[test]
fn builtin_functions_keep_the_names_of_their_arguments() {
    let call = ScalarFn::Builtin(BuiltinScalarFn {
        func: "abs".to_string(),
        inputs: FunctionArgs::new_unchecked(vec![
            FunctionArg::unnamed(leaf(1)),
            FunctionArg::named("scale".to_string(), leaf(2)),
        ]),
    });
    let message = scalar_fn_to_proto(&call).unwrap();
    assert_eq!(
        message,
        proto::ScalarFn {
            descriptor: builtin("abs"),
            args: args(vec![arg(None, leaf_message(1)), arg(Some("scale"), leaf_message(2))]),
        }
    );
    assert_eq!(read(message), Ok(Expr::ScalarFn(call)));
}

#[test]
fn builtin_functions_are_found_by_name() {
    let message = |name: &str| proto::ScalarFn { descriptor: builtin(name), args: args(vec![]) };
    let found = ScalarFn::Builtin(BuiltinScalarFn {
        func: "len".to_string(),
        inputs: FunctionArgs::new_unchecked(vec![]),
    });
    assert_eq!(read(message("length")), Ok(Expr::ScalarFn(found)));
    assert_eq!(read(message("nothing")), Err(ProtoError::Function(FunctionError::Unknown)));
    assert_eq!(
        read(message("broken")),
        Err(ProtoError::Function(FunctionError::Unresolved("no kernel".to_string())))
    );
}

#[test]
fn last_registration_counts() {
    let mut registry = registry();
    registry.register("abs".to_string(), Ok("abs2".to_string()));
    assert_eq!(registry.get_function(&"abs".to_string()), Ok("abs2".to_string()));
    registry.register("abs".to_string(), Err("no kernel".to_string()));
    assert_eq!(
        registry.get_function(&"abs".to_string()),
        Err(FunctionError::Unresolved("no kernel".to_string()))
    );
}

#[test]
fn row_wise_functions_take_their_arguments_by_position() {
    let call = ScalarFn::Python(PyScalarFn::RowWise(row_wise(vec![leaf(1), leaf(2)])));
    let message = scalar_fn_to_proto(&call).unwrap();
    assert_eq!(
        message,
        proto::ScalarFn {
            descriptor: py_fn(proto::PyFnVariant::RowWise(row_wise_message())),
            args: args(vec![arg(None, leaf_message(1)), arg(None, leaf_message(2))]),
        }
    );
    assert_eq!(read(message), Ok(Expr::ScalarFn(call)));
}

#[test]
fn python_functions_ignore_the_names_of_their_arguments() {
    let named = || args(vec![arg(Some("x"), leaf_message(1)), arg(Some("y"), leaf_message(2))]);
    assert_eq!(
        read(proto::ScalarFn {
            descriptor: py_fn(proto::PyFnVariant::RowWise(row_wise_message())),
            args: named(),
        }),
        Ok(Expr::ScalarFn(ScalarFn::Python(PyScalarFn::RowWise(row_wise(vec![
            leaf(1),
            leaf(2)
        ])))))
    );
    assert_eq!(
        read(proto::ScalarFn {
            descriptor: py_fn(proto::PyFnVariant::Legacy(legacy_message())),
            args: named(),
        }),
        Ok(Expr::Function { func: FunctionExpr::Python(legacy()), inputs: vec![leaf(1), leaf(2)] })
    );
}

#[test]
fn row_wise_arguments_come_before_the_type() {
    let mut func = row_wise(vec![Arc::new(Expr::Unsupported("window"))]);
    func.return_dtype = DataType::Unsupported("extension");
    assert_eq!(
        scalar_fn_to_proto(&ScalarFn::Python(PyScalarFn::RowWise(func))),
        Err(ProtoError::NotImplemented("window"))
    );
    let mut func = row_wise(vec![leaf(1)]);
    func.return_dtype = DataType::Unsupported("extension");
    assert_eq!(
        scalar_fn_to_proto(&ScalarFn::Python(PyScalarFn::RowWise(func))),
        Err(ProtoError::NotImplemented("extension"))
    );
}

#[test]
fn function_expression_with_its_arguments() {
    let func = FunctionExpr::Python(legacy());
    let inputs = vec![leaf(1), leaf(2)];
    let message = function_expr_to_proto(&func, &inputs).unwrap();
    assert_eq!(
        message,
        proto::ScalarFn {
            descriptor: py_fn(proto::PyFnVariant::Legacy(legacy_message())),
            args: args(vec![arg(None, leaf_message(1)), arg(None, leaf_message(2))]),
        }
    );
    assert_eq!(read(message), Ok(Expr::Function { func, inputs }));
}

#[test]
fn special_forms_have_no_message() {
    let bad = vec![Arc::new(Expr::Unsupported("window"))];
    for (func, name) in [
        (FunctionExpr::MapExpr(MapExpr::Get), "map_expr"),
        (FunctionExpr::Sketch(SketchExpr::Percentile), "sketch_expr"),
        (FunctionExpr::Struct(StructExpr::Get("a".to_string())), "struct_expr"),
        (FunctionExpr::Partitioning(PartitioningExpr::IcebergBucket(4)), "partitioning_expr"),
    ] {
        assert_eq!(function_expr_to_proto(&func, &bad), Err(ProtoError::NotImplemented(name)));
    }
    assert_eq!(
        function_expr_to_proto(&FunctionExpr::Python(legacy()), &bad),
        Err(ProtoError::NotImplemented("window"))
    );
}

#[test]
fn special_forms_by_name() {
    let form = |name: &str| from_special_form(proto::BuiltinFn { name: name.to_string() });
    assert_eq!(form("_map_get"), Err(ProtoError::NotImplemented("map_expr")));
    assert_eq!(form("_sketch_percentile"), Err(ProtoError::NotImplemented("sketch_expr")));
    assert_eq!(form("_struct_get"), Err(ProtoError::NotImplemented("struct_expr")));
    for name in [
        "_partitioning_years",
        "_partitioning_months",
        "_partitioning_days",
        "_partitioning_hours",
        "_partitioning_iceberg_bucket",
        "_partitioning_iceberg_truncate",
    ] {
        assert_eq!(form(name), Err(ProtoError::NotImplemented("partitioning_expr")));
    }
    assert_eq!(form("abs"), Ok(None));
    assert_eq!(form("_partitioning"), Ok(None));
    assert_eq!(form(""), Ok(None));
}

#[test]
fn special_form_conversions() {
    let message = || proto::BuiltinFn { name: "f".to_string() };
    assert_eq!(MapExpr::from_proto(message()), Err(ProtoError::NotImplemented("map_expr")));
    assert_eq!(SketchExpr::from_proto(message()), Err(ProtoError::NotImplemented("sketch_expr")));
    assert_eq!(StructExpr::from_proto(message()), Err(ProtoError::NotImplemented("struct_expr")));
    assert_eq!(
        PartitioningExpr::from_proto(message()),
        Err(ProtoError::NotImplemented("partitioning_expr"))
    );
}

fn nested() -> Expr {
    let inner = Expr::Function { func: FunctionExpr::Python(legacy()), inputs: vec![leaf(1)] };
    let middle = Expr::ScalarFn(ScalarFn::Python(PyScalarFn::RowWise(row_wise(vec![
        Arc::new(inner),
        leaf(2),
    ]))));
    Expr::ScalarFn(ScalarFn::Builtin(BuiltinScalarFn {
        func: "len".to_string(),
        inputs: FunctionArgs::new_unchecked(vec![
            FunctionArg::named("of".to_string(), Arc::new(middle)),
            FunctionArg::unnamed(leaf(3)),
        ]),
    }))
}

#[test]
fn nested_calls_are_read_back() {
    let message = nested().to_proto().unwrap();
    assert_eq!(Expr::from_proto(message, &session()), Ok(nested()));
}

#[test]
fn nested_calls_have_one_message() {
    assert_eq!(nested().to_proto(), nested().to_proto());
    let mut other = legacy();
    other.concurrency = Some(1);
    let other = Expr::Function { func: FunctionExpr::Python(other), inputs: vec![] };
    let first = Expr::Function { func: FunctionExpr::Python(legacy()), inputs: vec![] };
    assert_ne!(first.to_proto(), other.to_proto());
}

#[test]
fn alias_is_read_the_same_again() {
    let message = proto::ScalarFn {
        descriptor: builtin("length"),
        args: args(vec![arg(Some("x"), leaf_message(1))]),
    };
    let read_once = read(message).unwrap();
    let written = read_once.to_proto().unwrap();
    assert_eq!(Expr::from_proto(written, &session()), Ok(read_once));
}

#[test]
fn unsupported_expressions() {
    assert_eq!(
        Expr::Unsupported("window").to_proto(),
        Err(ProtoError::NotImplemented("window"))
    );
    let arg = FunctionArg::named("x".to_string(), Arc::new(Expr::Unsupported("window")));
    assert_eq!(arg.to_proto(), Err(ProtoError::NotImplemented("window")));
}

#[test]
fn arguments_without_their_names() {
    let args = FunctionArgs::new_unchecked(vec![
        FunctionArg::named("b".to_string(), leaf(2)),
        FunctionArg::unnamed(leaf(1)),
    ]);
    assert_eq!(args.into_inner(), vec![leaf(2), leaf(1)]);
}
