//! Python objects, data types and whole-column python functions, to and from their messages.

use vstd::prelude::*;

use crate::environment::Environment;
use crate::error::{Field, ProtoError, ProtoErrorView, ProtoResult};
use crate::ir;
use crate::ir::DataType;
use crate::model::{
    as_number, as_size, decode_dtype, decode_legacy, decode_object, decode_py, encode_dtype,
    encode_legacy, encode_object,
};
use crate::payload::{bincode_deserialize, bincode_serialize};
use crate::proto;
use crate::python::{
    LegacyPythonUDF, LegacyView, MaybeInitializedUDF, PyObjectView, RuntimePyObject,
};

verus! {

impl RuntimePyObject {
    /// The python object of a message.
    pub fn from_proto(message: proto::PyObject) -> (r: ProtoResult<RuntimePyObject>)
        ensures
            match r {
                Ok(object) => decode_object(message@) == Ok::<_, ProtoErrorView>(object@),
                Err(e) => decode_object(message@) == Err::<PyObjectView, _>(e@),
            },
    {
        match bincode_deserialize(&message.object) {
            Ok(pickled) => Ok(RuntimePyObject::from_pickled(pickled)),
            Err(message) => Err(ProtoError::Bincode(message)),
        }
    }

    /// The message about a python object.
    pub fn to_proto(&self) -> (r: ProtoResult<proto::PyObject>)
        ensures
            match r {
                Ok(message) => encode_object(self@) == Ok::<_, ProtoErrorView>(message@),
                Err(e) => encode_object(self@) == Err::<Seq<u8>, _>(e@),
            },
    {
        match self.pickled() {
            Ok(pickled) => match bincode_serialize(pickled) {
                Ok(object) => Ok(proto::PyObject { object }),
                Err(message) => Err(ProtoError::Bincode(message)),
            },
            Err(reason) => Err(ProtoError::Bincode(reason.clone())),
        }
    }

    /// The python object of a field that must be set.
    pub(crate) fn from_field(field: Option<proto::PyObject>, name: Field) -> (r: ProtoResult<
        RuntimePyObject,
    >)
        ensures
            match r {
                Ok(object) => decode_py(proto::py_field(field), name) == Ok::<_, ProtoErrorView>(
                    object@,
                ),
                Err(e) => decode_py(proto::py_field(field), name) == Err::<PyObjectView, _>(e@),
            },
    {
        match field {
            Some(message) => RuntimePyObject::from_proto(message),
            None => Err(ProtoError::Null(name)),
        }
    }
}

impl DataType {
    /// The data type of a message.
    pub fn from_proto(message: proto::DataType) -> (r: ProtoResult<DataType>)
        ensures
            match r {
                Ok(dtype) => message@ is Some && dtype@ == ir::DataTypeView::Encoded(message@->0),
                Err(e) => message@ is None && e == ProtoError::Null(Field::DataTypeVariant),
            },
    {
        match message.variant {
            Some(encoded) => Ok(DataType::Encoded(encoded)),
            None => Err(ProtoError::Null(Field::DataTypeVariant)),
        }
    }

    /// The message about a data type.
    pub fn to_proto(&self) -> (r: ProtoResult<proto::DataType>)
        ensures
            match r {
                Ok(message) => encode_dtype(self@) == Ok::<_, ProtoErrorView>(message@),
                Err(e) => encode_dtype(self@) == Err::<Option<Seq<u8>>, _>(e@),
            },
    {
        match self {
            DataType::Encoded(encoded) => {
                let copy = encoded.clone();
                Ok(proto::DataType { variant: Some(copy) })
            },
            DataType::Unsupported(name) => Err(ProtoError::NotImplemented(*name)),
        }
    }

    /// The data type of a field that must be set.
    pub(crate) fn from_field(field: Option<proto::DataType>, name: Field) -> (r: ProtoResult<
        DataType,
    >)
        ensures
            match r {
                Ok(dtype) => decode_dtype(proto::dtype_field(field), name) == Ok::<_, ProtoErrorView>(
                    dtype@,
                ),
                Err(e) => decode_dtype(proto::dtype_field(field), name) == Err::<
                    ir::DataTypeView,
                    _,
                >(e@),
            },
    {
        match field {
            Some(message) => DataType::from_proto(message),
            None => Err(ProtoError::Null(name)),
        }
    }
}

/// A number of a message as a size.
pub(crate) fn to_size(number: Option<u64>) -> (r: Option<usize>)
    ensures
        r == as_size(number),
{
    match number {
        Some(number) => Some(number as usize),
        None => None,
    }
}

/// A size as a number of a message.
fn to_number(size: Option<usize>) -> (r: Option<u64>)
    ensures
        r == as_number(size),
{
    match size {
        Some(size) => Some(size as u64),
        None => None,
    }
}

impl LegacyPythonUDF {
    /// The function of a message. It is not initialised, and has of the resources that the
    /// message asks for what is granted.
    pub fn from_proto<E: Environment>(message: proto::LegacyFn, env: &E) -> (r: ProtoResult<
        LegacyPythonUDF,
    >)
        ensures
            match r {
                Ok(func) => decode_legacy(message@, env@.admission) == Ok::<_, ProtoErrorView>(func@),
                Err(e) => decode_legacy(message@, env@.admission) == Err::<LegacyView, _>(e@),
            },
    {
        let asked = message.asked_resources();
        let return_dtype = DataType::from_field(message.return_type, Field::LegacyReturnType)?;
        let inner = RuntimePyObject::from_field(message.callable, Field::LegacyCallable)?;
        let init_args = RuntimePyObject::from_field(
            message.callable_init_args,
            Field::LegacyCallableInitArgs,
        )?;
        let bound_args = RuntimePyObject::from_field(
            message.callable_call_args,
            Field::LegacyCallableCallArgs,
        )?;
        let resource_request = match asked {
            Some(asked) => match env.try_new_request(asked) {
                Ok(request) => Some(request),
                Err(e) => {
                    return Err(ProtoError::Resources(e));
                },
            },
            None => None,
        };
        Ok(
            LegacyPythonUDF {
                name: message.name,
                func: MaybeInitializedUDF::Uninitialized { inner, init_args },
                bound_args,
                num_expressions: message.arity as usize,
                return_dtype,
                resource_request,
                batch_size: to_size(message.batch_size),
                concurrency: to_size(message.concurrency),
                use_process: message.use_process,
            },
        )
    }

    /// The message about a function.
    pub fn to_proto(&self) -> (r: ProtoResult<proto::LegacyFn>)
        ensures
            match r {
                Ok(message) => encode_legacy(self@) == Ok::<_, ProtoErrorView>(message@),
                Err(e) => encode_legacy(self@) == Err::<proto::LegacyFnView, _>(e@),
            },
    {
        let return_type = self.return_dtype.to_proto()?;
        let (callable, callable_init_args) = match &self.func {
            MaybeInitializedUDF::Initialized(object) => {
                (object.to_proto()?, RuntimePyObject::new_none().to_proto()?)
            },
            MaybeInitializedUDF::Uninitialized { inner, init_args } => {
                (inner.to_proto()?, init_args.to_proto()?)
            },
        };
        let callable_call_args = self.bound_args.to_proto()?;
        let (num_cpus, num_gpus, max_memory_bytes) = match &self.resource_request {
            Some(request) => (request.num_cpus, request.num_gpus, to_number(request.memory_bytes)),
            None => (None, None, None),
        };
        Ok(
            proto::LegacyFn {
                name: self.name.clone(),
                arity: self.num_expressions as u64,
                return_type: Some(return_type),
                callable: Some(callable),
                callable_init_args: Some(callable_init_args),
                callable_call_args: Some(callable_call_args),
                concurrency: to_number(self.concurrency),
                batch_size: to_number(self.batch_size),
                num_cpus,
                num_gpus,
                max_memory_bytes,
                use_process: self.use_process,
            },
        )
    }
}

} // verus!
