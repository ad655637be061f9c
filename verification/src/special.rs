//! The special forms: operations that messages name as builtin functions, while the plan has
//! a type for each.

use vstd::prelude::*;

use crate::error::{ProtoError, ProtoResult};
use crate::ir::{FunctionExpr, MapExpr, PartitioningExpr, SketchExpr, StructExpr};
use crate::proto;

verus! {

impl MapExpr {
    /// There is no conversion from a message yet.
    pub fn from_proto(_message: proto::BuiltinFn) -> (r: ProtoResult<MapExpr>)
        ensures
            r == Err::<MapExpr, _>(ProtoError::NotImplemented("map_expr")),
    {
        Err(ProtoError::NotImplemented("map_expr"))
    }

    /// There is no conversion to a message yet.
    pub fn to_proto(&self) -> (r: ProtoResult<proto::BuiltinFn>)
        ensures
            r == Err::<proto::BuiltinFn, _>(ProtoError::NotImplemented("map_expr")),
    {
        Err(ProtoError::NotImplemented("map_expr"))
    }
}

impl SketchExpr {
    /// There is no conversion from a message yet.
    pub fn from_proto(_message: proto::BuiltinFn) -> (r: ProtoResult<SketchExpr>)
        ensures
            r == Err::<SketchExpr, _>(ProtoError::NotImplemented("sketch_expr")),
    {
        Err(ProtoError::NotImplemented("sketch_expr"))
    }

    /// There is no conversion to a message yet.
    pub fn to_proto(&self) -> (r: ProtoResult<proto::BuiltinFn>)
        ensures
            r == Err::<proto::BuiltinFn, _>(ProtoError::NotImplemented("sketch_expr")),
    {
        Err(ProtoError::NotImplemented("sketch_expr"))
    }
}

impl StructExpr {
    /// There is no conversion from a message yet.
    pub fn from_proto(_message: proto::BuiltinFn) -> (r: ProtoResult<StructExpr>)
        ensures
            r == Err::<StructExpr, _>(ProtoError::NotImplemented("struct_expr")),
    {
        Err(ProtoError::NotImplemented("struct_expr"))
    }

    /// There is no conversion to a message yet.
    pub fn to_proto(&self) -> (r: ProtoResult<proto::BuiltinFn>)
        ensures
            r == Err::<proto::BuiltinFn, _>(ProtoError::NotImplemented("struct_expr")),
    {
        Err(ProtoError::NotImplemented("struct_expr"))
    }
}

impl PartitioningExpr {
    /// There is no conversion from a message yet.
    pub fn from_proto(_message: proto::BuiltinFn) -> (r: ProtoResult<PartitioningExpr>)
        ensures
            r == Err::<PartitioningExpr, _>(ProtoError::NotImplemented("partitioning_expr")),
    {
        Err(ProtoError::NotImplemented("partitioning_expr"))
    }

    /// There is no conversion to a message yet.
    pub fn to_proto(&self) -> (r: ProtoResult<proto::BuiltinFn>)
        ensures
            r == Err::<proto::BuiltinFn, _>(ProtoError::NotImplemented("partitioning_expr")),
    {
        Err(ProtoError::NotImplemented("partitioning_expr"))
    }
}

/// Is `name` reserved for a partition transform?
pub open spec fn is_partitioning(name: Seq<char>) -> bool {
    ||| name == "_partitioning_years"@
    ||| name == "_partitioning_months"@
    ||| name == "_partitioning_days"@
    ||| name == "_partitioning_hours"@
    ||| name == "_partitioning_iceberg_bucket"@
    ||| name == "_partitioning_iceberg_truncate"@
}

/// The special form that `name` is reserved for, as errors call it.
pub open spec fn special_form(name: Seq<char>) -> Option<&'static str> {
    if name == "_map_get"@ {
        Some("map_expr")
    } else if name == "_sketch_percentile"@ {
        Some("sketch_expr")
    } else if name == "_struct_get"@ {
        Some("struct_expr")
    } else if is_partitioning(name) {
        Some("partitioning_expr")
    } else {
        None
    }
}

/// Are the two names the same?
fn is_named(name: &String, other: &str) -> (r: bool)
    ensures
        r == (name@ == other@),
{
    *name == other.to_owned()
}

/// The special form of a message whose name is reserved for one, and `None` for any other.
///
/// The forms are modelled as builtin functions in messages while the plan has a type for
/// each. None of them can be converted yet.
pub fn from_special_form(message: proto::BuiltinFn) -> (r: ProtoResult<Option<FunctionExpr>>)
    ensures
        match special_form(message.name@) {
            Some(form) => r == Err::<Option<FunctionExpr>, _>(ProtoError::NotImplemented(form)),
            None => r == Ok::<_, ProtoError>(None::<FunctionExpr>),
        },
{
    let form = if is_named(&message.name, "_map_get") {
        FunctionExpr::MapExpr(MapExpr::from_proto(message)?)
    } else if is_named(&message.name, "_sketch_percentile") {
        FunctionExpr::Sketch(SketchExpr::from_proto(message)?)
    } else if is_named(&message.name, "_struct_get") {
        FunctionExpr::Struct(StructExpr::from_proto(message)?)
    } else if is_named(&message.name, "_partitioning_years")
        || is_named(&message.name, "_partitioning_months")
        || is_named(&message.name, "_partitioning_days")
        || is_named(&message.name, "_partitioning_hours")
        || is_named(&message.name, "_partitioning_iceberg_bucket")
        || is_named(&message.name, "_partitioning_iceberg_truncate") {
        FunctionExpr::Partitioning(PartitioningExpr::from_proto(message)?)
    } else {
        return Ok(None);
    };
    Ok(Some(form))
}

} // verus!
