//! The ways in which a conversion can fail.

use vstd::prelude::*;

verus! {

/// A message field that must be set.
#[derive(Clone, Copy, Debug, PartialEq, Eq)]
pub enum Field {
    /// `Expr.variant`
    ExprVariant,
    /// `DataType.variant`
    DataTypeVariant,
    /// `ScalarFn.args`
    ScalarFnArgs,
    /// `ScalarFn.descriptor`
    ScalarFnDescriptor,
    /// `Arg.expr`
    ArgExpr,
    /// `PyFn.variant`
    PyFnVariant,
    /// `RowWiseFn.inner`
    RowWiseInner,
    /// `RowWiseFn.return_dtype`
    RowWiseReturnDtype,
    /// `RowWiseFn.original_args`
    RowWiseOriginalArgs,
    /// `LegacyFn.return_type`
    LegacyReturnType,
    /// `LegacyFn.callable`
    LegacyCallable,
    /// `LegacyFn.callable_init_args`
    LegacyCallableInitArgs,
    /// `LegacyFn.callable_call_args`
    LegacyCallableCallArgs,
}

/// Why a builtin function could not be resolved.
#[derive(Debug, PartialEq, Eq)]
pub enum FunctionError {
    /// No function is registered under the name.
    Unknown,
    /// The function is registered, but has no implementation to offer, for this reason.
    Unresolved(String),
}

/// The view of a `FunctionError`.
#[verifier::ext_equal]
pub enum FunctionErrorView {
    Unknown,
    Unresolved(Seq<char>),
}

impl FunctionError {
    pub open spec fn view(&self) -> FunctionErrorView {
        match self {
            FunctionError::Unknown => FunctionErrorView::Unknown,
            FunctionError::Unresolved(reason) => FunctionErrorView::Unresolved(reason@),
        }
    }
}

/// Why a resource request was not granted.
#[derive(Debug, PartialEq, Eq)]
pub enum ResourceError {
    /// It was refused, for this reason.
    Refused(String),
    /// Nobody has decided on it.
    Undecided,
}

/// The view of a `ResourceError`.
#[verifier::ext_equal]
pub enum ResourceErrorView {
    Refused(Seq<char>),
    Undecided,
}

impl ResourceError {
    pub open spec fn view(&self) -> ResourceErrorView {
        match self {
            ResourceError::Refused(reason) => ResourceErrorView::Refused(reason@),
            ResourceError::Undecided => ResourceErrorView::Undecided,
        }
    }
}

/// An error of a conversion to or from a message.
#[derive(Debug, PartialEq, Eq)]
pub enum ProtoError {
    /// A field that must be set is not.
    Null(Field),
    /// There is no conversion for what the name stands for.
    NotImplemented(&'static str),
    /// A python object could not be serialised, or bytes that should hold a serialised one do
    /// not; with the message of the serialiser.
    Bincode(String),
    /// A builtin function could not be resolved.
    Function(FunctionError),
    /// A resource request was not granted.
    Resources(ResourceError),
}

/// The view of a `ProtoError`.
#[verifier::ext_equal]
pub enum ProtoErrorView {
    Null(Field),
    NotImplemented(&'static str),
    Bincode(Seq<char>),
    Function(FunctionErrorView),
    Resources(ResourceErrorView),
}

impl ProtoError {
    pub open spec fn view(&self) -> ProtoErrorView {
        match self {
            ProtoError::Null(field) => ProtoErrorView::Null(*field),
            ProtoError::NotImplemented(name) => ProtoErrorView::NotImplemented(*name),
            ProtoError::Bincode(message) => ProtoErrorView::Bincode(message@),
            ProtoError::Function(e) => ProtoErrorView::Function(e@),
            ProtoError::Resources(e) => ProtoErrorView::Resources(e@),
        }
    }
}

/// The outcome of a conversion.
pub type ProtoResult<T> = Result<T, ProtoError>;

} // verus!
