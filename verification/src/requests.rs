//! The resource requests that messages make.

use vstd::prelude::*;

use crate::model::{
    arg_requests, args_requests, asked_resources, call_requests, descriptor_requests, expr_requests,
};
use crate::objects::to_size;
use crate::proto;
use crate::python::ResourceRequest;

verus! {

impl proto::LegacyFn {
    /// The resources that the function asks for: none, unless at least one is named.
    pub fn asked_resources(&self) -> (r: Option<ResourceRequest>)
        ensures
            r == asked_resources(self@),
    {
        if self.num_cpus.is_some() || self.num_gpus.is_some() || self.max_memory_bytes.is_some() {
            Some(
                ResourceRequest {
                    num_cpus: self.num_cpus,
                    num_gpus: self.num_gpus,
                    memory_bytes: to_size(self.max_memory_bytes),
                },
            )
        } else {
            None
        }
    }
}

impl proto::Arg {
    /// The requests in the argument.
    pub fn requests(&self) -> (r: Vec<ResourceRequest>)
        ensures
            r@ == arg_requests(self@),
        decreases self,
    {
        match &self.expr {
            Some(expr) => expr.requests(),
            None => Vec::new(),
        }
    }
}

impl proto::Args {
    /// The requests in the arguments, in their order.
    pub fn requests(&self) -> (r: Vec<ResourceRequest>)
        ensures
            r@ == args_requests(self@),
        decreases self,
    {
        let mut requests: Vec<ResourceRequest> = Vec::new();
        for i in 0..self.args.len()
            invariant
                requests@ == args_requests(proto::arg_views(self.args@.take(i as int))),
        {
            proof {
                assert(self.args@.take(i + 1).drop_last() =~= self.args@.take(i as int));
                assert(proto::arg_views(self.args@.take(i + 1)).drop_last() =~= proto::arg_views(
                    self.args@.take(i as int),
                ));
            }
            let mut more = self.args[i].requests();
            requests.append(&mut more);
        }
        assert(self.args@.take(self.args@.len() as int) =~= self.args@);
        requests
    }
}

impl proto::ScalarFn {
    /// The requests in the call: those of the arguments, then that of the function.
    pub fn requests(&self) -> (r: Vec<ResourceRequest>)
        ensures
            r@ == call_requests(self@),
        decreases self,
    {
        let mut requests = match &self.args {
            Some(args) => args.requests(),
            None => Vec::new(),
        };
        if let Some(proto::Descriptor::Py(py)) = &self.descriptor {
            if let Some(proto::PyFnVariant::Legacy(legacy)) = &py.variant {
                if let Some(asked) = legacy.asked_resources() {
                    requests.push(asked);
                }
            }
        }
        requests
    }
}

impl proto::Expr {
    /// The requests in the expression.
    pub fn requests(&self) -> (r: Vec<ResourceRequest>)
        ensures
            r@ == expr_requests(self@),
        decreases self,
    {
        match &self.variant {
            Some(proto::ExprVariant::ScalarFn(call)) => call.requests(),
            _ => Vec::new(),
        }
    }
}

} // verus!
