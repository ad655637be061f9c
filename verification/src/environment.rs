//! What a conversion from a message asks of its surroundings.

use vstd::prelude::*;

use crate::error::{FunctionError, FunctionErrorView, ResourceError, ResourceErrorView};
use crate::ir::{ArgView, FunctionArgs};
use crate::python::ResourceRequest;
use crate::registry::{lookup, FunctionRegistry};

verus! {

/// Which function a call means, given the name that it refers to it by and its arguments.
pub type Resolution = spec_fn(Seq<char>, Seq<ArgView>) -> Result<Seq<char>, FunctionErrorView>;

/// What is granted of a resource request, or why nothing is.
pub type Admission = spec_fn(ResourceRequest) -> Result<ResourceRequest, ResourceErrorView>;

/// The view of an `Environment`.
pub struct EnvironmentView {
    pub resolution: Resolution,
    pub admission: Admission,
}

/// The view of a decision on a resource request.
pub open spec fn outcome_view(outcome: Result<ResourceRequest, ResourceError>) -> Result<
    ResourceRequest,
    ResourceErrorView,
> {
    match outcome {
        Ok(request) => Ok(request),
        Err(e) => Err(e@),
    }
}

/// Finds the functions that calls refer to by name, and decides on resource requests.
pub trait Environment {
    /// What `get_function` and `try_new_request` give.
    spec fn view(&self) -> EnvironmentView;

    /// The function that a call means, by its own name: first the name is looked up, then what
    /// it stands for is asked for its implementation for `args`, whose columns are not known
    /// yet.
    fn get_function(&self, name: &String, args: &FunctionArgs) -> (r: Result<String, FunctionError>)
        ensures
            match r {
                Ok(func) => (self.view().resolution)(name@, args@) == Ok::<_, FunctionErrorView>(
                    func@,
                ),
                Err(e) => (self.view().resolution)(name@, args@) == Err::<Seq<char>, _>(e@),
            },
    ;

    /// What is granted of the request `asked`.
    fn try_new_request(&self, asked: ResourceRequest) -> (r: Result<ResourceRequest, ResourceError>)
        ensures
            outcome_view(r) == (self.view().admission)(asked),
    ;
}

/// The ruling on the request `asked` among `rulings`.
pub open spec fn ruling(
    rulings: Map<ResourceRequest, Result<ResourceRequest, ResourceErrorView>>,
    asked: ResourceRequest,
) -> Result<ResourceRequest, ResourceErrorView> {
    if rulings.dom().contains(asked) {
        rulings[asked]
    } else {
        Err(ResourceErrorView::Undecided)
    }
}

/// What a list of rulings amounts to: of those on one request the last counts.
pub open spec fn ruled(
    entries: Seq<(ResourceRequest, Result<ResourceRequest, ResourceError>)>,
) -> Map<ResourceRequest, Result<ResourceRequest, ResourceErrorView>>
    decreases entries.len(),
{
    if entries.len() == 0 {
        Map::empty()
    } else {
        ruled(entries.drop_last()).insert(entries.last().0, outcome_view(entries.last().1))
    }
}

/// Are the two requests the same?
fn same_request(first: &ResourceRequest, second: &ResourceRequest) -> (r: bool)
    ensures
        r == (*first == *second),
{
    first.num_cpus == second.num_cpus && first.num_gpus == second.num_gpus && first.memory_bytes
        == second.memory_bytes
}

/// The decisions on resource requests. Whether a request is valid is for the scheduler to say,
/// whose counts are floating point numbers: its rulings are kept here.
pub struct RequestRulings {
    entries: Vec<(ResourceRequest, Result<ResourceRequest, ResourceError>)>,
}

impl RequestRulings {
    /// The requests that are decided, and what is granted of each, or why nothing is.
    pub closed spec fn view(&self) -> Map<ResourceRequest, Result<ResourceRequest, ResourceErrorView>> {
        ruled(self.entries@)
    }

    /// No decisions.
    pub fn new() -> (r: RequestRulings)
        ensures
            r@ == Map::<ResourceRequest, Result<ResourceRequest, ResourceErrorView>>::empty(),
    {
        RequestRulings { entries: Vec::new() }
    }

    /// Records the decision on the request `asked`, in place of any other.
    pub fn rule(&mut self, asked: ResourceRequest, outcome: Result<ResourceRequest, ResourceError>)
        ensures
            final(self)@ == old(self)@.insert(asked, outcome_view(outcome)),
    {
        self.entries.push((asked, outcome));
        assert(self.entries@.drop_last() =~= old(self).entries@);
    }

    /// The decision on the request `asked`.
    pub fn ruling(&self, asked: ResourceRequest) -> (r: Result<ResourceRequest, ResourceError>)
        ensures
            outcome_view(r) == ruling(self@, asked),
    {
        let mut i: usize = self.entries.len();
        assert(self.entries@.take(i as int) =~= self.entries@);
        while i > 0
            invariant
                i <= self.entries@.len(),
                ruling(self@, asked) == ruling(ruled(self.entries@.take(i as int)), asked),
            decreases i,
        {
            i = i - 1;
            assert(self.entries@.take(i as int + 1).drop_last() =~= self.entries@.take(i as int));
            if same_request(&self.entries[i].0, &asked) {
                return match &self.entries[i].1 {
                    Ok(request) => Ok(*request),
                    Err(ResourceError::Refused(reason)) => Err(
                        ResourceError::Refused(reason.clone()),
                    ),
                    Err(ResourceError::Undecided) => Err(ResourceError::Undecided),
                };
            }
        }
        Err(ResourceError::Undecided)
    }
}

/// The functions and the decisions that messages are read with.
pub struct Session {
    pub functions: FunctionRegistry,
    pub rulings: RequestRulings,
}

impl Environment for Session {
    open spec fn view(&self) -> EnvironmentView {
        EnvironmentView {
            resolution: |name: Seq<char>, args: Seq<ArgView>| lookup(self.functions@, name),
            admission: |asked: ResourceRequest| ruling(self.rulings@, asked),
        }
    }

    fn get_function(&self, name: &String, args: &FunctionArgs) -> (r: Result<
        String,
        FunctionError,
    >) {
        self.functions.get_function(name)
    }

    fn try_new_request(&self, asked: ResourceRequest) -> (r: Result<
        ResourceRequest,
        ResourceError,
    >) {
        self.rulings.ruling(asked)
    }
}

} // verus!
