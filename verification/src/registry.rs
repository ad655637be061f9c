//! The builtin functions that a plan can call.

use vstd::prelude::*;

use crate::error::{FunctionError, FunctionErrorView};

verus! {

/// The function that `name` stands for among `functions`.
pub open spec fn lookup(
    functions: Map<Seq<char>, Result<Seq<char>, Seq<char>>>,
    name: Seq<char>,
) -> Result<Seq<char>, FunctionErrorView> {
    if !functions.dom().contains(name) {
        Err(FunctionErrorView::Unknown)
    } else {
        match functions[name] {
            Ok(func) => Ok(func),
            Err(reason) => Err(FunctionErrorView::Unresolved(reason)),
        }
    }
}

/// What a list of registrations amounts to: of those under one name the last counts.
pub open spec fn registered(entries: Seq<(String, Result<String, String>)>) -> Map<
    Seq<char>,
    Result<Seq<char>, Seq<char>>,
>
    decreases entries.len(),
{
    if entries.len() == 0 {
        Map::empty()
    } else {
        let (name, func) = entries.last();
        registered(entries.drop_last()).insert(
            name@,
            match func {
                Ok(func) => Ok(func@),
                Err(reason) => Err(reason@),
            },
        )
    }
}

/// The functions by the names under which a call may refer to them. A function's own name
/// may differ from these. The functions are dynamic: which one a call means does not depend
/// on its arguments.
pub struct FunctionRegistry {
    entries: Vec<(String, Result<String, String>)>,
}

impl FunctionRegistry {
    /// The registered names, and for each the function's own name, or why it has no
    /// implementation.
    pub closed spec fn view(&self) -> Map<Seq<char>, Result<Seq<char>, Seq<char>>> {
        registered(self.entries@)
    }

    /// A registry without functions.
    pub fn new() -> (r: FunctionRegistry)
        ensures
            r@ == Map::<Seq<char>, Result<Seq<char>, Seq<char>>>::empty(),
    {
        FunctionRegistry { entries: Vec::new() }
    }

    /// Registers the function `func` under `name`, in place of any other; or why what the name
    /// stands for has no implementation.
    pub fn register(&mut self, name: String, func: Result<String, String>)
        ensures
            final(self)@ == old(self)@.insert(
                name@,
                match func {
                    Ok(func) => Ok(func@),
                    Err(reason) => Err(reason@),
                },
            ),
    {
        self.entries.push((name, func));
        assert(self.entries@.drop_last() =~= old(self).entries@);
    }

    /// The function that is registered under `name`.
    pub fn get_function(&self, name: &String) -> (r: Result<String, FunctionError>)
        ensures
            match r {
                Ok(func) => lookup(self@, name@) == Ok::<_, FunctionErrorView>(func@),
                Err(e) => lookup(self@, name@) == Err::<Seq<char>, _>(e@),
            },
    {
        let mut i: usize = self.entries.len();
        assert(self.entries@.take(i as int) =~= self.entries@);
        while i > 0
            invariant
                i <= self.entries@.len(),
                lookup(self@, name@) == lookup(registered(self.entries@.take(i as int)), name@),
            decreases i,
        {
            i = i - 1;
            assert(self.entries@.take(i as int + 1).drop_last() =~= self.entries@.take(i as int));
            if self.entries[i].0 == *name {
                return match &self.entries[i].1 {
                    Ok(func) => Ok(func.clone()),
                    Err(reason) => Err(FunctionError::Unresolved(reason.clone())),
                };
            }
        }
        Err(FunctionError::Unknown)
    }
}

} // verus!
