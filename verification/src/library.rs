use vstd::prelude::*;
use crate::assoc::{assoc_get, assoc_map, assoc_set, keys_unique};
use crate::value::{Type, YarnValue};

verus! {

/// The ghost image of a declared parameter list, as the registry trait's
/// specification members see it.
pub type ParameterKinds = Seq<Type>;

/// The ghost image of an argument list, as the registry trait's
/// specification members see it.
pub type ArgumentValues = Seq<YarnValue>;

/// A registered function with its type information erased: the shape the
/// machine consumes. Hosts implement this for whatever callables they
/// register; what a call returns is constrained only by the callable's own
/// relation, so a host function that reads outside state may relate several
/// results to one argument list.
pub trait UntypedYarnFn {
    /// The parameter kinds this function declares, as contracts see them.
    spec fn spec_parameter_types(&self) -> Seq<Type>;

    /// The return kind this function declares, as contracts see it.
    spec fn spec_return_type(&self) -> Type;

    /// Which results a call on the given arguments may produce.
    spec fn call_rel(&self, input: Seq<YarnValue>, output: YarnValue) -> bool;

    /// Invokes the function on the given arguments, in call order.
    fn call(&self, input: Vec<YarnValue>) -> (r: YarnValue)
        ensures
            self.call_rel(input@, r),
    ;

    /// The kinds of the parameters this function accepts, in order.
    fn parameter_types(&self) -> (r: Vec<Type>)
        ensures
            r@ == self.spec_parameter_types(),
    ;

    /// The kind of the value this function returns.
    fn return_type(&self) -> (r: Type)
        ensures
            r == self.spec_return_type(),
    ;
}

/// The function registry: a mapping from function name to a registered
/// callable.
#[derive(Debug, Clone, PartialEq)]
pub struct Library<F: UntypedYarnFn> {
    /// The registered functions. Names are unique (see [`Library::wf`]).
    pub entries: Vec<(String, F)>,
}

impl<F: UntypedYarnFn> Library<F> {
    /// Registered names are unique.
    pub open spec fn wf(&self) -> bool {
        keys_unique(self.entries@)
    }

    /// The mapping from registered name to callable.
    pub open spec fn functions(&self) -> Map<Seq<char>, F> {
        assoc_map(self.entries@)
    }

    /// An empty registry.
    pub fn new() -> (r: Self)
        ensures
            r.wf(),
            r.functions() == Map::<Seq<char>, F>::empty(),
    {
        Library { entries: Vec::new() }
    }

    /// Registers a function, replacing any function already registered
    /// under the name.
    pub fn add(&mut self, name: String, function: F)
        requires
            old(self).wf(),
        ensures
            final(self).wf(),
            final(self).functions() == old(self).functions().insert(name@, function),
    {
        assoc_set(&mut self.entries, name, function);
    }

    /// Looks a function up by its registered name.
    pub fn get<'a>(&'a self, name: &str) -> (r: Option<&'a F>)
        requires
            self.wf(),
        ensures
            match r {
                Some(f) => self.functions().contains_key(name@) && *f == self.functions()[name@],
                None => !self.functions().contains_key(name@),
            },
    {
        assoc_get(&self.entries, name)
    }

    /// The names of all registered functions, in registration order.
    pub fn names(&self) -> (r: Vec<String>)
        ensures
            r@.len() == self.entries@.len(),
            forall|i: int| 0 <= i < r@.len() ==> r@[i] == self.entries@[i].0,
    {
        let mut names: Vec<String> = Vec::new();
        let mut i: usize = 0;
        while i < self.entries.len()
            invariant
                i <= self.entries@.len(),
                names@.len() == i,
                forall|j: int| 0 <= j < i ==> names@[j] == self.entries@[j].0,
            decreases self.entries@.len() - i,
        {
            names.push(self.entries[i].0.clone());
            i = i + 1;
        }
        names
    }
}

} // verus!
