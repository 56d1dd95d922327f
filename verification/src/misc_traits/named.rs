//! Optional names.
use vstd::prelude::*;

verus! {

/// The characters of an optional name.
pub open spec fn name_view(name: Option<String>) -> Option<Seq<char>> {
    match name {
        Some(name) => Some(name@),
        None => None,
    }
}

/// Anything that may carry a name.
pub trait Named: Sized {
    /// The name, if there is one.
    spec fn name(&self) -> Option<String>;

    /// `self` with its name replaced and nothing else changed.
    spec fn put_name(self, name: Option<String>) -> Self;

    /// The name, if there is one.
    fn get_name(&self) -> (name: &Option<String>)
        ensures
            *name == self.name(),
    ;

    /// The name, to be changed in place.
    fn get_name_mut(&mut self) -> (name: &mut Option<String>)
        ensures
            *name == old(self).name(),
            final(self).name() == *final(name),
            *final(self) == old(self).put_name(*final(name)),
    ;

    /// `self` under the new name `name`.
    fn named(self, name: &str) -> (named: Self)
        ensures
            name_view(named.name()) == Some(name@),
            named == self.put_name(named.name()),
    {
        let mut named = self;
        let slot = named.get_name_mut();
        *slot = Some(name.to_owned());
        named
    }
}

} // verus!
