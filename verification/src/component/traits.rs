//! Hosts of components.
use vstd::prelude::*;
use crate::component::group::ComponentsGroup;
use crate::component::messages::ComponentMessage;
use crate::component::Component;
use crate::group::populated;
use crate::scalar::Scalar;

verus! {

/// Whether giving `components` to a host whose components were `before`
/// leaves it with the components `after`: a group that was there has them
/// appended, and where there was none they form a new group.
pub open spec fn composed<S: Scalar>(
    before: Option<ComponentsGroup<S>>,
    components: Seq<Component<S>>,
    after: Option<ComponentsGroup<S>>,
) -> bool {
    after matches Some(after) && match before {
        Some(before) => {
            &&& after == (ComponentsGroup { group: after.group, ..before })
            &&& after.group.elements@ == before.group.elements@ + populated(components)
        },
        None => {
            &&& after.group.elements@ == populated(components)
            &&& after.input_messages@ == Seq::<ComponentMessage<S>>::empty()
            &&& after.output_messages@ == Seq::<ComponentMessage<S>>::empty()
        },
    }
}

/// Anything that may host a group of components.
pub trait Composite<S: Scalar>: Sized {
    /// The group of components, if there is one.
    spec fn components(&self) -> Option<ComponentsGroup<S>>;

    /// `self` with its group of components replaced and nothing else
    /// changed.
    spec fn put_components(self, components: Option<ComponentsGroup<S>>) -> Self;

    /// The group of components, if there is one.
    fn get_components(&self) -> (components: &Option<ComponentsGroup<S>>)
        ensures
            *components == self.components(),
    ;

    /// The group of components, to be changed in place.
    fn get_components_mut(&mut self) -> (components: &mut Option<ComponentsGroup<S>>)
        ensures
            *components == old(self).components(),
            final(self).components() == *final(components),
            *final(self) == old(self).put_components(*final(components)),
    ;

    /// `self` with `components` added to the ones it hosts.
    fn with_components(self, components: Vec<Component<S>>) -> (host: Self)
        ensures
            host == self.put_components(host.components()),
            composed(self.components(), components@, host.components()),
    {
        let mut host = self;
        let components_gr = host.get_components_mut();
        match components_gr {
            Some(group) => group.append(components),
            None => {
                *components_gr = Some(ComponentsGroup::from(components));
            },
        }
        host
    }

    /// `self` with `component` added to the ones it hosts.
    fn with_component(self, component: Component<S>) -> (host: Self)
        ensures
            host == self.put_components(host.components()),
            composed(self.components(), seq![component], host.components()),
    {
        let mut host = self;
        let components_gr = host.get_components_mut();
        match components_gr {
            Some(group) => {
                let ghost before = group.group.elements@;
                group.push(component);
                proof {
                    assert(populated(seq![component]) =~= seq![Some(component)]);
                    assert(before.push(Some(component)) =~= before + seq![Some(component)]);
                }
            },
            None => {
                let mut components: Vec<Component<S>> = Vec::new();
                components.push(component);
                assert(components@ == seq![component]);
                *components_gr = Some(ComponentsGroup::from(components));
            },
        }
        host
    }
}

} // verus!
