//! Components: behaviour that is attached to a host and updated every frame.
use vstd::prelude::*;
use crate::component::messages::ComponentMessage;
use crate::graphics::Sprite;
use crate::messaging::mailbox::Mailbox;
use crate::messaging::traits::Messaging;
use crate::misc_traits::update::steps_due;
use crate::misc_traits::update::time_left;
use crate::misc_traits::update::Updatable;
use crate::physics::components::physics_comp::distance;
use crate::physics::components::physics_comp::floor;
use crate::physics::components::physics_comp::held;
use crate::physics::components::physics_comp::moved;
use crate::physics::components::physics_comp::seconds;
use crate::physics::components::physics_comp::velocity_after;
use crate::physics::components::PhysicsComponent;
use crate::rect::Rect;
use crate::rect::Rectangular;
use crate::scalar::greater;
use crate::scalar::lawful;
use crate::scalar::total;
use crate::scalar::Scalar;

pub mod group;
pub mod messages;
pub mod traits;

pub use group::ComponentsGroup;

verus! {

/// A component of one of the kinds that the engine knows.
#[derive(Debug)]
#[verifier::reject_recursive_types(S)]
pub enum Component<S: Scalar> {
    PhysicsComponent(PhysicsComponent<S>),
}

/// Whether a physics component `before`, given `dt` more milliseconds and a
/// host at `host_before`, may become `after` with its host at `host_after`.
///
/// The component steps once for every millisecond that has accumulated, so
/// no time stays accumulated. Besides that only its velocity changes, and of
/// the host only the position. Where no time has accumulated nothing
/// changes at all.
pub open spec fn advanced<S: Scalar>(
    before: PhysicsComponent<S>,
    dt: u32,
    host_before: Rect<S>,
    after: PhysicsComponent<S>,
    host_after: Rect<S>,
) -> bool {
    &&& after == (PhysicsComponent { time_elapsed: 0, velocity: after.velocity, ..before })
    &&& host_after.size == host_before.size
    &&& if before.time_elapsed + dt > 0 {
        lawful::<S>() ==> {
            &&& after.velocity == velocity_after(
                before.velocity,
                before.gravity,
                seconds((before.time_elapsed + dt) as u32),
            )
            &&& host_after == held(
                moved(
                    host_before,
                    distance(
                        before.velocity,
                        before.gravity,
                        seconds((before.time_elapsed + dt) as u32),
                    ),
                ),
            )
        }
    } else {
        after.velocity == before.velocity && host_after == host_before
    }
}

impl<S: Scalar> Component<S> {
    /// The time that the component has accumulated.
    pub open spec fn time_elapsed(self) -> u32 {
        match self {
            Component::PhysicsComponent(p) => p.time_elapsed,
        }
    }

    /// The component after `dt` more milliseconds. It may move `host`, and
    /// changes nothing else of it.
    pub fn updated<T>(self, dt: u32, host: &mut Sprite<S, T>) -> (updated: Component<S>)
        requires
            total::<S>(),
            self.time_elapsed() + dt <= u32::MAX,
        ensures
            *final(host) == (Sprite { rect: final(host).rect, ..*old(host) }),
            match (self, updated) {
                (Component::PhysicsComponent(before), Component::PhysicsComponent(after)) => advanced(
                    before,
                    dt,
                    old(host).rect,
                    after,
                    final(host).rect,
                ),
            },
    {
        match self {
            Component::PhysicsComponent(p) => {
                proof {
                    let total_time = p.time_elapsed + dt;
                    assert(time_left(total_time, 1) == 0);
                    assert(steps_due(total_time, 1) == total_time);
                }
                let rect = host.get_rect_mut();
                Component::PhysicsComponent(p.updated(dt, rect))
            },
        }
    }
}

impl<S: Scalar> Messaging for Component<S> {
    type Message = ComponentMessage<S>;

    open spec fn inbox(&self) -> Mailbox<ComponentMessage<S>> {
        match *self {
            Component::PhysicsComponent(p) => p.input_messages,
        }
    }

    open spec fn put_inbox(self, inbox: Mailbox<ComponentMessage<S>>) -> Self {
        match self {
            Component::PhysicsComponent(p) => Component::PhysicsComponent(p.put_inbox(inbox)),
        }
    }

    open spec fn outbox(&self) -> Mailbox<ComponentMessage<S>> {
        match *self {
            Component::PhysicsComponent(p) => p.output_messages,
        }
    }

    open spec fn put_outbox(self, outbox: Mailbox<ComponentMessage<S>>) -> Self {
        match self {
            Component::PhysicsComponent(p) => Component::PhysicsComponent(p.put_outbox(outbox)),
        }
    }

    proof fn law_put_inbox(self) {
    }

    proof fn law_put_outbox(self) {
    }

    open spec fn accepts(self, message: ComponentMessage<S>) -> bool {
        match self {
            Component::PhysicsComponent(p) => p.accepts(message),
        }
    }

    /// A component handles a message as its kind does.
    open spec fn handles(before: Self, message: ComponentMessage<S>, after: Self) -> bool {
        match (before, after) {
            (
                Component::PhysicsComponent(before),
                Component::PhysicsComponent(after),
            ) => PhysicsComponent::handles(before, message, after),
        }
    }

    fn input_messages(&mut self) -> (inbox: &mut Mailbox<ComponentMessage<S>>) {
        match self {
            Component::PhysicsComponent(p) => p.input_messages(),
        }
    }

    fn output_messages(&mut self) -> (outbox: &mut Mailbox<ComponentMessage<S>>) {
        match self {
            Component::PhysicsComponent(p) => p.output_messages(),
        }
    }

    fn handle_message(&mut self, message: ComponentMessage<S>) {
        match self {
            Component::PhysicsComponent(p) => p.handle_message(message),
        }
    }
}

/// An update is a function of the component, the time and the host: with a
/// lawful scalar, two updates of the same component over the same time with
/// the same host end in the same component and the same host.
pub proof fn lemma_update_is_determined<S: Scalar>(
    before: PhysicsComponent<S>,
    dt: u32,
    host: Rect<S>,
    first: PhysicsComponent<S>,
    first_host: Rect<S>,
    second: PhysicsComponent<S>,
    second_host: Rect<S>,
)
    requires
        lawful::<S>(),
        advanced(before, dt, host, first, first_host),
        advanced(before, dt, host, second, second_host),
    ensures
        first == second,
        first_host == second_host,
{
}

/// A host that an update would move beyond the floor ends on the floor,
/// where it was horizontally moved to, and the component still has the
/// velocity that the update gave it: the floor stops the host, not the
/// component.
pub proof fn lemma_floor_holds_the_host<S: Scalar>(
    before: PhysicsComponent<S>,
    dt: u32,
    host: Rect<S>,
    after: PhysicsComponent<S>,
    host_after: Rect<S>,
)
    requires
        lawful::<S>(),
        before.time_elapsed + dt > 0,
        advanced(before, dt, host, after, host_after),
        greater(
            moved(
                host,
                distance(before.velocity, before.gravity, seconds((before.time_elapsed + dt) as u32)),
            ).position.y,
            floor::<S>(),
        ),
    ensures
        host_after.position.y == floor::<S>(),
        host_after.position.x == moved(
            host,
            distance(before.velocity, before.gravity, seconds((before.time_elapsed + dt) as u32)),
        ).position.x,
        host_after.size == host.size,
        after.velocity == velocity_after(
            before.velocity,
            before.gravity,
            seconds((before.time_elapsed + dt) as u32),
        ),
{
}

/// A host that an update does not move beyond the floor ends where the
/// update moved it.
pub proof fn lemma_floor_lets_the_host_pass<S: Scalar>(
    before: PhysicsComponent<S>,
    dt: u32,
    host: Rect<S>,
    after: PhysicsComponent<S>,
    host_after: Rect<S>,
)
    requires
        lawful::<S>(),
        before.time_elapsed + dt > 0,
        advanced(before, dt, host, after, host_after),
        !greater(
            moved(
                host,
                distance(before.velocity, before.gravity, seconds((before.time_elapsed + dt) as u32)),
            ).position.y,
            floor::<S>(),
        ),
    ensures
        host_after == moved(
            host,
            distance(before.velocity, before.gravity, seconds((before.time_elapsed + dt) as u32)),
        ),
{
}

} // verus!
