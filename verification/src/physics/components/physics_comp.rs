//! The physics component: it lets its host fall under gravity and takes
//! forces from messages.
use vstd::prelude::*;
use vstd::std_specs::ops::AddSpec;
use vstd::std_specs::ops::DivSpec;
use vstd::std_specs::ops::MulSpec;
use cgmath::Vector2;
use crate::component::messages::ComponentMessage;
use crate::component::Component;
use crate::messaging::mailbox::Mailbox;
use crate::messaging::traits::Messaging;
use crate::misc_traits::update::Updatable;
use crate::rect::Rect;
use crate::rect::Rectangular;
use crate::scalar::converts;
use crate::scalar::greater;
use crate::scalar::is_greater;
use crate::scalar::lawful;
use crate::scalar::of;
use crate::scalar::ordered;
use crate::scalar::scalar_of;
use crate::scalar::total;
use crate::scalar::Scalar;

verus! {

/// `cgmath::Vector2`: a vector with the two public parts `x` and `y`.
#[verifier::external_type_specification]
#[verifier::reject_recursive_types(S)]
pub struct ExVector2<S>(Vector2<S>);

/// The sum of two vectors, part by part.
pub open spec fn summed<S: Scalar>(a: Vector2<S>, b: Vector2<S>) -> Vector2<S> {
    Vector2 { x: a.x.add_spec(b.x), y: a.y.add_spec(b.y) }
}

/// The vector `v` with each part multiplied by `k`.
pub open spec fn scaled<S: Scalar>(v: Vector2<S>, k: S) -> Vector2<S> {
    Vector2 { x: v.x.mul_spec(k), y: v.y.mul_spec(k) }
}

/// The vector of `k` multiplied by each part of `v`.
pub open spec fn multiplied<S: Scalar>(k: S, v: Vector2<S>) -> Vector2<S> {
    Vector2 { x: k.mul_spec(v.x), y: k.mul_spec(v.y) }
}

/// The vector `v` with each part divided by `k`.
pub open spec fn divided<S: Scalar>(v: Vector2<S>, k: S) -> Vector2<S> {
    Vector2 { x: v.x.div_spec(k), y: v.y.div_spec(k) }
}

/// The vertical coordinate that no host may exceed.
pub open spec fn floor<S: Scalar>() -> S {
    of::<S>(768)
}

/// `ms` milliseconds, in seconds.
pub open spec fn seconds<S: Scalar>(ms: u32) -> S {
    of::<S>(ms).div_spec(of::<S>(1000))
}

/// Half of the acceleration that `gravity` gives: it has no horizontal part.
pub open spec fn half_pull<S: Scalar>(gravity: S) -> Vector2<S> {
    multiplied(of::<S>(1).div_spec(of::<S>(2)), Vector2 { x: of::<S>(0), y: gravity })
}

/// The way made in the time `t` at the velocity `v` while `gravity`
/// accelerates: `v·t + ½·a·t²`.
pub open spec fn distance<S: Scalar>(v: Vector2<S>, gravity: S, t: S) -> Vector2<S> {
    summed(scaled(v, t), scaled(scaled(half_pull(gravity), t), t))
}

/// The velocity after the time `t` under `gravity`: `v + ½·a·t + ½·a·t`.
pub open spec fn velocity_after<S: Scalar>(v: Vector2<S>, gravity: S, t: S) -> Vector2<S> {
    summed(summed(v, scaled(half_pull(gravity), t)), scaled(half_pull(gravity), t))
}

/// The velocity `v` of the mass `mass` after the force `force` has acted on
/// it at once: `v + f / m`.
pub open spec fn pushed<S: Scalar>(v: Vector2<S>, mass: S, force: Vector2<S>) -> Vector2<S> {
    summed(v, divided(force, mass))
}

/// The rectangle moved by `d`.
pub open spec fn moved<S: Scalar>(rect: Rect<S>, d: Vector2<S>) -> Rect<S> {
    rect.at(rect.position.x.add_spec(d.x), rect.position.y.add_spec(d.y))
}

/// The rectangle kept from exceeding the floor: one that is beyond it is put
/// on it.
pub open spec fn held<S: Scalar>(rect: Rect<S>) -> Rect<S> {
    if greater(rect.position.y, floor::<S>()) {
        rect.at(rect.position.x, floor::<S>())
    } else {
        rect
    }
}

/// The sum of two vectors, part by part.
fn sum<S: Scalar>(a: Vector2<S>, b: Vector2<S>) -> (r: Vector2<S>)
    requires
        total::<S>(),
    ensures
        S::obeys_add_spec() ==> r == summed(a, b),
{
    Vector2 { x: a.x + b.x, y: a.y + b.y }
}

/// The vector `v` with each part multiplied by `k`.
fn scale<S: Scalar>(v: Vector2<S>, k: S) -> (r: Vector2<S>)
    requires
        total::<S>(),
    ensures
        S::obeys_mul_spec() ==> r == scaled(v, k),
{
    Vector2 { x: v.x * k, y: v.y * k }
}

/// The vector of `k` multiplied by each part of `v`.
fn multiply<S: Scalar>(k: S, v: Vector2<S>) -> (r: Vector2<S>)
    requires
        total::<S>(),
    ensures
        S::obeys_mul_spec() ==> r == multiplied(k, v),
{
    Vector2 { x: k * v.x, y: k * v.y }
}

/// The vector `v` with each part divided by `k`.
fn divide<S: Scalar>(v: Vector2<S>, k: S) -> (r: Vector2<S>)
    requires
        total::<S>(),
    ensures
        S::obeys_div_spec() ==> r == divided(v, k),
{
    Vector2 { x: v.x / k, y: v.y / k }
}

/// A component that moves its host under gravity. Its mass is in kilograms,
/// its time in milliseconds.
#[derive(Debug)]
#[verifier::reject_recursive_types(S)]
pub struct PhysicsComponent<S: Scalar> {
    pub time_elapsed: u32,
    pub mass: S,
    pub gravity: S,
    pub velocity: Vector2<S>,
    pub acceleration: Vector2<S>,
    pub input_messages: Mailbox<ComponentMessage<S>>,
    pub output_messages: Mailbox<ComponentMessage<S>>,
}

impl<S: Scalar> PhysicsComponent<S> {
    /// A physics component at rest, with nothing in its mailboxes.
    pub fn new(mass: S, gravity: S) -> (component: Component<S>)
        ensures
            component matches Component::PhysicsComponent(physics) && {
                &&& physics.time_elapsed == 0
                &&& physics.mass == mass
                &&& physics.gravity == gravity
                &&& physics.input_messages@ == Seq::<ComponentMessage<S>>::empty()
                &&& physics.output_messages@ == Seq::<ComponentMessage<S>>::empty()
                &&& converts::<S>() ==> physics.velocity == (Vector2 { x: of::<S>(0), y: of::<S>(0) })
                    && physics.acceleration == (Vector2 { x: of::<S>(0), y: of::<S>(0) })
            },
    {
        Component::PhysicsComponent(
            PhysicsComponent {
                time_elapsed: 0,
                mass,
                gravity,
                velocity: Vector2 { x: scalar_of(0), y: scalar_of(0) },
                acceleration: Vector2 { x: scalar_of(0), y: scalar_of(0) },
                input_messages: Mailbox::new(),
                output_messages: Mailbox::new(),
            },
        )
    }

    /// Adds `acc` to the velocity.
    pub fn accelerate(&mut self, acc: Vector2<S>)
        requires
            total::<S>(),
        ensures
            *final(self) == (PhysicsComponent { velocity: final(self).velocity, ..*old(self) }),
            S::obeys_add_spec() ==> final(self).velocity == summed(old(self).velocity, acc),
    {
        self.velocity = sum(self.velocity, acc);
    }

    /// Lets the force `f` act at once: the velocity grows by `f / mass`.
    pub fn apply_force(&mut self, f: Vector2<S>)
        requires
            total::<S>(),
        ensures
            *final(self) == (PhysicsComponent { velocity: final(self).velocity, ..*old(self) }),
            S::obeys_add_spec() && S::obeys_div_spec() ==> final(self).velocity == pushed(
                old(self).velocity,
                old(self).mass,
                f,
            ),
    {
        let a = divide(f, self.mass);
        self.accelerate(a);
    }

    /// Lets gravity act for the time `dt`: the force `gravity · mass · dt`,
    /// which has no horizontal part.
    pub fn apply_gravity(&mut self, dt: S)
        requires
            total::<S>(),
        ensures
            *final(self) == (PhysicsComponent { velocity: final(self).velocity, ..*old(self) }),
            lawful::<S>() ==> final(self).velocity == pushed(
                old(self).velocity,
                old(self).mass,
                Vector2 {
                    x: of::<S>(0),
                    y: old(self).gravity.mul_spec(old(self).mass).mul_spec(dt),
                },
            ),
    {
        let gravity_force = self.gravity * self.mass * dt;
        self.apply_force(Vector2 { x: scalar_of(0), y: gravity_force })
    }

    /// Keeps the host from falling off the screen: a host beyond the floor
    /// is put on it. Its velocity is none of this function's business.
    pub fn apply_constraint(host: &mut Rect<S>)
        ensures
            final(host).size == old(host).size,
            final(host).position.x == old(host).position.x,
            ordered::<S>() && converts::<S>() ==> *final(host) == held(*old(host)),
    {
        if is_greater(host.y(), scalar_of(768)) {
            host.move_ip(None, Some(768u32));
        }
    }
}

impl<S: Scalar> Updatable for PhysicsComponent<S> {
    type Host = Rect<S>;

    open spec fn time_elapsed(&self) -> u32 {
        self.time_elapsed
    }

    open spec fn put_time_elapsed(self, time: u32) -> Self {
        PhysicsComponent { time_elapsed: time, ..self }
    }

    open spec fn delay(&self) -> u32 {
        1
    }

    open spec fn admits(self, steps: u32, host: Rect<S>) -> bool {
        total::<S>()
    }

    /// Only the velocity and the host's position change. With a lawful
    /// scalar the host makes the way of `steps` milliseconds and is then
    /// held by the floor, and the velocity is the one after that time.
    open spec fn internal(
        before: Self,
        steps: u32,
        host_before: Rect<S>,
        after: Self,
        host_after: Rect<S>,
    ) -> bool {
        &&& after == (PhysicsComponent { velocity: after.velocity, ..before })
        &&& host_after.size == host_before.size
        &&& lawful::<S>() ==> {
            &&& after.velocity == velocity_after(before.velocity, before.gravity, seconds(steps))
            &&& host_after == held(
                moved(host_before, distance(before.velocity, before.gravity, seconds(steps))),
            )
        }
    }

    fn get_time_elapsed(&self) -> (time: u32) {
        self.time_elapsed
    }

    fn get_time_elapsed_mut(&mut self) -> (time: &mut u32) {
        assert(old(self).time_elapsed == old(self).time_elapsed());
        &mut self.time_elapsed
    }

    fn get_delay(&self) -> (delay: u32) {
        1
    }

    fn updated_internal(self, dt: u32, host: &mut Rect<S>) -> (updated: Self) {
        let mut updated = self;
        let dt: S = scalar_of::<S>(dt) / scalar_of::<S>(1000);
        let half: S = scalar_of::<S>(1) / scalar_of::<S>(2);
        let a = Vector2 { x: scalar_of(0), y: updated.gravity };
        let mut v = updated.velocity;
        let distance = sum(scale(v, dt), scale(scale(multiply(half, a), dt), dt));
        v = sum(v, scale(multiply(half, a), dt));
        v = sum(v, scale(multiply(half, a), dt));
        updated.velocity = v;
        host.move_by(distance.x, distance.y);
        PhysicsComponent::apply_constraint(host);
        updated
    }
}

impl<S: Scalar> Messaging for PhysicsComponent<S> {
    type Message = ComponentMessage<S>;

    open spec fn inbox(&self) -> Mailbox<ComponentMessage<S>> {
        self.input_messages
    }

    open spec fn put_inbox(self, inbox: Mailbox<ComponentMessage<S>>) -> Self {
        PhysicsComponent { input_messages: inbox, ..self }
    }

    open spec fn outbox(&self) -> Mailbox<ComponentMessage<S>> {
        self.output_messages
    }

    open spec fn put_outbox(self, outbox: Mailbox<ComponentMessage<S>>) -> Self {
        PhysicsComponent { output_messages: outbox, ..self }
    }

    proof fn law_put_inbox(self) {
    }

    proof fn law_put_outbox(self) {
    }

    open spec fn accepts(self, message: ComponentMessage<S>) -> bool {
        total::<S>()
    }

    /// A force changes the velocity and nothing else; with a scalar whose
    /// sums and quotients are lawful the velocity is the pushed one. Any
    /// other message changes nothing.
    open spec fn handles(before: Self, message: ComponentMessage<S>, after: Self) -> bool {
        match message {
            ComponentMessage::PhysicsMessage(p) => {
                &&& after == (PhysicsComponent { velocity: after.velocity, ..before })
                &&& S::obeys_add_spec() && S::obeys_div_spec() ==> after.velocity == pushed(
                    before.velocity,
                    before.mass,
                    Vector2 { x: p.force.0, y: p.force.1 },
                )
            },
            ComponentMessage::Notice(_) => after == before,
        }
    }

    fn input_messages(&mut self) -> (inbox: &mut Mailbox<ComponentMessage<S>>) {
        &mut self.input_messages
    }

    fn output_messages(&mut self) -> (outbox: &mut Mailbox<ComponentMessage<S>>) {
        &mut self.output_messages
    }

    fn handle_message(&mut self, message: ComponentMessage<S>) {
        match message {
            ComponentMessage::PhysicsMessage(p) => {
                self.apply_force(Vector2 { x: p.force.0, y: p.force.1 });
            },
            _ => {},
        }
    }
}

} // verus!
