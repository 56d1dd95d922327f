//! The components of one host, and the tick that runs them.
//!
//! A tick has two phases. First every component is updated and what it has
//! to say is collected. Then every component is given all of what was
//! collected and handles it. So no component sees, within a tick, a message
//! that was sent while the messages of that tick were handled, and every
//! component is told the same, whatever its place in the group.
use vstd::prelude::*;
use vstd::std_specs::ops::AddSpec;
use vstd::std_specs::ops::DivSpec;
use cgmath::Vector2;
use crate::component::advanced;
use crate::component::messages::ComponentMessage;
use crate::component::Component;
use crate::graphics::Sprite;
use crate::group::populated;
use crate::group::Group;
use crate::group::SomeGroup;
use crate::messaging::mailbox::Mailbox;
use crate::messaging::traits::handled_in_turn;
use crate::messaging::traits::Messaging;
use crate::physics::components::physics_comp::distance;
use crate::physics::components::physics_comp::held;
use crate::physics::components::physics_comp::moved;
use crate::physics::components::physics_comp::pushed;
use crate::physics::components::physics_comp::seconds;
use crate::physics::components::physics_comp::velocity_after;
use crate::physics::components::PhysicsComponent;
use crate::rect::Rect;
use crate::scalar::lawful;
use crate::scalar::total;
use crate::scalar::Scalar;

verus! {

/// The components of one host, with mailboxes of the group's own.
#[derive(Debug)]
#[verifier::reject_recursive_types(S)]
pub struct ComponentsGroup<S: Scalar> {
    pub group: Group<Component<S>>,
    pub input_messages: Mailbox<ComponentMessage<S>>,
    pub output_messages: Mailbox<ComponentMessage<S>>,
}

/// What the component in `slot` has to say: its outgoing messages, oldest
/// first. An empty slot has nothing to say.
pub open spec fn outgoing<S: Scalar>(slot: Option<Component<S>>) -> Seq<ComponentMessage<S>> {
    match slot {
        Some(component) => component.outbox()@,
        None => Seq::empty(),
    }
}

/// What a tick collects from `slots`: the outgoing messages of every
/// component, the last slot's first, and each component's in their order.
pub open spec fn collected<S: Scalar>(slots: Seq<Option<Component<S>>>) -> Seq<
    ComponentMessage<S>,
>
    decreases slots.len(),
{
    if slots.len() == 0 {
        Seq::empty()
    } else {
        collected(slots.drop_first()) + outgoing(slots.first())
    }
}

/// The velocity `v` of the mass `mass` after `message`: a force pushes, and
/// any other message changes nothing.
pub open spec fn after_message<S: Scalar>(
    v: Vector2<S>,
    mass: S,
    message: ComponentMessage<S>,
) -> Vector2<S> {
    match message {
        ComponentMessage::PhysicsMessage(p) => pushed(
            v,
            mass,
            Vector2 { x: p.force.0, y: p.force.1 },
        ),
        ComponentMessage::Notice(_) => v,
    }
}

/// The velocity `v` of the mass `mass` after `messages`, oldest first.
pub open spec fn after_messages<S: Scalar>(
    v: Vector2<S>,
    mass: S,
    messages: Seq<ComponentMessage<S>>,
) -> Vector2<S>
    decreases messages.len(),
{
    if messages.len() == 0 {
        v
    } else {
        after_messages(after_message(v, mass, messages[0]), mass, messages.drop_first())
    }
}

/// The velocity of a physics component after it has been given `dt` more
/// milliseconds.
pub open spec fn velocity_updated<S: Scalar>(before: PhysicsComponent<S>, dt: u32) -> Vector2<S> {
    if before.time_elapsed + dt > 0 {
        velocity_after(before.velocity, before.gravity, seconds((before.time_elapsed + dt) as u32))
    } else {
        before.velocity
    }
}

/// Where the update of the component in `slot` over `dt` milliseconds puts a
/// host that was at `host`.
pub open spec fn moved_by_slot<S: Scalar>(slot: Option<Component<S>>, dt: u32, host: Rect<S>) -> Rect<
    S,
> {
    match slot {
        Some(Component::PhysicsComponent(p)) => if p.time_elapsed + dt > 0 {
            held(moved(host, distance(p.velocity, p.gravity, seconds((p.time_elapsed + dt) as u32))))
        } else {
            host
        },
        None => host,
    }
}

/// Where a tick of `dt` milliseconds puts a host that was at `host`: every
/// component moves it in turn, the last slot's first.
pub open spec fn moved_by_all<S: Scalar>(slots: Seq<Option<Component<S>>>, dt: u32, host: Rect<S>) -> Rect<
    S,
>
    decreases slots.len(),
{
    if slots.len() == 0 {
        host
    } else {
        moved_by_slot(slots.first(), dt, moved_by_all(slots.drop_first(), dt, host))
    }
}

/// Whether a tick of `dt` milliseconds in which `broadcast` was collected
/// may turn the component `before` into `after`.
///
/// The component is updated, has said all it had to say, and has handled
/// what waited for it and then all of `broadcast`. With a lawful scalar its
/// velocity is the updated one after all those messages.
pub open spec fn ticked<S: Scalar>(
    before: Component<S>,
    dt: u32,
    broadcast: Seq<ComponentMessage<S>>,
    after: Component<S>,
) -> bool {
    match (before, after) {
        (Component::PhysicsComponent(before), Component::PhysicsComponent(after)) => {
            &&& after.time_elapsed == 0
            &&& after.mass == before.mass
            &&& after.gravity == before.gravity
            &&& after.acceleration == before.acceleration
            &&& after.input_messages@ == Seq::<ComponentMessage<S>>::empty()
            &&& after.output_messages@ == Seq::<ComponentMessage<S>>::empty()
            &&& lawful::<S>() ==> after.velocity == after_messages(
                velocity_updated(before, dt),
                before.mass,
                before.input_messages@ + broadcast,
            )
        },
    }
}

/// Whether the first phase of a tick may turn the component `before` into
/// `after` and move the host from `host_before` to `host_after`: the
/// component is updated and has said all it had to say.
pub open spec fn updated_and_collected<S: Scalar>(
    before: Component<S>,
    dt: u32,
    host_before: Rect<S>,
    after: Component<S>,
    host_after: Rect<S>,
) -> bool {
    match (before, after) {
        (Component::PhysicsComponent(before), Component::PhysicsComponent(after)) => {
            &&& after.output_messages@ == Seq::<ComponentMessage<S>>::empty()
            &&& advanced(
                before,
                dt,
                host_before,
                PhysicsComponent { output_messages: before.output_messages, ..after },
                host_after,
            )
        },
    }
}

/// Whether the first phase of a tick may turn the component `before` into
/// `after`, whatever it does to the host.
pub open spec fn after_first_phase<S: Scalar>(before: Component<S>, dt: u32, after: Component<S>) -> bool {
    match (before, after) {
        (Component::PhysicsComponent(before), Component::PhysicsComponent(after)) => {
            &&& after == (PhysicsComponent {
                time_elapsed: 0,
                velocity: after.velocity,
                output_messages: after.output_messages,
                ..before
            })
            &&& after.output_messages@ == Seq::<ComponentMessage<S>>::empty()
            &&& lawful::<S>() ==> after.velocity == velocity_updated(before, dt)
        },
    }
}

/// Whether the second phase of a tick in which `broadcast` was collected may
/// turn the component `before` into `after`: it has handled what waited for
/// it and then all of `broadcast`.
pub open spec fn told<S: Scalar>(
    before: Component<S>,
    broadcast: Seq<ComponentMessage<S>>,
    after: Component<S>,
) -> bool {
    match (before, after) {
        (Component::PhysicsComponent(before), Component::PhysicsComponent(after)) => {
            &&& after == (PhysicsComponent {
                velocity: after.velocity,
                input_messages: after.input_messages,
                ..before
            })
            &&& after.input_messages@ == Seq::<ComponentMessage<S>>::empty()
            &&& S::obeys_add_spec() && S::obeys_div_spec() ==> after.velocity == after_messages(
                before.velocity,
                before.mass,
                before.input_messages@ + broadcast,
            )
        },
    }
}

/// Whether a tick of `dt` milliseconds may turn the group `before` into
/// `after` and move its host from `host_before` to `host_after`.
///
/// The group keeps its slots and its own mailboxes. Every component is
/// ticked with the messages collected from all of them. The host keeps its
/// size, and with a lawful scalar it is where the components have moved it
/// in turn.
pub open spec fn ticks<S: Scalar>(
    before: ComponentsGroup<S>,
    dt: u32,
    host_before: Rect<S>,
    after: ComponentsGroup<S>,
    host_after: Rect<S>,
) -> bool {
    &&& after.input_messages == before.input_messages
    &&& after.output_messages == before.output_messages
    &&& after.group.elements@.len() == before.group.elements@.len()
    &&& forall|i: int|
        0 <= i < before.group.elements@.len() ==> match #[trigger] before.group.elements@[i] {
            Some(component) => after.group.elements@[i] matches Some(ticked_component) && ticked(
                component,
                dt,
                collected(before.group.elements@),
                ticked_component,
            ),
            None => after.group.elements@[i] is None,
        }
    &&& host_after.size == host_before.size
    &&& lawful::<S>() ==> host_after == moved_by_all(before.group.elements@, dt, host_before)
}

/// What a tick collects holds what every component has to say, in the
/// component's own order: the outgoing messages of the component in slot
/// `a` are a stretch of what is collected.
pub proof fn lemma_collected_holds_every_outbox<S: Scalar>(
    slots: Seq<Option<Component<S>>>,
    a: int,
) -> (offset: int)
    requires
        0 <= a < slots.len(),
    ensures
        0 <= offset,
        offset + outgoing(slots[a]).len() <= collected(slots).len(),
        collected(slots).subrange(offset, offset + outgoing(slots[a]).len()) == outgoing(slots[a]),
    decreases slots.len(),
{
    let rest = slots.drop_first();
    if a == 0 {
        let offset = collected(rest).len() as int;
        assert(collected(slots).subrange(offset, offset + outgoing(slots[0]).len()) =~= outgoing(
            slots[0],
        ));
        offset
    } else {
        let offset = lemma_collected_holds_every_outbox(rest, a - 1);
        assert(rest[a - 1] == slots[a]);
        assert(collected(slots).subrange(offset, offset + outgoing(slots[a]).len())
            =~= collected(rest).subrange(offset, offset + outgoing(slots[a]).len()));
        offset
    }
}

/// Where no component has anything to say, a tick collects nothing.
pub proof fn lemma_nothing_said_nothing_collected<S: Scalar>(slots: Seq<Option<Component<S>>>)
    requires
        forall|i: int| 0 <= i < slots.len() ==> outgoing(#[trigger] slots[i]).len() == 0,
    ensures
        collected(slots) == Seq::<ComponentMessage<S>>::empty(),
    decreases slots.len(),
{
    if slots.len() > 0 {
        let rest = slots.drop_first();
        assert forall|i: int| 0 <= i < rest.len() implies outgoing(#[trigger] rest[i]).len()
            == 0 by {
            assert(rest[i] == slots[i + 1]);
        }
        lemma_nothing_said_nothing_collected(rest);
        assert(outgoing(slots.first()) =~= Seq::<ComponentMessage<S>>::empty());
        assert(collected(slots) =~= Seq::<ComponentMessage<S>>::empty());
    }
}

/// A message is delivered in the tick in which it is collected, and not
/// before. When the component in slot `a` has something to say at the start
/// of a tick, the component in any slot `b` handles all of it in that tick,
/// in the order in which it was said, with all that the other components
/// had to say. What is said after the tick has started waits for the next
/// one: the tick delivers what waited when it started and nothing else, and
/// after the tick none of that waits any longer.
pub proof fn lemma_tick_delivers_what_waited<S: Scalar>(
    before: ComponentsGroup<S>,
    dt: u32,
    host_before: Rect<S>,
    after: ComponentsGroup<S>,
    host_after: Rect<S>,
    a: int,
    b: int,
) -> (offset: int)
    requires
        ticks(before, dt, host_before, after, host_after),
        0 <= a < before.group.elements@.len(),
        0 <= b < before.group.elements@.len(),
        before.group.elements@[b] is Some,
    ensures
        0 <= offset,
        offset + outgoing(before.group.elements@[a]).len() <= collected(
            before.group.elements@,
        ).len(),
        collected(before.group.elements@).subrange(
            offset,
            offset + outgoing(before.group.elements@[a]).len(),
        ) == outgoing(before.group.elements@[a]),
        after.group.elements@[b] matches Some(told) && ticked(
            before.group.elements@[b]->0,
            dt,
            collected(before.group.elements@),
            told,
        ),
        collected(after.group.elements@) == Seq::<ComponentMessage<S>>::empty(),
{
    let offset = lemma_collected_holds_every_outbox(before.group.elements@, a);
    assert forall|i: int| 0 <= i < after.group.elements@.len() implies outgoing(
        #[trigger] after.group.elements@[i],
    ).len() == 0 by {
        match before.group.elements@[i] {
            Some(component) => {},
            None => {},
        }
    }
    lemma_nothing_said_nothing_collected(after.group.elements@);
    offset
}

/// Whether two components are alike in all that a tick determines: their
/// numbers and what waits in their mailboxes.
pub open spec fn alike<S: Scalar>(first: Component<S>, second: Component<S>) -> bool {
    match (first, second) {
        (Component::PhysicsComponent(first), Component::PhysicsComponent(second)) => {
            &&& first.time_elapsed == second.time_elapsed
            &&& first.mass == second.mass
            &&& first.gravity == second.gravity
            &&& first.velocity == second.velocity
            &&& first.acceleration == second.acceleration
            &&& first.input_messages@ == second.input_messages@
            &&& first.output_messages@ == second.output_messages@
        },
    }
}

/// A tick is a function of the group, the time and the host: with a lawful
/// scalar, two ticks of the same group over the same time with the same host
/// leave the host in the same place and the components alike, slot by slot.
pub proof fn lemma_tick_is_determined<S: Scalar>(
    before: ComponentsGroup<S>,
    dt: u32,
    host_before: Rect<S>,
    first: ComponentsGroup<S>,
    first_host: Rect<S>,
    second: ComponentsGroup<S>,
    second_host: Rect<S>,
)
    requires
        lawful::<S>(),
        ticks(before, dt, host_before, first, first_host),
        ticks(before, dt, host_before, second, second_host),
    ensures
        first_host == second_host,
        first.group.elements@.len() == second.group.elements@.len(),
        forall|i: int|
            0 <= i < first.group.elements@.len() ==> match (
                #[trigger] first.group.elements@[i],
                second.group.elements@[i],
            ) {
                (Some(first), Some(second)) => alike(first, second),
                (None, None) => true,
                _ => false,
            },
{
    assert forall|i: int| 0 <= i < first.group.elements@.len() implies match (
        #[trigger] first.group.elements@[i],
        second.group.elements@[i],
    ) {
        (Some(first), Some(second)) => alike(first, second),
        (None, None) => true,
        _ => false,
    } by {
        match before.group.elements@[i] {
            Some(component) => {},
            None => {},
        }
    }
}

/// A run of handling takes one message after the other from the front of
/// the mailbox: between any state of the run and its last, the velocity
/// changes as the messages taken in between say, and nothing else does.
proof fn lemma_run_follows_the_mailbox<S: Scalar>(run: Seq<Component<S>>, from: int)
    requires
        handled_in_turn(run),
        0 <= from < run.len(),
    ensures
        ({
            let left = run.len() - 1 - from;
            match (run[from], run.last()) {
                (Component::PhysicsComponent(before), Component::PhysicsComponent(after)) => {
                    &&& after == (PhysicsComponent {
                        velocity: after.velocity,
                        input_messages: after.input_messages,
                        ..before
                    })
                    &&& left <= before.input_messages@.len()
                    &&& after.input_messages@ == before.input_messages@.skip(left)
                    &&& S::obeys_add_spec() && S::obeys_div_spec() ==> after.velocity
                        == after_messages(
                        before.velocity,
                        before.mass,
                        before.input_messages@.take(left),
                    )
                },
            }
        }),
    decreases run.len() - from,
{
    let left = run.len() - 1 - from;
    match (run[from], run.last()) {
        (Component::PhysicsComponent(before), Component::PhysicsComponent(after)) => {
            if from == run.len() - 1 {
                assert(before.input_messages@.skip(0) == before.input_messages@);
                assert(before.input_messages@.take(0).len() == 0);
            } else {
                lemma_run_follows_the_mailbox(run, from + 1);
                let waiting = before.input_messages@;
                let rest = choose|rest: Mailbox<ComponentMessage<S>>|
                    {
                        &&& rest@ == run[from].inbox()@.drop_first()
                        &&& #[trigger] Component::handles(
                            run[from].put_inbox(rest),
                            run[from].inbox()@[0],
                            run[from + 1],
                        )
                    };
                match run[from + 1] {
                    Component::PhysicsComponent(next) => {
                        assert(next.input_messages == rest);
                        assert(waiting.drop_first().skip(left - 1) == waiting.skip(left));
                        assert(waiting.take(left).drop_first() == waiting.drop_first().take(
                            left - 1,
                        ));
                        assert(waiting.take(left)[0] == waiting[0]);
                    },
                }
            }
        },
    }
}

/// A run of handling that goes on until nothing waits, or for as many
/// messages as waited at first, handles exactly the messages that waited at
/// first.
proof fn lemma_handled_to_the_end<S: Scalar>(before: Component<S>, after: Component<S>)
    requires
        exists|run: Seq<Component<S>>|
            {
                &&& 1 <= run.len() <= before.inbox()@.len() + 1
                &&& run[0] == before
                &&& #[trigger] run.last() == after
                &&& run.len() == before.inbox()@.len() + 1 || after.inbox()@.len() == 0
                &&& handled_in_turn(run)
            },
    ensures
        match (before, after) {
            (Component::PhysicsComponent(before), Component::PhysicsComponent(after)) => {
                &&& after == (PhysicsComponent {
                    velocity: after.velocity,
                    input_messages: after.input_messages,
                    ..before
                })
                &&& after.input_messages@ == Seq::<ComponentMessage<S>>::empty()
                &&& S::obeys_add_spec() && S::obeys_div_spec() ==> after.velocity
                    == after_messages(before.velocity, before.mass, before.input_messages@)
            },
        },
{
    let run = choose|run: Seq<Component<S>>|
        {
            &&& 1 <= run.len() <= before.inbox()@.len() + 1
            &&& run[0] == before
            &&& #[trigger] run.last() == after
            &&& run.len() == before.inbox()@.len() + 1 || after.inbox()@.len() == 0
            &&& handled_in_turn(run)
        };
    lemma_run_follows_the_mailbox(run, 0);
    let waiting = before.inbox()@;
    assert(run.len() - 1 == waiting.len());
    assert(waiting.take(waiting.len() as int) == waiting);
    assert(waiting.skip(waiting.len() as int) == Seq::<ComponentMessage<S>>::empty());
}

impl<S: Scalar> ComponentsGroup<S> {
    /// A group without components and with nothing in its mailboxes.
    pub fn new() -> (group: Self)
        ensures
            group.group.elements@ == Seq::<Option<Component<S>>>::empty(),
            group.input_messages@ == Seq::<ComponentMessage<S>>::empty(),
            group.output_messages@ == Seq::<ComponentMessage<S>>::empty(),
    {
        ComponentsGroup {
            group: Group::new(),
            input_messages: Mailbox::new(),
            output_messages: Mailbox::new(),
        }
    }

    /// A group of the given components, in the order given, with nothing in
    /// its mailboxes.
    pub fn from(elements: Vec<Component<S>>) -> (group: Self)
        ensures
            group.group.elements@ == populated(elements@),
            group.input_messages@ == Seq::<ComponentMessage<S>>::empty(),
            group.output_messages@ == Seq::<ComponentMessage<S>>::empty(),
    {
        ComponentsGroup {
            group: Group::from(elements),
            input_messages: Mailbox::new(),
            output_messages: Mailbox::new(),
        }
    }

    /// Whether every component can take `dt` more milliseconds without its
    /// accumulated time leaving the range of `u32`.
    pub open spec fn has_time_for(self, dt: u32) -> bool {
        forall|i: int|
            0 <= i < self.group.elements@.len() ==> (
            #[trigger] self.group.elements@[i] matches Some(component) ==> component.time_elapsed()
                + dt <= u32::MAX)
    }

    /// Whether every component can take `dt` more milliseconds without its
    /// accumulated time leaving the range of `u32`, so that a tick of `dt`
    /// milliseconds can be run.
    pub fn can_update(&self, dt: u32) -> (can: bool)
        ensures
            can == self.has_time_for(dt),
    {
        let slots = self.group.get_elements();
        let mut i: usize = 0;
        while i < slots.len()
            invariant
                i <= slots.len(),
                slots@ == self.group.elements@,
                forall|j: int|
                    0 <= j < i ==> (#[trigger] slots@[j] matches Some(component)
                        ==> component.time_elapsed() + dt <= u32::MAX),
            decreases slots.len() - i,
        {
            match &slots[i] {
                Some(Component::PhysicsComponent(p)) => {
                    if p.time_elapsed > u32::MAX - dt {
                        return false;
                    }
                },
                None => {},
            }
            i = i + 1;
        }
        true
    }

    /// Updates a component for the first phase of a tick and collects in
    /// `sent` what it has to say.
    fn update_and_collect<T>(
        component: Component<S>,
        dt: u32,
        host: &mut Sprite<S, T>,
        sent: &mut Vec<ComponentMessage<S>>,
    ) -> (after: Component<S>)
        requires
            total::<S>(),
            component.time_elapsed() + dt <= u32::MAX,
        ensures
            *final(host) == (Sprite { rect: final(host).rect, ..*old(host) }),
            updated_and_collected(component, dt, old(host).rect, after, final(host).rect),
            final(sent)@ == old(sent)@ + outgoing(Some(component)),
    {
        let mut c = component.updated(dt, host);
        let ghost updated = c;
        proof {
            c.law_put_outbox();
        }
        let messages_len: usize = c.output_messages().size();
        let mut i: usize = 0;
        while i < messages_len
            invariant
                i <= messages_len,
                messages_len == updated.outbox()@.len(),
                c == updated.put_outbox(c.outbox()),
                c.outbox()@ == updated.outbox()@.skip(i as int),
                sent@ == old(sent)@ + updated.outbox()@.take(i as int),
            decreases messages_len - i,
        {
            let ghost before = c;
            let message = c.output_messages().remove().unwrap();
            sent.push(message);
            proof {
                let waiting = updated.outbox()@;
                assert(waiting.skip(i as int).drop_first() == waiting.skip(i + 1));
                assert(waiting.take(i as int).push(waiting[i as int]) == waiting.take(i + 1));
                assert(c == updated.put_outbox(c.outbox()));
            }
            i = i + 1;
        }
        proof {
            let waiting = updated.outbox()@;
            assert(waiting.take(messages_len as int) == waiting);
            assert(c.outbox()@ == Seq::<ComponentMessage<S>>::empty());
        }
        c
    }

    /// Gives a component all of `messages`, for the second phase of a tick.
    fn receive_all(component: Component<S>, messages: &Vec<ComponentMessage<S>>) -> (after:
        Component<S>)
        ensures
            after == component.put_inbox(after.inbox()),
            after.inbox()@ == component.inbox()@ + messages@,
    {
        let mut c = component;
        proof {
            component.law_put_inbox();
            assert(component.inbox()@ + messages@.take(0) == component.inbox()@);
        }
        let mut i: usize = 0;
        while i < messages.len()
            invariant
                i <= messages.len(),
                c == component.put_inbox(c.inbox()),
                c.inbox()@ == component.inbox()@ + messages@.take(i as int),
            decreases messages.len() - i,
        {
            c.reveive_msg(messages[i]);
            proof {
                assert((component.inbox()@ + messages@.take(i as int)).push(messages@[i as int])
                    == component.inbox()@ + messages@.take(i + 1));
            }
            i = i + 1;
        }
        proof {
            assert(messages@.take(messages@.len() as int) == messages@);
        }
        c
    }

    /// Lets a component handle everything that waits for it, for the second
    /// phase of a tick.
    fn handle_all(component: Component<S>) -> (after: Component<S>)
        requires
            total::<S>(),
        ensures
            told(component, Seq::empty(), after),
    {
        let mut c = component;
        c.handle_messages();
        proof {
            lemma_handled_to_the_end(component, c);
            assert(component.inbox()@ + Seq::<ComponentMessage<S>>::empty() == component.inbox()@);
        }
        c
    }

    /// Gives a component all of `messages` and lets it handle what waits
    /// for it, for the second phase of a tick.
    fn tell(component: Component<S>, messages: &Vec<ComponentMessage<S>>) -> (after: Component<S>)
        requires
            total::<S>(),
        ensures
            told(component, messages@, after),
    {
        let received = ComponentsGroup::receive_all(component, messages);
        ComponentsGroup::handle_all(received)
    }

    /// Runs one tick of `dt` milliseconds for the components of `host`.
    ///
    /// In the first phase every component, from the last slot to the first,
    /// is taken out of its slot, updated, which may move `host`, relieved of
    /// its outgoing messages, and put back. In the second phase every
    /// component is given all the messages collected in the first, handles
    /// what waits for it, and is put back. The group's own mailboxes are not
    /// touched, and of `host` only the position can change.
    pub fn updated<T>(self, dt: u32, host: Sprite<S, T>) -> (updated: (
        ComponentsGroup<S>,
        Sprite<S, T>,
    ))
        requires
            total::<S>(),
            self.has_time_for(dt),
        ensures
            ticks(self, dt, host.rect, updated.0, updated.1.rect),
            updated.1 == (Sprite { rect: updated.1.rect, ..host }),
    {
        let mut group = self;
        let mut host = host;
        let ghost arrived = host;
        let ghost before = group.group.elements@;
        let mut output_messages: Vec<ComponentMessage<S>> = Vec::new();
        let slots = &mut group.group.elements;
        let mut i: usize = slots.len();
        proof {
            assert(before.skip(before.len() as int) == Seq::<Option<Component<S>>>::empty());
        }
        while i > 0
            invariant
                total::<S>(),
                self.has_time_for(dt),
                before == self.group.elements@,
                i <= before.len(),
                slots@.len() == before.len(),
                forall|j: int| 0 <= j < i ==> slots@[j] == before[j],
                forall|j: int|
                    i <= j < before.len() ==> match #[trigger] before[j] {
                        Some(component) => slots@[j] matches Some(after) && after_first_phase(
                            component,
                            dt,
                            after,
                        ),
                        None => slots@[j] is None,
                    },
                host == (Sprite { rect: host.rect, ..arrived }),
                host.rect.size == arrived.rect.size,
                lawful::<S>() ==> host.rect == moved_by_all(before.skip(i as int), dt, arrived.rect),
                output_messages@ == collected(before.skip(i as int)),
            decreases i,
        {
            i = i - 1;
            proof {
                assert(before.skip(i as int).first() == before[i as int]);
                assert(before.skip(i as int).drop_first() == before.skip(i + 1));
                assert(slots@[i as int] == before[i as int]);
            }
            let slot = &mut slots[i];
            match slot.take() {
                Some(component) => {
                    let c = ComponentsGroup::update_and_collect(
                        component,
                        dt,
                        &mut host,
                        &mut output_messages,
                    );
                    *slot = Some(c);
                },
                None => {
                    proof {
                        assert(output_messages@ + Seq::<ComponentMessage<S>>::empty()
                            == output_messages@);
                    }
                },
            }
        }
        let ghost halfway = slots@;
        proof {
            assert(before.skip(0) == before);
        }
        let mut i: usize = slots.len();
        while i > 0
            invariant
                total::<S>(),
                i <= halfway.len(),
                slots@.len() == halfway.len(),
                forall|j: int| 0 <= j < i ==> slots@[j] == halfway[j],
                forall|j: int|
                    i <= j < halfway.len() ==> match #[trigger] halfway[j] {
                        Some(component) => slots@[j] matches Some(after) && told(
                            component,
                            output_messages@,
                            after,
                        ),
                        None => slots@[j] is None,
                    },
            decreases i,
        {
            i = i - 1;
            proof {
                assert(slots@[i as int] == halfway[i as int]);
            }
            let slot = &mut slots[i];
            match slot.take() {
                Some(component) => {
                    let c = ComponentsGroup::tell(component, &output_messages);
                    *slot = Some(c);
                },
                None => {},
            }
        }
        proof {
            assert forall|j: int| 0 <= j < before.len() implies match #[trigger] before[j] {
                Some(component) => slots@[j] matches Some(after) && ticked(
                    component,
                    dt,
                    collected(before),
                    after,
                ),
                None => slots@[j] is None,
            } by {
                match before[j] {
                    Some(component) => {
                        assert(halfway[j] is Some);
                    },
                    None => {
                        assert(halfway[j] is None);
                    },
                }
            }
        }
        (group, host)
    }

    /// Appends `components`, each in a new last slot, in the order given.
    pub fn append(&mut self, components: Vec<Component<S>>)
        ensures
            final(self).group.elements@ == old(self).group.elements@ + populated(components@),
            *final(self) == (ComponentsGroup { group: final(self).group, ..*old(self) }),
    {
        let ghost given = components@;
        let ghost there = self.group.elements@;
        proof {
            assert(there + populated(given.take(0)) == there);
        }
        for component in it: components
            invariant
                it.seq() == given,
                there == old(self).group.elements@,
                self.group.elements@ == there + populated(given.take(it.index() as int)),
                *self == (ComponentsGroup { group: self.group, ..*old(self) }),
        {
            proof {
                let done = given.take(it.index() as int);
                assert(given.take(it.index() + 1) == done.push(component));
                assert(populated(done.push(component)) == populated(done).push(Some(component)));
                assert((there + populated(done)).push(Some(component)) == there + populated(
                    done,
                ).push(Some(component)));
            }
            self.group.put(component);
        }
        proof {
            assert(given.take(given.len() as int) == given);
        }
    }

    /// Appends `component` in a new last slot.
    pub fn push(&mut self, component: Component<S>)
        ensures
            final(self).group.elements@ == old(self).group.elements@.push(Some(component)),
            *final(self) == (ComponentsGroup { group: final(self).group, ..*old(self) }),
    {
        self.group.put(component);
    }
}

impl<S: Scalar> SomeGroup<Component<S>> for ComponentsGroup<S> {
    open spec fn elements(&self) -> Vec<Option<Component<S>>> {
        self.group.elements
    }

    open spec fn put_elements(self, elements: Vec<Option<Component<S>>>) -> Self {
        ComponentsGroup { group: Group { elements }, ..self }
    }

    fn get_elements(&self) -> (elements: &Vec<Option<Component<S>>>) {
        self.group.get_elements()
    }

    fn get_elements_mut(&mut self) -> (elements: &mut Vec<Option<Component<S>>>) {
        self.group.get_elements_mut()
    }
}

impl<S: Scalar> Messaging for ComponentsGroup<S> {
    type Message = ComponentMessage<S>;

    open spec fn inbox(&self) -> Mailbox<ComponentMessage<S>> {
        self.input_messages
    }

    open spec fn put_inbox(self, inbox: Mailbox<ComponentMessage<S>>) -> Self {
        ComponentsGroup { input_messages: inbox, ..self }
    }

    open spec fn outbox(&self) -> Mailbox<ComponentMessage<S>> {
        self.output_messages
    }

    open spec fn put_outbox(self, outbox: Mailbox<ComponentMessage<S>>) -> Self {
        ComponentsGroup { output_messages: outbox, ..self }
    }

    proof fn law_put_inbox(self) {
    }

    proof fn law_put_outbox(self) {
    }

    open spec fn accepts(self, message: ComponentMessage<S>) -> bool {
        true
    }

    /// The group itself does nothing with a message.
    open spec fn handles(before: Self, message: ComponentMessage<S>, after: Self) -> bool {
        after == before
    }

    fn input_messages(&mut self) -> (inbox: &mut Mailbox<ComponentMessage<S>>) {
        &mut self.input_messages
    }

    fn output_messages(&mut self) -> (outbox: &mut Mailbox<ComponentMessage<S>>) {
        &mut self.output_messages
    }

    fn handle_message(&mut self, _message: ComponentMessage<S>) {
    }
}

} // verus!
