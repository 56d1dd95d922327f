//! First-in, first-out mailboxes.
//!
//! The order of arrival is kept by a queue of the `queues` crate. The queue
//! holds slot indices only; the messages themselves stay in a vector that the
//! mailbox owns, so what is taken on trust about the queue concerns plain
//! indices. The slots are given up whenever the mailbox runs empty.
use vstd::prelude::*;
use queues::IsQueue;
use queues::Queue;

verus! {

/// `queues::Queue`: a growable first-in, first-out queue.
#[verifier::external_type_specification]
#[verifier::external_body]
#[verifier::reject_recursive_types(T)]
pub struct ExQueue<T: Clone>(Queue<T>);

/// The indices that wait in a queue, oldest first.
pub uninterp spec fn waiting(queue: Queue<usize>) -> Seq<usize>;

/// `Queue::new`: a queue in which nothing waits.
#[verifier::external_body]
fn queue_new() -> (queue: Queue<usize>)
    ensures
        waiting(queue) == Seq::<usize>::empty(),
{
    Queue::new()
}

/// `Queue::add`: puts `index` behind everything that waits. The queue has no
/// limit, so the index is always accepted.
#[verifier::external_body]
fn queue_add(queue: &mut Queue<usize>, index: usize) -> (accepted: bool)
    ensures
        accepted,
        waiting(*final(queue)) == waiting(*old(queue)).push(index),
{
    queue.add(index).is_ok()
}

/// `Queue::remove`: takes out the index that has waited longest, or nothing
/// where nothing waits.
#[verifier::external_body]
fn queue_remove(queue: &mut Queue<usize>) -> (index: Option<usize>)
    ensures
        match index {
            Some(index) => waiting(*old(queue)).len() > 0 && index == waiting(*old(queue))[0]
                && waiting(*final(queue)) == waiting(*old(queue)).drop_first(),
            None => waiting(*old(queue)).len() == 0 && waiting(*final(queue)) == waiting(
                *old(queue),
            ),
        },
{
    queue.remove().ok()
}

/// `Queue::size`: how many indices wait.
#[verifier::external_body]
fn queue_size(queue: &Queue<usize>) -> (size: usize)
    ensures
        size == waiting(*queue).len(),
{
    queue.size()
}

/// A first-in, first-out queue of messages.
#[derive(Debug)]
pub struct Mailbox<M> {
    order: Queue<usize>,
    slots: Vec<M>,
}

impl<M> View for Mailbox<M> {
    type V = Seq<M>;

    /// The messages that wait, oldest first.
    closed spec fn view(&self) -> Seq<M> {
        Seq::new(waiting(self.order).len(), |i: int| self.slots@[waiting(self.order)[i] as int])
    }
}

impl<M> Mailbox<M> {
    /// Every index that waits is the slot of a message.
    #[verifier::type_invariant]
    spec fn indices_in_range(self) -> bool {
        forall|i: int|
            0 <= i < waiting(self.order).len() ==> (#[trigger] waiting(self.order)[i])
                < self.slots@.len()
    }
}

impl<M: Copy> Mailbox<M> {
    /// A mailbox in which nothing waits.
    pub fn new() -> (mailbox: Self)
        ensures
            mailbox@ == Seq::<M>::empty(),
    {
        let mailbox = Mailbox { order: queue_new(), slots: Vec::new() };
        assert(mailbox@ =~= Seq::<M>::empty());
        mailbox
    }

    /// Puts `message` behind everything that waits.
    pub fn add(&mut self, message: M)
        ensures
            final(self)@ == old(self)@.push(message),
    {
        let mut taken = Mailbox::new();
        core::mem::swap(self, &mut taken);
        proof {
            use_type_invariant(&taken);
        }
        let Mailbox { mut order, mut slots } = taken;
        let index: usize = slots.len();
        slots.push(message);
        queue_add(&mut order, index);
        *self = Mailbox { order, slots };
        assert(self@ =~= old(self)@.push(message));
    }

    /// Takes out the message that has waited longest, or nothing where
    /// nothing waits; the mailbox is then left untouched.
    pub fn remove(&mut self) -> (message: Option<M>)
        ensures
            match message {
                Some(message) => old(self)@.len() > 0 && message == old(self)@[0] && final(self)@
                    == old(self)@.drop_first(),
                None => old(self)@.len() == 0 && *final(self) == *old(self),
            },
    {
        if queue_size(&self.order) == 0 {
            return None;
        }
        let mut taken = Mailbox::new();
        core::mem::swap(self, &mut taken);
        proof {
            use_type_invariant(&taken);
        }
        let Mailbox { mut order, mut slots } = taken;
        let message = match queue_remove(&mut order) {
            Some(index) => Some(slots[index]),
            None => None,
        };
        if queue_size(&order) == 0 {
            // nothing refers to a slot any more
            slots.clear();
        }
        *self = Mailbox { order, slots };
        assert(self@ =~= old(self)@.drop_first());
        message
    }

    /// How many messages wait.
    pub fn size(&self) -> (size: usize)
        ensures
            size == self@.len(),
    {
        queue_size(&self.order)
    }
}

} // verus!
