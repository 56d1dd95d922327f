//! The capability to receive, send and handle messages.
use vstd::prelude::*;
use crate::messaging::mailbox::Mailbox;

verus! {

/// Anything that takes part in messaging. It owns a mailbox of incoming and
/// a mailbox of outgoing messages, and says what it does with one message.
pub trait Messaging: Sized {
    /// The kind of message.
    type Message: Copy;

    /// The mailbox of incoming messages.
    spec fn inbox(&self) -> Mailbox<Self::Message>;

    /// `self` with its mailbox of incoming messages replaced and nothing
    /// else changed.
    spec fn put_inbox(self, inbox: Mailbox<Self::Message>) -> Self;

    /// The mailbox of outgoing messages.
    spec fn outbox(&self) -> Mailbox<Self::Message>;

    /// `self` with its mailbox of outgoing messages replaced and nothing
    /// else changed.
    spec fn put_outbox(self, outbox: Mailbox<Self::Message>) -> Self;

    /// Putting back the mailbox of incoming messages that is there changes
    /// nothing.
    proof fn law_put_inbox(self)
        ensures
            self.put_inbox(self.inbox()) == self,
    ;

    /// Putting back the mailbox of outgoing messages that is there changes
    /// nothing.
    proof fn law_put_outbox(self)
        ensures
            self.put_outbox(self.outbox()) == self,
    ;

    /// Whether `self` may be asked to handle `message`.
    spec fn accepts(self, message: Self::Message) -> bool;

    /// Whether handling `message` may turn `before` into `after`.
    spec fn handles(before: Self, message: Self::Message, after: Self) -> bool;

    /// The mailbox of incoming messages, to be changed in place.
    fn input_messages(&mut self) -> (inbox: &mut Mailbox<Self::Message>)
        ensures
            *inbox == old(self).inbox(),
            final(self).inbox() == *final(inbox),
            *final(self) == old(self).put_inbox(*final(inbox)),
    ;

    /// The mailbox of outgoing messages, to be changed in place.
    fn output_messages(&mut self) -> (outbox: &mut Mailbox<Self::Message>)
        ensures
            *outbox == old(self).outbox(),
            final(self).outbox() == *final(outbox),
            *final(self) == old(self).put_outbox(*final(outbox)),
    ;

    /// Receives `message`: it waits behind the incoming messages.
    fn reveive_msg(&mut self, message: Self::Message)
        ensures
            final(self).inbox()@ == old(self).inbox()@.push(message),
            *final(self) == old(self).put_inbox(final(self).inbox()),
    {
        self.input_messages().add(message);
    }

    /// Sends `message`: it waits behind the outgoing messages.
    fn send_msg(&mut self, message: Self::Message)
        ensures
            final(self).outbox()@ == old(self).outbox()@.push(message),
            *final(self) == old(self).put_outbox(final(self).outbox()),
    {
        self.output_messages().add(message);
    }

    /// Handles the incoming messages that wait at the time of the call, in
    /// the order of their arrival. A message that arrives while these are
    /// handled waits for the next call. The handling ends early only where
    /// the mailbox is found empty.
    ///
    /// The states that `self` goes through form a run: each comes from the
    /// one before by taking its oldest incoming message out of the mailbox
    /// and handling it.
    fn handle_messages(&mut self)
        requires
            forall|state: Self, message: Self::Message| #[trigger] state.accepts(message),
        ensures
            exists|run: Seq<Self>|
                {
                    &&& 1 <= run.len() <= old(self).inbox()@.len() + 1
                    &&& run[0] == *old(self)
                    &&& #[trigger] run.last() == *final(self)
                    &&& run.len() == old(self).inbox()@.len() + 1 || final(self).inbox()@.len()
                        == 0
                    &&& forall|i: int|
                        0 <= i < run.len() - 1 ==> (#[trigger] run[i]).inbox()@.len() > 0
                            && exists|rest: Mailbox<Self::Message>|
                            {
                                &&& rest@ == run[i].inbox()@.drop_first()
                                &&& #[trigger] Self::handles(
                                    run[i].put_inbox(rest),
                                    run[i].inbox()@[0],
                                    run[i + 1],
                                )
                            }
                },
    {
        proof {
            self.law_put_inbox();
        }
        let count: usize = self.input_messages().size();
        let ghost mut run: Seq<Self> = seq![*self];
        let mut handled: usize = 0;
        while handled < count
            invariant
                handled <= count,
                count == old(self).inbox()@.len(),
                forall|state: Self, message: Self::Message| #[trigger] state.accepts(message),
                run.len() == handled + 1,
                run[0] == *old(self),
                run.last() == *self,
                forall|i: int|
                    0 <= i < run.len() - 1 ==> (#[trigger] run[i]).inbox()@.len() > 0
                        && exists|rest: Mailbox<Self::Message>|
                        {
                            &&& rest@ == run[i].inbox()@.drop_first()
                            &&& #[trigger] Self::handles(
                                run[i].put_inbox(rest),
                                run[i].inbox()@[0],
                                run[i + 1],
                            )
                        },
            decreases count - handled,
        {
            let ghost before = *self;
            let inbox = self.input_messages();
            match inbox.remove() {
                Some(oldest_message) => {
                    let ghost rest = self.inbox();
                    self.handle_message(oldest_message);
                    proof {
                        assert(Self::handles(before.put_inbox(rest), before.inbox()@[0], *self));
                        let ghost longer = run.push(*self);
                        assert forall|i: int| 0 <= i < longer.len() - 1 implies (
                        #[trigger] longer[i]).inbox()@.len() > 0 && exists|
                            rest: Mailbox<Self::Message>,
                        |
                            {
                                &&& rest@ == longer[i].inbox()@.drop_first()
                                &&& #[trigger] Self::handles(
                                    longer[i].put_inbox(rest),
                                    longer[i].inbox()@[0],
                                    longer[i + 1],
                                )
                            } by {
                            if i < run.len() - 1 {
                                assert(longer[i] == run[i]);
                                assert(longer[i + 1] == run[i + 1]);
                            } else {
                                assert(longer[i] == before);
                                assert(longer[i + 1] == *self);
                            }
                        }
                        run = longer;
                    }
                },
                None => {
                    proof {
                        before.law_put_inbox();
                    }
                    return ;
                },
            }
            handled = handled + 1;
        }
    }

    /// Handles one message.
    fn handle_message(&mut self, message: Self::Message)
        requires
            old(self).accepts(message),
        ensures
            Self::handles(*old(self), message, *final(self)),
    ;
}

/// Whether `run` is a run of handling, as `handle_messages` makes one: each
/// of its states comes from the one before by taking its oldest incoming
/// message out of the mailbox and handling it.
pub open spec fn handled_in_turn<C: Messaging>(run: Seq<C>) -> bool {
    forall|i: int|
        0 <= i < run.len() - 1 ==> (#[trigger] run[i]).inbox()@.len() > 0 && exists|
            rest: Mailbox<C::Message>,
        |
            {
                &&& rest@ == run[i].inbox()@.drop_first()
                &&& #[trigger] C::handles(run[i].put_inbox(rest), run[i].inbox()@[0], run[i + 1])
            }
}

} // verus!
