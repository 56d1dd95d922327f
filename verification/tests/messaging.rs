use engine::messaging::mailbox::Mailbox;
use engine::messaging::traits::Messaging;

#[test]
fn mailbox_is_first_in_first_out() {
    let mut mailbox = Mailbox::new();
    assert_eq!(mailbox.size(), 0);
    mailbox.add(3);
    mailbox.add(1);
    mailbox.add(2);
    assert_eq!(mailbox.size(), 3);
    assert_eq!(mailbox.remove(), Some(3));
    assert_eq!(mailbox.remove(), Some(1));
    assert_eq!(mailbox.size(), 1);
    assert_eq!(mailbox.remove(), Some(2));
    assert_eq!(mailbox.remove(), None);
    assert_eq!(mailbox.size(), 0);
}

#[test]
fn mailbox_can_be_refilled_after_it_ran_empty() {
    let mut mailbox = Mailbox::new();
    mailbox.add('a');
    assert_eq!(mailbox.remove(), Some('a'));
    mailbox.add('b');
    mailbox.add('c');
    assert_eq!(mailbox.remove(), Some('b'));
    mailbox.add('d');
    assert_eq!(mailbox.remove(), Some('c'));
    assert_eq!(mailbox.remove(), Some('d'));
    assert_eq!(mailbox.remove(), None);
}

#[test]
fn mailbox_keeps_order_when_adds_and_removes_alternate() {
    let mut mailbox = Mailbox::new();
    let mut next_in = 0u32;
    let mut next_out = 0u32;
    for round in 0..50u32 {
        for _ in 0..(round % 4 + 1) {
            mailbox.add(next_in);
            next_in += 1;
        }
        for _ in 0..(round % 3 + 1) {
            if let Some(message) = mailbox.remove() {
                assert_eq!(message, next_out);
                next_out += 1;
            }
        }
    }
    while let Some(message) = mailbox.remove() {
        assert_eq!(message, next_out);
        next_out += 1;
    }
    assert_eq!(next_out, next_in);
}

/// Answers every message by sending it on and by receiving its successor.
/// The items of the trait that only specifications use are never called.
struct Echo {
    inbox: Mailbox<u32>,
    outbox: Mailbox<u32>,
    handled: Vec<u32>,
}

impl Messaging for Echo {
    type Message = u32;

    fn inbox(&self) -> Mailbox<u32> {
        unreachable!()
    }

    fn put_inbox(self, _inbox: Mailbox<u32>) -> Self {
        unreachable!()
    }

    fn outbox(&self) -> Mailbox<u32> {
        unreachable!()
    }

    fn put_outbox(self, _outbox: Mailbox<u32>) -> Self {
        unreachable!()
    }

    fn law_put_inbox(self) {
        unreachable!()
    }

    fn law_put_outbox(self) {
        unreachable!()
    }

    fn accepts(self, _message: u32) -> bool {
        unreachable!()
    }

    fn handles(_before: Self, _message: u32, _after: Self) -> bool {
        unreachable!()
    }

    fn input_messages(&mut self) -> &mut Mailbox<u32> {
        &mut self.inbox
    }

    fn output_messages(&mut self) -> &mut Mailbox<u32> {
        &mut self.outbox
    }

    fn handle_message(&mut self, message: u32) {
        self.handled.push(message);
        self.send_msg(message);
        self.reveive_msg(message + 100);
    }
}

fn echo() -> Echo {
    Echo { inbox: Mailbox::new(), outbox: Mailbox::new(), handled: Vec::new() }
}

#[test]
fn receive_and_send_enqueue() {
    let mut echo = echo();
    echo.reveive_msg(1);
    echo.reveive_msg(2);
    echo.send_msg(9);
    assert_eq!(echo.input_messages().size(), 2);
    assert_eq!(echo.output_messages().size(), 1);
    assert_eq!(echo.input_messages().remove(), Some(1));
    assert_eq!(echo.output_messages().remove(), Some(9));
}

#[test]
fn handle_messages_handles_in_arrival_order() {
    let mut echo = echo();
    echo.reveive_msg(5);
    echo.reveive_msg(3);
    echo.reveive_msg(4);
    echo.handle_messages();
    assert_eq!(echo.handled, vec![5, 3, 4]);
}

#[test]
fn handle_messages_leaves_what_arrives_meanwhile() {
    let mut echo = echo();
    echo.reveive_msg(1);
    echo.reveive_msg(2);
    echo.handle_messages();
    assert_eq!(echo.handled, vec![1, 2]);
    assert_eq!(echo.input_messages().size(), 2);
    echo.handle_messages();
    assert_eq!(echo.handled, vec![1, 2, 101, 102]);
    assert_eq!(echo.output_messages().size(), 4);
    assert_eq!(echo.output_messages().remove(), Some(1));
    assert_eq!(echo.output_messages().remove(), Some(2));
    assert_eq!(echo.output_messages().remove(), Some(101));
}

#[test]
fn handle_messages_on_empty_inbox_does_nothing() {
    let mut echo = echo();
    echo.handle_messages();
    assert!(echo.handled.is_empty());
    assert_eq!(echo.output_messages().size(), 0);
}

/// Throws away whatever else waits when it handles a message.
struct Hasty {
    inbox: Mailbox<u32>,
    outbox: Mailbox<u32>,
    handled: Vec<u32>,
}

impl Messaging for Hasty {
    type Message = u32;

    fn inbox(&self) -> Mailbox<u32> {
        unreachable!()
    }

    fn put_inbox(self, _inbox: Mailbox<u32>) -> Self {
        unreachable!()
    }

    fn outbox(&self) -> Mailbox<u32> {
        unreachable!()
    }

    fn put_outbox(self, _outbox: Mailbox<u32>) -> Self {
        unreachable!()
    }

    fn law_put_inbox(self) {
        unreachable!()
    }

    fn law_put_outbox(self) {
        unreachable!()
    }

    fn accepts(self, _message: u32) -> bool {
        unreachable!()
    }

    fn handles(_before: Self, _message: u32, _after: Self) -> bool {
        unreachable!()
    }

    fn input_messages(&mut self) -> &mut Mailbox<u32> {
        &mut self.inbox
    }

    fn output_messages(&mut self) -> &mut Mailbox<u32> {
        &mut self.outbox
    }

    fn handle_message(&mut self, message: u32) {
        self.handled.push(message);
        while self.inbox.remove().is_some() {}
    }
}

#[test]
fn handle_messages_ends_where_the_inbox_is_found_empty() {
    let mut hasty = Hasty { inbox: Mailbox::new(), outbox: Mailbox::new(), handled: Vec::new() };
    hasty.reveive_msg(1);
    hasty.reveive_msg(2);
    hasty.reveive_msg(3);
    hasty.handle_messages();
    assert_eq!(hasty.handled, vec![1]);
    assert_eq!(hasty.input_messages().size(), 0);
}
