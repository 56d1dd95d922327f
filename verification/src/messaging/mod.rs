//! Messages between components: mailboxes and the capability to use them.
pub mod mailbox;
pub mod traits;
