use vstd::prelude::*;

verus! {

#[verifier::external_type_specification]
#[verifier::external_body]
#[verifier::reject_recursive_types(T)]
pub struct ExSender<T>(crossbeam::channel::Sender<T>);

/// Capacity of the file sink's mailbox.
pub const FILE_MAILBOX_CAPACITY: usize = 4096;

/// Capacity of the pub/sub sink's mailbox, larger to absorb bursts between
/// network flushes.
pub const PUBSUB_MAILBOX_CAPACITY: usize = 32768;

/// A message that the mailbox did not take, handed back to the sender.
#[derive(Debug)]
pub enum MailboxError<T> {
    /// The mailbox holds as many messages as its capacity.
    Full(T),
    /// The receiving worker is gone.
    Disconnected(T),
}

impl<T> MailboxError<T> {
    pub open spec fn message(self) -> T {
        match self {
            MailboxError::Full(m) => m,
            MailboxError::Disconnected(m) => m,
        }
    }

    pub fn into_inner(self) -> (r: T)
        ensures
            r == self.message(),
    {
        match self {
            MailboxError::Full(m) => m,
            MailboxError::Disconnected(m) => m,
        }
    }

    pub fn is_full(&self) -> (r: bool)
        ensures
            r == (self is Full),
    {
        match self {
            MailboxError::Full(_) => true,
            MailboxError::Disconnected(_) => false,
        }
    }
}

/// What became of an entry handed to a sink facade.
#[derive(Debug)]
pub enum Delivery<T> {
    /// Below the sink's minimum severity: nothing was offered to the mailbox.
    Filtered,
    /// The mailbox took the message.
    Queued,
    /// The mailbox refused the message, which comes back here.
    Dropped(MailboxError<T>),
}

/// Relies on crossbeam's Sender::try_send: it does not block, and a message
/// it could not send (mailbox full or receiver gone) comes back in the error.
#[verifier::external_body]
pub(crate) fn try_send<T>(tx: &crossbeam::channel::Sender<T>, msg: T) -> (r: Result<(), MailboxError<T>>)
    ensures
        r matches Err(e) ==> e.message() == msg,
{
    match tx.try_send(msg) {
        Ok(()) => Ok(()),
        Err(crossbeam::channel::TrySendError::Full(m)) => Err(MailboxError::Full(m)),
        Err(crossbeam::channel::TrySendError::Disconnected(m)) => Err(MailboxError::Disconnected(m)),
    }
}

} // verus!
