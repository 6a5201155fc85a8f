//! The bridge between the threads that produce text events and the one
//! thread that runs the session.
//!
//! Producers hold an `EventSender` each and submit lines whenever they like;
//! the session holds the `EventChannel` and takes out, without ever waiting,
//! what has arrived. The lines of one producer come out in the order in
//! which it submitted them.
//!
//! What a drain returns depends on what other threads did, so this module
//! promises nothing of the lines themselves. The session's rules are stated
//! over the batch that a drain hands them.

use vstd::prelude::*;
use std::sync::mpsc::{Receiver, Sender};
use crate::error::SessionError;

verus! {

/// The sending end of a channel of the standard library, carried about and
/// never looked into.
#[verifier::external_type_specification]
#[verifier::external_body]
#[verifier::reject_recursive_types(T)]
pub struct ExSender<T>(std::sync::mpsc::Sender<T>);

/// The receiving end of a channel of the standard library, carried about and
/// never looked into.
#[verifier::external_type_specification]
#[verifier::external_body]
#[verifier::reject_recursive_types(T)]
pub struct ExReceiver<T>(std::sync::mpsc::Receiver<T>);

/// `Sender::clone` gives another sending end of the same channel. Nothing is
/// claimed of it here.
pub assume_specification<T>[ <std::sync::mpsc::Sender<T> as Clone>::clone ](
    sender: &std::sync::mpsc::Sender<T>,
) -> (copy: std::sync::mpsc::Sender<T>)
;

/// Makes the two ends of an unbounded channel with `std::sync::mpsc::channel`.
/// Nothing is claimed of them here.
#[verifier::external_body]
fn channel_ends() -> (ends: (Sender<String>, Receiver<String>)) {
    std::sync::mpsc::channel()
}

/// Hands `text` to `Sender::send`, which does not wait, and tells whether it
/// was taken. It is refused once the receiving end is gone; nothing is
/// claimed of when that is.
#[verifier::external_body]
fn send_text(sender: &Sender<String>, text: String) -> (taken: bool) {
    match sender.send(text) {
        Ok(()) => true,
        Err(_) => false,
    }
}

/// Asks `Receiver::try_recv`, which does not wait, for the next line. `None`
/// stands for both of its refusals: nothing has arrived, or every sending end
/// is gone. Nothing is claimed of which line comes, since that lies with the
/// producers.
#[verifier::external_body]
fn take_text(receiver: &Receiver<String>) -> (text: Option<String>) {
    match receiver.try_recv() {
        Ok(line) => Some(line),
        Err(_) => None,
    }
}

/// The producing end of the event channel. It can be handed to any thread,
/// and cloned for more producers.
pub struct EventSender {
    sender: Sender<String>,
}

/// The consuming end of the event channel, owned by the session.
pub struct EventChannel {
    receiver: Receiver<String>,
}

impl Clone for EventSender {
    /// Another producing end of the same channel.
    fn clone(&self) -> (copy: EventSender) {
        EventSender { sender: self.sender.clone() }
    }
}

impl EventSender {
    /// Queues `text` for the session without waiting. This fails with
    /// `ChannelClosed`, and with nothing else, once the consuming end is
    /// gone.
    pub fn try_submit(&self, text: String) -> (result: Result<(), SessionError>)
        ensures
            result is Err ==> result == Err::<(), SessionError>(SessionError::ChannelClosed),
    {
        let taken = send_text(&self.sender, text);
        submit_result(taken)
    }

    /// Queues `text` for the session without waiting, and tells the producer
    /// nothing of what became of it. A line that cannot be delivered,
    /// because the consuming end is gone, is dropped silently. A producer
    /// that wants to hear of a closed channel calls `try_submit` in place of
    /// this.
    pub fn submit(&self, text: String) {
        let _ = self.try_submit(text);
    }
}

impl EventChannel {
    /// A new channel: its producing end and its consuming end.
    pub fn open() -> (ends: (EventSender, EventChannel)) {
        let (sender, receiver) = channel_ends();
        (EventSender { sender }, EventChannel { receiver })
    }

    /// Takes out the lines that have arrived, in the order of their arrival,
    /// as one batch, and never waits for more.
    pub fn drain(&self) -> (batch: Vec<String>) {
        let mut batch: Vec<String> = Vec::new();
        let mut taken: usize = 0;
        while taken < usize::MAX
            invariant
                taken == batch@.len(),
            decreases usize::MAX - taken,
        {
            match take_text(&self.receiver) {
                Some(line) => {
                    batch.push(line);
                    taken += 1;
                },
                None => {
                    return batch;
                },
            }
        }
        batch
    }
}

/// What a submission returns, given whether the channel took the line:
/// success where it did, `ChannelClosed` where it did not.
pub fn submit_result(taken: bool) -> (result: Result<(), SessionError>)
    ensures
        taken ==> result == Ok::<(), SessionError>(()),
        !taken ==> result == Err::<(), SessionError>(SessionError::ChannelClosed),
{
    if taken {
        Ok(())
    } else {
        Err(SessionError::ChannelClosed)
    }
}

} // verus!
