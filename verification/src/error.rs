//! The ways in which a channel operation fails.
use vstd::prelude::*;

verus! {

/// Why a channel operation could not be carried out.
#[derive(Clone, Copy, Debug, PartialEq, Eq, Structural)]
pub enum ChannelError {
    /// The receiver has been dropped: nobody can take what is sent.
    NoReceiver,
    /// Nothing is queued and every sender has been dropped.
    NoSender,
    /// A thread panicked while it held the lock of the queue.
    LockPoisoned,
}

impl ChannelError {
    /// The words that describe the error.
    pub open spec fn text(self) -> Seq<char> {
        match self {
            ChannelError::NoReceiver => "no receiver left"@,
            ChannelError::NoSender => "no sender left"@,
            ChannelError::LockPoisoned => "lock poisoned"@,
        }
    }

    /// The error in words, for a log or a message to the user.
    pub fn message(&self) -> (text: String)
        ensures
            text@ == self.text(),
    {
        match self {
            ChannelError::NoReceiver => "no receiver left".to_owned(),
            ChannelError::NoSender => "no sender left".to_owned(),
            ChannelError::LockPoisoned => "lock poisoned".to_owned(),
        }
    }
}

} // verus!
