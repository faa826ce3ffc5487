//! The sending half of a `flume` channel, as far as the bridge uses it.

use vstd::prelude::*;

verus! {

/// `flume::Sender`, the sending half of a channel. Nothing is claimed of
/// what such a value holds.
#[verifier::external_type_specification]
#[verifier::external_body]
#[verifier::reject_recursive_types(T)]
pub struct ExSender<T>(flume::Sender<T>);

/// Why a message was not accepted by a channel, with the message itself.
#[derive(Debug)]
pub enum TrySendError<T> {
    /// The channel is bounded and had no free slot.
    Full(T),
    /// Every receiver of the channel has been dropped.
    Disconnected(T),
}

impl<T> TrySendError<T> {
    /// The message that was not sent.
    pub open spec fn message(self) -> T {
        match self {
            TrySendError::Full(m) => m,
            TrySendError::Disconnected(m) => m,
        }
    }

    /// Gives the message that was not sent back to the caller.
    pub fn into_inner(self) -> (m: T)
        ensures
            m == self.message(),
    {
        match self {
            TrySendError::Full(m) => m,
            TrySendError::Disconnected(m) => m,
        }
    }
}

/// Calls `flume::Sender::try_send`, which never blocks. Whether the message is
/// accepted depends on the receivers; the contract only claims that a
/// rejected message comes back unchanged inside the error.
#[verifier::external_body]
pub(crate) fn try_send<T>(tx: &flume::Sender<T>, msg: T) -> (r: Result<(), TrySendError<T>>)
    ensures
        r matches Err(e) ==> e.message() == msg,
{
    match tx.try_send(msg) {
        Ok(()) => Ok(()),
        Err(flume::TrySendError::Full(m)) => Err(TrySendError::Full(m)),
        Err(flume::TrySendError::Disconnected(m)) => Err(TrySendError::Disconnected(m)),
    }
}

} // verus!
