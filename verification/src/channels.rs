use vstd::prelude::*;

use crate::errors::Error;

verus! {

// The request queue and the per-conversation message and answer channels
// are bounded multi-producer multi-consumer channels with blocking,
// deadline-bounded operations; the result of a submission travels through
// a one-shot slot.  The channel endpoints come from the `rtsc` crate,
// whose endpoint types carry a storage-trait bound that cannot be declared
// here, so each endpoint is held in an opaque struct of the library and
// every operation the code performs goes through one trusted wrapper.

/// Sending half of a bounded channel.  Opaque: holds `rtsc`'s sender.
#[verifier::external_body]
#[verifier::reject_recursive_types(T)]
pub struct BoundedSender<T> {
    inner: rtsc::channel_async::Sender<T>,
}

/// Receiving half of a bounded channel.  Opaque: holds `rtsc`'s receiver.
#[verifier::external_body]
#[verifier::reject_recursive_types(T)]
pub struct BoundedReceiver<T> {
    inner: rtsc::channel_async::Receiver<T>,
}

/// Relies on `rtsc::channel_async::bounded`: creates a connected bounded
/// channel pair of the given capacity.  The call panics on a capacity of
/// zero, so that capacity is excluded here.
#[verifier::external_body]
pub fn bounded_pair<T>(capacity: usize) -> (BoundedSender<T>, BoundedReceiver<T>)
    requires
        capacity >= 1,
{
    let (tx, rx) = rtsc::channel_async::bounded(capacity);
    (BoundedSender { inner: tx }, BoundedReceiver { inner: rx })
}

impl<T> BoundedSender<T> {
    /// Relies on `rtsc`'s `BaseSenderAsync::send_blocking_timeout`: blocks
    /// until the value is accepted, the deadline passes (`Timeout`), or
    /// the channel fails otherwise (`Failed`).  Whether the value is
    /// accepted depends on the peer, so nothing more is promised.
    #[verifier::external_body]
    pub fn send_timeout(&self, value: T, timeout_ms: u64) -> (r: Result<(), Error>)
        ensures
            r matches Err(e) ==> (e matches Error::Timeout || e matches Error::Failed(_)),
    {
        match self.inner.send_blocking_timeout(value, core::time::Duration::from_millis(timeout_ms))
        {
            Ok(()) => Ok(()),
            Err(rtsc::Error::Timeout) => Err(Error::Timeout),
            Err(e) => Err(Error::Failed(format!("{}", e))),
        }
    }
}

impl<T> Clone for BoundedSender<T> {
    /// Relies on `rtsc`'s `Clone` for senders: the clone feeds the same
    /// channel.
    #[verifier::external_body]
    fn clone(&self) -> Self {
        BoundedSender { inner: self.inner.clone() }
    }
}

impl<T> BoundedReceiver<T> {
    /// Relies on `rtsc`'s `BaseReceiverAsync::recv_blocking_timeout`:
    /// blocks until a value arrives, the deadline passes (`Timeout`), or
    /// the channel fails otherwise (`Failed`).  Which value arrives
    /// depends on the peer, so nothing more is promised.
    #[verifier::external_body]
    pub fn recv_timeout(&self, timeout_ms: u64) -> (r: Result<T, Error>)
        ensures
            r matches Err(e) ==> (e matches Error::Timeout || e matches Error::Failed(_)),
    {
        match self.inner.recv_blocking_timeout(core::time::Duration::from_millis(timeout_ms)) {
            Ok(v) => Ok(v),
            Err(rtsc::Error::Timeout) => Err(Error::Timeout),
            Err(e) => Err(Error::Failed(format!("{}", e))),
        }
    }

    /// Relies on `rtsc`'s `BaseReceiverAsync::recv_blocking`: blocks until
    /// a value arrives (`Some`) or every sender is gone (`None`).
    #[verifier::external_body]
    pub fn recv_blocking(&self) -> (r: Option<T>)
    {
        match self.inner.recv_blocking() {
            Ok(v) => Some(v),
            Err(_) => None,
        }
    }
}

impl<T> Clone for BoundedReceiver<T> {
    /// Relies on `rtsc`'s `Clone` for receivers: the clone drains the same
    /// channel.
    #[verifier::external_body]
    fn clone(&self) -> Self {
        BoundedReceiver { inner: self.inner.clone() }
    }
}

/// Sending half of a one-shot result slot (`oneshot::Sender`).
#[verifier::external_type_specification]
#[verifier::external_body]
#[verifier::reject_recursive_types(T)]
pub struct ExOneshotSender<T>(oneshot::Sender<T>);

/// Receiving half of a one-shot result slot (`oneshot::Receiver`).
#[verifier::external_type_specification]
#[verifier::external_body]
#[verifier::reject_recursive_types(T)]
pub struct ExOneshotReceiver<T>(oneshot::Receiver<T>);

/// Relies on `oneshot::channel`: creates a connected one-shot slot.
#[verifier::external_body]
pub fn oneshot_pair<T>() -> (oneshot::Sender<T>, oneshot::Receiver<T>) {
    oneshot::channel()
}

/// Relies on `oneshot::Receiver::recv_timeout`: waits for the slot to be
/// filled.  Both an elapsed deadline and a sender dropped unfilled are
/// reported as `Timeout`.  Which value fills the slot depends on the
/// peer, so nothing more is promised.
#[verifier::external_body]
pub fn oneshot_recv_timeout<T>(rx: &oneshot::Receiver<T>, timeout_ms: u64) -> (r: Result<T, Error>)
    ensures
        r matches Err(e) ==> e matches Error::Timeout,
{
    match rx.recv_timeout(core::time::Duration::from_millis(timeout_ms)) {
        Ok(v) => Ok(v),
        Err(_) => Err(Error::Timeout),
    }
}

} // verus!
