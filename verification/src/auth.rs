use vstd::prelude::*;

use crate::bridge::Conversation;
use crate::channels::{bounded_pair, oneshot_pair, oneshot_recv_timeout, BoundedReceiver, BoundedSender};
use crate::errors::Error;

verus! {

/// What a worker delivers into a request's result slot: the started
/// conversation, or denial before any conversation existed.  Nothing
/// else fits through the slot, which is what lets the submission call
/// bound the errors it can return.
pub enum ChatOutcome {
    /// The native session opened; this conversation is live.
    Started(Conversation),
    /// The request was denied before a conversation existed — an invalid
    /// name, or a native session that could not be opened — with the
    /// access message saying which.
    Denied(String),
}

/// One authentication request: the names identifying the policy set and
/// the principal, and the one-shot slot through which exactly one
/// [`ChatOutcome`] is delivered back to the submitter.
pub struct AuthRequest {
    /// The name of the authentication policy set to invoke.
    pub service: String,
    /// The name of the principal to authenticate.
    pub login: String,
    /// The slot for the request's one outcome.  Filling it consumes the
    /// sender, so it is filled at most once.
    pub res_tx: oneshot::Sender<ChatOutcome>,
}

/// A handle on the worker pool: the submission endpoint of the shared
/// bounded request queue, and the bound applied to submission and to the
/// wait for the result.  Cheap to clone; every clone feeds the same pool.
pub struct Authenticator {
    /// Submission endpoint of the shared request queue.
    pub tx: BoundedSender<AuthRequest>,
    /// Bound, in milliseconds, on queue admission and result delivery.
    pub timeout_ms: u64,
}

/// Lays out the pool's shared request queue: one submission endpoint for
/// the handle, and one receiving endpoint for each of the `workers`
/// threads, all draining the same bounded queue.
pub fn pool_endpoints(workers: u32, queue_size: usize) -> (r: (
    BoundedSender<AuthRequest>,
    Vec<BoundedReceiver<AuthRequest>>,
))
    requires
        queue_size >= 1,
    ensures
        r.1@.len() == workers,
{
    let (tx, rx) = bounded_pair(queue_size);
    let mut receivers: Vec<BoundedReceiver<AuthRequest>> = Vec::new();
    let mut i: u32 = 0;
    while i < workers
        invariant
            i <= workers,
            receivers@.len() == i,
        decreases workers - i,
    {
        receivers.push(rx.clone());
        i = i + 1;
    }
    (tx, receivers)
}

impl Clone for Authenticator {
    /// A clone feeds the same request queue with the same bound.
    fn clone(&self) -> (r: Self)
        ensures
            r.timeout_ms == self.timeout_ms,
    {
        Authenticator { tx: self.tx.clone(), timeout_ms: self.timeout_ms }
    }
}

impl Authenticator {
    /// Builds the handle from the queue's submission endpoint and the
    /// bound, in milliseconds, on the two client-side waits.
    pub fn from_parts(tx: BoundedSender<AuthRequest>, timeout_ms: u64) -> (r: Self)
        ensures
            r == (Authenticator { tx, timeout_ms }),
    {
        Authenticator { tx, timeout_ms }
    }

    /// Submits a `(service, login)` pair and waits for the conversation.
    ///
    /// The request is enqueued bounded by the handle's timeout — a full
    /// queue or a gone pool is a `Timeout` or `Failed` error, never an
    /// unbounded block — and the result slot is then awaited under the
    /// same bound.  Whether a conversation arrives is decided by the
    /// worker that takes the request, but the failures are bounded: an
    /// elapsed deadline is `Timeout`, a broken queue is `Failed`, and a
    /// worker's denial is `Access` with its message; no other error can
    /// come out of a submission.
    pub fn chat_sync(&self, service: String, login: String) -> (r: Result<Conversation, Error>)
        ensures
            r matches Err(e) ==> (e matches Error::Timeout || e matches Error::Failed(_)
                || e matches Error::Access(_)),
    {
        let (res_tx, res_rx) = oneshot_pair();
        let req = AuthRequest { service, login, res_tx };
        match self.tx.send_timeout(req, self.timeout_ms) {
            Ok(()) => (),
            Err(e) => {
                return Err(e);
            },
        }
        match oneshot_recv_timeout(&res_rx, self.timeout_ms) {
            Ok(ChatOutcome::Started(c)) => Ok(c),
            Ok(ChatOutcome::Denied(msg)) => Err(Error::Access(msg)),
            Err(e) => Err(e),
        }
    }
}

} // verus!
