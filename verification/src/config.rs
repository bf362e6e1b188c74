use vstd::prelude::*;

verus! {

/// Configuration for a worker pool, gathered with a builder.
///
/// `workers` is the number of pool threads; `queue_size` the capacity of
/// the shared request queue; `timeout_ms` bounds queue admission, result
/// delivery and each message publication; `chat_timeout_ms` bounds the
/// wait for a client's answer to a published prompt.  Timeouts are held in
/// milliseconds.
pub struct AuthenticatorBuilder {
    /// Number of worker threads in the pool.
    pub workers: u32,
    /// Capacity of the shared request queue.
    pub queue_size: usize,
    /// Bound, in milliseconds, on every non-chat wait.
    pub timeout_ms: u64,
    /// Bound, in milliseconds, on awaiting a client's answer to a prompt.
    pub chat_timeout_ms: u64,
}

/// The defaults: one worker, a queue of ten requests, five seconds for
/// every non-chat wait, one minute for a client's answer.
pub open spec fn spec_default_builder() -> AuthenticatorBuilder {
    AuthenticatorBuilder { workers: 1, queue_size: 10, timeout_ms: 5000, chat_timeout_ms: 60000 }
}

impl Default for AuthenticatorBuilder {
    fn default() -> (r: Self)
        ensures
            r == spec_default_builder(),
    {
        AuthenticatorBuilder { workers: 1, queue_size: 10, timeout_ms: 5000, chat_timeout_ms: 60000 }
    }
}

impl AuthenticatorBuilder {
    /// Starts from the defaults.
    pub fn new() -> (r: Self)
        ensures
            r == spec_default_builder(),
    {
        Self::default()
    }

    /// Sets the number of worker threads.
    pub fn workers(self, workers: u32) -> (r: Self)
        ensures
            r == (AuthenticatorBuilder { workers, ..self }),
    {
        AuthenticatorBuilder { workers, ..self }
    }

    /// Sets the capacity of the shared request queue.
    pub fn queue_size(self, queue_size: usize) -> (r: Self)
        ensures
            r == (AuthenticatorBuilder { queue_size, ..self }),
    {
        AuthenticatorBuilder { queue_size, ..self }
    }

    /// Sets the bound, in milliseconds, on every non-chat wait.
    pub fn timeout(self, timeout_ms: u64) -> (r: Self)
        ensures
            r == (AuthenticatorBuilder { timeout_ms, ..self }),
    {
        AuthenticatorBuilder { timeout_ms, ..self }
    }

    /// Sets the bound, in milliseconds, on awaiting a client's answer.
    pub fn chat_timeout(self, chat_timeout_ms: u64) -> (r: Self)
        ensures
            r == (AuthenticatorBuilder { chat_timeout_ms, ..self }),
    {
        AuthenticatorBuilder { chat_timeout_ms, ..self }
    }
}

} // verus!
