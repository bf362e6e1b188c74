use vstd::prelude::*;

use crate::bridge::{contains_nul, ConversationContext};
use crate::errors::Error;
use crate::messages::{is_terminal, Message};

verus! {

/// Where a worker stands inside one native session.
///
/// `Opening` may fail straight to `Closed`, before the client ever
/// receives a conversation; every other transition runs the session to a
/// terminal verdict and then to `Closed`.
#[derive(Debug, Clone, Copy, PartialEq, Eq)]
pub enum SessionState {
    /// The native session is being opened.
    Opening,
    /// The session is open and the conversation has been delivered.
    Started,
    /// The native authentication call is running.
    Authenticating,
    /// The native account-validation call is running.
    Validating,
    /// The session is over and its context has been reclaimed.
    Closed,
}

/// What the outside world reports to the worker between two states.
#[derive(Debug, Clone, Copy, PartialEq, Eq)]
pub enum SessionEvent {
    /// The native open finished, successfully or not.
    Opened(bool),
    /// The worker proceeds from delivery to the authentication call.
    Advance,
    /// The native authentication call finished, successfully or not.
    AuthResult(bool),
    /// The native account-validation call finished, successfully or not.
    ValidateResult(bool),
}

/// Everything one step obliges the worker to do before the next event.
#[derive(Debug, Clone, PartialEq, Eq)]
pub struct StepEffects {
    /// The state the session moves to.
    pub next: SessionState,
    /// Close the native session now, with `Some(true)` for the success
    /// flag and `Some(false)` for the failure flag.
    pub close: Option<bool>,
    /// Take the conversation context back and dispose of it now.
    pub reclaim_context: bool,
    /// Deliver the conversation to the request's result slot.
    pub deliver_conversation: bool,
    /// Deliver an access error to the request's result slot.
    pub deliver_access_error: bool,
    /// Publish this terminal message to the client.
    pub publish: Option<Message>,
}

/// Which events can arrive in which states.
pub open spec fn event_fits(state: SessionState, event: SessionEvent) -> bool {
    match (state, event) {
        (SessionState::Opening, SessionEvent::Opened(_)) => true,
        (SessionState::Started, SessionEvent::Advance) => true,
        (SessionState::Authenticating, SessionEvent::AuthResult(_)) => true,
        (SessionState::Validating, SessionEvent::ValidateResult(_)) => true,
        _ => false,
    }
}

/// The worker's whole decision table, one entry per fitting state/event
/// pair: which state follows, when the session is closed and with which
/// flag, when the context is reclaimed, what reaches the result slot, and
/// which terminal message the client sees.
pub open spec fn spec_session_step(state: SessionState, event: SessionEvent) -> StepEffects {
    match (state, event) {
        (SessionState::Opening, SessionEvent::Opened(true)) => StepEffects {
            next: SessionState::Started,
            close: None,
            reclaim_context: false,
            deliver_conversation: true,
            deliver_access_error: false,
            publish: None,
        },
        (SessionState::Opening, SessionEvent::Opened(false)) => StepEffects {
            next: SessionState::Closed,
            close: Some(false),
            reclaim_context: true,
            deliver_conversation: false,
            deliver_access_error: true,
            publish: None,
        },
        (SessionState::Started, SessionEvent::Advance) => StepEffects {
            next: SessionState::Authenticating,
            close: None,
            reclaim_context: false,
            deliver_conversation: false,
            deliver_access_error: false,
            publish: None,
        },
        (SessionState::Authenticating, SessionEvent::AuthResult(true)) => StepEffects {
            next: SessionState::Validating,
            close: None,
            reclaim_context: false,
            deliver_conversation: false,
            deliver_access_error: false,
            publish: None,
        },
        (SessionState::Authenticating, SessionEvent::AuthResult(false)) => StepEffects {
            next: SessionState::Closed,
            close: Some(false),
            reclaim_context: true,
            deliver_conversation: false,
            deliver_access_error: false,
            publish: Some(Message::AuthenticationFailed),
        },
        (SessionState::Validating, SessionEvent::ValidateResult(true)) => StepEffects {
            next: SessionState::Closed,
            close: Some(true),
            reclaim_context: true,
            deliver_conversation: false,
            deliver_access_error: false,
            publish: Some(Message::Authenticated),
        },
        (SessionState::Validating, SessionEvent::ValidateResult(false)) => StepEffects {
            next: SessionState::Closed,
            close: Some(false),
            reclaim_context: true,
            deliver_conversation: false,
            deliver_access_error: false,
            publish: Some(Message::ValidationFailed),
        },
        _ => StepEffects {
            next: state,
            close: None,
            reclaim_context: false,
            deliver_conversation: false,
            deliver_access_error: false,
            publish: None,
        },
    }
}

/// Advances the session by one event and says everything the worker must
/// do before the next one.
pub fn session_step(state: SessionState, event: SessionEvent) -> (r: StepEffects)
    requires
        event_fits(state, event),
    ensures
        r == spec_session_step(state, event),
{
    match (state, event) {
        (SessionState::Opening, SessionEvent::Opened(true)) => StepEffects {
            next: SessionState::Started,
            close: None,
            reclaim_context: false,
            deliver_conversation: true,
            deliver_access_error: false,
            publish: None,
        },
        (SessionState::Opening, SessionEvent::Opened(false)) => StepEffects {
            next: SessionState::Closed,
            close: Some(false),
            reclaim_context: true,
            deliver_conversation: false,
            deliver_access_error: true,
            publish: None,
        },
        (SessionState::Started, SessionEvent::Advance) => StepEffects {
            next: SessionState::Authenticating,
            close: None,
            reclaim_context: false,
            deliver_conversation: false,
            deliver_access_error: false,
            publish: None,
        },
        (SessionState::Authenticating, SessionEvent::AuthResult(true)) => StepEffects {
            next: SessionState::Validating,
            close: None,
            reclaim_context: false,
            deliver_conversation: false,
            deliver_access_error: false,
            publish: None,
        },
        (SessionState::Authenticating, SessionEvent::AuthResult(false)) => StepEffects {
            next: SessionState::Closed,
            close: Some(false),
            reclaim_context: true,
            deliver_conversation: false,
            deliver_access_error: false,
            publish: Some(Message::AuthenticationFailed),
        },
        (SessionState::Validating, SessionEvent::ValidateResult(true)) => StepEffects {
            next: SessionState::Closed,
            close: Some(true),
            reclaim_context: true,
            deliver_conversation: false,
            deliver_access_error: false,
            publish: Some(Message::Authenticated),
        },
        (SessionState::Validating, SessionEvent::ValidateResult(false)) => StepEffects {
            next: SessionState::Closed,
            close: Some(false),
            reclaim_context: true,
            deliver_conversation: false,
            deliver_access_error: false,
            publish: Some(Message::ValidationFailed),
        },
        _ => StepEffects {
            next: state,
            close: None,
            reclaim_context: false,
            deliver_conversation: false,
            deliver_access_error: false,
            publish: None,
        },
    }
}

/// The terminal verdict for a session whose native open succeeded.
pub open spec fn spec_verdict(auth_ok: bool, acct_ok: bool) -> Message {
    if !auth_ok {
        Message::AuthenticationFailed
    } else if !acct_ok {
        Message::ValidationFailed
    } else {
        Message::Authenticated
    }
}

/// Maps the two native verdicts to the terminal message the client sees.
pub fn verdict_message(auth_ok: bool, acct_ok: bool) -> (m: Message)
    ensures
        m == spec_verdict(auth_ok, acct_ok),
        is_terminal(m@),
{
    if !auth_ok {
        Message::AuthenticationFailed
    } else if !acct_ok {
        Message::ValidationFailed
    } else {
        Message::Authenticated
    }
}

/// Publishes the session's terminal message and reclaims the context.
///
/// Consuming the context here is the exactly-once reclamation: the one
/// owner hands it in and nothing can touch it afterwards.  The publish is
/// best effort, as a client that already dropped its conversation is not
/// an error for the worker.
pub fn publish_terminal(ctx: ConversationContext, auth_ok: bool, acct_ok: bool) {
    let m = verdict_message(auth_ok, acct_ok);
    let timeout_ms = ctx.timeout_ms;
    let _ = ctx.msg_tx.send_timeout(m, timeout_ms);
}

/// Checks a request's names before any native call: a name whose encoding
/// holds an embedded terminator cannot take the native string form and is
/// rejected with an access error, the service name being checked first.
pub fn validate_request_names(service: &str, login: &str) -> (r: Result<(), Error>)
    ensures
        r is Ok <==> (!contains_nul(service@) && !contains_nul(login@)),
        contains_nul(service@) ==> (r matches Err(e) && e matches Error::Access(m) && m@
            == "invalid service name"@),
        !contains_nul(service@) && contains_nul(login@) ==> (r matches Err(e) && e matches Error::Access(
            m,
        ) && m@ == "invalid user name"@),
{
    if crate::bridge::check_nul(service) {
        return Err(Error::access("invalid service name".to_owned()));
    }
    if crate::bridge::check_nul(login) {
        return Err(Error::access("invalid user name".to_owned()));
    }
    Ok(())
}

/// The events of a whole session, as the three native verdicts determine
/// them: a failed open ends the session at once; otherwise the worker
/// delivers the conversation, authenticates, and validates only if
/// authentication succeeded.
pub open spec fn session_events(open_ok: bool, auth_ok: bool, acct_ok: bool) -> Seq<SessionEvent> {
    if !open_ok {
        seq![SessionEvent::Opened(false)]
    } else if !auth_ok {
        seq![SessionEvent::Opened(true), SessionEvent::Advance, SessionEvent::AuthResult(false)]
    } else {
        seq![
            SessionEvent::Opened(true),
            SessionEvent::Advance,
            SessionEvent::AuthResult(true),
            SessionEvent::ValidateResult(acct_ok),
        ]
    }
}

/// The effects of stepping a state through a sequence of events.
pub open spec fn trace_from(state: SessionState, events: Seq<SessionEvent>) -> Seq<StepEffects>
    decreases events.len(),
{
    if events.len() == 0 {
        Seq::empty()
    } else {
        seq![spec_session_step(state, events[0])] + trace_from(
            spec_session_step(state, events[0]).next,
            events.skip(1),
        )
    }
}

/// Every event of the sequence fits the state it meets.
pub open spec fn trace_fits(state: SessionState, events: Seq<SessionEvent>) -> bool
    decreases events.len(),
{
    if events.len() == 0 {
        true
    } else {
        event_fits(state, events[0]) && trace_fits(
            spec_session_step(state, events[0]).next,
            events.skip(1),
        )
    }
}

/// The state after stepping through a sequence of events.
pub open spec fn state_after(state: SessionState, events: Seq<SessionEvent>) -> SessionState
    decreases events.len(),
{
    if events.len() == 0 {
        state
    } else {
        state_after(spec_session_step(state, events[0]).next, events.skip(1))
    }
}

/// How many steps of the trace reclaim the context.
pub open spec fn reclaim_count(t: Seq<StepEffects>) -> int
    decreases t.len(),
{
    if t.len() == 0 {
        0
    } else {
        reclaim_count(t.drop_last()) + (if t.last().reclaim_context {
            1int
        } else {
            0int
        })
    }
}

/// How many steps of the trace close the native session.
pub open spec fn close_count(t: Seq<StepEffects>) -> int
    decreases t.len(),
{
    if t.len() == 0 {
        0
    } else {
        close_count(t.drop_last()) + (if t.last().close is Some {
            1int
        } else {
            0int
        })
    }
}

/// How many steps of the trace publish a terminal message.
pub open spec fn publish_count(t: Seq<StepEffects>) -> int
    decreases t.len(),
{
    if t.len() == 0 {
        0
    } else {
        publish_count(t.drop_last()) + (if t.last().publish is Some {
            1int
        } else {
            0int
        })
    }
}

/// How many steps of the trace deliver an access error to the slot.
pub open spec fn error_delivery_count(t: Seq<StepEffects>) -> int
    decreases t.len(),
{
    if t.len() == 0 {
        0
    } else {
        error_delivery_count(t.drop_last()) + (if t.last().deliver_access_error {
            1int
        } else {
            0int
        })
    }
}

/// How many steps of the trace deliver the conversation to the slot.
pub open spec fn conversation_delivery_count(t: Seq<StepEffects>) -> int
    decreases t.len(),
{
    if t.len() == 0 {
        0
    } else {
        conversation_delivery_count(t.drop_last()) + (if t.last().deliver_conversation {
            1int
        } else {
            0int
        })
    }
}

/// The lifecycle of one session, for every combination of the native
/// verdicts.  Every session ends closed; the native session is closed
/// exactly once and the context reclaimed exactly once, on every exit
/// path; the request's result slot receives exactly one of the
/// conversation or an access error; a terminal message is published
/// exactly when the open succeeded, and then exactly once, by the last
/// step of the session, and it is the verdict the two native results
/// dictate.
pub proof fn lemma_session_lifecycle(open_ok: bool, auth_ok: bool, acct_ok: bool)
    ensures
        ({
            let events = session_events(open_ok, auth_ok, acct_ok);
            let t = trace_from(SessionState::Opening, events);
            &&& trace_fits(SessionState::Opening, events)
            &&& state_after(SessionState::Opening, events) == SessionState::Closed
            &&& reclaim_count(t) == 1
            &&& close_count(t) == 1
            &&& conversation_delivery_count(t) == (if open_ok {
                1int
            } else {
                0int
            })
            &&& error_delivery_count(t) == (if open_ok {
                0int
            } else {
                1int
            })
            &&& publish_count(t) == (if open_ok {
                1int
            } else {
                0int
            })
            &&& error_delivery_count(t) + publish_count(t) == 1
            &&& (open_ok ==> t.last().publish == Some(spec_verdict(auth_ok, acct_ok)))
            &&& (open_ok ==> t.last().next == SessionState::Closed)
        }),
{
    let events = session_events(open_ok, auth_ok, acct_ok);
    let t = trace_from(SessionState::Opening, events);
    reveal_with_fuel(trace_from, 5);
    reveal_with_fuel(trace_fits, 5);
    reveal_with_fuel(state_after, 5);
    reveal_with_fuel(reclaim_count, 5);
    reveal_with_fuel(close_count, 5);
    reveal_with_fuel(publish_count, 5);
    reveal_with_fuel(error_delivery_count, 5);
    reveal_with_fuel(conversation_delivery_count, 5);
    if !open_ok {
        assert(t =~= seq![
            spec_session_step(SessionState::Opening, SessionEvent::Opened(false)),
        ]);
        assert(reclaim_count(t) == 1);
    } else if !auth_ok {
        let s1 = spec_session_step(SessionState::Opening, SessionEvent::Opened(true));
        let s2 = spec_session_step(SessionState::Started, SessionEvent::Advance);
        let s3 = spec_session_step(SessionState::Authenticating, SessionEvent::AuthResult(false));
        assert(events.skip(1).skip(1) =~= seq![SessionEvent::AuthResult(false)]);
        assert(t =~= seq![s1, s2, s3]);
        assert(t.drop_last() =~= seq![s1, s2]);
        assert(t.drop_last().drop_last() =~= seq![s1]);
        assert(reclaim_count(t) == 1);
    } else {
        let s1 = spec_session_step(SessionState::Opening, SessionEvent::Opened(true));
        let s2 = spec_session_step(SessionState::Started, SessionEvent::Advance);
        let s3 = spec_session_step(SessionState::Authenticating, SessionEvent::AuthResult(true));
        let s4 = spec_session_step(SessionState::Validating, SessionEvent::ValidateResult(acct_ok));
        assert(events.skip(1).skip(1) =~= seq![
            SessionEvent::AuthResult(true),
            SessionEvent::ValidateResult(acct_ok),
        ]);
        assert(events.skip(1).skip(1).skip(1) =~= seq![SessionEvent::ValidateResult(acct_ok)]);
        assert(t =~= seq![s1, s2, s3, s4]);
        assert(t.drop_last() =~= seq![s1, s2, s3]);
        assert(t.drop_last().drop_last() =~= seq![s1, s2]);
        assert(t.drop_last().drop_last().drop_last() =~= seq![s1]);
        assert(reclaim_count(t) == 1);
    }
}

} // verus!
