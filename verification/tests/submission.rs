use pam_chat::bridge::conversation_pair;
use pam_chat::channels::{bounded_pair, oneshot_pair, oneshot_recv_timeout};
use pam_chat::{AuthRequest, Authenticator, ChatOutcome, Error, Message};

#[test]
fn submission_against_an_idle_pool_times_out() {
    // A queue with no worker draining it: the request is admitted, but the
    // result slot is never filled, so the wait ends in a timeout.
    let (tx, rx) = bounded_pair::<AuthRequest>(4);
    let auth = Authenticator::from_parts(tx, 50);
    let r = auth.chat_sync(String::from("system-auth"), String::from("alice"));
    assert_eq!(r.err().map(|e| e.is_timeout()), Some(true));
    // The request really was enqueued.
    let queued = rx.recv_timeout(50).ok().expect("the request was admitted");
    assert_eq!(queued.service, "system-auth");
    assert_eq!(queued.login, "alice");
}

#[test]
fn excess_submissions_time_out_rather_than_block() {
    // Queue capacity one and no workers: the first submission fills the
    // queue and times out awaiting its result; every further submission
    // fails queue admission with a timeout instead of blocking forever.
    let (tx, _rx) = bounded_pair::<AuthRequest>(1);
    let auth = Authenticator::from_parts(tx, 40);
    let first = auth.chat_sync(String::from("system-auth"), String::from("a"));
    assert_eq!(first.err().map(|e| e.is_timeout()), Some(true));
    let second = auth.chat_sync(String::from("system-auth"), String::from("b"));
    match second {
        Err(Error::Timeout) => (),
        other => panic!("expected a timeout on the excess submission, got {:?}", other.err()),
    }
}

#[test]
fn clones_feed_the_same_queue() {
    let (tx, rx) = bounded_pair::<AuthRequest>(4);
    let auth = Authenticator::from_parts(tx, 40);
    let other = auth.clone();
    let _ = other.chat_sync(String::from("svc"), String::from("user"));
    let queued = rx.recv_timeout(50).ok().expect("the clone fed the same queue");
    assert_eq!(queued.service, "svc");
    assert_eq!(queued.login, "user");
}

#[test]
fn a_filled_result_slot_is_delivered() {
    let (res_tx, res_rx) = oneshot_pair::<ChatOutcome>();
    let (client, _ctx) = conversation_pair(100, 100);
    res_tx.send(ChatOutcome::Started(client)).ok().expect("the receiver is alive");
    let delivered = oneshot_recv_timeout(&res_rx, 100).expect("the slot was filled");
    assert!(matches!(delivered, ChatOutcome::Started(_)));
}

#[test]
fn a_denial_travels_with_its_message() {
    let (res_tx, res_rx) = oneshot_pair::<ChatOutcome>();
    res_tx
        .send(ChatOutcome::Denied(String::from("native session open failed")))
        .ok()
        .expect("the receiver is alive");
    match oneshot_recv_timeout(&res_rx, 100).expect("the slot was filled") {
        ChatOutcome::Denied(msg) => assert_eq!(msg, "native session open failed"),
        ChatOutcome::Started(_) => panic!("expected a denial"),
    }
}

#[test]
fn an_unfilled_result_slot_times_out() {
    let (res_tx, res_rx) = oneshot_pair::<ChatOutcome>();
    let r = oneshot_recv_timeout(&res_rx, 30);
    assert_eq!(r.err().map(|e| e.is_timeout()), Some(true));
    drop(res_tx);
}

#[test]
fn a_worker_side_delivery_reaches_the_client() {
    // One request travels the whole verified path without a pool: it is
    // submitted, taken from the queue, answered with a conversation, and
    // the terminal verdict is read back by the client.
    let (tx, rx) = bounded_pair::<AuthRequest>(2);
    let (res_tx, res_rx) = oneshot_pair::<ChatOutcome>();
    let req = AuthRequest {
        service: String::from("system-auth"),
        login: String::from("alice"),
        res_tx,
    };
    tx.send_timeout(req, 50).unwrap();
    let taken = rx.recv_timeout(50).ok().expect("the request is in the queue");
    let (client, ctx) = conversation_pair(100, 100);
    taken.res_tx.send(ChatOutcome::Started(client)).ok().expect("the submitter is waiting");
    pam_chat::session::publish_terminal(ctx, true, true);
    let conversation = match oneshot_recv_timeout(&res_rx, 100).expect("the slot was filled") {
        ChatOutcome::Started(c) => c,
        ChatOutcome::Denied(msg) => panic!("expected a conversation, was denied: {msg}"),
    };
    assert_eq!(conversation.next_message(), Some(Message::Authenticated));
    assert_eq!(conversation.next_message(), None);
}

#[test]
fn pool_endpoints_fan_out_one_receiver_per_worker() {
    let (tx, receivers) = pam_chat::auth::pool_endpoints(3, 2);
    assert_eq!(receivers.len(), 3);
    let (res_tx, _res_rx) = oneshot_pair::<ChatOutcome>();
    let req = AuthRequest { service: String::from("svc"), login: String::from("who"), res_tx };
    tx.send_timeout(req, 50).unwrap();
    // Every receiver drains the same shared queue.
    let taken = receivers[2].recv_timeout(50).ok().expect("the queue is shared");
    assert_eq!(taken.login, "who");
    assert!(receivers[0].recv_timeout(30).is_err());
}
