use pam_chat::AuthenticatorBuilder;

#[test]
fn default_configuration() {
    let b = AuthenticatorBuilder::new();
    assert_eq!(b.workers, 1);
    assert_eq!(b.queue_size, 10);
    assert_eq!(b.timeout_ms, 5_000);
    assert_eq!(b.chat_timeout_ms, 60_000);
}

#[test]
fn default_trait_matches_new() {
    let b = AuthenticatorBuilder::default();
    assert_eq!(b.workers, 1);
    assert_eq!(b.queue_size, 10);
    assert_eq!(b.timeout_ms, 5_000);
    assert_eq!(b.chat_timeout_ms, 60_000);
}

#[test]
fn setters_update_each_field() {
    let b = AuthenticatorBuilder::new()
        .workers(4)
        .queue_size(10)
        .timeout(5_000)
        .chat_timeout(60_000);
    assert_eq!(b.workers, 4);
    assert_eq!(b.queue_size, 10);
    assert_eq!(b.timeout_ms, 5_000);
    assert_eq!(b.chat_timeout_ms, 60_000);
}

#[test]
fn setters_leave_other_fields_alone() {
    let b = AuthenticatorBuilder::new().workers(7);
    assert_eq!(b.workers, 7);
    assert_eq!(b.queue_size, 10);
    assert_eq!(b.timeout_ms, 5_000);
    assert_eq!(b.chat_timeout_ms, 60_000);

    let b = AuthenticatorBuilder::new().chat_timeout(1_234);
    assert_eq!(b.workers, 1);
    assert_eq!(b.chat_timeout_ms, 1_234);
}
