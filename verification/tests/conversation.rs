use pam_chat::bridge::{conversation_pair, run_conversation, ConvRecord};
use pam_chat::messages::{
    STYLE_ERROR_MSG, STYLE_PROMPT_ECHO_OFF, STYLE_PROMPT_ECHO_ON, STYLE_TEXT_INFO,
};
use pam_chat::{Error, Message};

#[test]
fn status_records_are_published_in_order() {
    let (client, ctx) = conversation_pair(100, 100);
    let records = vec![
        ConvRecord { style: STYLE_TEXT_INFO, text: String::from("first") },
        ConvRecord { style: STYLE_ERROR_MSG, text: String::from("second") },
        ConvRecord { style: STYLE_TEXT_INFO, text: String::from("third") },
    ];
    let replies = run_conversation(&ctx, &records).expect("status records need no answers");
    assert!(replies.is_empty());
    assert_eq!(client.rx().recv_timeout(100), Ok(Message::Info(String::from("first"))));
    assert_eq!(client.rx().recv_timeout(100), Ok(Message::Error(String::from("second"))));
    assert_eq!(client.rx().recv_timeout(100), Ok(Message::Info(String::from("third"))));
}

#[test]
fn prompts_collect_the_answers_in_order() {
    let (client, ctx) = conversation_pair(100, 100);
    client.tx().send_timeout(String::from("alice"), 100).unwrap();
    client.tx().send_timeout(String::from("xxx"), 100).unwrap();
    let records = vec![
        ConvRecord { style: STYLE_PROMPT_ECHO_ON, text: String::from("login: ") },
        ConvRecord { style: STYLE_TEXT_INFO, text: String::from("checking") },
        ConvRecord { style: STYLE_PROMPT_ECHO_OFF, text: String::from("Password: ") },
    ];
    let replies = run_conversation(&ctx, &records).expect("both answers were queued");
    assert_eq!(replies, vec![String::from("alice"), String::from("xxx")]);
    assert_eq!(client.rx().recv_timeout(100), Ok(Message::Echo(String::from("login: "))));
    assert_eq!(client.rx().recv_timeout(100), Ok(Message::Info(String::from("checking"))));
    assert_eq!(client.rx().recv_timeout(100), Ok(Message::NoEcho(String::from("Password: "))));
}

#[test]
fn unrecognized_style_aborts_the_whole_invocation() {
    let (_client, ctx) = conversation_pair(100, 100);
    let records = vec![ConvRecord { style: 99, text: String::from("?") }];
    match run_conversation(&ctx, &records) {
        Err(Error::Failed(_)) => (),
        other => panic!("expected a protocol failure, got {:?}", other),
    }
}

#[test]
fn answer_with_embedded_terminator_aborts() {
    let (client, ctx) = conversation_pair(100, 100);
    client.tx().send_timeout(String::from("bad\0answer"), 100).unwrap();
    let records = vec![ConvRecord { style: STYLE_PROMPT_ECHO_OFF, text: String::from("Password: ") }];
    match run_conversation(&ctx, &records) {
        Err(Error::Failed(_)) => (),
        other => panic!("expected a protocol failure, got {:?}", other),
    }
}

#[test]
fn missing_answer_times_out() {
    let (client, ctx) = conversation_pair(100, 30);
    let records = vec![ConvRecord { style: STYLE_PROMPT_ECHO_OFF, text: String::from("Password: ") }];
    assert_eq!(run_conversation(&ctx, &records), Err(Error::Timeout));
    // The prompt itself was still published first.
    assert_eq!(client.rx().recv_timeout(100), Ok(Message::NoEcho(String::from("Password: "))));
}

#[test]
fn dropped_conversation_aborts_the_bridge() {
    let (client, ctx) = conversation_pair(30, 30);
    drop(client);
    let records = vec![ConvRecord { style: STYLE_TEXT_INFO, text: String::from("hello") }];
    match run_conversation(&ctx, &records) {
        Err(Error::Failed(_)) | Err(Error::Timeout) => (),
        other => panic!("expected the publish to fail, got {:?}", other),
    }
}

#[test]
fn an_empty_record_batch_succeeds_with_no_replies() {
    let (_client, ctx) = conversation_pair(100, 100);
    let records: Vec<ConvRecord> = Vec::new();
    assert_eq!(run_conversation(&ctx, &records), Ok(Vec::new()));
}
