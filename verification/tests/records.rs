use pam_chat::bridge::{check_nul, classify, record_count};
use pam_chat::messages::{
    STYLE_ERROR_MSG, STYLE_PROMPT_ECHO_OFF, STYLE_PROMPT_ECHO_ON, STYLE_TEXT_INFO,
};
use pam_chat::Message;

#[test]
fn masked_prompt_becomes_no_echo_and_expects_an_answer() {
    let r = classify(STYLE_PROMPT_ECHO_OFF, String::from("Password: "));
    assert_eq!(r, Some((Message::NoEcho(String::from("Password: ")), true)));
}

#[test]
fn visible_prompt_becomes_echo_and_expects_an_answer() {
    let r = classify(STYLE_PROMPT_ECHO_ON, String::from("login: "));
    assert_eq!(r, Some((Message::Echo(String::from("login: ")), true)));
}

#[test]
fn error_status_expects_no_answer() {
    let r = classify(STYLE_ERROR_MSG, String::from("account locked"));
    assert_eq!(r, Some((Message::Error(String::from("account locked")), false)));
}

#[test]
fn info_status_expects_no_answer() {
    let r = classify(STYLE_TEXT_INFO, String::from("welcome"));
    assert_eq!(r, Some((Message::Info(String::from("welcome")), false)));
}

#[test]
fn unrecognized_style_is_rejected() {
    assert_eq!(classify(17, String::from("?")), None);
    assert_eq!(classify(-1, String::from("?")), None);
}

#[test]
fn terminator_detection() {
    assert!(!check_nul(""));
    assert!(!check_nul("password"));
    assert!(check_nul("pass\0word"));
    assert!(check_nul("\0"));
    assert!(!check_nul("pässwörd"));
}

#[test]
fn terminal_messages() {
    assert!(Message::Authenticated.terminal());
    assert!(Message::AuthenticationFailed.terminal());
    assert!(Message::ValidationFailed.terminal());
    assert!(!Message::Echo(String::from("x")).terminal());
    assert!(!Message::NoEcho(String::new()).terminal());
    assert!(!Message::Info(String::new()).terminal());
    assert!(!Message::Error(String::new()).terminal());
}

#[test]
fn record_counts_admit_only_non_negative_values() {
    assert_eq!(record_count(0), Some(0));
    assert_eq!(record_count(3), Some(3));
    assert_eq!(record_count(i32::MAX), Some(i32::MAX as usize));
    assert_eq!(record_count(-1), None);
    assert_eq!(record_count(i32::MIN), None);
}
