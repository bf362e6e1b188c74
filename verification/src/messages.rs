use vstd::prelude::*;

verus! {

/// Native conversation record style: masked prompt (no echo).
pub const STYLE_PROMPT_ECHO_OFF: i32 = 1;

/// Native conversation record style: visible prompt (echo).
pub const STYLE_PROMPT_ECHO_ON: i32 = 0;

/// Native conversation record style: error status text.
pub const STYLE_ERROR_MSG: i32 = 2;

/// Native conversation record style: informational text.
pub const STYLE_TEXT_INFO: i32 = 3;

/// One message of a conversation, as seen by the client.
///
/// `Echo` and `NoEcho` are prompts that expect an answer; `Info` and
/// `Error` are status texts; the last three variants are terminal and end
/// the stream.
#[derive(Debug, Clone, PartialEq, Eq)]
pub enum Message {
    /// A visible prompt; the client is expected to answer.
    Echo(String),
    /// A masked prompt (typically a password); the client is expected to
    /// answer.
    NoEcho(String),
    /// Informational text; no answer is expected.
    Info(String),
    /// An error status text; no answer is expected.
    Error(String),
    /// Terminal: the native stack rejected the credentials.
    AuthenticationFailed,
    /// Terminal: the account failed validation.
    ValidationFailed,
    /// Terminal: authentication and validation both succeeded.
    Authenticated,
}

/// Mathematical model of a [`Message`]: the same shape over sequences of
/// characters.
pub enum MessageModel {
    /// Model of [`Message::Echo`].
    Echo(Seq<char>),
    /// Model of [`Message::NoEcho`].
    NoEcho(Seq<char>),
    /// Model of [`Message::Info`].
    Info(Seq<char>),
    /// Model of [`Message::Error`].
    Error(Seq<char>),
    /// Model of [`Message::AuthenticationFailed`].
    AuthenticationFailed,
    /// Model of [`Message::ValidationFailed`].
    ValidationFailed,
    /// Model of [`Message::Authenticated`].
    Authenticated,
}

impl View for Message {
    type V = MessageModel;

    open spec fn view(&self) -> MessageModel {
        match self {
            Message::Echo(t) => MessageModel::Echo(t@),
            Message::NoEcho(t) => MessageModel::NoEcho(t@),
            Message::Info(t) => MessageModel::Info(t@),
            Message::Error(t) => MessageModel::Error(t@),
            Message::AuthenticationFailed => MessageModel::AuthenticationFailed,
            Message::ValidationFailed => MessageModel::ValidationFailed,
            Message::Authenticated => MessageModel::Authenticated,
        }
    }
}

/// A terminal message ends the conversation's stream: nothing follows it.
pub open spec fn is_terminal(m: MessageModel) -> bool {
    match m {
        MessageModel::AuthenticationFailed => true,
        MessageModel::ValidationFailed => true,
        MessageModel::Authenticated => true,
        _ => false,
    }
}

impl Message {
    /// True exactly on the three terminal variants.
    pub fn terminal(&self) -> (r: bool)
        ensures
            r == is_terminal(self@),
    {
        match self {
            Message::AuthenticationFailed => true,
            Message::ValidationFailed => true,
            Message::Authenticated => true,
            _ => false,
        }
    }
}

} // verus!
