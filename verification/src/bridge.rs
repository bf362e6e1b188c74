use vstd::prelude::*;

use crate::channels::{bounded_pair, BoundedReceiver, BoundedSender};
use crate::errors::Error;
use crate::messages::{
    is_terminal, Message, MessageModel, STYLE_ERROR_MSG, STYLE_PROMPT_ECHO_OFF,
    STYLE_PROMPT_ECHO_ON, STYLE_TEXT_INFO,
};
use vstd::utf8::encode_utf8;

verus! {

/// Capacity of the per-conversation message and answer channels.
pub const CONVERSATION_CHANNEL_CAPACITY: usize = 10;

/// The client side of one authentication conversation: an ordered source
/// of [`Message`] values and a sink for answer strings.  Dropping it makes
/// the bridge's sends fail, which aborts the native call.
pub struct Conversation {
    /// Ordered source of conversation messages.
    pub msg_rx: BoundedReceiver<Message>,
    /// Sink for the client's answers to prompts.
    pub input_tx: BoundedSender<String>,
}

impl Conversation {
    /// The sink for answers to prompts.
    pub fn tx(&self) -> (r: &BoundedSender<String>)
        ensures
            r == &self.input_tx,
    {
        &self.input_tx
    }

    /// The ordered source of conversation messages.
    pub fn rx(&self) -> (r: &BoundedReceiver<Message>)
        ensures
            r == &self.msg_rx,
    {
        &self.msg_rx
    }

    /// Waits, without a bound, for the next message of the stream;
    /// `None` once every bridge-side sender is gone, i.e. the stream has
    /// ended.
    pub fn next_message(&self) -> Option<Message> {
        self.msg_rx.recv_blocking()
    }
}

/// The bridge side of one conversation: the mirror of [`Conversation`],
/// together with the two timeout bounds.  Exactly one exists per in-flight
/// native session; it is owned by one worker, lent to the native callback
/// for the duration of the session, and consumed exactly once when the
/// session ends.
pub struct ConversationContext {
    /// Sink through which the bridge publishes messages to the client.
    pub msg_tx: BoundedSender<Message>,
    /// Source of the client's answers.
    pub input_rx: BoundedReceiver<String>,
    /// Bound, in milliseconds, on publishing one message.
    pub timeout_ms: u64,
    /// Bound, in milliseconds, on awaiting one answer.
    pub chat_timeout_ms: u64,
}

/// Creates the two bounded channels of one conversation and hands back the
/// connected client and bridge sides.
pub fn conversation_pair(timeout_ms: u64, chat_timeout_ms: u64) -> (r: (
    Conversation,
    ConversationContext,
))
    ensures
        r.1.timeout_ms == timeout_ms,
        r.1.chat_timeout_ms == chat_timeout_ms,
{
    let (msg_tx, msg_rx) = bounded_pair(CONVERSATION_CHANNEL_CAPACITY);
    let (input_tx, input_rx) = bounded_pair(CONVERSATION_CHANNEL_CAPACITY);
    (
        Conversation { msg_rx, input_tx },
        ConversationContext { msg_tx, input_rx, timeout_ms, chat_timeout_ms },
    )
}

/// One record of a native callback invocation: a style code and its text.
pub struct ConvRecord {
    /// The native style code of the record.
    pub style: i32,
    /// The record's text, already decoded from the native string form.
    pub text: String,
}

/// Mathematical model of a [`ConvRecord`].
pub struct ConvRecordModel {
    /// The native style code of the record.
    pub style: i32,
    /// The record's text.
    pub text: Seq<char>,
}

impl View for ConvRecord {
    type V = ConvRecordModel;

    open spec fn view(&self) -> ConvRecordModel {
        ConvRecordModel { style: self.style, text: self.text@ }
    }
}

/// The models of a sequence of records.
pub open spec fn record_models(records: Seq<ConvRecord>) -> Seq<ConvRecordModel> {
    records.map_values(|c: ConvRecord| c@)
}

/// How one record is bridged: the message published for it, and whether an
/// answer must be read back.  `None` for an unrecognized style, which
/// aborts the whole callback.
pub open spec fn spec_classify(style: i32, text: Seq<char>) -> Option<(MessageModel, bool)> {
    if style == STYLE_PROMPT_ECHO_ON {
        Some((MessageModel::Echo(text), true))
    } else if style == STYLE_PROMPT_ECHO_OFF {
        Some((MessageModel::NoEcho(text), true))
    } else if style == STYLE_ERROR_MSG {
        Some((MessageModel::Error(text), false))
    } else if style == STYLE_TEXT_INFO {
        Some((MessageModel::Info(text), false))
    } else {
        None
    }
}

/// Builds the message published for one record, and whether an answer is
/// read back; `None` exactly on an unrecognized style.
pub fn classify(style: i32, text: String) -> (r: Option<(Message, bool)>)
    ensures
        match r {
            Some(p) => spec_classify(style, text@) == Some((p.0@, p.1)),
            None => spec_classify(style, text@) is None,
        },
{
    if style == STYLE_PROMPT_ECHO_ON {
        Some((Message::Echo(text), true))
    } else if style == STYLE_PROMPT_ECHO_OFF {
        Some((Message::NoEcho(text), true))
    } else if style == STYLE_ERROR_MSG {
        Some((Message::Error(text), false))
    } else if style == STYLE_TEXT_INFO {
        Some((Message::Info(text), false))
    } else {
        None
    }
}

/// Every style in the sequence is one the bridge recognizes.
pub open spec fn styles_valid(records: Seq<ConvRecordModel>) -> bool {
    forall|i: int|
        0 <= i < records.len() ==> spec_classify(
            records[i].style,
            records[i].text,
        ) is Some
}

/// The message published for one valid record.
pub open spec fn record_message(r: ConvRecordModel) -> MessageModel {
    spec_classify(r.style, r.text)->Some_0.0
}

/// Whether one valid record is a prompt, i.e. consumes one answer.
pub open spec fn record_needs_reply(r: ConvRecordModel) -> bool {
    spec_classify(r.style, r.text)->Some_0.1
}

/// The messages a fully processed callback publishes, in record order.
pub open spec fn published_messages(records: Seq<ConvRecordModel>) -> Seq<MessageModel> {
    records.map_values(|r: ConvRecordModel| record_message(r))
}

/// How many of the records are prompts, i.e. how many answers a fully
/// processed callback consumes.
pub open spec fn prompt_count(records: Seq<ConvRecordModel>) -> int
    decreases records.len(),
{
    if records.len() == 0 {
        0
    } else {
        prompt_count(records.drop_last()) + (if record_needs_reply(records.last()) {
            1int
        } else {
            0int
        })
    }
}

/// The text cannot take the native string form: its encoding holds an
/// embedded terminator byte.
pub open spec fn contains_nul(text: Seq<char>) -> bool {
    encode_utf8(text).contains(0u8)
}

/// Reports whether the string's encoding holds an embedded terminator
/// byte, which no native string can carry.
pub fn check_nul(s: &str) -> (r: bool)
    ensures
        r == contains_nul(s@),
{
    let bytes = s.as_bytes();
    let n: usize = bytes.len();
    let mut i: usize = 0;
    while i < n
        invariant
            n == bytes@.len(),
            i <= n,
            bytes@ == encode_utf8(s@),
            forall|j: int| 0 <= j < i ==> bytes@[j] != 0u8,
        decreases n - i,
    {
        if bytes[i] == 0 {
            assert(contains_nul(s@)) by {
                assert(encode_utf8(s@)[i as int] == 0u8);
            }
            return true;
        }
        i = i + 1;
    }
    assert(!contains_nul(s@)) by {
        if encode_utf8(s@).contains(0u8) {
            let j = choose|j: int| 0 <= j < bytes@.len() && bytes@[j] == 0u8;
            assert(bytes@[j] != 0u8);
        }
    }
    false
}

/// Admits a native record count only where it is representable as a
/// non-negative count; a negative count rejects the whole callback
/// invocation before any record is read.
pub fn record_count(n: i32) -> (r: Option<usize>)
    ensures
        n >= 0 ==> r == Some(n as usize),
        n < 0 ==> r is None,
{
    if n >= 0 {
        Some(n as usize)
    } else {
        None
    }
}

/// Runs the bridge's side of one native callback invocation: for each
/// record in order, publishes its message (bounded by `timeout_ms`) and,
/// for prompts, reads one answer back (bounded by `chat_timeout_ms`).
///
/// On success the replies are the answers received, one per prompt record
/// and in record order, none holding an embedded terminator.  An
/// unrecognized style, an answer that cannot take the native string form,
/// or any channel failure aborts the whole invocation; nothing else does:
/// an empty invocation always succeeds, and every abort is a `Timeout` or
/// a `Failed` error, a `Failed` one for sure when already the first
/// record's style is unrecognized, which no channel operation precedes.
pub fn run_conversation(ctx: &ConversationContext, records: &Vec<ConvRecord>) -> (r: Result<
    Vec<String>,
    Error,
>)
    ensures
        r matches Ok(replies) ==> {
            &&& styles_valid(record_models(records@))
            &&& replies@.len() == prompt_count(record_models(records@))
            &&& forall|k: int|
                0 <= k < replies@.len() ==> !contains_nul(#[trigger] replies@[k]@)
        },
        !styles_valid(record_models(records@)) ==> r is Err,
        records@.len() == 0 ==> r is Ok,
        r matches Err(e) ==> (e matches Error::Timeout || e matches Error::Failed(_)),
        records@.len() > 0 && spec_classify(
            record_models(records@)[0].style,
            record_models(records@)[0].text,
        ) is None ==> (r matches Err(e) && e matches Error::Failed(_)),
{
    let ghost ms = record_models(records@);
    let mut replies: Vec<String> = Vec::new();
    let n: usize = records.len();
    let mut i: usize = 0;
    while i < n
        invariant
            n == records@.len(),
            i <= n,
            ms == record_models(records@),
            forall|j: int|
                0 <= j < i ==> spec_classify(ms[j].style, ms[j].text) is Some,
            replies@.len() == prompt_count(ms.take(i as int)),
            forall|k: int| 0 <= k < replies@.len() ==> !contains_nul(#[trigger] replies@[k]@),
        decreases n - i,
    {
        let style: i32 = records[i].style;
        let text = records[i].text.clone();
        let (message, needs_reply) = match classify(style, text) {
            Some(p) => p,
            None => {
                return Err(Error::Failed("unrecognized conversation record style".to_owned()));
            },
        };
        match ctx.msg_tx.send_timeout(message, ctx.timeout_ms) {
            Ok(()) => (),
            Err(e) => {
                return Err(e);
            },
        }
        proof {
            lemma_one_reply_per_prompt(ms, i as int);
            assert(ms.take(i as int + 1).drop_last() =~= ms.take(i as int));
        }
        if needs_reply {
            let answer = match ctx.input_rx.recv_timeout(ctx.chat_timeout_ms) {
                Ok(a) => a,
                Err(e) => {
                    return Err(e);
                },
            };
            if check_nul(answer.as_str()) {
                return Err(Error::Failed("answer holds an embedded terminator".to_owned()));
            }
            replies.push(answer);
        }
        i = i + 1;
    }
    proof {
        assert(ms.take(n as int) =~= ms);
    }
    Ok(replies)
}

/// One prompt record consumes exactly one answer, a status record none:
/// extending the processed prefix by one record raises the number of
/// consumed answers by one exactly when that record is a prompt.
pub proof fn lemma_one_reply_per_prompt(records: Seq<ConvRecordModel>, i: int)
    requires
        0 <= i < records.len(),
    ensures
        prompt_count(records.take(i + 1)) == prompt_count(records.take(i)) + (
        if record_needs_reply(records[i]) {
            1int
        } else {
            0int
        }),
{
    assert(records.take(i + 1).drop_last() =~= records.take(i));
    assert(records.take(i + 1).last() == records[i]);
}

/// The number of answers a fully processed callback consumes never
/// exceeds the number of records.
pub proof fn lemma_prompt_count_bounded(records: Seq<ConvRecordModel>)
    ensures
        0 <= prompt_count(records) <= records.len(),
    decreases records.len(),
{
    if records.len() > 0 {
        lemma_prompt_count_bounded(records.drop_last());
    }
}

/// The bridge publishes no terminal message: every message built from a
/// conversation record is a prompt or a status text, so a client observes
/// its terminal message only from the worker's verdict, after which the
/// bridge is done.
pub proof fn lemma_bridge_messages_not_terminal(records: Seq<ConvRecordModel>)
    requires
        styles_valid(records),
    ensures
        forall|i: int|
            0 <= i < published_messages(records).len() ==> !is_terminal(
                #[trigger] published_messages(records)[i],
            ),
{
}

/// The messages of a fully processed callback match the records exactly,
/// in order: one message per record, carrying that record's text, with
/// prompts masked or visible as the record's style says.
pub proof fn lemma_messages_match_records(records: Seq<ConvRecordModel>)
    requires
        styles_valid(records),
    ensures
        published_messages(records).len() == records.len(),
        forall|i: int|
            0 <= i < records.len() ==> #[trigger] published_messages(records)[i]
                == record_message(records[i]),
        forall|i: int|
            0 <= i < records.len() ==> model_text(#[trigger] published_messages(records)[i])
                == Some(records[i].text),
{
}

/// The text a message model carries, `None` for the terminal verdicts.
pub open spec fn model_text(m: MessageModel) -> Option<Seq<char>> {
    match m {
        MessageModel::Echo(t) => Some(t),
        MessageModel::NoEcho(t) => Some(t),
        MessageModel::Info(t) => Some(t),
        MessageModel::Error(t) => Some(t),
        _ => None,
    }
}

} // verus!
