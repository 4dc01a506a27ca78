//! The decisions of the "ask" endpoint: the quota, the ids of a
//! conversation's messages, and the answer when no documentation matches.

use vstd::prelude::*;

use crate::ai::ask::RefDoc;
use crate::ai::helpers::ChatMessage;
use crate::api::ai_help::{ai_help_start, Admission, Refusal, AI_HELP_LIMIT};
use crate::api::common::GeneratedChunk;

verus! {

/// The kind of a metadata event of the answer stream.
#[derive(Debug, Clone, Copy, PartialEq, Eq, Structural)]
pub enum MetaType {
    Metadata,
}

impl Default for MetaType {
    fn default() -> (res: MetaType)
        ensures
            res == MetaType::Metadata,
    {
        MetaType::Metadata
    }
}

/// A user's quota: questions asked today, questions left, and the limit.
#[derive(Debug, Clone, Copy, PartialEq, Eq, Structural)]
pub struct AskLimit {
    pub count: i64,
    pub remaining: i64,
    pub limit: i64,
}

impl AskLimit {
    /// The quota after `count` questions today: what is asked and what is left
    /// add up to the limit.
    pub fn from_count(count: i64) -> (res: AskLimit)
        requires
            AI_HELP_LIMIT - count <= i64::MAX,
        ensures
            res.count == count,
            res.limit == AI_HELP_LIMIT,
            res.remaining == AI_HELP_LIMIT - count,
            res.count + res.remaining == res.limit,
    {
        AskLimit { count, remaining: AI_HELP_LIMIT - count, limit: AI_HELP_LIMIT }
    }
}

/// The quota endpoint's answer: no quota for subscribers.
#[derive(Debug, Clone, Copy, PartialEq, Eq, Structural)]
pub struct AskQuota {
    pub quota: Option<AskLimit>,
}

/// The quota of a user; `count`, the questions asked today, is read only for
/// users without a subscription.
pub fn ask_quota(is_subscriber: bool, count: i64) -> (res: AskQuota)
    requires
        !is_subscriber ==> AI_HELP_LIMIT - count <= i64::MAX,
    ensures
        is_subscriber ==> res.quota is None,
        !is_subscriber ==> res.quota == Some(AskLimit {
            count,
            remaining: (AI_HELP_LIMIT - count) as i64,
            limit: AI_HELP_LIMIT,
        }),
{
    if is_subscriber {
        AskQuota { quota: None }
    } else {
        AskQuota { quota: Some(AskLimit::from_count(count)) }
    }
}

/// Whether an ask question is answered: first the quota, then the services.
pub fn ask_start(is_subscriber: bool, counted: Option<i64>, services_available: bool) -> (res: Result<Admission, Refusal>)
    ensures
        !is_subscriber && counted is None ==> res == Err::<Admission, Refusal>(Refusal::PaymentRequired),
        (is_subscriber || counted is Some) && !services_available ==> res == Err::<Admission, Refusal>(Refusal::NotImplemented),
        (is_subscriber || counted is Some) && services_available ==> res == Ok::<Admission, Refusal>(
            if is_subscriber { Admission::Unlimited } else { Admission::Counted(counted->0) }),
{
    ai_help_start(is_subscriber, counted, services_available)
}

/// The metadata event that starts an answer: its conversation, the number
/// of its message, the documents it is based on, and the quota.
#[derive(Debug, Clone)]
pub struct AskMeta {
    pub typ: MetaType,
    pub chat_id: u128,
    pub message_id: i32,
    pub sources: Vec<RefDoc>,
    pub quota: Option<AskLimit>,
}

/// A question and the conversation it belongs to (ids are UUIDs as
/// integers).
#[derive(Debug, Clone)]
pub struct ChatRequestMessages {
    pub chat_id: Option<u128>,
    pub messages: Vec<ChatMessage>,
}

/// A logged answer: its metadata and the answer.
#[derive(Debug, Clone)]
pub struct AskLogResponse {
    pub meta: AskMeta,
    pub answer: ChatMessage,
}

/// A message of a logged conversation: the metadata, the question and the
/// answer.
#[derive(Debug, Clone)]
pub struct AskLogMessage {
    pub metadata: AskMeta,
    pub user: ChatMessage,
    pub assistant: ChatMessage,
}

/// A logged conversation.
#[derive(Debug, Clone)]
pub struct AskLog {
    pub chat_id: u128,
    pub messages: Vec<AskLogMessage>,
}

impl AskLog {
    /// A conversation from its logged messages: its id is that of the first
    /// message (the nil id where there is none).
    pub fn from_messages(messages: Vec<AskLogMessage>) -> (res: AskLog)
        ensures
            res.chat_id == (if messages@.len() > 0 { messages@[0].metadata.chat_id } else { 0 }),
            res.messages == messages,
    {
        let chat_id = if messages.len() > 0 { messages[0].metadata.chat_id } else { 0 };
        AskLog { chat_id, messages }
    }
}

/// The conversation a question belongs to: a single message starts a new one.
pub fn ask_chat_id(chat_id: Option<u128>, message_count: usize) -> (res: Option<u128>)
    ensures
        res == (if message_count == 1 { None } else { chat_id }),
{
    if message_count == 1 {
        None
    } else {
        chat_id
    }
}

/// The id of the answer's message: the number of messages so far, or 0 where
/// that does not fit in an `i32`.
pub fn ask_message_id(message_count: usize) -> (res: i32)
    ensures
        res == (if message_count <= i32::MAX { message_count as i32 } else { 0 }),
{
    if message_count <= 0x7fff_ffffusize {
        message_count as i32
    } else {
        0
    }
}

/// The answer when no documentation matches the question: the metadata
/// (without sources), an apology, and the chunk that ends the answer.
pub struct AskFallback {
    pub meta: AskMeta,
    pub apology: GeneratedChunk,
    pub stop: GeneratedChunk,
}

/// The apology sent when no documentation matches the question.
pub open spec fn apology_text() -> Seq<char> {
    "Sorry, I don't know how to help with that."@
}

/// The answer when no documentation matches the question.
pub fn ask_fallback(chat_id: u128, message_id: i32, quota: Option<AskLimit>) -> (res: AskFallback)
    ensures
        res.meta.typ == MetaType::Metadata,
        res.meta.chat_id == chat_id,
        res.meta.message_id == message_id,
        res.meta.sources@.len() == 0,
        res.meta.quota == quota,
        res.apology.id == 1,
        res.apology.choices@.len() == 1,
        res.apology.choices@[0].delta.content@ == apology_text(),
        res.apology.choices@[0].finish_reason is None,
        res.stop.id == 1,
        res.stop.choices@.len() == 1,
        res.stop.choices@[0].delta.content@.len() == 0,
        res.stop.choices@[0].finish_reason matches Some(r) && r@ == "stop"@,
{
    AskFallback {
        meta: AskMeta { typ: MetaType::Metadata, chat_id, message_id, sources: Vec::new(), quota },
        apology: GeneratedChunk::from("Sorry, I don't know how to help with that."),
        stop: GeneratedChunk::stop(),
    }
}

} // verus!
