//! The decisions of the AI Help endpoints: the daily quota, which conversations
//! are kept in the history, the QA error trigger, and the bookkeeping of a
//! streamed answer (its length and how it finished).

use vstd::prelude::*;

use crate::ai::help::qa_error_triggered;
use crate::ai::help::qa_triggered;
use crate::ai::error::AIError;
use crate::ai::help::RefDoc;
use crate::ai::helpers::ChatMessage;
use crate::api::common::Timestamp;
use crate::api::error::ApiError;
use crate::api::settings::Settings;
use crate::text::str_eq;

verus! {

/// The number of questions a day that a user without a subscription may ask.
pub const AI_HELP_LIMIT: i64 = 5;

/// The kind of a metadata event of the answer stream.
#[derive(Debug, Clone, Copy, PartialEq, Eq, Structural)]
pub enum MetaType {
    Metadata,
}

impl Default for MetaType {
    fn default() -> (res: MetaType)
        ensures
            res == MetaType::Metadata,
    {
        MetaType::Metadata
    }
}

/// A user's quota: questions asked today, questions left, and the limit.
#[derive(Debug, Clone, Copy, PartialEq, Eq, Structural)]
pub struct AIHelpLimit {
    pub count: i64,
    pub remaining: i64,
    pub limit: i64,
}

impl AIHelpLimit {
    /// The quota after `count` questions today: what is asked and what is left
    /// add up to the limit.
    pub fn from_count(count: i64) -> (res: AIHelpLimit)
        requires
            AI_HELP_LIMIT - count <= i64::MAX,
        ensures
            res.count == count,
            res.limit == AI_HELP_LIMIT,
            res.remaining == AI_HELP_LIMIT - count,
            res.count + res.remaining == res.limit,
    {
        AIHelpLimit { count, remaining: AI_HELP_LIMIT - count, limit: AI_HELP_LIMIT }
    }
}

/// The quota endpoint's answer: no quota for subscribers.
#[derive(Debug, Clone, Copy, PartialEq, Eq, Structural)]
pub struct AIHelpQuota {
    pub quota: Option<AIHelpLimit>,
}

/// The quota of a user; `count`, the questions asked today, is read only for
/// users without a subscription.
pub fn quota(is_subscriber: bool, count: i64) -> (res: AIHelpQuota)
    requires
        !is_subscriber ==> AI_HELP_LIMIT - count <= i64::MAX,
    ensures
        is_subscriber ==> res.quota is None,
        !is_subscriber ==> res.quota == Some(AIHelpLimit {
            count,
            remaining: (AI_HELP_LIMIT - count) as i64,
            limit: AI_HELP_LIMIT,
        }),
{
    if is_subscriber {
        AIHelpQuota { quota: None }
    } else {
        AIHelpQuota { quota: Some(AIHelpLimit::from_count(count)) }
    }
}

/// Whether a question may be asked. Subscribers are counted without a limit;
/// for the others the store counts the question and gives the new count, or
/// nothing when the limit was already reached.
#[derive(Debug, Clone, Copy, PartialEq, Eq, Structural)]
pub enum Admission {
    Unlimited,
    Counted(i64),
    PaymentRequired,
}

/// The admission of a question: `counted` is the store's answer to counting
/// it against the limit, asked for users without a subscription only.
pub fn admission(is_subscriber: bool, counted: Option<i64>) -> (res: Admission)
    ensures
        is_subscriber ==> res == Admission::Unlimited,
        !is_subscriber ==> res == (match counted {
            Some(c) => Admission::Counted(c),
            None => Admission::PaymentRequired,
        }),
{
    if is_subscriber {
        Admission::Unlimited
    } else {
        match counted {
            Some(c) => Admission::Counted(c),
            None => Admission::PaymentRequired,
        }
    }
}

/// Why a question is not answered.
#[derive(Debug, Clone, Copy, PartialEq, Eq, Structural)]
pub enum Refusal {
    /// The daily limit is reached.
    PaymentRequired,
    /// The AI services are not configured.
    NotImplemented,
}

/// Whether a question is answered: first the quota (a user over the limit
/// is refused even where the services are missing), then the services.
pub fn ai_help_start(is_subscriber: bool, counted: Option<i64>, services_available: bool) -> (res: Result<Admission, Refusal>)
    ensures
        !is_subscriber && counted is None ==> res == Err::<Admission, Refusal>(Refusal::PaymentRequired),
        (is_subscriber || counted is Some) && !services_available ==> res == Err::<Admission, Refusal>(Refusal::NotImplemented),
        (is_subscriber || counted is Some) && services_available ==> res == Ok::<Admission, Refusal>(
            if is_subscriber { Admission::Unlimited } else { Admission::Counted(counted->0) }),
{
    let admitted = admission(is_subscriber, counted);
    match admitted {
        Admission::PaymentRequired => Err(Refusal::PaymentRequired),
        _ => if services_available { Ok(admitted) } else { Err(Refusal::NotImplemented) },
    }
}

/// The quota sent along with an answer: the new count's quota for counted
/// users, none otherwise.
pub fn answer_quota(admitted: Admission) -> (res: Option<AIHelpLimit>)
    requires
        admitted matches Admission::Counted(c) ==> AI_HELP_LIMIT - c <= i64::MAX,
    ensures
        match admitted {
            Admission::Counted(c) => res == Some(AIHelpLimit {
                count: c,
                remaining: (AI_HELP_LIMIT - c) as i64,
                limit: AI_HELP_LIMIT,
            }),
            _ => res is None,
        },
{
    match admitted {
        Admission::Counted(c) => Some(AIHelpLimit::from_count(c)),
        _ => None,
    }
}

/// How often a question is given back to the quota after its preparation:
/// once for a failure that is the server's doing, never otherwise.
pub open spec fn preparation_refund(failure: Option<AIError>) -> nat {
    match failure {
        Some(e) => if e is FlaggedError { 0 } else { 1 },
        None => 0,
    }
}

/// A question whose preparation failed through the server's doing does not
/// count towards the limit: the count taken for it, less what is given
/// back, is the count before it; flagged content stays counted.
pub proof fn lemma_failed_preparation_keeps_count(before: int, e: AIError)
    ensures
        !(e is FlaggedError) ==> before + 1 - preparation_refund(Some(e)) == before,
        e is FlaggedError ==> before + 1 - preparation_refund(Some(e)) == before + 1,
{
}

/// How often the question is given back to the user's quota once the request
/// was prepared: a failure that is not counted against the user (it is the
/// server's doing) is given back once, so the count is where it was before
/// the question; a prepared request, and flagged content, give nothing back.
pub fn preparation_refunds(failure: Option<AIError>) -> (res: u8)
    ensures
        res == preparation_refund(failure),
{
    match failure {
        Some(e) => if e.reinstates_quota() { 1 } else { 0 },
        None => 0,
    }
}

/// A question and the conversation it belongs to (ids are UUIDs as
/// integers).
#[derive(Debug, Clone)]
pub struct ChatRequestMessages {
    pub chat_id: Option<u128>,
    pub parent_id: Option<u128>,
    pub messages: Vec<ChatMessage>,
}

/// The ids of an answered question: its conversation, the message, and the
/// message it follows.
#[derive(Debug, Clone, Copy, PartialEq, Eq, Structural)]
pub struct HelpIds {
    pub chat_id: u128,
    pub message_id: u128,
    pub parent_id: Option<u128>,
}

/// The metadata event that starts an answer, and the metadata of a logged
/// message.
#[derive(Debug, Clone)]
pub struct AIHelpMeta {
    pub typ: MetaType,
    pub chat_id: u128,
    pub message_id: u128,
    pub parent_id: Option<u128>,
    pub sources: Vec<RefDoc>,
    pub quota: Option<AIHelpLimit>,
    pub created_at: Timestamp,
}

/// A message of the history: the question, and the answer where there is one.
#[derive(Debug, Clone)]
pub struct AIHelpLogMessage {
    pub metadata: AIHelpMeta,
    pub user: ChatMessage,
    pub assistant: Option<ChatMessage>,
}

/// A conversation of the history.
#[derive(Debug, Clone)]
pub struct AIHelpLog {
    pub chat_id: u128,
    pub messages: Vec<AIHelpLogMessage>,
}

/// A conversation in the list of the history: its id, when it was last
/// used, and its title.
#[derive(Debug, Clone)]
pub struct AIHelpHistoryListEntry {
    pub chat_id: u128,
    pub last: Timestamp,
    pub label: String,
}

impl AIHelpLogMessage {
    /// A logged message: its ids, sources and time as metadata (without a
    /// quota), the question and the answer.
    pub fn new(ids: HelpIds, sources: Vec<RefDoc>, created_at: Timestamp, user: ChatMessage, assistant: Option<ChatMessage>) -> (res: AIHelpLogMessage)
        ensures
            res.metadata.typ == MetaType::Metadata,
            res.metadata.chat_id == ids.chat_id,
            res.metadata.message_id == ids.message_id,
            res.metadata.parent_id == ids.parent_id,
            res.metadata.sources == sources,
            res.metadata.quota is None,
            res.metadata.created_at == created_at,
            res.user == user,
            res.assistant == assistant,
    {
        AIHelpLogMessage {
            metadata: AIHelpMeta {
                typ: MetaType::Metadata,
                chat_id: ids.chat_id,
                message_id: ids.message_id,
                parent_id: ids.parent_id,
                sources,
                quota: None,
                created_at,
            },
            user,
            assistant,
        }
    }
}

impl AIHelpLog {
    /// A conversation from its logged messages: its id is that of the first
    /// message (the nil id where there is none).
    pub fn from_messages(messages: Vec<AIHelpLogMessage>) -> (res: AIHelpLog)
        ensures
            res.chat_id == (if messages@.len() > 0 { messages@[0].metadata.chat_id } else { 0 }),
            res.messages == messages,
    {
        let chat_id = if messages.len() > 0 { messages[0].metadata.chat_id } else { 0 };
        AIHelpLog { chat_id, messages }
    }
}

/// The ids of a new answer: the conversation asked for, or the fresh one;
/// the fresh message id; the message it follows.
pub fn help_ids(requested_chat: Option<u128>, fresh_chat: u128, fresh_message: u128, parent_id: Option<u128>) -> (res: HelpIds)
    ensures
        res.chat_id == (match requested_chat { Some(c) => c, None => fresh_chat }),
        res.message_id == fresh_message,
        res.parent_id == parent_id,
{
    HelpIds {
        chat_id: match requested_chat {
            Some(c) => c,
            None => fresh_chat,
        },
        message_id: fresh_message,
        parent_id,
    }
}

/// The answer of the title summary endpoint.
#[derive(Debug, Clone)]
pub struct AIHelpHistorySummaryResponse {
    pub title: Option<String>,
}

/// Whether the user keeps a history of AI Help conversations: only with
/// settings that say so.
pub fn history_enabled(settings: &Option<Settings>) -> (res: bool)
    ensures
        res == (match settings {
            Some(s) => s.ai_help_history,
            None => false,
        }),
{
    match settings {
        Some(s) => s.ai_help_history,
        None => false,
    }
}

/// The QA error trigger: an artificial error when the configured trigger words
/// are the last user message.
pub fn qa_check_for_error_trigger(messages: &Vec<ChatMessage>, magic_words: Option<&str>) -> (res: Result<(), ApiError>)
    ensures
        qa_triggered(messages@, match magic_words { Some(w) => Some(w@), None => None })
            ==> res matches Err(ApiError::Artificial),
        !qa_triggered(messages@, match magic_words { Some(w) => Some(w@), None => None })
            ==> res is Ok,
{
    if qa_error_triggered(messages, magic_words) {
        Err(ApiError::Artificial)
    } else {
        Ok(())
    }
}

/// A measurement stored as a big integer, or nothing when it does not fit.
pub fn default_meta_big_int(value: Option<u128>) -> (res: Option<i64>)
    ensures
        res == (match value {
            Some(v) => if v <= i64::MAX { Some(v as i64) } else { None },
            None => None,
        }),
{
    match value {
        Some(v) => {
            if v <= 0x7fff_ffff_ffff_ffffu128 {
                Some(v as i64)
            } else {
                None
            }
        },
        None => None,
    }
}

/// How an answer ended.
#[derive(Debug, Clone, Copy, PartialEq, Eq, Structural)]
pub enum AiHelpMessageStatus {
    Success,
    FinishedTooLong,
    FinishedContentFilter,
    FinishedNoReason,
    Unknown,
}

/// How an answer ended, by the finish reason of its last chunk.
pub open spec fn finish_status(reason: Option<Seq<char>>) -> AiHelpMessageStatus {
    match reason {
        Some(r) => if r == "length"@ {
            AiHelpMessageStatus::FinishedTooLong
        } else if r == "stop"@ {
            AiHelpMessageStatus::Success
        } else if r == "content_filter"@ {
            AiHelpMessageStatus::FinishedContentFilter
        } else {
            AiHelpMessageStatus::Unknown
        },
        None => AiHelpMessageStatus::FinishedNoReason,
    }
}

/// How an answer ended, by the finish reason of its last chunk.
pub fn status_for_finish_reason(reason: Option<&str>) -> (res: AiHelpMessageStatus)
    ensures
        res == finish_status(match reason { Some(r) => Some(r@), None => None }),
{
    match reason {
        Some(r) => {
            if str_eq(r, "length") {
                AiHelpMessageStatus::FinishedTooLong
            } else if str_eq(r, "stop") {
                AiHelpMessageStatus::Success
            } else if str_eq(r, "content_filter") {
                AiHelpMessageStatus::FinishedContentFilter
            } else {
                AiHelpMessageStatus::Unknown
            }
        },
        None => AiHelpMessageStatus::FinishedNoReason,
    }
}

/// The first choice of an answer chunk, as plain values: its new text and its
/// finish reason.
pub struct ChunkChoice {
    pub content: Option<String>,
    pub finish_reason: Option<String>,
}

/// The first choice of a chunk as plain values.
pub struct ChunkChoiceView {
    pub content: Option<Seq<char>>,
    pub finish_reason: Option<Seq<char>>,
}

impl View for ChunkChoice {
    type V = ChunkChoiceView;

    open spec fn view(&self) -> ChunkChoiceView {
        ChunkChoiceView {
            content: match self.content { Some(c) => Some(c@), None => None },
            finish_reason: match self.finish_reason { Some(r) => Some(r@), None => None },
        }
    }
}

/// What is known of an answer while it streams: the bytes of text so far and
/// how the last chunk ended.
#[derive(Debug, Clone, Copy, PartialEq, Eq, Structural)]
pub struct ResponseContext {
    pub len: usize,
    pub status: AiHelpMessageStatus,
}

/// The bytes of the UTF-8 text of a chunk's content.
pub open spec fn content_bytes(c: ChunkChoiceView) -> nat {
    match c.content {
        Some(t) => vstd::utf8::encode_utf8(t).len(),
        None => 0,
    }
}

/// The context after one more chunk's first choice.
pub open spec fn observe_step(ctx: (int, AiHelpMessageStatus), c: ChunkChoiceView) -> (int, AiHelpMessageStatus) {
    (ctx.0 + content_bytes(c), finish_status(c.finish_reason))
}

/// The context after a run of chunks' first choices, from `start`.
pub open spec fn observe_all(start: (int, AiHelpMessageStatus), cs: Seq<ChunkChoiceView>) -> (int, AiHelpMessageStatus)
    decreases cs.len(),
{
    if cs.len() == 0 {
        start
    } else {
        observe_step(observe_all(start, cs.drop_last()), cs.last())
    }
}

/// The bytes of text of a run of chunks.
pub open spec fn total_bytes(cs: Seq<ChunkChoiceView>) -> nat
    decreases cs.len(),
{
    if cs.len() == 0 {
        0
    } else {
        total_bytes(cs.drop_last()) + content_bytes(cs.last())
    }
}

impl ResponseContext {
    /// Nothing streamed yet.
    pub fn new() -> (res: ResponseContext)
        ensures
            res.len == 0,
            res.status == AiHelpMessageStatus::Unknown,
    {
        ResponseContext { len: 0, status: AiHelpMessageStatus::Unknown }
    }

    /// One more chunk whose first choice is `c`: its text is counted and its
    /// finish reason becomes the status.
    pub fn observe(&mut self, c: &ChunkChoice)
        requires
            old(self).len + content_bytes(c@) <= usize::MAX,
        ensures
            (final(self).len as int, final(self).status)
                == observe_step((old(self).len as int, old(self).status), c@),
    {
        match &c.content {
            Some(part) => {
                let n = part.as_str().len();
                self.len = self.len + n;
            },
            None => {},
        }
        self.status = status_for_finish_reason(match &c.finish_reason {
            Some(r) => Some(r.as_str()),
            None => None,
        });
    }
}

/// How a streamed answer is recorded when the stream ends: with the status
/// of its last chunk; or, where the stream failed, with the failure's status,
/// and the question is given back to the user's quota.
pub fn stream_end(ctx: ResponseContext, failure: Option<AiHelpMessageStatus>) -> (res: (AiHelpMessageStatus, bool))
    ensures
        res == (match failure {
            Some(f) => (f, true),
            None => (ctx.status, false),
        }),
{
    match failure {
        Some(f) => (f, true),
        None => (ctx.status, false),
    }
}

/// What is kept of a streamed answer for the history: the texts of the
/// chunks, and whether any chunk said how the answer finished.
pub struct AnswerLog {
    pub parts: Vec<String>,
    pub has_finish_reason: bool,
}

impl AnswerLog {
    /// Nothing streamed yet.
    pub fn new() -> (res: AnswerLog)
        ensures
            res.parts@.len() == 0,
            !res.has_finish_reason,
    {
        AnswerLog { parts: Vec::new(), has_finish_reason: false }
    }

    /// One more chunk (its last choice, where it has one): its text is kept,
    /// and a finish reason is noted.
    pub fn push_chunk(&mut self, choice: Option<ChunkChoice>)
        ensures
            match choice {
                Some(c) => {
                    &&& crate::text::views(final(self).parts@) == (match c@.content {
                        Some(t) => crate::text::views(old(self).parts@).push(t),
                        None => crate::text::views(old(self).parts@),
                    })
                    &&& final(self).has_finish_reason == (old(self).has_finish_reason || c.finish_reason is Some)
                },
                None => {
                    &&& crate::text::views(final(self).parts@) == crate::text::views(old(self).parts@)
                    &&& final(self).has_finish_reason == old(self).has_finish_reason
                },
            },
    {
        if let Some(c) = choice {
            let has_reason = c.finish_reason.is_some();
            if let Some(part) = c.content {
                let ghost before = crate::text::views(self.parts@);
                self.parts.push(part);
                proof { assert(crate::text::views(self.parts@) =~= before.push(part@)); }
            }
            if has_reason {
                self.has_finish_reason = true;
            }
        }
    }

    /// The answer as it is kept in the history: an assistant message with
    /// the texts of the chunks, joined.
    pub fn response_message(&self) -> (res: ChatMessage)
        ensures
            res.role == crate::ai::helpers::Role::Assistant,
            res.content matches Some(t) && t@ == crate::text::seq_join(crate::text::views(self.parts@), Seq::empty()),
            res.name is None,
    {
        let text = crate::text::join(&self.parts, "");
        proof { reveal_strlit(""); assert(""@ =~= Seq::<char>::empty()); }
        ChatMessage::new(crate::ai::helpers::Role::Assistant, text)
    }
}

/// After a run of chunks the length counts every byte of their text, and the
/// status is that of the last chunk (or unchanged when there was none).
pub proof fn lemma_observe_all(start: (int, AiHelpMessageStatus), cs: Seq<ChunkChoiceView>)
    ensures
        observe_all(start, cs).0 == start.0 + total_bytes(cs),
        cs.len() > 0 ==> observe_all(start, cs).1 == finish_status(cs.last().finish_reason),
        cs.len() == 0 ==> observe_all(start, cs).1 == start.1,
    decreases cs.len(),
{
    if cs.len() > 0 {
        lemma_observe_all(start, cs.drop_last());
    }
}

} // verus!
