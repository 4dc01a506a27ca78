//! Preparing an AI Help request: checking the conversation, choosing the
//! related documents that fit the context budget, and building the messages.

use vstd::prelude::*;

use crate::ai::constants::{
    ai_help_gpt3_5_config, ai_help_gpt3_5_full_doc_new_prompt, ai_help_gpt4_config,
    ai_help_gpt4_full_doc_new_prompt, join_with_tags,
    tagged_context, AIHelpConfig,
};
use crate::ai::embeddings::RelatedDoc;
use crate::ai::error::AIError;
use crate::ai::helpers::{
    cap_messages, cap_outcome, conversation, into_user_messages, sanitize_messages,
    user_messages, ChatMessage, Role,
};
use crate::text::{str_eq, to_owned_string};
use vstd::string::StringSliceAdditionalSpecFns;
use vstd::utf8::encode_utf8;

verus! {

/// A document that an answer is based on.
#[derive(Debug, Clone)]
pub struct RefDoc {
    pub url: String,
    pub title: String,
}

/// Sizes and timings of a prepared AI Help request, for the message log.
pub struct AIHelpRequestMeta {
    pub query_len: Option<usize>,
    pub context_len: Option<usize>,
    pub search_duration_millis: Option<u128>,
    pub embedding_duration_millis: Option<u128>,
    pub embedding_model: Option<&'static str>,
    pub model: Option<&'static str>,
}

/// The model configuration for a user: subscribers get the larger model.
pub fn ai_help_config(is_subscriber: bool) -> (res: AIHelpConfig)
    ensures
        res == (if is_subscriber {
            ai_help_gpt4_config()
        } else {
            ai_help_gpt3_5_config()
        }),
{
    if is_subscriber {
        ai_help_gpt4_full_doc_new_prompt()
    } else {
        ai_help_gpt3_5_full_doc_new_prompt()
    }
}

/// Whether the QA error trigger fires: the magic words are configured and the
/// last user message is exactly them.
pub open spec fn qa_triggered(messages: Seq<ChatMessage>, magic_words: Option<Seq<char>>) -> bool {
    let users = user_messages(messages);
    &&& magic_words is Some
    &&& users.len() > 0
    &&& users.last().content is Some
    &&& users.last().content->0@ == magic_words->0
}

/// The last user message of the conversation, if any.
pub fn last_user_message(messages: &Vec<ChatMessage>) -> (res: Option<usize>)
    ensures
        match res {
            Some(i) => i < messages@.len() && messages@[i as int].role == Role::User
                && user_messages(messages@).len() > 0
                && user_messages(messages@).last() == messages@[i as int],
            None => user_messages(messages@).len() == 0,
        },
{
    let mut i: usize = messages.len();
    proof {
        assert(messages@.take(i as int) =~= messages@);
    }
    while i > 0
        invariant
            i <= messages.len(),
            user_messages(messages@.skip(i as int)).len() == 0,
        decreases i,
    {
        if messages[i - 1].role == Role::User {
            proof { lemma_last_user(messages@, (i - 1) as int); }
            return Some(i - 1);
        }
        proof {
            lemma_skip_no_user(messages@, (i - 1) as int);
        }
        i = i - 1;
    }
    proof { assert(messages@.skip(0) =~= messages@); }
    None
}

proof fn lemma_filter_concat(a: Seq<ChatMessage>, b: Seq<ChatMessage>)
    ensures
        user_messages(a + b) == user_messages(a) + user_messages(b),
    decreases b.len(),
{
    reveal(Seq::filter);
    if b.len() == 0 {
        assert(a + b =~= a);
        assert(user_messages(a) + user_messages(b) =~= user_messages(a));
    } else {
        lemma_filter_concat(a, b.drop_last());
        assert((a + b).drop_last() =~= a + b.drop_last());
        assert((a + b).last() == b.last());
        let ub = user_messages(b.drop_last());
        assert(user_messages(a) + ub.push(b.last()) =~= (user_messages(a) + ub).push(b.last()));
    }
}

proof fn lemma_skip_no_user(s: Seq<ChatMessage>, i: int)
    requires
        0 <= i < s.len(),
        s[i].role != Role::User,
        user_messages(s.skip(i + 1)).len() == 0,
    ensures
        user_messages(s.skip(i)).len() == 0,
{
    reveal_with_fuel(Seq::filter, 2);
    assert(s.skip(i) =~= seq![s[i]] + s.skip(i + 1));
    lemma_filter_concat(seq![s[i]], s.skip(i + 1));
    assert(seq![s[i]].drop_last() =~= Seq::<ChatMessage>::empty());
    assert(user_messages(seq![s[i]]) =~= Seq::<ChatMessage>::empty());
}

proof fn lemma_last_user(s: Seq<ChatMessage>, i: int)
    requires
        0 <= i < s.len(),
        s[i].role == Role::User,
        user_messages(s.skip(i + 1)).len() == 0,
    ensures
        user_messages(s).len() > 0,
        user_messages(s).last() == s[i],
{
    reveal(Seq::filter);
    assert(s =~= s.take(i + 1) + s.skip(i + 1));
    lemma_filter_concat(s.take(i + 1), s.skip(i + 1));
    assert(s.take(i + 1).drop_last() =~= s.take(i));
    assert(s.take(i + 1).last() == s[i]);
    assert(user_messages(s) =~= user_messages(s.take(i + 1)));
}

/// Whether the QA error trigger fires for the conversation (the trigger words
/// come from the settings; without them nothing fires).
pub fn qa_error_triggered(messages: &Vec<ChatMessage>, magic_words: Option<&str>) -> (res: bool)
    ensures
        res == qa_triggered(messages@, match magic_words { Some(w) => Some(w@), None => None }),
{
    match magic_words {
        None => false,
        Some(words) => match last_user_message(messages) {
            None => false,
            Some(i) => match &messages[i].content {
                Some(text) => str_eq(text.as_str(), words),
                None => false,
            },
        },
    }
}

/// The first step of preparing an AI Help request: the QA trigger check, then
/// the user messages of the conversation, whose texts go to moderation.
pub struct AIHelpQuery {
    pub context_messages: Vec<ChatMessage>,
    pub moderation_inputs: Vec<String>,
}

/// The texts of the messages that have one, in order.
pub open spec fn message_texts(s: Seq<ChatMessage>) -> Seq<Seq<char>>
    decreases s.len(),
{
    if s.len() == 0 {
        Seq::empty()
    } else {
        let rest = message_texts(s.drop_last());
        match s.last().content {
            Some(t) => rest.push(t@),
            None => rest,
        }
    }
}

/// Starts preparing an AI Help request: fails where the QA trigger fires,
/// and otherwise keeps the user messages and collects their texts for moderation.
pub fn ai_help_query(messages: Vec<ChatMessage>, magic_words: Option<&str>) -> (res: Result<AIHelpQuery, AIError>)
    ensures
        qa_triggered(messages@, match magic_words { Some(w) => Some(w@), None => None })
            ==> res == Err::<AIHelpQuery, AIError>(AIError::OpenAIError),
        !qa_triggered(messages@, match magic_words { Some(w) => Some(w@), None => None })
            ==> (res matches Ok(q)
            && q.context_messages@ == user_messages(conversation(messages@))
            && crate::text::views(q.moderation_inputs@) == message_texts(q.context_messages@)),
{
    if qa_error_triggered(&messages, magic_words) {
        return Err(AIError::OpenAIError);
    }
    let context_messages = into_user_messages(sanitize_messages(messages));
    let mut moderation_inputs: Vec<String> = Vec::new();
    let mut i: usize = 0;
    while i < context_messages.len()
        invariant
            i <= context_messages.len(),
            crate::text::views(moderation_inputs@) == message_texts(context_messages@.take(i as int)),
        decreases context_messages.len() - i,
    {
        proof { assert(context_messages@.take(i + 1).drop_last() =~= context_messages@.take(i as int)); }
        match &context_messages[i].content {
            Some(text) => {
                moderation_inputs.push(text.clone());
                proof {
                    assert(crate::text::views(moderation_inputs@) =~= message_texts(context_messages@.take(i as int)).push(text@));
                }
            },
            None => {},
        }
        i = i + 1;
    }
    proof { assert(context_messages@.take(context_messages.len() as int) =~= context_messages@); }
    Ok(AIHelpQuery { context_messages, moderation_inputs })
}

/// The outcome of moderation: flagged content fails the request.
pub fn moderation_outcome(flagged: &Vec<bool>) -> (res: Result<(), AIError>)
    ensures
        res == (if flagged@.contains(true) {
            Err::<(), AIError>(AIError::FlaggedError)
        } else {
            Ok::<(), AIError>(())
        }),
{
    let mut i: usize = 0;
    while i < flagged.len()
        invariant
            i <= flagged.len(),
            forall|j: int| 0 <= j < i ==> !flagged@[j],
        decreases flagged.len() - i,
    {
        if flagged[i] {
            proof { assert(flagged@[i as int] == true); }
            return Err(AIError::FlaggedError);
        }
        i = i + 1;
    }
    Ok(())
}

/// The text searched for: the message with its line breaks turned into spaces.
pub open spec fn search_text(s: Seq<char>) -> Seq<char> {
    s.map_values(|c: char| if c == '\n' { ' ' } else { c })
}

/// The question of an AI Help request: the text of the last user message
/// with its line breaks as spaces, and the message's length in bytes.
pub struct UserPrompt {
    pub search_prompt: String,
    pub query_len: usize,
}

/// The prompt to search documents for: the last of the user messages, which
/// must have a text.
pub fn last_user_prompt(context_messages: &Vec<ChatMessage>) -> (res: Result<UserPrompt, AIError>)
    ensures
        match res {
            Ok(p) => context_messages@.len() > 0
                && (context_messages@.last().content matches Some(t)
                && p.search_prompt@ == search_text(t@)
                && p.query_len == encode_utf8(t@).len() as usize),
            Err(e) => e == AIError::NoUserPrompt
                && (context_messages@.len() == 0 || context_messages@.last().content is None),
        },
{
    let n = context_messages.len();
    if n == 0 {
        return Err(AIError::NoUserPrompt);
    }
    match &context_messages[n - 1].content {
        None => Err(AIError::NoUserPrompt),
        Some(text) => {
            let text_str = text.as_str();
            let query_len = text_str.len();
            proof { assert(text_str.spec_bytes() == encode_utf8(text@)); }
            let mut search_prompt = String::new();
            for c in iter: text.as_str().chars()
                invariant
                    iter.seq() == text@,
                    search_prompt@ == search_text(text@.take(iter.index() as int)),
            {
                proof {
                    assert(search_text(text@.take(iter.index() + 1)) =~= search_text(text@.take(iter.index() as int)).push(if c == '\n' { ' ' } else { c }));
                }
                if c == '\n' {
                    crate::text::push_char(&mut search_prompt, ' ');
                } else {
                    crate::text::push_char(&mut search_prompt, c);
                }
            }
            proof {
                assert(text@.take(text@.len() as int) =~= text@);
                assert(context_messages@.last() == context_messages@[n - 1]);
            }
            Ok(UserPrompt { search_prompt, query_len })
        },
    }
}

/// The number of tokens of a text under the `r50k_base` encoding (special
/// tokens allowed), as `tiktoken_rs` counts them.
pub uninterp spec fn r50k_token_count(text: Seq<char>) -> usize;

/// Counts the tokens of `text` with `tiktoken_rs`'s `r50k_base` encoding
/// (`CoreBPE::encode_with_special_tokens`); the count is named by `r50k_token_count`.
#[verifier::external_body]
pub(crate) fn count_r50k_tokens(text: &str) -> (res: usize)
    ensures
        res == r50k_token_count(text@),
{
    tiktoken_rs::r50k_base_singleton().encode_with_special_tokens(text).len()
}

/// The documents kept for the context, in order: a document is kept where its
/// tokens, added to those of the documents kept before it (`used`), stay
/// below the limit; otherwise it is passed over and the next one is tried.
pub open spec fn kept_docs(limit: int, docs: Seq<RelatedDoc>, used: int) -> Seq<RelatedDoc>
    decreases docs.len(),
{
    if docs.len() == 0 {
        Seq::empty()
    } else {
        let t = r50k_token_count(docs[0].content@);
        if used + t >= limit {
            kept_docs(limit, docs.drop_first(), used)
        } else {
            seq![docs[0]] + kept_docs(limit, docs.drop_first(), used + t)
        }
    }
}

/// Whether some reference has the url.
pub open spec fn has_ref_url(refs: Seq<RefDoc>, url: Seq<char>) -> bool {
    exists|i: int| 0 <= i < refs.len() && refs[i].url@ == url
}

/// The references of the documents: one per distinct url, with the title of
/// the first document with that url, in order of first appearance.
pub open spec fn refs_of(docs: Seq<RelatedDoc>) -> Seq<RefDoc>
    decreases docs.len(),
{
    if docs.len() == 0 {
        Seq::empty()
    } else {
        let r = refs_of(docs.drop_last());
        let d = docs.last();
        if has_ref_url(r, d.url@) {
            r
        } else {
            r.push(RefDoc { url: d.url, title: d.title })
        }
    }
}

/// The sum of the UTF-8 lengths of the documents' contents.
pub open spec fn total_content_len(docs: Seq<RelatedDoc>) -> nat
    decreases docs.len(),
{
    if docs.len() == 0 {
        0
    } else {
        total_content_len(docs.drop_last()) + encode_utf8(docs.last().content@).len()
    }
}

/// The sum of the tokens of the documents' contents.
pub open spec fn total_tokens(docs: Seq<RelatedDoc>) -> nat
    decreases docs.len(),
{
    if docs.len() == 0 {
        0
    } else {
        total_tokens(docs.drop_first()) + (r50k_token_count(docs[0].content@) as nat)
    }
}

/// The documents chosen as context, their references, and the length in
/// bytes of all documents found.
pub struct ContextSelection {
    pub context: Vec<RelatedDoc>,
    pub refs: Vec<RefDoc>,
    pub context_len: usize,
}

fn has_url(refs: &Vec<RefDoc>, url: &str) -> (res: bool)
    ensures
        res == has_ref_url(refs@, url@),
{
    let mut i: usize = 0;
    while i < refs.len()
        invariant
            i <= refs.len(),
            forall|j: int| 0 <= j < i ==> refs@[j].url@ != url@,
        decreases refs.len() - i,
    {
        if str_eq(refs[i].url.as_str(), url) {
            return true;
        }
        i = i + 1;
    }
    false
}

/// Chooses the documents that fit the configuration's context limit, in the
/// order they were found, and lists the documents they come from.
pub fn select_context(config: &AIHelpConfig, related_docs: Vec<RelatedDoc>) -> (res: ContextSelection)
    requires
        total_content_len(related_docs@) <= usize::MAX,
    ensures
        res.context@ == kept_docs(config.context_limit as int, related_docs@, 0),
        res.refs@ == refs_of(res.context@),
        res.context_len == total_content_len(related_docs@),
{
    let ghost orig = related_docs@;
    let ghost limit = config.context_limit as int;
    let mut rest = related_docs;
    let mut context: Vec<RelatedDoc> = Vec::new();
    let mut refs: Vec<RefDoc> = Vec::new();
    let mut context_len: usize = 0;
    let mut context_token_len: usize = 0;
    let n = rest.len();
    let mut i: usize = 0;
    proof {
        assert(orig.skip(0) =~= orig);
        assert(orig.take(0) =~= Seq::<RelatedDoc>::empty());
        assert(context@ + kept_docs(limit, orig.skip(0), 0) =~= kept_docs(limit, orig, 0));
    }
    while rest.len() > 0
        invariant
            rest@.len() + i == n,
            n == orig.len(),
            rest@ == orig.skip(i as int),
            limit == config.context_limit as int,
            context_token_len < limit || context@.len() == 0,
            context@ + kept_docs(limit, orig.skip(i as int), context_token_len as int) == kept_docs(limit, orig, 0),
            refs@ == refs_of(context@),
            context_len == total_content_len(orig.take(i as int)),
            total_content_len(orig) <= usize::MAX,
        decreases rest.len(),
    {
        let doc = rest.remove(0);
        proof {
            assert(doc == orig[i as int]);
            assert(orig.take(i + 1).drop_last() =~= orig.take(i as int));
            lemma_total_len_prefix(orig, i + 1);
            assert(orig.skip(i as int).drop_first() =~= orig.skip(i + 1));
            assert(orig.skip(i as int)[0] == doc);
        }
        context_len = context_len + doc.content.as_str().len();
        let tokens = count_r50k_tokens(doc.content.as_str());
        if context_token_len >= config.context_limit || tokens >= config.context_limit - context_token_len {
            // passed over: it does not fit next to the documents kept so far
        } else {
            context_token_len = context_token_len + tokens;
            if !has_url(&refs, doc.url.as_str()) {
                refs.push(RefDoc { url: doc.url.clone(), title: doc.title.clone() });
            }
            let ghost before = context@;
            context.push(doc);
            proof {
                assert(context@.drop_last() == before);
                assert(context@ + kept_docs(limit, orig.skip(i + 1), context_token_len as int)
                    =~= before + (seq![orig[i as int]] + kept_docs(limit, orig.skip(i + 1), context_token_len as int)));
            }
        }
        proof { assert(rest@ =~= orig.skip(i + 1)); }
        i = i + 1;
    }
    proof { assert(orig.take(n as int) =~= orig); }
    ContextSelection { context, refs, context_len }
}

proof fn lemma_total_len_prefix(s: Seq<RelatedDoc>, i: int)
    requires
        0 <= i <= s.len(),
    ensures
        total_content_len(s.take(i)) <= total_content_len(s),
    decreases s.len() - i,
{
    if i < s.len() {
        lemma_total_len_prefix(s, i + 1);
        assert(s.take(i + 1).drop_last() =~= s.take(i));
    } else {
        assert(s.take(i) =~= s);
    }
}

/// The messages of an AI Help request, with the references of its context.
pub struct AIHelpRequest {
    pub model: &'static str,
    pub messages: Vec<ChatMessage>,
    pub refs: Vec<RefDoc>,
}

/// The messages that open an AI Help request: the system prompt, then the
/// context made of the kept documents where there are any.
pub open spec fn ai_help_init_messages(system_prompt: Seq<char>, context: Seq<RelatedDoc>) -> Seq<(Role, Seq<char>)> {
    if context.len() == 0 {
        seq![(Role::System, system_prompt)]
    } else {
        seq![(Role::System, system_prompt), (Role::User, tagged_context(context))]
    }
}

/// The role and text of each message, for messages that all have a text.
pub open spec fn role_texts(s: Seq<ChatMessage>) -> Seq<(Role, Seq<char>)> {
    s.map_values(|m: ChatMessage| (m.role, match m.content { Some(t) => t@, None => Seq::empty() }))
}

/// Finishes preparing an AI Help request from the documents found: selects
/// the context, opens with the system prompt and the context, and appends
/// as much of the conversation as the token budget allows.
pub fn prepare_ai_help_messages(
    config: &AIHelpConfig,
    system_prompt: &str,
    related_docs: Vec<RelatedDoc>,
    context_messages: Vec<ChatMessage>,
) -> (res: Result<(AIHelpRequest, usize), AIError>)
    requires
        total_content_len(related_docs@) <= usize::MAX,
    ensures
        ({
            let kept = kept_docs(config.context_limit as int, related_docs@, 0);
            match res {
                Ok((req, context_len)) => {
                    &&& req.model == config.model
                    &&& req.refs@ == refs_of(kept)
                    &&& context_len == total_content_len(related_docs@)
                    &&& exists|init: Seq<ChatMessage>| {
                        &&& role_texts(init) == ai_help_init_messages(system_prompt@, kept)
                        &&& forall|j: int| 0 <= j < init.len() ==> (#[trigger] init[j]).content is Some && init[j].name is None
                        &&& cap_outcome(*config, init, context_messages@) == Ok::<Seq<ChatMessage>, AIError>(req.messages@)
                    }
                },
                Err(e) => exists|init: Seq<ChatMessage>| {
                    &&& role_texts(init) == ai_help_init_messages(system_prompt@, kept)
                    &&& cap_outcome(*config, init, context_messages@) == Err::<Seq<ChatMessage>, AIError>(e)
                },
            }
        }),
{
    let ContextSelection { context, refs, context_len } = select_context(config, related_docs);
    let ghost kept = context@;
    let mut init_messages: Vec<ChatMessage> = Vec::new();
    init_messages.push(ChatMessage::new(Role::System, to_owned_string(system_prompt)));
    if context.len() > 0 {
        let text = join_with_tags(context);
        init_messages.push(ChatMessage::new(Role::User, text));
    }
    let ghost init = init_messages@;
    proof {
        assert(role_texts(init) =~= ai_help_init_messages(system_prompt@, kept));
        assert(forall|j: int| 0 <= j < init.len() ==> (#[trigger] init[j]).content is Some && init[j].name is None);
    }
    match cap_messages(config, init_messages, context_messages) {
        Ok(messages) => Ok((AIHelpRequest { model: config.model, messages, refs }, context_len)),
        Err(e) => Err(e),
    }
}

/// The messages that ask for a title for a conversation: the summary system
/// prompt, the conversation, and the summary request.
pub fn prepare_ai_help_summary_req(
    messages: Vec<ChatMessage>,
    system_prompt: &str,
    user_prompt: &str,
) -> (res: AIHelpRequest)
    ensures
        res.model@ == "gpt-3.5-turbo"@,
        res.refs@.len() == 0,
        res.messages@.len() == messages@.len() + 2,
        res.messages@[0].role == Role::System,
        res.messages@[0].content matches Some(t) && t@ == system_prompt@,
        res.messages@.subrange(1, messages@.len() as int + 1) == messages@,
        res.messages@.last().role == Role::User,
        res.messages@.last().content matches Some(t) && t@ == user_prompt@,
{
    let mut all: Vec<ChatMessage> = Vec::new();
    all.push(ChatMessage::new(Role::System, to_owned_string(system_prompt)));
    let mut rest = messages;
    let ghost first = all@;
    all.append(&mut rest);
    let ghost mid = all@;
    all.push(ChatMessage::new(Role::User, to_owned_string(user_prompt)));
    proof {
        assert(all@.subrange(1, messages@.len() as int + 1) =~= messages@);
    }
    AIHelpRequest { model: "gpt-3.5-turbo", messages: all, refs: Vec::new() }
}

} // verus!

verus! {

/// The references of a list of documents name each url once.
pub proof fn lemma_refs_distinct(docs: Seq<RelatedDoc>)
    ensures
        forall|i: int, j: int| 0 <= i < j < refs_of(docs).len() ==> refs_of(docs)[i].url@ != refs_of(docs)[j].url@,
    decreases docs.len(),
{
    if docs.len() > 0 {
        lemma_refs_distinct(docs.drop_last());
        let r = refs_of(docs.drop_last());
        let d = docs.last();
        if !has_ref_url(r, d.url@) {
            let all = r.push(RefDoc { url: d.url, title: d.title });
            assert forall|i: int, j: int| 0 <= i < j < all.len() implies all[i].url@ != all[j].url@ by {
                if j == r.len() {
                    assert(all[i] == r[i]);
                } else {
                    assert(all[i] == r[i] && all[j] == r[j]);
                }
            }
        }
    }
}

/// Every document's url is among the references of the list.
pub proof fn lemma_refs_cover(docs: Seq<RelatedDoc>)
    ensures
        forall|i: int| 0 <= i < docs.len() ==> has_ref_url(refs_of(docs), #[trigger] docs[i].url@),
    decreases docs.len(),
{
    if docs.len() > 0 {
        let r = refs_of(docs.drop_last());
        lemma_refs_cover(docs.drop_last());
        assert forall|i: int| 0 <= i < docs.len() implies has_ref_url(refs_of(docs), #[trigger] docs[i].url@) by {
            if i < docs.len() - 1 {
                assert(docs.drop_last()[i] == docs[i]);
                assert(has_ref_url(r, docs[i].url@));
                let k = choose|k: int| 0 <= k < r.len() && r[k].url@ == docs[i].url@;
                if !has_ref_url(r, docs.last().url@) {
                    assert(refs_of(docs)[k] == r[k]);
                }
            } else {
                if !has_ref_url(r, docs.last().url@) {
                    assert(refs_of(docs)[r.len() as int].url@ == docs.last().url@);
                }
            }
        }
    }
}

/// The documents kept for the context stay, with the tokens already used,
/// below the context limit.
pub proof fn lemma_kept_within_limit(limit: int, docs: Seq<RelatedDoc>, used: int)
    requires
        0 <= used,
    ensures
        kept_docs(limit, docs, used).len() > 0 ==> used + total_tokens(kept_docs(limit, docs, used)) < limit,
    decreases docs.len(),
{
    if docs.len() > 0 {
        let t = r50k_token_count(docs[0].content@);
        lemma_kept_within_limit(limit, docs.drop_first(), used);
        lemma_kept_within_limit(limit, docs.drop_first(), used + t);
        if used + t < limit {
            let rest = kept_docs(limit, docs.drop_first(), used + t);
            let all = seq![docs[0]] + rest;
            assert(all[0] == docs[0]);
            assert(all.drop_first() =~= rest);
            assert(total_tokens(all) == total_tokens(rest) + (t as nat));
            if rest.len() == 0 {
                assert(total_tokens(rest) == 0);
            }
        }
    }
}

/// Each kept document is one of the documents found.
pub proof fn lemma_kept_from_docs(limit: int, docs: Seq<RelatedDoc>, used: int)
    ensures
        forall|i: int| 0 <= i < kept_docs(limit, docs, used).len() ==> docs.contains(#[trigger] kept_docs(limit, docs, used)[i]),
    decreases docs.len(),
{
    if docs.len() > 0 {
        let t = r50k_token_count(docs[0].content@);
        lemma_kept_from_docs(limit, docs.drop_first(), used);
        lemma_kept_from_docs(limit, docs.drop_first(), used + t);
        let k = kept_docs(limit, docs, used);
        assert forall|i: int| 0 <= i < k.len() implies docs.contains(#[trigger] k[i]) by {
            if used + t >= limit {
                assert(k == kept_docs(limit, docs.drop_first(), used));
                assert(docs.drop_first().contains(kept_docs(limit, docs.drop_first(), used)[i]));
                let j = choose|j: int| 0 <= j < docs.drop_first().len() && docs.drop_first()[j] == k[i];
                assert(docs[j + 1] == k[i]);
            } else if i == 0 {
                assert(docs[0] == k[0]);
            } else {
                let rest = kept_docs(limit, docs.drop_first(), used + t);
                assert(k[i] == rest[i - 1]);
                assert(docs.drop_first().contains(rest[i - 1]));
                let j = choose|j: int| 0 <= j < docs.drop_first().len() && docs.drop_first()[j] == rest[i - 1];
                assert(docs[j + 1] == k[i]);
            }
        }
    }
}


/// The messages of a conversation that have a text, in order.
pub open spec fn with_text(s: Seq<ChatMessage>) -> Seq<ChatMessage> {
    s.filter(|m: ChatMessage| m.content is Some)
}

/// The texts of messages that all have one.
pub open spec fn texts_of(s: Seq<ChatMessage>) -> Seq<Seq<char>> {
    s.map_values(|m: ChatMessage| m.content->0@)
}

/// Every message with a text goes to moderation: the moderation inputs are
/// the texts of the messages that have one, in order, one input per such
/// message, and each such message's text is among them.
pub proof fn lemma_moderation_covers_every_message(s: Seq<ChatMessage>)
    ensures
        message_texts(s) == texts_of(with_text(s)),
        message_texts(s).len() == with_text(s).len(),
        forall|i: int| 0 <= i < s.len() && s[i].content is Some
            ==> message_texts(s).contains(#[trigger] s[i].content->0@),
    decreases s.len(),
{
    reveal(Seq::filter);
    if s.len() > 0 {
        let d = s.drop_last();
        lemma_moderation_covers_every_message(d);
        let fd = with_text(d);
        assert(with_text(s) == if s.last().content is Some { fd.push(s.last()) } else { fd });
        if s.last().content is Some {
            assert(texts_of(fd.push(s.last())) =~= texts_of(fd).push(s.last().content->0@));
        }
        assert forall|i: int| 0 <= i < s.len() && s[i].content is Some
            implies message_texts(s).contains(#[trigger] s[i].content->0@) by {
            if i < s.len() - 1 {
                assert(d[i] == s[i]);
                let t = s[i].content->0@;
                assert(message_texts(d).contains(t));
                let j = choose|j: int| 0 <= j < message_texts(d).len() && message_texts(d)[j] == t;
                assert(message_texts(s)[j] == t);
            } else {
                assert(message_texts(s).last() == s[i].content->0@);
            }
        }
    }
}

} // verus!
