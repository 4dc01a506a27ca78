//! Chat messages, their filtering, and fitting a conversation into a model's
//! token budget.

use vstd::prelude::*;

use crate::ai::constants::AIHelpConfig;
use crate::ai::error::AIError;

verus! {

/// The author of a chat message.
#[derive(Debug, Clone, Copy, PartialEq, Eq, Structural)]
pub enum Role {
    System,
    User,
    Assistant,
    Function,
}

impl Role {
    /// The role's name as the chat API spells it.
    pub fn as_str(&self) -> (res: &'static str)
        ensures
            res@ == role_name(*self),
    {
        match self {
            Role::System => "system",
            Role::User => "user",
            Role::Assistant => "assistant",
            Role::Function => "function",
        }
    }
}

/// The role's name as the chat API spells it.
pub open spec fn role_name(r: Role) -> Seq<char> {
    match r {
        Role::System => "system"@,
        Role::User => "user"@,
        Role::Assistant => "assistant"@,
        Role::Function => "function"@,
    }
}

/// One message of a chat completion request.
#[derive(Debug, Clone)]
pub struct ChatMessage {
    pub role: Role,
    pub content: Option<String>,
    pub name: Option<String>,
}

/// A chat message as plain values.
pub struct ChatMessageView {
    pub role: Role,
    pub content: Option<Seq<char>>,
    pub name: Option<Seq<char>>,
}

pub open spec fn opt_view(o: Option<String>) -> Option<Seq<char>> {
    match o {
        Some(s) => Some(s@),
        None => None,
    }
}

impl View for ChatMessage {
    type V = ChatMessageView;

    open spec fn view(&self) -> ChatMessageView {
        ChatMessageView { role: self.role, content: opt_view(self.content), name: opt_view(self.name) }
    }
}

/// The views of a sequence of messages.
pub open spec fn messages_view(s: Seq<ChatMessage>) -> Seq<ChatMessageView> {
    s.map_values(|m: ChatMessage| m@)
}

impl ChatMessage {
    /// A message with the given role and text and no author name.
    pub fn new(role: Role, content: String) -> (res: ChatMessage)
        ensures
            res.role == role,
            res.content == Some(content),
            res.name is None,
    {
        ChatMessage { role, content: Some(content), name: None }
    }
}

/// The number of tokens that `tiktoken_rs::num_tokens_from_messages` counts
/// for the messages under the model, or `None` where it fails (no chat
/// tokenizer for the model).
pub uninterp spec fn chat_token_count(model: Seq<char>, messages: Seq<ChatMessageView>) -> Option<usize>;

/// Calls `tiktoken_rs::num_tokens_from_messages` on `messages[skip..]`; the
/// result is named by `chat_token_count`, `None` standing for its error.
#[verifier::external_body]
fn num_tokens_from_messages(model: &str, messages: &Vec<ChatMessage>, skip: usize) -> (res: Option<usize>)
    requires
        skip <= messages.len(),
    ensures
        res == chat_token_count(model@, messages_view(messages@.skip(skip as int))),
{
    let converted: Vec<tiktoken_rs::ChatCompletionRequestMessage> = messages[skip..].iter().map(|m|
        tiktoken_rs::ChatCompletionRequestMessage {
            role: m.role.as_str().to_string(),
            content: m.content.clone(),
            name: m.name.clone(),
            ..Default::default()
        }).collect();
    tiktoken_rs::num_tokens_from_messages(model, &converted).ok()
}

/// Whether a message is part of the conversation proper (user or assistant).
pub open spec fn is_conversation(m: ChatMessage) -> bool {
    m.role == Role::User || m.role == Role::Assistant
}

/// Whether a message was written by the user.
pub open spec fn is_user(m: ChatMessage) -> bool {
    m.role == Role::User
}

/// The user and assistant messages of `s`, in order.
pub open spec fn conversation(s: Seq<ChatMessage>) -> Seq<ChatMessage> {
    s.filter(|m: ChatMessage| is_conversation(m))
}

/// The user messages of `s`, in order.
pub open spec fn user_messages(s: Seq<ChatMessage>) -> Seq<ChatMessage> {
    s.filter(|m: ChatMessage| is_user(m))
}

proof fn lemma_conversation_step(s: Seq<ChatMessage>, i: int)
    requires
        0 <= i < s.len(),
    ensures
        conversation(s.take(i + 1)) == if is_conversation(s[i]) {
            conversation(s.take(i)).push(s[i])
        } else {
            conversation(s.take(i))
        },
{
    reveal(Seq::filter);
    assert(s.take(i + 1).drop_last() =~= s.take(i));
}

proof fn lemma_user_step(s: Seq<ChatMessage>, i: int)
    requires
        0 <= i < s.len(),
    ensures
        user_messages(s.take(i + 1)) == if is_user(s[i]) {
            user_messages(s.take(i)).push(s[i])
        } else {
            user_messages(s.take(i))
        },
{
    reveal(Seq::filter);
    assert(s.take(i + 1).drop_last() =~= s.take(i));
}

/// Keeps the user and assistant messages, in order.
pub fn sanitize_messages(messages: Vec<ChatMessage>) -> (res: Vec<ChatMessage>)
    ensures
        res@ == conversation(messages@),
{
    let mut res: Vec<ChatMessage> = Vec::new();
    let mut rest = messages;
    let ghost orig = rest@;
    let mut i: usize = 0;
    let n = rest.len();
    proof { assert(orig.take(0) =~= Seq::<ChatMessage>::empty()); reveal(Seq::filter); }
    while rest.len() > 0
        invariant
            rest@.len() + i == n,
            n == orig.len(),
            rest@ == orig.skip(i as int),
            res@ == conversation(orig.take(i as int)),
        decreases rest.len(),
    {
        let m = rest.remove(0);
        proof {
            assert(orig[i as int] == m);
            lemma_conversation_step(orig, i as int);
        }
        if m.role == Role::User || m.role == Role::Assistant {
            res.push(m);
        }
        proof {
            assert(rest@ =~= orig.skip(i + 1));
        }
        i = i + 1;
    }
    proof {
        assert(orig.take(n as int) =~= orig);
    }
    res
}

/// Keeps the user messages, in order.
pub fn into_user_messages(messages: Vec<ChatMessage>) -> (res: Vec<ChatMessage>)
    ensures
        res@ == user_messages(messages@),
{
    let mut res: Vec<ChatMessage> = Vec::new();
    let mut rest = messages;
    let ghost orig = rest@;
    let mut i: usize = 0;
    let n = rest.len();
    proof { assert(orig.take(0) =~= Seq::<ChatMessage>::empty()); reveal(Seq::filter); }
    while rest.len() > 0
        invariant
            rest@.len() + i == n,
            n == orig.len(),
            rest@ == orig.skip(i as int),
            res@ == user_messages(orig.take(i as int)),
        decreases rest.len(),
    {
        let m = rest.remove(0);
        proof {
            assert(orig[i as int] == m);
            lemma_user_step(orig, i as int);
        }
        if m.role == Role::User {
            res.push(m);
        }
        proof {
            assert(rest@ =~= orig.skip(i + 1));
        }
        i = i + 1;
    }
    proof {
        assert(orig.take(n as int) =~= orig);
    }
    res
}

/// Where the search for the oldest context message to keep ends: the least
/// `k >= start` such that the messages from `k` on are counted at no more
/// than `budget` tokens, `TokenLimit` where every such suffix that is not
/// empty is counted at more, and `TiktokenError` where counting fails first.
pub open spec fn skip_search(model: Seq<char>, budget: int, context: Seq<ChatMessageView>, start: int) -> Result<int, AIError>
    decreases context.len() - start,
{
    match chat_token_count(model, context.skip(start)) {
        None => Err(AIError::TiktokenError),
        Some(t) => if t <= budget {
            Ok(start)
        } else if start + 1 >= context.len() {
            Err(AIError::TokenLimit)
        } else {
            skip_search(model, budget, context, start + 1)
        },
    }
}

/// What `cap_messages` gives: the initial messages followed by the most recent
/// context messages that fit into the token budget together with them and the
/// completion.
pub open spec fn cap_outcome(config: AIHelpConfig, init: Seq<ChatMessage>, context: Seq<ChatMessage>) -> Result<Seq<ChatMessage>, AIError> {
    let model = config.model@;
    match chat_token_count(model, messages_view(init)) {
        None => Err(AIError::TiktokenError),
        Some(init_tokens) => if init_tokens + config.max_completion_tokens > config.token_limit {
            Err(AIError::TokenLimit)
        } else {
            let budget = config.token_limit - init_tokens - config.max_completion_tokens;
            match skip_search(model, budget, messages_view(context), 0) {
                Ok(k) => Ok(init + context.skip(k)),
                Err(e) => Err(e),
            }
        },
    }
}

/// Appends to `init_messages` as many of the most recent `context_messages`
/// as fit into the model's token limit together with the completion.
pub fn cap_messages(config: &AIHelpConfig, init_messages: Vec<ChatMessage>, context_messages: Vec<ChatMessage>) -> (res: Result<Vec<ChatMessage>, AIError>)
    ensures
        match cap_outcome(*config, init_messages@, context_messages@) {
            Ok(m) => res matches Ok(r) && r@ == m,
            Err(e) => res == Err::<Vec<ChatMessage>, AIError>(e),
        },
{
    let ghost model = config.model@;
    proof { assert(init_messages@.skip(0) =~= init_messages@); }
    let init_tokens = match num_tokens_from_messages(config.model, &init_messages, 0) {
        Some(t) => t,
        None => return Err(AIError::TiktokenError),
    };
    if init_tokens > config.token_limit || config.max_completion_tokens > config.token_limit - init_tokens {
        return Err(AIError::TokenLimit);
    }
    let budget = config.token_limit - init_tokens - config.max_completion_tokens;
    let ghost ctx = messages_view(context_messages@);
    let mut skip: usize = 0;
    proof {
        assert(context_messages@.skip(0) =~= context_messages@);
        assert(ctx.skip(0) =~= ctx);
    }
    let mut context_tokens = match num_tokens_from_messages(config.model, &context_messages, 0) {
        Some(t) => t,
        None => return Err(AIError::TiktokenError),
    };
    while context_tokens > budget
        invariant
            skip < context_messages.len() || (skip == 0 && context_messages.len() == 0),
            ctx == messages_view(context_messages@),
            chat_token_count(model, ctx.skip(skip as int)) == Some(context_tokens),
            skip_search(model, budget as int, ctx, skip as int) == skip_search(model, budget as int, ctx, 0),
            model == config.model@,
            cap_outcome(*config, init_messages@, context_messages@) == match skip_search(model, budget as int, ctx, 0) {
                Ok(k) => Ok(init_messages@ + context_messages@.skip(k)),
                Err(e) => Err(e),
            },
        decreases context_messages.len() - skip,
    {
        if skip + 1 >= context_messages.len() {
            return Err(AIError::TokenLimit);
        }
        skip = skip + 1;
        proof {
            assert(messages_view(context_messages@.skip(skip as int)) =~= ctx.skip(skip as int));
        }
        context_tokens = match num_tokens_from_messages(config.model, &context_messages, skip) {
            Some(t) => t,
            None => return Err(AIError::TiktokenError),
        };
    }
    let mut init_messages = init_messages;
    let mut context_messages = context_messages;
    let mut kept = context_messages.split_off(skip);
    let ghost before = init_messages@;
    init_messages.append(&mut kept);
    Ok(init_messages)
}

/// The first `n` characters of `input`.
pub fn get_first_n_chars(input: &str, n: usize) -> (res: String)
    ensures
        res@ == input@.take(if n < input@.len() { n as int } else { input@.len() as int }),
{
    let mut res = String::new();
    let mut taken: usize = 0;
    for c in iter: input.chars()
        invariant
            iter.seq() == input@,
            taken <= n,
            taken == (if iter.index() < n { iter.index() as int } else { n as int }),
            res@ == input@.take(taken as int),
    {
        if taken < n {
            proof { assert(iter.seq()[iter.index()] == c); }
            crate::text::push_char(&mut res, c);
            proof { assert(input@.take(taken + 1) =~= input@.take(taken as int).push(c)); }
            taken = taken + 1;
        }
    }
    res
}

} // verus!

verus! {

/// Filtering for user messages after keeping the conversation gives the same
/// messages as filtering for user messages directly: `into_user_messages`
/// after `sanitize_messages` loses no user message.
pub proof fn lemma_user_messages_of_conversation(s: Seq<ChatMessage>)
    ensures
        user_messages(conversation(s)) == user_messages(s),
    decreases s.len(),
{
    reveal(Seq::filter);
    if s.len() > 0 {
        lemma_user_messages_of_conversation(s.drop_last());
        let c = s.drop_last().filter(|m: ChatMessage| is_conversation(m));
        if is_conversation(s.last()) {
            assert(conversation(s) == c.push(s.last()));
            assert(c.push(s.last()).drop_last() =~= c);
        }
    }
}

proof fn lemma_skip_search_found(model: Seq<char>, budget: int, context: Seq<ChatMessageView>, start: int, k: int)
    requires
        0 <= start,
        skip_search(model, budget, context, start) == Ok::<int, AIError>(k),
    ensures
        start <= k,
        k < context.len() || (k == start && start >= context.len()) || k == start,
        chat_token_count(model, context.skip(k)) matches Some(t) && t <= budget,
        forall|j: int| start <= j < k ==> (#[trigger] chat_token_count(model, context.skip(j)) matches Some(t) && t > budget),
    decreases context.len() - start,
{
    match chat_token_count(model, context.skip(start)) {
        None => {},
        Some(t) => {
            if t <= budget {
            } else if start + 1 >= context.len() {
            } else {
                lemma_skip_search_found(model, budget, context, start + 1, k);
            }
        },
    }
}

/// What a successful `cap_messages` keeps: the initial messages and the
/// context messages from some index `k` on, where those kept context
/// messages, the initial messages and the completion fit into the token
/// limit, and every longer suffix of the context (each still counted) would
/// not fit.
pub proof fn lemma_cap_keeps_longest_fitting_suffix(config: AIHelpConfig, init: Seq<ChatMessage>, context: Seq<ChatMessage>, res: Seq<ChatMessage>)
    requires
        cap_outcome(config, init, context) == Ok::<Seq<ChatMessage>, AIError>(res),
    ensures
        exists|k: int, init_tokens: usize, kept_tokens: usize|
            0 <= k <= context.len()
            && res == init + context.skip(k)
            && chat_token_count(config.model@, messages_view(init)) == Some(init_tokens)
            && chat_token_count(config.model@, messages_view(context.skip(k))) == Some(kept_tokens)
            && init_tokens + kept_tokens + config.max_completion_tokens <= config.token_limit
            && forall|j: int| 0 <= j < k ==> (#[trigger] chat_token_count(config.model@, messages_view(context.skip(j))) matches Some(t)
                && init_tokens + t + config.max_completion_tokens > config.token_limit),
{
    let model = config.model@;
    let init_tokens = chat_token_count(model, messages_view(init)).unwrap();
    let budget = config.token_limit - init_tokens - config.max_completion_tokens;
    let ctx = messages_view(context);
    let k = skip_search(model, budget, ctx, 0).unwrap();
    lemma_skip_search_found(model, budget, ctx, 0, k);
    assert forall|j: int| 0 <= j <= context.len() implies #[trigger] messages_view(context.skip(j)) == ctx.skip(j) by {
        assert(messages_view(context.skip(j)) =~= ctx.skip(j));
    }
    if k > context.len() {
        assert(ctx.skip(k).len() == 0);
    }
    let kept_tokens = chat_token_count(model, ctx.skip(k)).unwrap();
    assert(0 <= k <= context.len());
    assert(res == init + context.skip(k));
    assert(forall|j: int| 0 <= j < k ==> (#[trigger] chat_token_count(config.model@, messages_view(context.skip(j))) matches Some(t)
        && init_tokens + t + config.max_completion_tokens > config.token_limit));
}

} // verus!
