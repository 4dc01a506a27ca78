//! The playground's assistant: the conversation sent to the model to explain
//! a part of an example or to write an example, and reading the code blocks
//! out of the model's reply.

use vstd::prelude::*;

use crate::ai::helpers::{ChatMessage, ChatMessageView, Role};
use crate::ai::explain::is_substring;
use crate::text::{
    all_clean, all_white, clean_piece, has_prefix, is_white_space, join, lemma_join_append, lemma_join_cons,
    lemma_join_split, lemma_trimmed_surrounded, occurs_at, push_str, seq_join, split_on, split_str, str_eq,
    strip_prefix, to_owned_string, trim, trimmed, views,
};

verus! {

/// A free-form question.
#[derive(Debug, Clone)]
pub struct ChatRequest {
    pub prompt: String,
}

/// A request to explain the selected part of a code example.
#[derive(Debug, Clone)]
pub struct ExplainRequest {
    pub code: String,
    pub selection: String,
}

/// The model's reply.
#[derive(Debug, Clone)]
pub struct ChatResponse {
    pub reply: String,
}

/// The style of a prompt.
#[derive(Debug, Clone, Copy, PartialEq, Eq, Structural)]
pub enum PromptStyle {
    Chat,
    Readme,
    Html,
}

/// The kind of model asked.
#[derive(Debug, Clone, Copy, PartialEq, Eq, Structural)]
pub enum Model {
    Text,
    Code,
}

/// The code of an example, by language.
#[derive(Debug, Clone)]
pub struct Code {
    pub html: Option<String>,
    pub css: Option<String>,
    pub js: Option<String>,
}

/// The code of an example as plain values.
pub struct CodeView {
    pub html: Option<Seq<char>>,
    pub css: Option<Seq<char>>,
    pub js: Option<Seq<char>>,
}

pub open spec fn opt_text(o: Option<String>) -> Option<Seq<char>> {
    match o {
        Some(t) => Some(t@),
        None => None,
    }
}

impl View for Code {
    type V = CodeView;

    open spec fn view(&self) -> CodeView {
        CodeView { html: opt_text(self.html), css: opt_text(self.css), js: opt_text(self.js) }
    }
}

/// A message of an earlier conversation, sent back with a request.
#[derive(Debug, Clone)]
pub struct ChatRequestMessage {
    pub role: Role,
    pub content: String,
}

/// Whether two roles count as the same in an earlier conversation: only
/// system, user and assistant roles ever do.
pub open spec fn same_role(a: Role, b: Role) -> bool {
    ||| a == Role::System && b == Role::System
    ||| a == Role::User && b == Role::User
    ||| a == Role::Assistant && b == Role::Assistant
}

impl PartialEq for ChatRequestMessage {
    fn eq(&self, other: &Self) -> (res: bool) {
        let role = match (self.role, other.role) {
            (Role::System, Role::System) => true,
            (Role::User, Role::User) => true,
            (Role::Assistant, Role::Assistant) => true,
            _ => false,
        };
        role && str_eq(self.content.as_str(), other.content.as_str())
    }
}

impl vstd::std_specs::cmp::PartialEqSpecImpl for ChatRequestMessage {
    open spec fn obeys_eq_spec() -> bool {
        true
    }

    open spec fn eq_spec(&self, other: &ChatRequestMessage) -> bool {
        same_role(self.role, other.role) && self.content@ == other.content@
    }
}

/// A request to write or change an example: what to do, the current code,
/// and the conversation so far.
#[derive(Debug, Clone)]
pub struct ExampleRequest {
    pub prompt: String,
    pub code: Option<Code>,
    pub context: Option<Vec<ChatRequestMessage>>,
}

/// The written example and the conversation that led to it.
#[derive(Debug, Clone)]
pub struct ExampleResponse {
    pub code: Code,
    pub context: Option<Vec<ChatMessage>>,
}

/// A request to edit a text.
#[derive(Debug, Clone)]
pub struct EditRequest {
    pub instruction: String,
    pub input: Option<String>,
}

/// The model of the playground's assistant.
pub const CHAT_MODEL: &'static str = "gpt-3.5-turbo";

/// The system message for explaining a part of an example.
pub const EXPLAIN_SYSTEM: &'static str = "You are a system that explains code examples.\
These example come from the MDN web docs. \
You will be given a code example and a selected part of this examples. \
You will explain the selected part in context of the provided code example.";

/// The system message for writing examples.
pub const EXAMPLE_SYSTEM: &'static str = "You are a system that provides working front-end code.\
The code must not depend on 3rd party libraries. \
The code must not use style attributes on html tags. \
You reply with code separated in markdown code blocks for HTML, CSS and JS.
You must use codeblocks with language specifiers, like ```js \
and must not include CSS or JavaScript in the html block. \
The user will ask for web components or any part or a web site.";

/// The system message that asks for whole code blocks when code changes.
pub const EXAMPLE_REFINE: &'static str = "You must not reply with partial updates, when you modify code reply the fully updated code block(s).";

/// A message with a text and no name.
pub open spec fn text_message(role: Role, text: Seq<char>) -> ChatMessageView {
    ChatMessageView { role, content: Some(text), name: None }
}

fn message(role: Role, text: String) -> (res: ChatMessage)
    ensures
        res@ == text_message(role, text@),
{
    ChatMessage { role, content: Some(text), name: None }
}

/// The question sent to explain the selected part of an example.
pub open spec fn explain_chat_prompt(code: Seq<char>, selection: Seq<char>) -> Seq<char> {
    "Given the following code: ```"@ + code + "```. Can you explain the following part: "@ + selection
}

/// The conversation that asks to explain the selected part of an example:
/// the system message, then the question.
pub fn explain_chat_messages(req: ExplainRequest) -> (res: Vec<ChatMessage>)
    ensures
        crate::ai::helpers::messages_view(res@) == seq![
            text_message(Role::System, EXPLAIN_SYSTEM@),
            text_message(Role::User, explain_chat_prompt(req.code@, req.selection@)),
        ],
{
    let mut prompt = to_owned_string("Given the following code: ```");
    push_str(&mut prompt, req.code.as_str());
    push_str(&mut prompt, "```. Can you explain the following part: ");
    push_str(&mut prompt, req.selection.as_str());
    let mut res: Vec<ChatMessage> = Vec::new();
    res.push(message(Role::System, to_owned_string(EXPLAIN_SYSTEM)));
    res.push(message(Role::User, prompt));
    proof {
        assert(crate::ai::helpers::messages_view(res@) =~= seq![
            text_message(Role::System, EXPLAIN_SYSTEM@),
            text_message(Role::User, explain_chat_prompt(req.code@, req.selection@)),
        ]);
    }
    res
}

/// The text of an optional code block as a list of zero or one parts.
pub open spec fn opt_part(o: Option<Seq<char>>) -> Seq<Seq<char>> {
    match o {
        Some(t) => seq![t],
        None => Seq::empty(),
    }
}

/// The lines of the prompt that shows an example's code: a fenced block per
/// language, empty where the language has no code.
pub open spec fn code_prompt_parts(c: CodeView) -> Seq<Seq<char>> {
    seq!["```html\n"@] + opt_part(c.html) + seq!["\n```"@, "```css\n"@] + opt_part(c.css)
        + seq!["\n```"@, "```js\n"@] + opt_part(c.js) + seq!["\n```"@]
}

/// The prompt text that shows an example's code.
pub open spec fn code_prompt(c: CodeView) -> Seq<char> {
    seq_join(code_prompt_parts(c), "\n"@)
}

/// Shows an example's code as fenced blocks for HTML, CSS and JS, one part a
/// line.
pub fn code_to_prompt(code: Code) -> (res: String)
    ensures
        res@ == code_prompt(code@),
{
    let ghost cv = code@;
    let mut parts: Vec<String> = Vec::new();
    parts.push(to_owned_string("```html\n"));
    let ghost p1 = views(parts@);
    assert(p1 =~= seq!["```html\n"@]);
    match code.html {
        Some(h) => parts.push(h),
        None => {},
    }
    let ghost p2 = views(parts@);
    assert(p2 =~= p1 + opt_part(cv.html));
    parts.push(to_owned_string("\n```"));
    parts.push(to_owned_string("```css\n"));
    let ghost p3 = views(parts@);
    assert(p3 =~= p2 + seq!["\n```"@, "```css\n"@]);
    match code.css {
        Some(c) => parts.push(c),
        None => {},
    }
    let ghost p4 = views(parts@);
    assert(p4 =~= p3 + opt_part(cv.css));
    parts.push(to_owned_string("\n```"));
    parts.push(to_owned_string("```js\n"));
    let ghost p5 = views(parts@);
    assert(p5 =~= p4 + seq!["\n```"@, "```js\n"@]);
    match code.js {
        Some(j) => parts.push(j),
        None => {},
    }
    let ghost p6 = views(parts@);
    assert(p6 =~= p5 + opt_part(cv.js));
    parts.push(to_owned_string("\n```"));
    assert(views(parts@) =~= p6 + seq!["\n```"@]);
    assert(views(parts@) =~= code_prompt_parts(cv));
    join(&parts, "\n")
}

/// The request of the user, worded for the model: what to give, or what to
/// do with the shown code, in the words that fit the conversation so far.
pub open spec fn example_prompt(prompt: Seq<char>, code: Option<CodeView>, has_context: bool) -> Seq<char> {
    match code {
        None => if has_context {
            "Can you "@ + prompt + "?"@
        } else {
            "Give me "@ + prompt
        },
        Some(c) => if has_context {
            "I've modified the code to be "@ + code_prompt(c) + ". Can you "@ + prompt
        } else {
            "Given the following code "@ + code_prompt(c) + ". Can you "@ + prompt
        },
    }
}

/// An earlier message as it is sent again.
pub open spec fn resent(m: ChatRequestMessage) -> ChatMessageView {
    text_message(m.role, m.content@)
}

/// The conversation that asks for an example. A new conversation starts
/// with the system message (and, when code is shown, the request for whole
/// code blocks); a continued one repeats its messages, then that request.
/// The user's request comes last.
pub open spec fn example_conversation(req: ExampleRequest) -> Seq<ChatMessageView> {
    let code = match req.code { Some(c) => Some(c@), None => None };
    let user = text_message(Role::User, example_prompt(req.prompt@, code, req.context is Some));
    match req.context {
        None => if req.code is None {
            seq![text_message(Role::System, EXAMPLE_SYSTEM@), user]
        } else {
            seq![text_message(Role::System, EXAMPLE_SYSTEM@), text_message(Role::System, EXAMPLE_REFINE@), user]
        },
        Some(ctx) => ctx@.map_values(|m: ChatRequestMessage| resent(m))
            + seq![text_message(Role::System, EXAMPLE_REFINE@), user],
    }
}

fn request_text(prompt: &str, code: Option<Code>, has_context: bool) -> (res: String)
    ensures
        res@ == example_prompt(prompt@, match code { Some(c) => Some(c@), None => None }, has_context),
{
    match code {
        None => {
            if has_context {
                let mut s = to_owned_string("Can you ");
                push_str(&mut s, prompt);
                push_str(&mut s, "?");
                s
            } else {
                let mut s = to_owned_string("Give me ");
                push_str(&mut s, prompt);
                s
            }
        },
        Some(c) => {
            let shown = code_to_prompt(c);
            let mut s = if has_context {
                to_owned_string("I've modified the code to be ")
            } else {
                to_owned_string("Given the following code ")
            };
            push_str(&mut s, shown.as_str());
            push_str(&mut s, ". Can you ");
            push_str(&mut s, prompt);
            s
        },
    }
}

/// The conversation that asks the model for an example.
pub fn example_messages(req: ExampleRequest) -> (res: Vec<ChatMessage>)
    ensures
        crate::ai::helpers::messages_view(res@) == example_conversation(req),
{
    let ghost r = req;
    let has_context = req.context.is_some();
    let no_code = req.code.is_none();
    let user = message(Role::User, request_text(req.prompt.as_str(), req.code, has_context));
    match req.context {
        None => {
            let mut res: Vec<ChatMessage> = Vec::new();
            res.push(message(Role::System, to_owned_string(EXAMPLE_SYSTEM)));
            if !no_code {
                res.push(message(Role::System, to_owned_string(EXAMPLE_REFINE)));
            }
            res.push(user);
            proof {
                assert(crate::ai::helpers::messages_view(res@) =~= example_conversation(r));
            }
            res
        },
        Some(ctx) => {
            let mut res: Vec<ChatMessage> = Vec::new();
            let mut i: usize = 0;
            while i < ctx.len()
                invariant
                    i <= ctx@.len(),
                    crate::ai::helpers::messages_view(res@)
                        == ctx@.take(i as int).map_values(|m: ChatRequestMessage| resent(m)),
                decreases ctx@.len() - i,
            {
                let m = message(ctx[i].role, ctx[i].content.clone());
                res.push(m);
                proof {
                    assert(ctx@.take(i + 1).map_values(|m: ChatRequestMessage| resent(m))
                        =~= ctx@.take(i as int).map_values(|m: ChatRequestMessage| resent(m)).push(resent(ctx@[i as int])));
                    assert(crate::ai::helpers::messages_view(res@) =~= ctx@.take(i + 1).map_values(|m: ChatRequestMessage| resent(m)));
                }
                i = i + 1;
            }
            let ghost before = crate::ai::helpers::messages_view(res@);
            let ghost u = user@;
            res.push(message(Role::System, to_owned_string(EXAMPLE_REFINE)));
            res.push(user);
            proof {
                assert(ctx@.take(ctx@.len() as int) =~= ctx@);
                assert(crate::ai::helpers::messages_view(res@) =~= before
                    + seq![text_message(Role::System, EXAMPLE_REFINE@), u]);
                assert(crate::ai::helpers::messages_view(res@) =~= example_conversation(r));
            }
            res
        },
    }
}

/// The code after one part of the reply: a part that begins with a language
/// name is that language's code block, trimmed; a later block of the same
/// language replaces an earlier one.
pub open spec fn read_block(c: CodeView, part: Seq<char>) -> CodeView {
    if has_prefix(part, "css"@) {
        CodeView { css: Some(trimmed(part.skip("css"@.len() as int))), ..c }
    } else if has_prefix(part, "html"@) {
        CodeView { html: Some(trimmed(part.skip("html"@.len() as int))), ..c }
    } else if has_prefix(part, "js"@) {
        CodeView { js: Some(trimmed(part.skip("js"@.len() as int))), ..c }
    } else {
        c
    }
}

/// The code after the parts of a reply, read in order.
pub open spec fn read_blocks(c: CodeView, parts: Seq<Seq<char>>) -> CodeView
    decreases parts.len(),
{
    if parts.len() == 0 {
        c
    } else {
        read_block(read_blocks(c, parts.drop_last()), parts.last())
    }
}

/// The code of a reply: the reply cut at its code fences, each part read in
/// order, starting from no code at all.
pub open spec fn reply_code(reply: Seq<char>) -> CodeView {
    read_blocks(CodeView { html: None, css: None, js: None }, split_on(reply, "```"@))
}

/// Reads the code blocks of the model's reply.
pub fn parse_example_reply(content: &str) -> (res: Code)
    ensures
        res@ == reply_code(content@),
{
    proof { reveal_strlit("```"); }
    let parts = split_str(content, "```");
    let ghost ps = views(parts@);
    let mut code = Code { html: None, css: None, js: None };
    let mut i: usize = 0;
    while i < parts.len()
        invariant
            i <= parts@.len(),
            ps == views(parts@),
            code@ == read_blocks(CodeView { html: None, css: None, js: None }, ps.take(i as int)),
        decreases parts@.len() - i,
    {
        let part = parts[i].as_str();
        let ghost before = code@;
        if let Some(x) = strip_prefix(part, "css") {
            code.css = Some(trim(x.as_str()));
        } else if let Some(x) = strip_prefix(part, "html") {
            code.html = Some(trim(x.as_str()));
        } else if let Some(x) = strip_prefix(part, "js") {
            code.js = Some(trim(x.as_str()));
        }
        proof {
            assert(ps.take(i + 1).drop_last() =~= ps.take(i as int));
            assert(ps.take(i + 1).last() == part@);
            assert(code@ == read_block(before, part@));
        }
        i = i + 1;
    }
    proof { assert(ps.take(parts@.len() as int) =~= ps); }
    code
}

/// The answer to an example request: the code read from the reply, and the
/// conversation including the reply.
pub fn example_response(messages: Vec<ChatMessage>, reply_role: Role, reply_content: String) -> (res: ExampleResponse)
    ensures
        res.code@ == reply_code(reply_content@),
        res.context matches Some(ctx) && crate::ai::helpers::messages_view(ctx@)
            == crate::ai::helpers::messages_view(messages@).push(text_message(reply_role, reply_content@)),
{
    let code = parse_example_reply(reply_content.as_str());
    let mut context = messages;
    let ghost before = crate::ai::helpers::messages_view(context@);
    context.push(message(reply_role, reply_content));
    proof {
        assert(crate::ai::helpers::messages_view(context@) =~= before.push(text_message(reply_role, reply_content@)));
    }
    ExampleResponse { code, context: Some(context) }
}

/// Whether two earlier conversations count as the same: message by message,
/// the same role and the same text.
pub open spec fn same_messages(a: Seq<ChatRequestMessage>, b: Seq<ChatRequestMessage>) -> bool {
    &&& a.len() == b.len()
    &&& forall|i: int| 0 <= i < a.len() ==> #[trigger] same_role(a[i].role, b[i].role) && a[i].content@ == b[i].content@
}

/// Whether two optional conversations count as the same.
pub open spec fn same_context(a: Option<Vec<ChatRequestMessage>>, b: Option<Vec<ChatRequestMessage>>) -> bool {
    match (a, b) {
        (None, None) => true,
        (Some(x), Some(y)) => same_messages(x@, y@),
        _ => false,
    }
}

/// The optional code of a request as plain values.
pub open spec fn opt_code(c: Option<Code>) -> Option<CodeView> {
    match c {
        Some(c) => Some(c@),
        None => None,
    }
}

/// Whether two example requests count as the same: the same prompt, the same
/// code and the same conversation. A request whose conversation holds a
/// message of another role than system, user or assistant is the same as no
/// request, itself included.
pub open spec fn same_request(a: ExampleRequest, b: ExampleRequest) -> bool {
    &&& a.prompt@ == b.prompt@
    &&& opt_code(a.code) == opt_code(b.code)
    &&& same_context(a.context, b.context)
}

proof fn lemma_same_request_symmetric(a: ExampleRequest, b: ExampleRequest)
    requires
        same_request(a, b),
    ensures
        same_request(b, a),
{
    match (a.context, b.context) {
        (Some(x), Some(y)) => {
            assert forall|i: int| 0 <= i < y@.len() implies #[trigger] same_role(y@[i].role, x@[i].role)
                && y@[i].content@ == x@[i].content@ by {
                assert(same_role(x@[i].role, y@[i].role));
            }
            assert(same_messages(y@, x@));
            assert(same_context(b.context, a.context));
        },
        _ => {},
    }
}

proof fn lemma_same_request_transitive(a: ExampleRequest, b: ExampleRequest, c: ExampleRequest)
    requires
        same_request(a, b),
        same_request(b, c),
    ensures
        same_request(a, c),
{
    match (a.context, b.context, c.context) {
        (Some(x), Some(y), Some(z)) => {
            assert forall|i: int| 0 <= i < x@.len() implies #[trigger] same_role(x@[i].role, z@[i].role)
                && x@[i].content@ == z@[i].content@ by {
                assert(same_role(x@[i].role, y@[i].role));
                assert(same_role(y@[i].role, z@[i].role));
            }
            assert(same_messages(x@, z@));
            assert(same_context(a.context, c.context));
        },
        _ => {},
    }
}

fn same_text(a: &Option<String>, b: &Option<String>) -> (res: bool)
    ensures
        res == (opt_text(*a) == opt_text(*b)),
{
    match (a, b) {
        (None, None) => true,
        (Some(x), Some(y)) => str_eq(x.as_str(), y.as_str()),
        _ => false,
    }
}

fn same_code(a: &Option<Code>, b: &Option<Code>) -> (res: bool)
    ensures
        res == (opt_code(*a) == opt_code(*b)),
{
    match (a, b) {
        (None, None) => true,
        (Some(x), Some(y)) => same_text(&x.html, &y.html) && same_text(&x.css, &y.css) && same_text(&x.js, &y.js),
        _ => false,
    }
}

fn same_conversation(a: &Vec<ChatRequestMessage>, b: &Vec<ChatRequestMessage>) -> (res: bool)
    ensures
        res == same_messages(a@, b@),
{
    if a.len() != b.len() {
        return false;
    }
    let mut i: usize = 0;
    while i < a.len()
        invariant
            a@.len() == b@.len(),
            i <= a@.len(),
            forall|k: int| 0 <= k < i ==> #[trigger] same_role(a@[k].role, b@[k].role) && a@[k].content@ == b@[k].content@,
        decreases a@.len() - i,
    {
        let role = match (a[i].role, b[i].role) {
            (Role::System, Role::System) => true,
            (Role::User, Role::User) => true,
            (Role::Assistant, Role::Assistant) => true,
            _ => false,
        };
        proof {
            assert(role == same_role(a@[i as int].role, b@[i as int].role));
        }
        let text = str_eq(a[i].content.as_str(), b[i].content.as_str());
        proof {
            assert(text == (a@[i as int].content@ == b@[i as int].content@));
        }
        if !role || !text {
            proof {
                assert(!(same_role(a@[i as int].role, b@[i as int].role) && a@[i as int].content@ == b@[i as int].content@));
            }
            return false;
        }
        i = i + 1;
    }
    true
}

/// Whether two example requests count as the same (see `same_request`).
pub fn requests_match(a: &ExampleRequest, b: &ExampleRequest) -> (res: bool)
    ensures
        res == same_request(*a, *b),
{
    if !str_eq(a.prompt.as_str(), b.prompt.as_str()) || !same_code(&a.code, &b.code) {
        return false;
    }
    match (&a.context, &b.context) {
        (None, None) => true,
        (Some(x), Some(y)) => same_conversation(x, y),
        _ => false,
    }
}

/// Whether no two cached requests count as the same.
pub open spec fn distinct_requests(s: Seq<(ExampleRequest, ExampleResponse)>) -> bool {
    forall|i: int, j: int| 0 <= i < s.len() && 0 <= j < s.len() && i != j
        ==> !same_request(#[trigger] s[i].0, #[trigger] s[j].0)
}

/// Whether an entry answers a request.
pub open spec fn answers(s: Seq<(ExampleRequest, ExampleResponse)>, req: ExampleRequest, i: int) -> bool {
    0 <= i < s.len() && same_request(s[i].0, req)
}

/// The answer cached for a request: that of the entry whose request counts as
/// the same, if there is one.
pub open spec fn cached(s: Seq<(ExampleRequest, ExampleResponse)>, req: ExampleRequest) -> Option<ExampleResponse> {
    if exists|i: int| #[trigger] answers(s, req, i) {
        Some(s[choose|i: int| #[trigger] answers(s, req, i)].1)
    } else {
        None
    }
}

/// The entries after caching an answer: an entry whose request counts as the
/// same keeps its request and takes the new answer; otherwise the request and
/// answer are added at the end.
pub open spec fn inserted(s: Seq<(ExampleRequest, ExampleResponse)>, req: ExampleRequest, resp: ExampleResponse)
    -> Seq<(ExampleRequest, ExampleResponse)> {
    if exists|i: int| #[trigger] answers(s, req, i) {
        let i = choose|i: int| #[trigger] answers(s, req, i);
        s.update(i, (s[i].0, resp))
    } else {
        s.push((req, resp))
    }
}

/// Two entries that answer one request are one entry.
proof fn lemma_answers_unique(s: Seq<(ExampleRequest, ExampleResponse)>, req: ExampleRequest, i: int, j: int)
    requires
        distinct_requests(s),
        answers(s, req, i),
        answers(s, req, j),
    ensures
        i == j,
{
    if i != j {
        lemma_same_request_symmetric(s[j].0, req);
        lemma_same_request_transitive(s[i].0, req, s[j].0);
        assert(!same_request(s[i].0, s[j].0));
    }
}

/// The answers already given to earlier example requests.
pub struct ExampleCache {
    entries: Vec<(ExampleRequest, ExampleResponse)>,
}

impl ExampleCache {
    /// The cached requests and their answers, in the order they came.
    pub closed spec fn entries(&self) -> Seq<(ExampleRequest, ExampleResponse)> {
        self.entries@
    }

    /// No two cached requests count as the same.
    pub open spec fn wf(&self) -> bool {
        distinct_requests(self.entries())
    }

    /// An empty cache.
    pub fn new() -> (res: ExampleCache)
        ensures
            res.wf(),
            res.entries() == Seq::<(ExampleRequest, ExampleResponse)>::empty(),
    {
        ExampleCache { entries: Vec::new() }
    }

    fn position(&self, req: &ExampleRequest) -> (res: Option<usize>)
        ensures
            match res {
                Some(i) => answers(self.entries(), *req, i as int),
                None => !exists|i: int| #[trigger] answers(self.entries(), *req, i),
            },
    {
        let mut i: usize = 0;
        while i < self.entries.len()
            invariant
                i <= self.entries@.len(),
                forall|k: int| 0 <= k < i ==> !#[trigger] answers(self.entries@, *req, k),
            decreases self.entries@.len() - i,
        {
            if requests_match(&self.entries[i].0, req) {
                return Some(i);
            }
            i = i + 1;
        }
        None
    }

    /// The answer cached for a request that counts as the same, if any.
    pub fn get(&self, req: &ExampleRequest) -> (res: Option<&ExampleResponse>)
        requires
            self.wf(),
        ensures
            match res {
                Some(r) => cached(self.entries(), *req) == Some(*r),
                None => cached(self.entries(), *req) is None,
            },
    {
        match self.position(req) {
            Some(i) => {
                proof {
                    let j = choose|j: int| #[trigger] answers(self.entries(), *req, j);
                    lemma_answers_unique(self.entries(), *req, i as int, j);
                }
                Some(&self.entries[i].1)
            },
            None => None,
        }
    }

    /// Caches the answer to a request: a cached request that counts as the
    /// same keeps its place and takes the new answer; otherwise the request is
    /// added.
    pub fn insert(&mut self, req: ExampleRequest, resp: ExampleResponse)
        requires
            old(self).wf(),
        ensures
            final(self).wf(),
            final(self).entries() == inserted(old(self).entries(), req, resp),
    {
        let ghost s = self.entries@;
        match self.position(&req) {
            Some(i) => {
                proof {
                    let j = choose|j: int| #[trigger] answers(s, req, j);
                    lemma_answers_unique(s, req, i as int, j);
                }
                let mut entries = Vec::new();
                std::mem::swap(&mut entries, &mut self.entries);
                let mut entry = entries.remove(i);
                entry.1 = resp;
                entries.insert(i, entry);
                self.entries = entries;
                proof {
                    assert(self.entries@ =~= s.update(i as int, (s[i as int].0, resp)));
                }
            },
            None => {
                self.entries.push((req, resp));
                proof {
                    assert(self.entries@ =~= s.push((req, resp)));
                    assert forall|a: int, b: int| 0 <= a < self.entries@.len() && 0 <= b < self.entries@.len() && a != b
                        implies !same_request(#[trigger] self.entries@[a].0, #[trigger] self.entries@[b].0) by {
                        if b == s.len() {
                            assert(!answers(s, req, a));
                        } else if a == s.len() {
                            assert(!answers(s, req, b));
                            if same_request(req, s[b].0) {
                                lemma_same_request_symmetric(req, s[b].0);
                            }
                        }
                    }
                }
            },
        }
    }
}

/// An example cache reads back what was cached: after caching an answer to a
/// request, a request that counts as the same gets that answer, and every
/// other request gets what it got before.
pub proof fn lemma_example_cache_read_after_write(
    s: Seq<(ExampleRequest, ExampleResponse)>,
    req: ExampleRequest,
    resp: ExampleResponse,
    q: ExampleRequest,
)
    requires
        distinct_requests(s),
    ensures
        cached(inserted(s, req, resp), q) == if same_request(q, req) { Some(resp) } else { cached(s, q) },
{
    let t = inserted(s, req, resp);
    if exists|i: int| #[trigger] answers(s, req, i) {
        let i = choose|i: int| #[trigger] answers(s, req, i);
        assert(t == s.update(i, (s[i].0, resp)));
        if same_request(q, req) {
            lemma_same_request_symmetric(q, req);
            lemma_same_request_transitive(s[i].0, req, q);
            assert(answers(t, q, i));
            let k = choose|k: int| #[trigger] answers(t, q, k);
            if k != i {
                assert(answers(s, q, k));
                lemma_same_request_symmetric(s[k].0, q);
                lemma_same_request_transitive(s[i].0, q, s[k].0);
            }
        } else {
            assert forall|k: int| #[trigger] answers(t, q, k) <==> answers(s, q, k) by {
                if k == i && answers(s, q, i) {
                    lemma_same_request_symmetric(s[i].0, q);
                    lemma_same_request_symmetric(s[i].0, req);
                    lemma_same_request_transitive(q, s[i].0, req);
                }
            }
            if exists|k: int| #[trigger] answers(s, q, k) {
                let k2 = choose|k: int| #[trigger] answers(s, q, k);
                assert(answers(t, q, k2));
                let k1 = choose|k: int| #[trigger] answers(t, q, k);
                assert(answers(s, q, k1));
                lemma_answers_unique(s, q, k1, k2);
                if k1 == i {
                    lemma_same_request_symmetric(s[i].0, q);
                    lemma_same_request_transitive(q, s[i].0, req);
                }
                assert(k1 != i);
            }
        }
    } else {
        assert(t == s.push((req, resp)));
        let n = s.len() as int;
        if same_request(q, req) {
            lemma_same_request_symmetric(q, req);
            assert(answers(t, q, n));
            let k = choose|k: int| #[trigger] answers(t, q, k);
            if k != n {
                assert(answers(s, q, k));
                lemma_same_request_transitive(s[k].0, q, req);
                assert(answers(s, req, k));
            }
        } else {
            assert forall|k: int| #[trigger] answers(t, q, k) <==> answers(s, q, k) by {
                if k == n && answers(t, q, n) {
                    lemma_same_request_symmetric(req, q);
                }
            }
            if exists|k: int| #[trigger] answers(s, q, k) {
                let k2 = choose|k: int| #[trigger] answers(s, q, k);
                assert(answers(t, q, k2));
                let k1 = choose|k: int| #[trigger] answers(t, q, k);
                assert(answers(s, q, k1));
                lemma_answers_unique(s, q, k1, k2);
            }
        }
    }
}

/// A conversation sent to the assistant.
#[derive(Debug, Clone)]
pub struct ChatRequestMessages {
    pub messages: Vec<ChatMessage>,
}

/// The text of a language's block as it is shown, before its closing
/// newlines: a newline and the code, or nothing.
pub open spec fn block_text(o: Option<Seq<char>>) -> Seq<char> {
    match o {
        Some(t) => "\n"@ + t,
        None => Seq::empty(),
    }
}

/// The shown code, cut at its fences.
pub open spec fn fence_pieces(c: CodeView) -> Seq<Seq<char>> {
    seq![
        Seq::empty(),
        "html\n"@ + block_text(c.html) + "\n\n"@,
        "\n"@,
        "css\n"@ + block_text(c.css) + "\n\n"@,
        "\n"@,
        "js\n"@ + block_text(c.js) + "\n\n"@,
        Seq::empty(),
    ]
}

/// Whether an optional text holds no code fence.
pub open spec fn no_fence(o: Option<Seq<char>>) -> bool {
    match o {
        Some(t) => !is_substring("```"@, t),
        None => true,
    }
}

/// The code read back for a language: the trimmed code, or an empty block.
pub open spec fn read_back(o: Option<Seq<char>>) -> Seq<char> {
    match o {
        Some(t) => trimmed(t),
        None => Seq::empty(),
    }
}

proof fn lemma_join_with_optional(x: Seq<Seq<char>>, o: Option<Seq<char>>, y: Seq<Seq<char>>)
    requires
        x.len() > 0,
        y.len() > 0,
    ensures
        seq_join(x + opt_part(o) + y, "\n"@) == seq_join(x, "\n"@) + block_text(o) + "\n"@ + seq_join(y, "\n"@),
{
    match o {
        Some(t) => {
            lemma_join_append(x, seq![t], "\n"@);
            assert(seq_join(seq![t], "\n"@) == t);
            lemma_join_append(x + seq![t], y, "\n"@);
            assert(seq_join(x, "\n"@) + "\n"@ + t + "\n"@ + seq_join(y, "\n"@)
                =~= seq_join(x, "\n"@) + ("\n"@ + t) + "\n"@ + seq_join(y, "\n"@));
        },
        None => {
            assert(x + opt_part(o) + y =~= x + y);
            lemma_join_append(x, y, "\n"@);
            assert(seq_join(x, "\n"@) + "\n"@ + seq_join(y, "\n"@)
                =~= seq_join(x, "\n"@) + Seq::<char>::empty() + "\n"@ + seq_join(y, "\n"@));
        },
    }
}

proof fn lemma_join_two(a: Seq<char>, b: Seq<char>, sep: Seq<char>)
    ensures
        seq_join(seq![a, b], sep) == a + sep + b,
{
    assert(seq![a, b].drop_last() =~= seq![a]);
    assert(seq_join(seq![a], sep) == a);
}

/// The shown code, with each block's text left symbolic.
proof fn lemma_code_prompt_flat(c: CodeView)
    ensures
        code_prompt(c) == "```html\n"@ + block_text(c.html) + "\n"@ + (("\n```"@ + "\n"@ + "```css\n"@)
            + block_text(c.css) + "\n"@ + (("\n```"@ + "\n"@ + "```js\n"@) + block_text(c.js) + "\n"@
            + "\n```"@)),
{
    reveal_strlit("```html\n");
    reveal_strlit("\n```");
    let nl = "\n"@;
    let a1 = seq!["```html\n"@];
    let a2 = seq!["\n```"@, "```css\n"@];
    let a3 = seq!["\n```"@, "```js\n"@];
    let a4 = seq!["\n```"@];
    let r2 = a3 + opt_part(c.js) + a4;
    let r1 = a2 + opt_part(c.css) + r2;
    assert(code_prompt_parts(c) =~= a1 + opt_part(c.html) + r1);
    lemma_join_with_optional(a1, c.html, r1);
    lemma_join_with_optional(a2, c.css, r2);
    lemma_join_with_optional(a3, c.js, a4);
    assert(seq_join(a1, nl) == "```html\n"@);
    assert(seq_join(a4, nl) == "\n```"@);
    lemma_join_two("\n```"@, "```css\n"@, nl);
    lemma_join_two("\n```"@, "```js\n"@, nl);
}

/// The join of the fence pieces, written out.
proof fn lemma_fence_join(c: CodeView)
    ensures
        ({
            let f = fence_pieces(c);
            let sep = "```"@;
            seq_join(f, sep) == f[0] + sep + (f[1] + sep + (f[2] + sep + (f[3] + sep + (f[4] + sep
                + (f[5] + sep + f[6])))))
        }),
{
    let f = fence_pieces(c);
    let sep = "```"@;
    assert forall|k: int| 0 <= k < 6 implies #[trigger] f.subrange(k, 7) =~= seq![f[k]] + f.subrange(k + 1, 7) by {}
    assert(f.subrange(0, 7) =~= f);
    assert(seq_join(f.subrange(6, 7), sep) == f[6]) by {
        assert(f.subrange(6, 7) =~= seq![f[6]]);
    }
    lemma_join_cons(f[5], f.subrange(6, 7), sep);
    lemma_join_cons(f[4], f.subrange(5, 7), sep);
    lemma_join_cons(f[3], f.subrange(4, 7), sep);
    lemma_join_cons(f[2], f.subrange(3, 7), sep);
    lemma_join_cons(f[1], f.subrange(2, 7), sep);
    lemma_join_cons(f[0], f.subrange(1, 7), sep);
}

proof fn lemma_shape_tail(b: Seq<char>)
    ensures
        ("\n```"@ + "\n"@ + "```js\n"@) + b + "\n"@ + "\n```"@ == "\n```"@ + ("\n"@ + "```"@ + (("js\n"@
            + b + "\n\n"@) + "```"@ + Seq::<char>::empty())),
{
    reveal_strlit("\n```");
    reveal_strlit("\n");
    reveal_strlit("```js\n");
    reveal_strlit("```");
    reveal_strlit("js\n");
    reveal_strlit("\n\n");
    assert(("\n```"@ + "\n"@ + "```js\n"@) + b + "\n"@ + "\n```"@ =~= "\n```"@ + ("\n"@ + "```"@ + (("js\n"@
        + b + "\n\n"@) + "```"@ + Seq::<char>::empty())));
}

proof fn lemma_shape_mid(b: Seq<char>, v: Seq<char>)
    ensures
        ("\n```"@ + "\n"@ + "```css\n"@) + b + "\n"@ + ("\n```"@ + v) == "\n```"@ + ("\n"@ + "```"@ + (("css\n"@
            + b + "\n\n"@) + "```"@ + v)),
{
    reveal_strlit("\n```");
    reveal_strlit("\n");
    reveal_strlit("```css\n");
    reveal_strlit("```");
    reveal_strlit("css\n");
    reveal_strlit("\n\n");
    assert(("\n```"@ + "\n"@ + "```css\n"@) + b + "\n"@ + ("\n```"@ + v) =~= "\n```"@ + ("\n"@ + "```"@ + (("css\n"@
        + b + "\n\n"@) + "```"@ + v)));
}

proof fn lemma_shape_head(b: Seq<char>, x: Seq<char>)
    ensures
        "```html\n"@ + b + "\n"@ + ("\n```"@ + x) == Seq::<char>::empty() + "```"@ + (("html\n"@ + b + "\n\n"@)
            + "```"@ + x),
{
    reveal_strlit("\n```");
    reveal_strlit("\n");
    reveal_strlit("```html\n");
    reveal_strlit("```");
    reveal_strlit("html\n");
    reveal_strlit("\n\n");
    assert("```html\n"@ + b + "\n"@ + ("\n```"@ + x) =~= Seq::<char>::empty() + "```"@ + (("html\n"@ + b
        + "\n\n"@) + "```"@ + x));
}

/// The shown code is the join of its fence pieces at the fences.
proof fn lemma_code_prompt_fences(c: CodeView)
    ensures
        code_prompt(c) == seq_join(fence_pieces(c), "```"@),
{
    let f = fence_pieces(c);
    let sep = "```"@;
    lemma_code_prompt_flat(c);
    lemma_fence_join(c);
    let bh = block_text(c.html);
    let bc = block_text(c.css);
    let bj = block_text(c.js);
    lemma_shape_tail(bj);
    let v = f[4] + sep + (f[5] + sep + f[6]);
    lemma_shape_mid(bc, v);
    let x = f[2] + sep + (f[3] + sep + v);
    lemma_shape_head(bh, x);
}

/// A block piece holds no fence, not even one running into the fence after it.
proof fn lemma_block_piece_clean(l: Seq<char>, o: Option<Seq<char>>)
    requires
        forall|i: int| 0 <= i < l.len() ==> l[i] != '`',
        no_fence(o),
    ensures
        clean_piece(l + block_text(o) + "\n\n"@, "```"@),
{
    reveal_strlit("```");
    reveal_strlit("\n\n");
    reveal_strlit("\n");
    let sep = "```"@;
    let b = block_text(o);
    let p = l + b + "\n\n"@;
    let q = p + sep;
    let ll = l.len() as int;
    let bl = b.len() as int;
    assert forall|i: int| 0 <= i < p.len() implies !#[trigger] occurs_at(q, sep, i) by {
        if occurs_at(q, sep, i) {
            assert(q.subrange(i, i + 3) == sep);
            assert(q[i] == q.subrange(i, i + 3)[0]);
            assert(q[i + 1] == q.subrange(i, i + 3)[1]);
            assert(q[i + 2] == q.subrange(i, i + 3)[2]);
            if i < ll {
                assert(q[i] == l[i]);
            } else if i < ll + bl {
                match o {
                    Some(t) => {
                        if i == ll {
                            assert(q[i] == '\n');
                        } else {
                            let k = i - ll - 1;
                            if k + 3 <= t.len() {
                                assert(t.subrange(k, k + 3) =~= q.subrange(i, i + 3));
                                assert(is_substring(sep, t));
                            } else if k + 2 == t.len() {
                                assert(q[i + 2] == '\n');
                            } else {
                                assert(q[i + 1] == '\n');
                            }
                        }
                    },
                    None => {},
                }
            } else {
                assert(q[i] == '\n');
            }
        }
    }
}

/// The fence pieces of shown code without fences of its own hold none.
proof fn lemma_fence_pieces_clean(c: CodeView)
    requires
        no_fence(c.html),
        no_fence(c.css),
        no_fence(c.js),
    ensures
        all_clean(fence_pieces(c), "```"@),
{
    reveal_strlit("html\n");
    reveal_strlit("css\n");
    reveal_strlit("js\n");
    reveal_strlit("\n");
    reveal_strlit("```");
    let f = fence_pieces(c);
    let sep = "```"@;
    lemma_block_piece_clean("html\n"@, c.html);
    lemma_block_piece_clean("css\n"@, c.css);
    lemma_block_piece_clean("js\n"@, c.js);
    assert(clean_piece(Seq::<char>::empty(), sep));
    assert(clean_piece("\n"@, sep)) by {
        assert forall|i: int| 0 <= i < 1 implies !#[trigger] occurs_at("\n"@ + sep, sep, i) by {
            assert(("\n"@ + sep)[0] == '\n');
            assert(("\n"@ + sep).subrange(0, 3)[0] == '\n');
        }
    }
    assert forall|k: int| 0 <= k < f.len() implies clean_piece(#[trigger] f[k], sep) by {}
}

proof fn lemma_read_step(c0: CodeView, s: Seq<Seq<char>>, k: int)
    requires
        0 <= k < s.len(),
    ensures
        read_blocks(c0, s.take(k + 1)) == read_block(read_blocks(c0, s.take(k)), s[k]),
{
    assert(s.take(k + 1).drop_last() =~= s.take(k));
    assert(s.take(k + 1).last() == s[k]);
}

/// A piece between blocks, which names no language, leaves the code as it is.
proof fn lemma_read_plain(c: CodeView, p: Seq<char>)
    requires
        p.len() == 0 || p[0] == '\n',
    ensures
        read_block(c, p) == c,
{
    reveal_strlit("css");
    reveal_strlit("html");
    reveal_strlit("js");
    if has_prefix(p, "css"@) {
        assert(p.take(3)[0] == p[0]);
    }
    if has_prefix(p, "html"@) {
        assert(p.take(4)[0] == p[0]);
    }
    if has_prefix(p, "js"@) {
        assert(p.take(2)[0] == p[0]);
    }
}

/// Reading the fence pieces gives each language's block.
proof fn lemma_read_fence_pieces(c: CodeView)
    ensures
        read_blocks(CodeView { html: None, css: None, js: None }, fence_pieces(c)) == (CodeView {
            html: Some(trimmed("\n"@ + block_text(c.html) + "\n\n"@)),
            css: Some(trimmed("\n"@ + block_text(c.css) + "\n\n"@)),
            js: Some(trimmed("\n"@ + block_text(c.js) + "\n\n"@)),
        }),
{
    reveal_strlit("html\n");
    reveal_strlit("css\n");
    reveal_strlit("js\n");
    reveal_strlit("\n");
    reveal_strlit("\n\n");
    reveal_strlit("css");
    reveal_strlit("html");
    reveal_strlit("js");
    let f = fence_pieces(c);
    let c0 = CodeView { html: None, css: None, js: None };
    let p1 = f[1];
    let p3 = f[3];
    let p5 = f[5];
    assert(read_blocks(c0, f.take(0)) == c0) by {
        assert(f.take(0) =~= Seq::<Seq<char>>::empty());
    }
    lemma_read_step(c0, f, 0);
    lemma_read_plain(c0, f[0]);
    let r1 = read_blocks(c0, f.take(1));
    assert(r1 == c0);
    lemma_read_step(c0, f, 1);
    assert(p1.take(3)[0] == 'h');
    assert(!has_prefix(p1, "css"@));
    assert(p1.take(4) =~= "html"@);
    assert(p1.skip(4) =~= "\n"@ + block_text(c.html) + "\n\n"@);
    let r2 = read_blocks(c0, f.take(2));
    assert(r2 == CodeView { html: Some(trimmed(p1.skip(4))), ..c0 });
    lemma_read_step(c0, f, 2);
    lemma_read_plain(r2, f[2]);
    let r3 = read_blocks(c0, f.take(3));
    assert(r3 == r2);
    lemma_read_step(c0, f, 3);
    assert(p3.take(3) =~= "css"@);
    assert(p3.skip(3) =~= "\n"@ + block_text(c.css) + "\n\n"@);
    let r4 = read_blocks(c0, f.take(4));
    assert(r4 == CodeView { css: Some(trimmed(p3.skip(3))), ..r3 });
    lemma_read_step(c0, f, 4);
    lemma_read_plain(r4, f[4]);
    let r5 = read_blocks(c0, f.take(5));
    assert(r5 == r4);
    lemma_read_step(c0, f, 5);
    assert(p5.take(3)[0] == 'j');
    assert(!has_prefix(p5, "css"@));
    assert(p5.take(4)[0] == 'j');
    assert(!has_prefix(p5, "html"@));
    assert(p5.take(2) =~= "js"@);
    assert(p5.skip(2) =~= "\n"@ + block_text(c.js) + "\n\n"@);
    let r6 = read_blocks(c0, f.take(6));
    assert(r6 == CodeView { js: Some(trimmed(p5.skip(2))), ..r5 });
    lemma_read_step(c0, f, 6);
    lemma_read_plain(r6, f[6]);
    assert(f.take(7) =~= f);
}

proof fn lemma_read_back_block(o: Option<Seq<char>>)
    ensures
        trimmed("\n"@ + block_text(o) + "\n\n"@) == read_back(o),
{
    reveal_strlit("\n");
    reveal_strlit("\n\n");
    let w1 = "\n"@;
    let w2 = "\n\n"@;
    assert(all_white(w2)) by {
        assert(is_white_space('\n'));
    }
    match o {
        Some(t) => {
            let w = "\n\n"@;
            assert(all_white(w)) by {
                assert(is_white_space('\n'));
            }
            assert("\n"@ + block_text(o) + "\n\n"@ =~= w + t + w2);
            lemma_trimmed_surrounded(w, t, w2);
        },
        None => {
            let w = "\n\n\n"@;
            reveal_strlit("\n\n\n");
            assert(all_white(w)) by {
                assert(is_white_space('\n'));
            }
            assert("\n"@ + block_text(o) + "\n\n"@ =~= w + Seq::<char>::empty() + Seq::<char>::empty());
            assert(all_white(Seq::<char>::empty()));
            lemma_trimmed_surrounded(w, Seq::<char>::empty(), Seq::<char>::empty());
            assert(trimmed(Seq::<char>::empty()) == Seq::<char>::empty());
        },
    }
}

/// Code shown to the model reads back from a reply that repeats it: each
/// language's code, trimmed (an empty block where there was none), as long
/// as no code holds a fence of its own.
pub proof fn lemma_shown_code_reads_back(c: CodeView)
    requires
        no_fence(c.html),
        no_fence(c.css),
        no_fence(c.js),
    ensures
        reply_code(code_prompt(c)) == (CodeView {
            html: Some(read_back(c.html)),
            css: Some(read_back(c.css)),
            js: Some(read_back(c.js)),
        }),
{
    reveal_strlit("```");
    lemma_code_prompt_fences(c);
    lemma_fence_pieces_clean(c);
    lemma_join_split(fence_pieces(c), "```"@);
    lemma_read_fence_pieces(c);
    lemma_read_back_block(c.html);
    lemma_read_back_block(c.css);
    lemma_read_back_block(c.js);
}

} // verus!
