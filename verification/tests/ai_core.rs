use rumba::ai::ask::{ask_context, AskDoc};
use rumba::ai::constants::{ai_help_gpt3_5_full_doc_new_prompt, ai_help_gpt4_full_doc_new_prompt};
use rumba::ai::embeddings::{disambiguate_titles, RelatedDoc};
use rumba::ai::error::AIError;
use rumba::ai::explain::{explain_messages, explain_prompts, verify_explain_request, ExplainRequest, ExplainVerifyError};
use rumba::ai::help::{
    ai_help_config, ai_help_query, last_user_prompt, moderation_outcome, prepare_ai_help_messages,
    prepare_ai_help_summary_req, select_context,
};
use rumba::ai::helpers::{cap_messages, get_first_n_chars, into_user_messages, sanitize_messages, ChatMessage, Role};

fn msg(role: Role, text: &str) -> ChatMessage {
    ChatMessage::new(role, text.to_string())
}

fn doc(url: &str, title: &str, parent: Option<&str>, content: &str) -> RelatedDoc {
    RelatedDoc { url: url.into(), title: title.into(), title_parent: parent.map(String::from), content: content.into() }
}

#[test]
fn first_chars_count_characters() {
    assert_eq!(get_first_n_chars("héllo", 2), "hé");
    assert_eq!(get_first_n_chars("ab", 5), "ab");
}

#[test]
fn conversations_keep_user_and_assistant_messages() {
    let m = vec![msg(Role::System, "s"), msg(Role::User, "u"), msg(Role::Assistant, "a"), msg(Role::Function, "f")];
    let kept = sanitize_messages(m.clone());
    assert_eq!(kept.len(), 2);
    assert_eq!(into_user_messages(kept).len(), 1);
}

#[test]
fn configs_by_subscription() {
    assert_eq!(ai_help_config(true).model, ai_help_gpt4_full_doc_new_prompt().model);
    assert_eq!(ai_help_config(false).model, ai_help_gpt3_5_full_doc_new_prompt().model);
    assert_eq!(ai_help_gpt3_5_full_doc_new_prompt().context_limit, 12_000);
    assert_eq!(ai_help_gpt4_full_doc_new_prompt().token_limit, 32_768);
}

#[test]
fn qa_trigger_and_moderation() {
    let m = vec![msg(Role::User, "trigger")];
    assert_eq!(ai_help_query(m.clone(), Some("trigger")).err(), Some(AIError::OpenAIError));
    let q = ai_help_query(vec![msg(Role::System, "s"), msg(Role::User, "hi")], Some("trigger")).unwrap();
    assert_eq!(q.context_messages.len(), 1);
    assert_eq!(q.moderation_inputs, vec!["hi".to_string()]);
    assert_eq!(moderation_outcome(&vec![false, true]), Err(AIError::FlaggedError));
    assert_eq!(moderation_outcome(&vec![false]), Ok(()));
}

#[test]
fn the_search_prompt_is_the_last_message() {
    let p = last_user_prompt(&vec![msg(Role::User, "a"), msg(Role::User, "line\nbreak")]).unwrap();
    assert_eq!(p.search_prompt, "line break");
    assert_eq!(p.query_len, 10);
    assert_eq!(last_user_prompt(&vec![]).err(), Some(AIError::NoUserPrompt));
}

#[test]
fn context_keeps_documents_within_the_limit() {
    let mut config = ai_help_config(false);
    config.context_limit = 3;
    let docs = vec![doc("/a", "A", None, "hello"), doc("/a", "A2", None, "hello world"), doc("/b", "B", None, "hi")];
    let sel = select_context(&config, docs);
    assert_eq!(sel.context.len(), 2);
    assert_eq!(sel.context[1].content, "hi");
    assert_eq!(sel.refs.len(), 2);
    assert_eq!(sel.refs[0].url, "/a");
    assert_eq!(sel.context_len, 18);
}

#[test]
fn equal_titles_are_told_apart_by_their_parents() {
    let docs = vec![doc("/a", "Intro", Some("CSS"), "x"), doc("/b", "Intro", Some("JS"), "y"), doc("/c", "Other", Some("P"), "z")];
    let shown = disambiguate_titles(docs);
    assert_ne!(shown[0].title, shown[1].title);
    assert!(shown[0].title.contains("CSS"));
    assert_eq!(shown[2].title, "Other");
}

#[test]
fn messages_fit_the_token_budget() {
    let config = ai_help_config(false);
    let init = vec![msg(Role::System, "system")];
    let res = cap_messages(&config, init, vec![msg(Role::User, "hello")]).unwrap();
    assert_eq!(res.len(), 2);
    let mut tiny = config;
    tiny.token_limit = 1;
    assert_eq!(cap_messages(&tiny, vec![msg(Role::System, "system")], vec![msg(Role::User, "hello")]).err(), Some(AIError::TokenLimit));
}

#[test]
fn ai_help_request_starts_with_the_system_prompt_and_context() {
    let config = ai_help_config(false);
    let (req, len) = prepare_ai_help_messages(&config, "sys", vec![doc("/a", "A", None, "text")], vec![msg(Role::User, "q")]).unwrap();
    assert_eq!(len, 4);
    assert_eq!(req.messages[0].content.as_deref(), Some("sys"));
    assert_eq!(req.messages[1].content.as_deref(), Some("<article>\ntext\n</article>"));
    assert_eq!(req.messages.last().unwrap().content.as_deref(), Some("q"));
    assert_eq!(req.refs.len(), 1);
    let summary = prepare_ai_help_summary_req(vec![msg(Role::User, "q")], "summarise", "title please");
    assert_eq!(summary.messages.len(), 3);
    assert_eq!(summary.model, "gpt-3.5-turbo");
}

#[test]
fn ask_context_separates_excerpts() {
    let d = |s: &str, c: &str| AskDoc { url: format!("/{s}"), slug: s.into(), title: s.to_uppercase(), content: c.into() };
    let ctx = ask_context(vec![d("a", "one"), d("a", "two")]).unwrap();
    assert_eq!(ctx.refs.len(), 1);
    assert!(ctx.context.contains("\n---\n"));
    assert!(ask_context(vec![]).is_none());
}

#[test]
fn explain_requests_and_prompts() {
    let req = ExplainRequest { language: Some("js".into()), sample: "let a;".into(), signature: vec![], highlighted: Some("b".into()) };
    assert_eq!(verify_explain_request(&req, Some(b"k")), Err(ExplainVerifyError::Artificial));
    let req = ExplainRequest { highlighted: Some("a".into()), ..req };
    assert_eq!(verify_explain_request(&req, None), Err(ExplainVerifyError::Artificial));
    assert_eq!(verify_explain_request(&req, Some(b"k")), Err(ExplainVerifyError::InvalidSignature));
    let p = explain_prompts(&req);
    assert_eq!(p.user_prompt, "Explain the following part: ```js\na\n```");
    assert_eq!(p.context_prompt, "Given the following code example is the MDN code example:```js\nlet a;\n```");
    let (model, messages) = explain_messages(p);
    assert_eq!(model, "gpt-3.5-turbo");
    assert_eq!(messages.len(), 3);
}

#[test]
fn ai_errors_answer_by_fault() {
    assert_eq!(AIError::OpenAIError.status_code(), 500);
    assert_eq!(AIError::TokenLimit.status_code(), 400);
    let r = AIError::FlaggedError.error_response();
    assert_eq!((r.code, r.message, r.error), (400, "Bad Request", "AI Error"));
    assert!(AIError::TokenLimit.reinstates_quota());
    assert!(!AIError::FlaggedError.reinstates_quota());
}

#[test]
fn the_oldest_messages_are_dropped_first() {
    let mut config = ai_help_config(false);
    config.token_limit = config.max_completion_tokens + 60;
    let long = "word ".repeat(200);
    let res = cap_messages(&config, vec![msg(Role::System, "system")], vec![msg(Role::User, &long), msg(Role::User, "hi")]).unwrap();
    assert_eq!(res.len(), 2);
    assert_eq!(res[1].content.as_deref(), Some("hi"));
}

#[test]
fn references_name_each_document_once() {
    let config = ai_help_config(false);
    let docs = vec![doc("/a", "A", None, "one"), doc("/b", "B", None, "two"), doc("/a", "A", None, "three")];
    let sel = select_context(&config, docs);
    let urls: Vec<&str> = sel.refs.iter().map(|r| r.url.as_str()).collect();
    assert_eq!(urls, vec!["/a", "/b"]);
}

#[test]
fn an_unknown_model_cannot_count_tokens() {
    let mut config = ai_help_config(false);
    config.model = "no-such-model";
    assert_eq!(cap_messages(&config, vec![msg(Role::System, "s")], vec![]).err(), Some(AIError::TiktokenError));
}
