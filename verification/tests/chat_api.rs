use rumba::api::chat::{requests_match, ExampleCache, ExampleResponse};
use rumba::ai::helpers::{ChatMessage, Role};
use rumba::api::chat::{
    code_to_prompt, example_messages, example_response, explain_chat_messages, parse_example_reply,
    ChatRequestMessage, Code, ExampleRequest, ExplainRequest, EXAMPLE_REFINE, EXAMPLE_SYSTEM, EXPLAIN_SYSTEM,
};

fn code(html: Option<&str>, css: Option<&str>, js: Option<&str>) -> Code {
    Code { html: html.map(String::from), css: css.map(String::from), js: js.map(String::from) }
}

#[test]
fn code_prompt_shows_each_language_block() {
    let c = code(Some("<p>"), None, Some("go()"));
    assert_eq!(code_to_prompt(c), "```html\n\n<p>\n\n```\n```css\n\n\n```\n```js\n\ngo()\n\n```");
}

#[test]
fn explain_chat_asks_about_the_selection() {
    let m = explain_chat_messages(ExplainRequest { code: "let a;".into(), selection: "a".into() });
    assert_eq!(m.len(), 2);
    assert_eq!(m[0].content.as_deref(), Some(EXPLAIN_SYSTEM));
    assert_eq!(
        m[1].content.as_deref(),
        Some("Given the following code: ```let a;```. Can you explain the following part: a")
    );
}

#[test]
fn example_conversations_by_case() {
    let fresh = example_messages(ExampleRequest { prompt: "a button".into(), code: None, context: None });
    assert_eq!(fresh.len(), 2);
    assert_eq!(fresh[0].content.as_deref(), Some(EXAMPLE_SYSTEM));
    assert_eq!(fresh[1].content.as_deref(), Some("Give me a button"));

    let with_code = example_messages(ExampleRequest {
        prompt: "make it red".into(),
        code: Some(code(None, None, None)),
        context: None,
    });
    assert_eq!(with_code.len(), 3);
    assert_eq!(with_code[1].content.as_deref(), Some(EXAMPLE_REFINE));
    assert!(with_code[2].content.as_deref().unwrap().starts_with("Given the following code ```html"));
    assert!(with_code[2].content.as_deref().unwrap().ends_with(". Can you make it red"));

    let context = vec![ChatRequestMessage { role: Role::User, content: "hi".into() }];
    let continued = example_messages(ExampleRequest { prompt: "add a title".into(), code: None, context: Some(context) });
    assert_eq!(continued.len(), 3);
    assert_eq!(continued[0].content.as_deref(), Some("hi"));
    assert_eq!(continued[1].content.as_deref(), Some(EXAMPLE_REFINE));
    assert_eq!(continued[2].content.as_deref(), Some("Can you add a title?"));

    let context = vec![ChatRequestMessage { role: Role::Assistant, content: "ok".into() }];
    let modified = example_messages(ExampleRequest {
        prompt: "fix it".into(),
        code: Some(code(Some("x"), None, None)),
        context: Some(context),
    });
    assert!(modified[2].content.as_deref().unwrap().starts_with("I've modified the code to be ```html"));
}

#[test]
fn reply_blocks_are_read_by_language() {
    let reply = "Here:\n```html\n<p>hi</p>\n```\ntext\n```css\np { color: red; }\n```\n```js\nalert(1)\n```";
    let c = parse_example_reply(reply);
    assert_eq!(c.html.as_deref(), Some("<p>hi</p>"));
    assert_eq!(c.css.as_deref(), Some("p { color: red; }"));
    assert_eq!(c.js.as_deref(), Some("alert(1)"));
    let none = parse_example_reply("no code at all");
    assert!(none.html.is_none() && none.css.is_none() && none.js.is_none());
}

#[test]
fn a_later_block_replaces_an_earlier_one() {
    let c = parse_example_reply("```js\nfirst\n``` ```js\nsecond\n```");
    assert_eq!(c.js.as_deref(), Some("second"));
}

#[test]
fn example_response_keeps_the_reply() {
    let r = example_response(vec![ChatMessage::new(Role::User, "q".into())], Role::Assistant, "```css\na{}\n```".into());
    assert_eq!(r.code.css.as_deref(), Some("a{}"));
    let ctx = r.context.unwrap();
    assert_eq!(ctx.len(), 2);
    assert_eq!(ctx[1].role, Role::Assistant);
}

#[test]
fn earlier_messages_compare_by_role_and_text() {
    let a = ChatRequestMessage { role: Role::User, content: "x".into() };
    let b = ChatRequestMessage { role: Role::User, content: "x".into() };
    let c = ChatRequestMessage { role: Role::Assistant, content: "x".into() };
    let f = ChatRequestMessage { role: Role::Function, content: "x".into() };
    let f2 = ChatRequestMessage { role: Role::Function, content: "x".into() };
    assert!(a == b);
    assert!(a != c);
    assert!(f != f2);
}

#[test]
fn shown_code_reads_back_from_a_reply_that_repeats_it() {
    let shown = code_to_prompt(code(Some("  <p>hi</p> "), None, Some("go();\n")));
    let back = parse_example_reply(&shown);
    assert_eq!(back.html.as_deref(), Some("<p>hi</p>"));
    assert_eq!(back.css.as_deref(), Some(""));
    assert_eq!(back.js.as_deref(), Some("go();"));
}

fn example_request(prompt: &str, context: Option<Vec<ChatRequestMessage>>) -> ExampleRequest {
    ExampleRequest { prompt: prompt.into(), code: None, context }
}

fn example_answer(js: &str) -> ExampleResponse {
    ExampleResponse { code: code(None, None, Some(js)), context: None }
}

#[test]
fn the_example_cache_reads_back_what_was_cached() {
    let mut cache = ExampleCache::new();
    assert!(cache.get(&example_request("a button", None)).is_none());
    cache.insert(example_request("a button", None), example_answer("one()"));
    cache.insert(example_request("a list", None), example_answer("two()"));
    assert_eq!(cache.get(&example_request("a button", None)).unwrap().code.js.as_deref(), Some("one()"));
    cache.insert(example_request("a button", None), example_answer("three()"));
    assert_eq!(cache.get(&example_request("a button", None)).unwrap().code.js.as_deref(), Some("three()"));
    assert_eq!(cache.get(&example_request("a list", None)).unwrap().code.js.as_deref(), Some("two()"));
    assert!(cache.get(&example_request("a table", None)).is_none());
}

#[test]
fn requests_with_other_roles_never_match() {
    let user = vec![ChatRequestMessage { role: Role::User, content: "hi".into() }];
    let function = vec![ChatRequestMessage { role: Role::Function, content: "hi".into() }];
    assert!(requests_match(&example_request("p", Some(user.clone())), &example_request("p", Some(user))));
    assert!(!requests_match(&example_request("p", Some(function.clone())), &example_request("p", Some(function.clone()))));
    let mut cache = ExampleCache::new();
    cache.insert(example_request("p", Some(function.clone())), example_answer("x"));
    assert!(cache.get(&example_request("p", Some(function))).is_none());
    assert!(!requests_match(&example_request("p", None), &example_request("p", Some(vec![]))));
}
