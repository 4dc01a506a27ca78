//! Model configurations of AI Help and how related documents become context.

use vstd::prelude::*;

use crate::ai::embeddings::RelatedDoc;
use crate::text::{join, seq_join, views};

verus! {

/// A model configuration of AI Help. The prompts that go with it are texts
/// that the deployment supplies.
#[derive(Debug, Clone, Copy)]
pub struct AIHelpConfig {
    pub name: &'static str,
    pub model: &'static str,
    pub full_doc: bool,
    pub token_limit: usize,
    pub context_limit: usize,
    pub max_completion_tokens: usize,
}

/// The configuration for users without a subscription.
pub fn ai_help_gpt3_5_full_doc_new_prompt() -> (res: AIHelpConfig)
    ensures
        res == ai_help_gpt3_5_config(),
        res.name@ == "20230901-full_doc-new_prompt"@,
        res.model@ == "gpt-3.5-turbo-0125"@,
        res.full_doc,
        res.token_limit == 16_384,
        res.context_limit == 12_000,
        res.max_completion_tokens == 2_048,
{
    AIHelpConfig {
        name: "20230901-full_doc-new_prompt",
        model: "gpt-3.5-turbo-0125",
        full_doc: true,
        token_limit: 16_384,
        context_limit: 12_000,
        max_completion_tokens: 2_048,
    }
}

/// The configuration for subscribers.
pub fn ai_help_gpt4_full_doc_new_prompt() -> (res: AIHelpConfig)
    ensures
        res == ai_help_gpt4_config(),
        res.name@ == "20240125-gpt4-full_doc-new_prompt"@,
        res.model@ == "gpt-4-0125-preview"@,
        res.full_doc,
        res.token_limit == 32_768,
        res.context_limit == 20_000,
        res.max_completion_tokens == 4_096,
{
    AIHelpConfig {
        name: "20240125-gpt4-full_doc-new_prompt",
        model: "gpt-4-0125-preview",
        full_doc: true,
        token_limit: 32_768,
        context_limit: 20_000,
        max_completion_tokens: 4_096,
    }
}

/// The subscribers' configuration, as a value.
pub open spec fn ai_help_gpt4_config() -> AIHelpConfig {
    AIHelpConfig {
        name: "20240125-gpt4-full_doc-new_prompt",
        model: "gpt-4-0125-preview",
        full_doc: true,
        token_limit: 32_768,
        context_limit: 20_000,
        max_completion_tokens: 4_096,
    }
}

/// The configuration of users without a subscription, as a value.
pub open spec fn ai_help_gpt3_5_config() -> AIHelpConfig {
    AIHelpConfig {
        name: "20230901-full_doc-new_prompt",
        model: "gpt-3.5-turbo-0125",
        full_doc: true,
        token_limit: 16_384,
        context_limit: 12_000,
        max_completion_tokens: 2_048,
    }
}

/// The chat model of the older endpoints.
pub const MODEL: &'static str = "gpt-3.5-turbo";

/// The embedding model of the document search.
pub const EMBEDDING_MODEL: &'static str = "text-embedding-3-small";

/// The version of the cached explanations; bumped whenever the explain prompt changes.
pub const AI_EXPLAIN_VERSION: i64 = 1;

/// Each content wrapped in `<article>` and `</article>`, as three parts.
pub open spec fn tagged_parts(contents: Seq<Seq<char>>) -> Seq<Seq<char>>
    decreases contents.len(),
{
    if contents.len() == 0 {
        Seq::empty()
    } else {
        tagged_parts(contents.drop_last()) + seq!["<article>"@, contents.last(), "</article>"@]
    }
}

/// The contents of the documents.
pub open spec fn doc_contents(docs: Seq<RelatedDoc>) -> Seq<Seq<char>> {
    docs.map_values(|d: RelatedDoc| d.content@)
}

/// The context text made of the documents: each content between `<article>`
/// and `</article>`, all parts on lines of their own.
pub open spec fn tagged_context(docs: Seq<RelatedDoc>) -> Seq<char> {
    seq_join(tagged_parts(doc_contents(docs)), "\n"@)
}

/// Joins the documents' contents, each wrapped in `<article>` tags, by newlines.
pub fn join_with_tags(related_docs: Vec<RelatedDoc>) -> (res: String)
    ensures
        res@ == tagged_context(related_docs@),
{
    let mut parts: Vec<String> = Vec::new();
    let ghost contents = doc_contents(related_docs@);
    let mut i: usize = 0;
    while i < related_docs.len()
        invariant
            i <= related_docs.len(),
            contents == doc_contents(related_docs@),
            views(parts@) == tagged_parts(contents.take(i as int)),
        decreases related_docs.len() - i,
    {
        parts.push("<article>".to_owned());
        parts.push(related_docs[i].content.clone());
        parts.push("</article>".to_owned());
        proof {
            assert(contents.take(i + 1).drop_last() =~= contents.take(i as int));
            assert(views(parts@) =~= tagged_parts(contents.take(i as int)) + seq!["<article>"@, contents[i as int], "</article>"@]);
        }
        i = i + 1;
    }
    proof { assert(contents.take(related_docs.len() as int) =~= contents); }
    join(&parts, "\n")
}

} // verus!
