//! The older "ask" endpoint: MDN excerpts that fit into a fixed token budget.

use vstd::prelude::*;

use crate::ai::help::{count_r50k_tokens, r50k_token_count};
use crate::text::{join, push_str, seq_join, str_eq, to_owned_string, views};

verus! {

/// A document section found for an ask request.
#[derive(Debug, Clone)]
pub struct AskDoc {
    pub url: String,
    pub slug: String,
    pub title: String,
    pub content: String,
}

/// A document that an answer is based on.
#[derive(Debug, Clone)]
pub struct RefDoc {
    pub url: String,
    pub slug: String,
    pub title: String,
}

/// The token budget of the excerpts.
pub const ASK_CONTEXT_TOKENS: usize = 1500;

/// The longest prefix of the documents whose token counts, added to `used`,
/// stay below the budget.
pub open spec fn ask_kept(docs: Seq<AskDoc>, used: int) -> Seq<AskDoc>
    decreases docs.len(),
{
    if docs.len() == 0 {
        Seq::empty()
    } else {
        let t = r50k_token_count(docs[0].content@);
        if used + t >= ASK_CONTEXT_TOKENS {
            Seq::empty()
        } else {
            seq![docs[0]] + ask_kept(docs.drop_first(), used + t)
        }
    }
}

/// The excerpt made of one document.
pub open spec fn excerpt(d: AskDoc) -> Seq<char> {
    "Excerpt from MDN article \""@ + d.title@ + "\":\n"@ + d.content@
}

/// Whether some reference has the slug.
pub open spec fn has_ref_slug(refs: Seq<RefDoc>, slug: Seq<char>) -> bool {
    exists|i: int| 0 <= i < refs.len() && refs[i].slug@ == slug
}

/// One reference per distinct slug, from the first document with that slug,
/// in order of first appearance.
pub open spec fn ask_refs(docs: Seq<AskDoc>) -> Seq<RefDoc>
    decreases docs.len(),
{
    if docs.len() == 0 {
        Seq::empty()
    } else {
        let r = ask_refs(docs.drop_last());
        let d = docs.last();
        if has_ref_slug(r, d.slug@) {
            r
        } else {
            r.push(RefDoc { url: d.url, slug: d.slug, title: d.title })
        }
    }
}

/// The context of an ask request: the excerpts, separated by `---` lines, and
/// the documents they come from.
pub struct AskContext {
    pub context: String,
    pub refs: Vec<RefDoc>,
}

fn has_slug(refs: &Vec<RefDoc>, slug: &str) -> (res: bool)
    ensures
        res == has_ref_slug(refs@, slug@),
{
    let mut i: usize = 0;
    while i < refs.len()
        invariant
            i <= refs.len(),
            forall|j: int| 0 <= j < i ==> refs@[j].slug@ != slug@,
        decreases refs.len() - i,
    {
        if str_eq(refs[i].slug.as_str(), slug) {
            return true;
        }
        i = i + 1;
    }
    false
}

/// Builds the context of an ask request from the documents found, keeping
/// them while the running token count stays below the budget; there is no
/// context where not even the first document fits.
pub fn ask_context(related_docs: Vec<AskDoc>) -> (res: Option<AskContext>)
    ensures
        ask_kept(related_docs@, 0).len() == 0 ==> res is None,
        ask_kept(related_docs@, 0).len() > 0 ==> (res matches Some(c)
            && c.context@ == seq_join(ask_kept(related_docs@, 0).map_values(|d: AskDoc| excerpt(d)), "\n---\n"@)
            && c.refs@ == ask_refs(ask_kept(related_docs@, 0))),
{
    let ghost orig = related_docs@;
    let mut rest = related_docs;
    let mut kept: Vec<AskDoc> = Vec::new();
    let mut excerpts: Vec<String> = Vec::new();
    let mut refs: Vec<RefDoc> = Vec::new();
    let mut token_len: usize = 0;
    let n = rest.len();
    let mut i: usize = 0;
    proof { assert(orig.skip(0) =~= orig); }
    while rest.len() > 0
        invariant_except_break
            rest@.len() + i == n,
            n == orig.len(),
            rest@ == orig.skip(i as int),
            token_len < ASK_CONTEXT_TOKENS,
            kept@ + ask_kept(orig.skip(i as int), token_len as int) == ask_kept(orig, 0),
            views(excerpts@) == kept@.map_values(|d: AskDoc| excerpt(d)),
            refs@ == ask_refs(kept@),
        ensures
            kept@ == ask_kept(orig, 0),
            views(excerpts@) == kept@.map_values(|d: AskDoc| excerpt(d)),
            refs@ == ask_refs(kept@),
        decreases rest.len(),
    {
        let doc = rest.remove(0);
        proof {
            assert(doc == orig[i as int]);
            assert(orig.skip(i as int).drop_first() =~= orig.skip(i + 1));
            assert(orig.skip(i as int)[0] == doc);
        }
        let tokens = count_r50k_tokens(doc.content.as_str());
        if tokens >= ASK_CONTEXT_TOKENS - token_len {
            proof { assert(kept@ + Seq::<AskDoc>::empty() =~= kept@); }
            break;
        }
        token_len = token_len + tokens;
        let mut text = to_owned_string("Excerpt from MDN article \"");
        push_str(&mut text, doc.title.as_str());
        push_str(&mut text, "\":\n");
        push_str(&mut text, doc.content.as_str());
        let ghost before_ex = excerpts@;
        excerpts.push(text);
        if !has_slug(&refs, doc.slug.as_str()) {
            refs.push(RefDoc { url: doc.url.clone(), slug: doc.slug.clone(), title: doc.title.clone() });
        }
        let ghost before = kept@;
        kept.push(doc);
        proof {
            assert(kept@.drop_last() == before);
            assert(views(excerpts@) =~= views(before_ex).push(excerpt(orig[i as int])));
            assert(kept@.map_values(|d: AskDoc| excerpt(d)) =~= before.map_values(|d: AskDoc| excerpt(d)).push(excerpt(orig[i as int])));
            assert(kept@ + ask_kept(orig.skip(i + 1), token_len as int)
                =~= before + (seq![orig[i as int]] + ask_kept(orig.skip(i + 1), token_len as int)));
            assert(rest@ =~= orig.skip(i + 1));
        }
        i = i + 1;
    }
    if kept.len() == 0 {
        return None;
    }
    Some(AskContext { context: join(&excerpts, "\n---\n"), refs })
}


/// The tokens of some documents, together.
pub open spec fn doc_tokens(s: Seq<AskDoc>) -> int
    decreases s.len(),
{
    if s.len() == 0 {
        0
    } else {
        r50k_token_count(s[0].content@) + doc_tokens(s.drop_first())
    }
}

proof fn lemma_ask_kept_budget(docs: Seq<AskDoc>, used: int)
    requires
        0 <= used < ASK_CONTEXT_TOKENS,
    ensures
        ask_kept(docs, used).len() <= docs.len(),
        ask_kept(docs, used) == docs.take(ask_kept(docs, used).len() as int),
        used + doc_tokens(ask_kept(docs, used)) < ASK_CONTEXT_TOKENS,
        ask_kept(docs, used).len() < docs.len()
            ==> used + doc_tokens(docs.take(ask_kept(docs, used).len() + 1int)) >= ASK_CONTEXT_TOKENS,
    decreases docs.len(),
{
    if docs.len() > 0 {
        let t = r50k_token_count(docs[0].content@);
        let k = ask_kept(docs, used);
        if used + t >= ASK_CONTEXT_TOKENS {
            assert(k.len() == 0);
            assert(docs.take(0) =~= Seq::<AskDoc>::empty());
            let one = docs.take(1);
            assert(one[0] == docs[0]);
            assert(one.drop_first() =~= Seq::<AskDoc>::empty());
        } else {
            let rest = docs.drop_first();
            lemma_ask_kept_budget(rest, used + t);
            let kr = ask_kept(rest, used + t);
            assert(k == seq![docs[0]] + kr);
            assert(k.len() == kr.len() + 1);
            assert(k =~= docs.take(k.len() as int));
            assert(k[0] == docs[0]);
            assert(k.drop_first() =~= kr);
            if k.len() < docs.len() {
                let p = docs.take(k.len() + 1int);
                assert(p[0] == docs[0]);
                assert(p.drop_first() =~= rest.take(kr.len() + 1int));
            }
        }
    }
}

/// The context of an ask request fits the budget: the documents kept are
/// the first documents found, in order, their tokens together stay below
/// `ASK_CONTEXT_TOKENS`, and where a document is left out, keeping it too
/// would reach the budget.
pub proof fn lemma_ask_context_fits_budget(docs: Seq<AskDoc>)
    ensures
        ask_kept(docs, 0) == docs.take(ask_kept(docs, 0).len() as int),
        doc_tokens(ask_kept(docs, 0)) < ASK_CONTEXT_TOKENS,
        ask_kept(docs, 0).len() < docs.len()
            ==> doc_tokens(docs.take(ask_kept(docs, 0).len() + 1int)) >= ASK_CONTEXT_TOKENS,
{
    lemma_ask_kept_budget(docs, 0);
}

} // verus!
