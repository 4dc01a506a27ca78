//! Documents found by the embedding search, and how their titles are told
//! apart when several share one.

use itertools::Itertools;
use vstd::prelude::*;

use crate::text::{contains_string, push_str, views};

verus! {

/// A document (or a section of one) related to the user's question.
#[derive(Debug, Clone)]
pub struct RelatedDoc {
    pub url: String,
    pub title: String,
    pub title_parent: Option<String>,
    pub content: String,
}

/// The titles of the documents.
pub open spec fn titles(docs: Seq<RelatedDoc>) -> Seq<Seq<char>> {
    docs.map_values(|d: RelatedDoc| d.title@)
}

/// Returns the strings that occur more than once in `items`, each once
/// (`Itertools::duplicates`).
#[verifier::external_body]
fn duplicates(items: Vec<String>) -> (res: Vec<String>)
    ensures
        forall|t: Seq<char>| views(res@).contains(t) <==> views(items@).to_multiset().count(t) >= 2,
        views(res@).no_duplicates(),
{
    items.into_iter().duplicates().collect()
}

/// The title under which a document is shown: where another document of the
/// list has the same title and the document has a parent, the parent's
/// title follows in parentheses.
pub open spec fn shown_title(d: RelatedDoc, all_titles: Seq<Seq<char>>) -> Seq<char> {
    if all_titles.to_multiset().count(d.title@) >= 2 && d.title_parent is Some {
        d.title@ + " ("@ + d.title_parent->0@ + ")"@
    } else {
        d.title@
    }
}

/// Tells documents with equal titles apart by the titles of their parents.
pub fn disambiguate_titles(docs: Vec<RelatedDoc>) -> (res: Vec<RelatedDoc>)
    ensures
        res@.len() == docs@.len(),
        forall|i: int| 0 <= i < docs@.len() ==> {
            &&& #[trigger] res@[i].url == docs@[i].url
            &&& res@[i].content == docs@[i].content
            &&& res@[i].title_parent == docs@[i].title_parent
            &&& res@[i].title@ == shown_title(docs@[i], titles(docs@))
        },
{
    let ghost all = titles(docs@);
    let mut title_list: Vec<String> = Vec::new();
    let mut j: usize = 0;
    while j < docs.len()
        invariant
            j <= docs.len(),
            all == titles(docs@),
            views(title_list@) == all.take(j as int),
        decreases docs.len() - j,
    {
        let ghost old_list = title_list@;
        let t = docs[j].title.clone();
        proof { assert(t@ == all[j as int]); }
        title_list.push(t);
        proof {
            assert(views(title_list@) =~= views(title_list@).drop_last().push(t@));
            assert(title_list@.drop_last() == old_list);
            assert(all.take(j + 1) =~= all.take(j as int).push(all[j as int]));
        }
        j = j + 1;
    }
    proof { assert(all.take(docs.len() as int) =~= all); }
    let dups = duplicates(title_list);
    let ghost orig = docs@;
    let mut rest = docs;
    let mut res: Vec<RelatedDoc> = Vec::new();
    let n = rest.len();
    let mut i: usize = 0;
    while rest.len() > 0
        invariant
            rest@.len() + i == n,
            n == orig.len(),
            all == titles(orig),
            rest@ == orig.skip(i as int),
            res@.len() == i,
            forall|t: Seq<char>| views(dups@).contains(t) <==> all.to_multiset().count(t) >= 2,
            forall|k: int| 0 <= k < i ==> {
                &&& #[trigger] res@[k].url == orig[k].url
                &&& res@[k].content == orig[k].content
                &&& res@[k].title_parent == orig[k].title_parent
                &&& res@[k].title@ == shown_title(orig[k], all)
            },
        decreases rest.len(),
    {
        let mut doc = rest.remove(0);
        proof { assert(doc == orig[i as int]); }
        let is_dup = contains_string(&dups, doc.title.as_str());
        match &doc.title_parent {
            Some(parent) => {
                if is_dup {
                    let mut t = doc.title.clone();
                    push_str(&mut t, " (");
                    push_str(&mut t, parent.as_str());
                    push_str(&mut t, ")");
                    doc.title = t;
                }
            },
            None => {},
        }
        res.push(doc);
        proof { assert(rest@ =~= orig.skip(i + 1)); }
        i = i + 1;
    }
    res
}

} // verus!
