//! The AI Help test runner's files: where each test's results are written,
//! the conversation of a test, and the Markdown report of a result.

use vstd::prelude::*;

use crate::ai::help::RefDoc;
use crate::ai::helpers::{role_name, ChatMessage, ChatMessageView, Role};
use crate::text::{join, push_char, push_str, seq_join, to_owned_string, views};

verus! {

/// The decimal digits of a number.
pub open spec fn decimal(n: nat) -> Seq<char>
    decreases n,
{
    if n < 10 {
        seq![(0x30 + n) as char]
    } else {
        decimal(n / 10).push((0x30 + n % 10) as char)
    }
}

/// The decimal digits of a number, padded with zeros on the left to at least
/// `width` digits.
pub open spec fn zero_padded(n: nat, width: nat) -> Seq<char> {
    let d = decimal(n);
    if d.len() >= width {
        d
    } else {
        Seq::new((width - d.len()) as nat, |i: int| '0') + d
    }
}

fn digit(d: usize) -> (res: char)
    requires
        d < 10,
    ensures
        res == (0x30 + d) as char,
{
    let v = 0x30u8 + (d as u8);
    v as char
}

/// The decimal digits of a number.
pub fn decimal_text(n: usize) -> (res: String)
    ensures
        res@ == decimal(n as nat),
    decreases n,
{
    if n < 10 {
        let mut s = String::new();
        push_char(&mut s, digit(n));
        proof { assert(s@ =~= seq![(0x30 + n) as char]); }
        s
    } else {
        let mut s = decimal_text(n / 10);
        push_char(&mut s, digit(n % 10));
        s
    }
}

/// The decimal digits of a number, padded with zeros to `width` digits.
pub fn zero_padded_text(n: usize, width: usize) -> (res: String)
    ensures
        res@ == zero_padded(n as nat, width as nat),
{
    let d = decimal_text(n);
    let len = crate::text::chars_of(d.as_str()).len();
    if len >= width {
        return d;
    }
    let mut s = String::new();
    let mut k: usize = 0;
    while k < width - len
        invariant
            len < width,
            k <= width - len,
            s@ == Seq::new(k as nat, |i: int| '0'),
        decreases width - len - k,
    {
        push_char(&mut s, '0');
        proof { assert(s@ =~= Seq::new((k + 1) as nat, |i: int| '0')); }
        k = k + 1;
    }
    push_str(&mut s, d.as_str());
    s
}

/// A path below a directory: the name alone below an empty path, no second
/// separator after a trailing one.
pub open spec fn path_join(dir: Seq<char>, name: Seq<char>) -> Seq<char> {
    if dir.len() == 0 {
        name
    } else if dir.last() == '/' {
        dir + name
    } else {
        dir + "/"@ + name
    }
}

fn join_path(dir: &str, name: &str) -> (res: String)
    ensures
        res@ == path_join(dir@, name@),
{
    let cs = crate::text::chars_of(dir);
    let n = cs.len();
    if n == 0 {
        return to_owned_string(name);
    }
    let mut s = to_owned_string(dir);
    if cs[n - 1] != '/' {
        push_str(&mut s, "/");
    }
    push_str(&mut s, name);
    proof { reveal_strlit("/"); }
    s
}

/// The file of the `i`-th test's result, with an extension: the number
/// padded to two digits.
pub open spec fn result_file(out: Seq<char>, i: nat, extension: Seq<char>) -> Seq<char> {
    path_join(out, zero_padded(i, 2) + extension)
}

/// The JSON file of the `i`-th test's result.
pub fn json_path(out: &str, i: usize) -> (res: String)
    ensures
        res@ == result_file(out@, i as nat, ".json"@),
{
    let mut name = zero_padded_text(i, 2);
    push_str(&mut name, ".json");
    join_path(out, name.as_str())
}

/// The Markdown file of the `i`-th test's result.
pub fn md_path(out: &str, i: usize) -> (res: String)
    ensures
        res@ == result_file(out@, i as nat, ".md"@),
{
    let mut name = zero_padded_text(i, 2);
    push_str(&mut name, ".md");
    join_path(out, name.as_str())
}

/// The conversation of a test: its prompts, as user messages.
pub fn prompt_messages(prompts: Vec<String>) -> (res: Vec<ChatMessage>)
    ensures
        res@.len() == prompts@.len(),
        forall|k: int| 0 <= k < res@.len() ==> (#[trigger] res@[k]).role == Role::User
            && res@[k].content == Some(prompts@[k]) && res@[k].name is None,
{
    let ghost ps = prompts@;
    let mut prompts = prompts;
    let mut res: Vec<ChatMessage> = Vec::new();
    let ghost mut done: int = 0;
    proof { assert(ps.skip(0) =~= ps); }
    while prompts.len() > 0
        invariant
            0 <= done <= ps.len(),
            prompts@ == ps.skip(done),
            res@.len() == done,
            forall|k: int| 0 <= k < res@.len() ==> (#[trigger] res@[k]).role == Role::User
                && res@[k].content == Some(ps[k]) && res@[k].name is None,
        decreases prompts@.len(),
    {
        let p = prompts.remove(0);
        proof {
            assert(p == ps[done]);
            assert(prompts@ =~= ps.skip(done + 1));
        }
        res.push(ChatMessage { role: Role::User, content: Some(p), name: None });
        proof { done = done + 1; }
    }
    res
}

/// The separator of the parts of a Markdown report.
pub const MD_DELIM: &'static str = "\n---\n---\n";

/// A message in a report: its role and a colon, the separator, and its text.
pub open spec fn message_md(m: ChatMessageView) -> Seq<char> {
    role_name(m.role) + ":"@ + MD_DELIM@ + match m.content {
        Some(c) => c,
        None => Seq::empty(),
    }
}

/// The links to the documents of a result, one a line.
pub open spec fn refs_md(refs: Seq<RefDoc>) -> Seq<char> {
    seq_join(refs.map_values(|r: RefDoc| "["@ + r.title@ + "]("@ + r.url@ + ")"@), "\n"@)
}

/// The Markdown report of a test's result: the messages sent, the answer
/// (or a note that there was none), and the links to the documents used.
pub open spec fn storage_md(messages: Seq<ChatMessageView>, response: Option<ChatMessageView>, refs: Seq<RefDoc>) -> Seq<char> {
    let answer = match response {
        Some(r) => message_md(r),
        None => "**no response**"@,
    };
    seq_join(messages.map_values(|m: ChatMessageView| message_md(m)).push(answer).push(refs_md(refs)), MD_DELIM@)
}

fn message_text(m: &ChatMessage) -> (res: String)
    ensures
        res@ == message_md(m@),
{
    let mut s = to_owned_string(m.role.as_str());
    push_str(&mut s, ":");
    push_str(&mut s, MD_DELIM);
    match &m.content {
        Some(c) => push_str(&mut s, c.as_str()),
        None => {},
    }
    proof {
        if m.content is None {
            assert(s@ =~= message_md(m@));
        }
    }
    s
}

/// The Markdown report of a test's result.
pub fn storage_markdown(messages: &Vec<ChatMessage>, response: &Option<ChatMessage>, refs: &Vec<RefDoc>) -> (res: String)
    ensures
        res@ == storage_md(crate::ai::helpers::messages_view(messages@), match response {
            Some(r) => Some(r@),
            None => None,
        }, refs@),
{
    let ghost mv = crate::ai::helpers::messages_view(messages@);
    let mut links: Vec<String> = Vec::new();
    let mut i: usize = 0;
    while i < refs.len()
        invariant
            i <= refs@.len(),
            views(links@) == refs@.take(i as int).map_values(|r: RefDoc| "["@ + r.title@ + "]("@ + r.url@ + ")"@),
        decreases refs@.len() - i,
    {
        let mut l = to_owned_string("[");
        push_str(&mut l, refs[i].title.as_str());
        push_str(&mut l, "](");
        push_str(&mut l, refs[i].url.as_str());
        push_str(&mut l, ")");
        let ghost before = views(links@);
        links.push(l);
        proof {
            assert(views(links@) =~= before.push(l@));
            assert(refs@.take(i + 1).map_values(|r: RefDoc| "["@ + r.title@ + "]("@ + r.url@ + ")"@)
                =~= refs@.take(i as int).map_values(|r: RefDoc| "["@ + r.title@ + "]("@ + r.url@ + ")"@).push(l@));
        }
        i = i + 1;
    }
    proof { assert(refs@.take(refs@.len() as int) =~= refs@); }
    let docs = join(&links, "\n");
    let mut parts: Vec<String> = Vec::new();
    let mut j: usize = 0;
    while j < messages.len()
        invariant
            j <= messages@.len(),
            mv == crate::ai::helpers::messages_view(messages@),
            views(parts@) == mv.take(j as int).map_values(|m: ChatMessageView| message_md(m)),
        decreases messages@.len() - j,
    {
        let t = message_text(&messages[j]);
        let ghost before = views(parts@);
        parts.push(t);
        proof {
            assert(views(parts@) =~= before.push(t@));
            assert(mv.take(j + 1).map_values(|m: ChatMessageView| message_md(m))
                =~= mv.take(j as int).map_values(|m: ChatMessageView| message_md(m)).push(t@));
        }
        j = j + 1;
    }
    proof { assert(mv.take(mv.len() as int) =~= mv); }
    let answer = match response {
        Some(r) => message_text(r),
        None => to_owned_string("**no response**"),
    };
    let ghost before = views(parts@);
    parts.push(answer);
    parts.push(docs);
    proof {
        assert(views(parts@) =~= before.push(answer@).push(docs@));
    }
    join(&parts, MD_DELIM)
}

/// A test's stored result: the request sent and the answer, if any.
pub struct Storage {
    pub req: crate::ai::help::AIHelpRequest,
    pub res: Option<ChatMessage>,
}

impl Storage {
    /// The Markdown report of the result.
    pub fn to_md(&self) -> (res: String)
        ensures
            res@ == storage_md(crate::ai::helpers::messages_view(self.req.messages@), match self.res {
                Some(r) => Some(r@),
                None => None,
            }, self.req.refs@),
    {
        storage_markdown(&self.req.messages, &self.res, &self.req.refs)
    }
}

} // verus!
