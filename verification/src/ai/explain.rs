//! AI Explain: checking that a request carries a valid signature of its code
//! sample, hashing the explained part, and building the prompts.

use hmac::{Hmac, Mac};
use sha2::{Digest, Sha256};
use vstd::prelude::*;

use crate::ai::constants::MODEL;
use crate::ai::helpers::{ChatMessage, Role};
use crate::text::{chars_of, push_str, to_owned_string};
use vstd::string::StringSliceAdditionalSpecFns;
use vstd::utf8::encode_utf8;

verus! {

/// The system message of AI Explain.
pub const EXPLAIN_SYSTEM_MESSAGE: &'static str = "You are a very enthusiastic MDN AI who loves to help people! Given the following code example from MDN, answer the user's question outputted in markdown format.";

/// A request to explain a code example (or a highlighted part of it).
#[derive(Debug, Clone)]
pub struct ExplainRequest {
    pub language: Option<String>,
    pub sample: String,
    pub signature: Vec<u8>,
    pub highlighted: Option<String>,
}

/// Why an explain request is refused.
#[derive(Debug, Clone, Copy, PartialEq, Eq, Structural)]
pub enum ExplainVerifyError {
    /// The highlighted part is not in the sample, or no signing key is configured.
    Artificial,
    /// The signature does not match the sample.
    InvalidSignature,
}

/// The HMAC-SHA256 tag of `message` under `key`.
pub uninterp spec fn hmac_sha256_tag(key: Seq<u8>, message: Seq<u8>) -> Seq<u8>;

/// Checks `tag` against the HMAC-SHA256 of `message` under `key`
/// (`hmac::Hmac::<Sha256>::new_from_slice`, `Mac::update`, `Mac::verify_slice`):
/// true exactly where the tag is the whole MAC.
#[verifier::external_body]
fn hmac_sha256_verify(key: &[u8], message: &[u8], tag: &[u8]) -> (res: bool)
    ensures
        res == (tag@ == hmac_sha256_tag(key@, message@)),
{
    match Hmac::<Sha256>::new_from_slice(key) {
        Ok(mut mac) => {
            mac.update(message);
            mac.verify_slice(tag).is_ok()
        },
        Err(_) => false,
    }
}

/// The SHA-256 digest of `data`.
pub uninterp spec fn sha256_digest(data: Seq<u8>) -> Seq<u8>;

/// Hashes `data` with SHA-256 (`sha2::Sha256`); the digest is named by `sha256_digest`.
#[verifier::external_body]
fn sha256(data: &[u8]) -> (res: Vec<u8>)
    ensures
        res@ == sha256_digest(data@),
{
    let mut hasher = Sha256::new();
    hasher.update(data);
    hasher.finalize().to_vec()
}

/// Whether `needle` occurs in `hay` as a contiguous part.
pub open spec fn is_substring(needle: Seq<char>, hay: Seq<char>) -> bool {
    exists|i: int| 0 <= i && i + needle.len() <= hay.len() && #[trigger] hay.subrange(i, i + needle.len()) == needle
}

/// Whether `needle` occurs in `hay` (std `str::contains` with a string pattern).
pub fn contains_str(hay: &str, needle: &str) -> (res: bool)
    ensures
        res == is_substring(needle@, hay@),
{
    let h = chars_of(hay);
    let nd = chars_of(needle);
    let hl = h.len();
    let nl = nd.len();
    if nl > hl {
        proof {
            assert forall|i: int| 0 <= i && i + nd@.len() <= h@.len() implies #[trigger] h@.subrange(i, i + nd@.len()) != nd@ by {}
        }
        return false;
    }
    let mut i: usize = 0;
    while i <= hl - nl
        invariant
            h@ == hay@,
            nd@ == needle@,
            hl == h@.len(),
            nl == nd@.len(),
            nl <= hl,
            i <= hl - nl + 1,
            forall|k: int| 0 <= k < i ==> #[trigger] h@.subrange(k, k + nl) != nd@,
        decreases hl - nl + 1 - i,
    {
        let mut j: usize = 0;
        let mut same = true;
        while j < nl
            invariant
                j <= nl,
                i + nl <= hl,
                h@ == hay@,
                nd@ == needle@,
                hl == h@.len(),
                nl == nd@.len(),
                same == (forall|m: int| 0 <= m < j ==> h@[i + m] == nd@[m]),
            decreases nl - j,
        {
            if h[i + j] != nd[j] {
                same = false;
            }
            j = j + 1;
        }
        if same {
            proof { assert(h@.subrange(i as int, i + nl) =~= nd@); }
            return true;
        }
        proof {
            let k = choose|m: int| 0 <= m < nl && h@[i + m] != nd@[m];
            assert(h@.subrange(i as int, i + nl)[k] != nd@[k]);
        }
        i = i + 1;
    }
    proof {
        assert forall|k: int| 0 <= k && k + needle@.len() <= hay@.len() implies #[trigger] hay@.subrange(k, k + needle@.len()) != needle@ by {
            assert(k < i);
        }
    }
    false
}

fn bytes_of(s: &str) -> (res: Vec<u8>)
    ensures
        res@ == encode_utf8(s@),
{
    let b = s.as_bytes();
    let mut res: Vec<u8> = Vec::new();
    let mut i: usize = 0;
    while i < b.len()
        invariant
            i <= b@.len(),
            b@ == s.spec_bytes(),
            res@ == b@.take(i as int),
        decreases b@.len() - i,
    {
        res.push(b[i]);
        proof { assert(res@ =~= b@.take(i + 1)); }
        i = i + 1;
    }
    proof { assert(b@.take(b@.len() as int) =~= b@); }
    res
}

/// The text of an optional string, empty where there is none.
pub open spec fn text_or_empty(o: Option<String>) -> Seq<char> {
    match o {
        Some(s) => s@,
        None => Seq::empty(),
    }
}

/// The bytes that a sample's signature is computed over: the language, then the sample.
pub open spec fn signed_message(req: ExplainRequest) -> Seq<u8> {
    encode_utf8(text_or_empty(req.language)) + encode_utf8(req.sample@)
}

/// Checks an explain request: the highlighted part (if any) must be a part of
/// the sample, a signing key must be configured, and the signature must be
/// the HMAC-SHA256 of the language and the sample under that key.
pub fn verify_explain_request(req: &ExplainRequest, sign_key: Option<&[u8]>) -> (res: Result<(), ExplainVerifyError>)
    ensures
        res == (if req.highlighted matches Some(h) && !is_substring(h@, req.sample@) {
            Err::<(), ExplainVerifyError>(ExplainVerifyError::Artificial)
        } else if sign_key is None {
            Err(ExplainVerifyError::Artificial)
        } else if req.signature@ == hmac_sha256_tag(sign_key->0@, signed_message(*req)) {
            Ok(())
        } else {
            Err(ExplainVerifyError::InvalidSignature)
        }),
{
    if let Some(part) = &req.highlighted {
        if !contains_str(req.sample.as_str(), part.as_str()) {
            return Err(ExplainVerifyError::Artificial);
        }
    }
    let key = match sign_key {
        Some(k) => k,
        None => return Err(ExplainVerifyError::Artificial),
    };
    let mut message = match &req.language {
        Some(l) => bytes_of(l.as_str()),
        None => Vec::new(),
    };
    proof {
        if req.language is None {
            assert(encode_utf8(Seq::<char>::empty()) =~= Seq::<u8>::empty());
        }
    }
    let mut sample_bytes = bytes_of(req.sample.as_str());
    message.append(&mut sample_bytes);
    if hmac_sha256_verify(key, message.as_slice(), req.signature.as_slice()) {
        Ok(())
    } else {
        Err(ExplainVerifyError::InvalidSignature)
    }
}

/// The SHA-256 digest of the UTF-8 bytes of a text.
pub fn hash_highlighted(to_be_hashed: &str) -> (res: Vec<u8>)
    ensures
        res@ == sha256_digest(encode_utf8(to_be_hashed@)),
{
    let data = bytes_of(to_be_hashed);
    sha256(data.as_slice())
}

/// The text that identifies a cached explanation: the highlighted part, or
/// the whole sample where nothing is highlighted.
pub fn explain_cache_key(req: &ExplainRequest) -> (res: Vec<u8>)
    ensures
        res@ == sha256_digest(encode_utf8(match req.highlighted {
            Some(h) => h@,
            None => req.sample@,
        })),
{
    match &req.highlighted {
        Some(h) => hash_highlighted(h.as_str()),
        None => hash_highlighted(req.sample.as_str()),
    }
}

/// The user's question about the example.
pub open spec fn explain_user_prompt(language: Seq<char>, highlighted: Option<Seq<char>>) -> Seq<char> {
    match highlighted {
        Some(h) => "Explain the following part: ```"@ + language + "\n"@ + h + "\n```"@,
        None => "Explain the example in detail."@,
    }
}

/// The message that gives the example as context.
pub open spec fn explain_context_prompt(language: Seq<char>, sample: Seq<char>) -> Seq<char> {
    "Given the following code example is the MDN code example:```"@ + language + "\n"@ + sample + "\n```"@
}

/// The prompts of an explain request and the text that goes to moderation.
pub struct ExplainPrompts {
    pub user_prompt: String,
    pub context_prompt: String,
    pub moderation_input: String,
}

/// Builds the prompts of an explain request.
pub fn explain_prompts(req: &ExplainRequest) -> (res: ExplainPrompts)
    ensures
        res.user_prompt@ == explain_user_prompt(text_or_empty(req.language), match req.highlighted {
            Some(h) => Some(h@),
            None => None,
        }),
        res.context_prompt@ == explain_context_prompt(text_or_empty(req.language), req.sample@),
        res.moderation_input@ == res.user_prompt@ + "\n"@ + res.context_prompt@,
{
    let language: String = match &req.language {
        Some(l) => l.clone(),
        None => String::new(),
    };
    let user_prompt = match &req.highlighted {
        Some(h) => {
            let mut p = to_owned_string("Explain the following part: ```");
            push_str(&mut p, language.as_str());
            push_str(&mut p, "\n");
            push_str(&mut p, h.as_str());
            push_str(&mut p, "\n```");
            p
        },
        None => to_owned_string("Explain the example in detail."),
    };
    let mut context_prompt = to_owned_string("Given the following code example is the MDN code example:```");
    push_str(&mut context_prompt, language.as_str());
    push_str(&mut context_prompt, "\n");
    push_str(&mut context_prompt, req.sample.as_str());
    push_str(&mut context_prompt, "\n```");
    let mut moderation_input = user_prompt.clone();
    push_str(&mut moderation_input, "\n");
    push_str(&mut moderation_input, context_prompt.as_str());
    ExplainPrompts { user_prompt, context_prompt, moderation_input }
}

/// The model and messages of an explain request: the system message, the
/// example as context, then the question.
pub fn explain_messages(prompts: ExplainPrompts) -> (res: (&'static str, Vec<ChatMessage>))
    ensures
        res.0@ == MODEL@,
        res.1@.len() == 3,
        res.1@[0].role == Role::System,
        res.1@[0].content matches Some(t) && t@ == EXPLAIN_SYSTEM_MESSAGE@,
        res.1@[1].role == Role::User && res.1@[1].content == Some(prompts.context_prompt),
        res.1@[2].role == Role::User && res.1@[2].content == Some(prompts.user_prompt),
{
    let mut messages: Vec<ChatMessage> = Vec::new();
    messages.push(ChatMessage::new(Role::System, to_owned_string(EXPLAIN_SYSTEM_MESSAGE)));
    messages.push(ChatMessage::new(Role::User, prompts.context_prompt));
    messages.push(ChatMessage::new(Role::User, prompts.user_prompt));
    (MODEL, messages)
}

/// Whether moderation flagged any of its results.
pub fn any_flagged(flagged: &Vec<bool>) -> (res: bool)
    ensures
        res == flagged@.contains(true),
{
    let mut i: usize = 0;
    while i < flagged.len()
        invariant
            i <= flagged.len(),
            forall|j: int| 0 <= j < i ==> !flagged@[j],
        decreases flagged.len() - i,
    {
        if flagged[i] {
            proof { assert(flagged@[i as int] == true); }
            return true;
        }
        i = i + 1;
    }
    false
}

} // verus!
