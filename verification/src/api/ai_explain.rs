//! The decisions of the "explain" endpoint: which requests are answered, and
//! the events that start an explanation (from the cache or freshly generated).

use vstd::prelude::*;

use crate::ai::explain::{
    explain_cache_key, hmac_sha256_tag, is_substring, sha256_digest, signed_message,
    verify_explain_request, ExplainRequest,
};
use crate::api::common::GeneratedChunk;
use crate::api::error::ApiError;

verus! {

/// The first event of an explanation: whether it comes from the cache, and
/// the hash of the explained text.
#[derive(Debug, Clone)]
pub struct ExplainInitialData {
    pub cached: bool,
    pub hash: Vec<u8>,
}

/// The first event of an explanation.
#[derive(Debug, Clone)]
pub struct ExplainInitial {
    pub initial: ExplainInitialData,
}

impl ExplainInitial {
    /// The first event, for a cached or a fresh explanation of the text with
    /// this hash.
    pub fn new(cached: bool, hash: Vec<u8>) -> (res: ExplainInitial)
        ensures
            res.initial.cached == cached,
            res.initial.hash@ == hash@,
    {
        ExplainInitial { initial: ExplainInitialData { cached, hash } }
    }
}

/// The text of an explain request whose explanation is cached and hashed:
/// the highlighted part, or the whole sample.
pub open spec fn explained_text(req: ExplainRequest) -> Seq<char> {
    match req.highlighted {
        Some(h) => h@,
        None => req.sample@,
    }
}

/// Whether an explain request passes the checks of `verify_explain_request`.
pub open spec fn explain_request_valid(req: ExplainRequest, sign_key: Option<Seq<u8>>) -> bool {
    &&& !(req.highlighted matches Some(h) && !is_substring(h@, req.sample@))
    &&& sign_key is Some
    &&& req.signature@ == hmac_sha256_tag(sign_key->0, signed_message(req))
}

/// The first step of an explanation: a request that fails its checks is
/// unauthorized; otherwise the hash under which its explanation is cached.
pub fn explain_start(req: &ExplainRequest, sign_key: Option<&[u8]>) -> (res: Result<Vec<u8>, ApiError>)
    ensures
        explain_request_valid(*req, match sign_key { Some(k) => Some(k@), None => None })
            ==> (res matches Ok(h) && h@ == sha256_digest(vstd::utf8::encode_utf8(explained_text(*req)))),
        !explain_request_valid(*req, match sign_key { Some(k) => Some(k@), None => None })
            ==> res matches Err(ApiError::Unauthorized),
{
    match verify_explain_request(req, sign_key) {
        Ok(()) => Ok(explain_cache_key(req)),
        Err(_) => Err(ApiError::Unauthorized),
    }
}

/// The whole answer when an explanation is cached: the first event, marked
/// cached, then the explanation as one chunk.
pub fn explain_from_cache(hash: Vec<u8>, explanation: &str) -> (res: (ExplainInitial, GeneratedChunk))
    ensures
        res.0.initial.cached,
        res.0.initial.hash@ == hash@,
        res.1.id == 1,
        res.1.choices@.len() == 1,
        res.1.choices@[0].delta.content@ == explanation@,
        res.1.choices@[0].finish_reason is None,
{
    (ExplainInitial::new(true, hash), GeneratedChunk::from(explanation))
}

} // verus!
