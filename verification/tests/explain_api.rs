use hmac::{Hmac, Mac};
use rumba::ai::explain::ExplainRequest;
use rumba::api::ai_explain::{explain_from_cache, explain_start};
use rumba::api::error::ApiError;
use sha2::{Digest, Sha256};

fn signed(key: &[u8], language: &str, sample: &str, highlighted: Option<&str>) -> ExplainRequest {
    let mut mac = Hmac::<Sha256>::new_from_slice(key).unwrap();
    mac.update(language.as_bytes());
    mac.update(sample.as_bytes());
    ExplainRequest {
        language: Some(language.to_string()),
        sample: sample.to_string(),
        signature: mac.finalize().into_bytes().to_vec(),
        highlighted: highlighted.map(String::from),
    }
}

#[test]
fn a_signed_request_is_hashed_by_its_highlighted_part() {
    let key = b"secret";
    let req = signed(key, "js", "let a = 1;", Some("a = 1"));
    let hash = explain_start(&req, Some(key)).unwrap();
    assert_eq!(hash, Sha256::digest(b"a = 1").to_vec());
    let whole = signed(key, "js", "let a = 1;", None);
    assert_eq!(explain_start(&whole, Some(key)).unwrap(), Sha256::digest(b"let a = 1;").to_vec());
}

#[test]
fn bad_requests_are_unauthorized() {
    let key = b"secret";
    let mut req = signed(key, "js", "let a = 1;", None);
    req.signature[0] ^= 1;
    assert!(matches!(explain_start(&req, Some(key)), Err(ApiError::Unauthorized)));
    let outside = signed(key, "js", "let a = 1;", Some("b"));
    assert!(matches!(explain_start(&outside, Some(key)), Err(ApiError::Unauthorized)));
    let no_key = signed(key, "js", "x", None);
    assert!(matches!(explain_start(&no_key, None), Err(ApiError::Unauthorized)));
}

#[test]
fn cached_explanations_are_sent_whole() {
    let (initial, chunk) = explain_from_cache(vec![1, 2], "It adds.");
    assert!(initial.initial.cached);
    assert_eq!(initial.initial.hash, vec![1, 2]);
    assert_eq!(chunk.choices[0].delta.content, "It adds.");
}
