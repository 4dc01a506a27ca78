use rumba::api::play::{decrypt, decrypt_checked, encrypt, flag_issue, gist_code_text, GistFile, PlaygroundError};

const KEY: [u8; 32] = [7u8; 32];

#[test]
fn a_playground_id_reads_back_as_its_gist() {
    let id = encrypt(Some(&KEY), "abc123").unwrap();
    assert_ne!(id, "abc123");
    assert_eq!(decrypt(Some(&KEY), &id).unwrap(), "abc123");
    assert_eq!(decrypt_checked(Some(&KEY), &id), Some(Ok("abc123".to_string())));
    let other = encrypt(Some(&KEY), "abc123").unwrap();
    assert_ne!(id, other);
}

#[test]
fn bad_playground_ids() {
    assert_eq!(encrypt(None, "x"), Err(PlaygroundError::SettingsError));
    assert_eq!(decrypt(None, "x"), Err(PlaygroundError::SettingsError));
    assert_eq!(decrypt(Some(&KEY), "not base64!"), Err(PlaygroundError::DecodeError));
    assert_eq!(decrypt_checked(Some(&KEY), "AAAA"), None);
    assert_eq!(decrypt_checked(Some(&KEY), "not base64!"), Some(Err(PlaygroundError::DecodeError)));
    assert_eq!(decrypt_checked(None, "AAAA"), Some(Err(PlaygroundError::SettingsError)));
    let id = encrypt(Some(&KEY), "abc").unwrap();
    assert_eq!(decrypt(Some(&[8u8; 32]), &id), Err(PlaygroundError::CryptError));
}

#[test]
fn the_flag_issue_links_the_code() {
    let issue = flag_issue("https://developer.mozilla.org", "g1", "a+b/c=", Some("spam".into()));
    assert_eq!(issue.title, "flag-g1");
    assert_eq!(issue.body.as_deref(), Some("url: https://developer.mozilla.org/en-US/play?id=a%2Bb%2Fc%3D\nspam"));
    assert!(flag_issue("b", "g", "i", None).body.is_none());
}

#[test]
fn only_single_file_gists_have_code() {
    let one = vec![GistFile { name: "playground.json".into(), content: Some("{}".into()) }];
    assert_eq!(gist_code_text(&one).as_deref(), Some("{}"));
    let empty = vec![GistFile { name: "a".into(), content: None }];
    assert_eq!(gist_code_text(&empty).as_deref(), Some(""));
    assert!(gist_code_text(&vec![]).is_none());
}

#[test]
fn a_playground_id_text_is_the_ciphertext_and_nonce_in_base64() {
    assert_eq!(rumba::api::play::play_id_text(vec![1u8, 2], &vec![3u8]), "AQID");
}
