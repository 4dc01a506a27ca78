//! The playground: the ids under which shared code is handed out (the
//! encrypted id of the gist that holds it), reading a gist's code, and the
//! issue filed when shared code is flagged.

use aes_gcm::aead::generic_array::GenericArray;
use aes_gcm::aead::rand_core::RngCore;
use aes_gcm::aead::{Aead, OsRng};
use aes_gcm::{Aes256Gcm, KeyInit, Nonce};
use base64::engine::general_purpose::STANDARD;
use base64::Engine;
use percent_encoding::{utf8_percent_encode, NON_ALPHANUMERIC};
use vstd::prelude::*;
use vstd::utf8::{decode_utf8, encode_utf8, valid_utf8};

use crate::text::{push_str, to_owned_string};

verus! {

/// Code shared from the playground.
#[derive(Debug, Clone)]
pub struct PlayCode {
    pub html: Option<String>,
    pub css: Option<String>,
    pub js: Option<String>,
    pub src: Option<String>,
}

/// The id under which shared code is handed out.
#[derive(Debug, Clone)]
pub struct PlaySaveResponse {
    pub id: String,
}

/// A request to flag shared code, with the reason.
#[derive(Debug, Clone)]
pub struct PlayFlagRequest {
    pub id: String,
    pub reason: Option<String>,
}

/// Why a playground id cannot be made or read.
#[derive(Debug, Clone, Copy, PartialEq, Eq, Structural)]
pub enum PlaygroundError {
    /// No encryption key is configured.
    SettingsError,
    /// The id is not base64.
    DecodeError,
    /// Encryption or decryption failed.
    CryptError,
    /// The decrypted id is not UTF-8 text.
    Utf8Error,
}

/// The length of the nonce appended to an encrypted gist id.
pub const NONCE_LEN: usize = 12;

/// The length of an encryption key.
pub const KEY_LEN: usize = 32;

/// The AES-256-GCM encryption of `plaintext` under `key` and `nonce`;
/// nothing where it fails.
pub uninterp spec fn aes_gcm_sealed(key: Seq<u8>, nonce: Seq<u8>, plaintext: Seq<u8>) -> Option<Seq<u8>>;

/// The AES-256-GCM decryption of `ciphertext` under `key` and `nonce`;
/// nothing where it fails (for one, where the ciphertext was not made with
/// that key and nonce).
pub uninterp spec fn aes_gcm_opened(key: Seq<u8>, nonce: Seq<u8>, ciphertext: Seq<u8>) -> Option<Seq<u8>>;

/// The standard base64 text of some bytes.
pub uninterp spec fn base64_text(data: Seq<u8>) -> Seq<char>;

/// The bytes of a standard base64 text; nothing where it is not one.
pub uninterp spec fn base64_bytes(text: Seq<char>) -> Option<Seq<u8>>;

/// The longest plaintext that AES-256-GCM encrypts (2^36 bytes).
pub const MAX_PLAINTEXT: u64 = 0x10_0000_0000;

/// Encrypts with AES-256-GCM (`Aead::encrypt` of `Aes256Gcm`); the result is
/// named by `aes_gcm_sealed`, and a ciphertext decrypts under the same key
/// and nonce to the plaintext, as the AEAD contract says. Encryption fails
/// only for a plaintext longer than `MAX_PLAINTEXT` bytes.
#[verifier::external_body]
fn aes_gcm_seal(key: &[u8], nonce: &[u8], plaintext: &[u8]) -> (res: Option<Vec<u8>>)
    requires
        key@.len() == KEY_LEN,
        nonce@.len() == NONCE_LEN,
    ensures
        plaintext@.len() <= MAX_PLAINTEXT ==> res is Some,
        res matches Some(c) ==> aes_gcm_sealed(key@, nonce@, plaintext@) == Some(c@),
        res is None ==> aes_gcm_sealed(key@, nonce@, plaintext@) is None,
        res matches Some(c) ==> aes_gcm_opened(key@, nonce@, c@) == Some(plaintext@),
{
    let cipher = Aes256Gcm::new(GenericArray::from_slice(key));
    cipher.encrypt(Nonce::from_slice(nonce), plaintext).ok()
}

/// Decrypts with AES-256-GCM (`Aead::decrypt` of `Aes256Gcm`); the result
/// is named by `aes_gcm_opened`.
#[verifier::external_body]
fn aes_gcm_open(key: &[u8], nonce: &[u8], ciphertext: &[u8]) -> (res: Option<Vec<u8>>)
    requires
        key@.len() == KEY_LEN,
        nonce@.len() == NONCE_LEN,
    ensures
        res matches Some(p) ==> aes_gcm_opened(key@, nonce@, ciphertext@) == Some(p@),
        res is None ==> aes_gcm_opened(key@, nonce@, ciphertext@) is None,
{
    let cipher = Aes256Gcm::new(GenericArray::from_slice(key));
    cipher.decrypt(Nonce::from_slice(nonce), ciphertext).ok()
}

/// A fresh random nonce from the operating system (`OsRng::fill_bytes`).
#[verifier::external_body]
fn random_nonce() -> (res: Vec<u8>)
    ensures
        res@.len() == NONCE_LEN,
{
    let mut nonce = vec![0u8; NONCE_LEN];
    OsRng.fill_bytes(&mut nonce);
    nonce
}

/// Encodes bytes as standard base64 (`Engine::encode` of `STANDARD`); the
/// text is named by `base64_text`, and decodes to the bytes again.
#[verifier::external_body]
fn base64_encode(data: &[u8]) -> (res: String)
    ensures
        res@ == base64_text(data@),
        base64_bytes(res@) == Some(data@),
{
    STANDARD.encode(data)
}

/// Decodes standard base64 (`Engine::decode` of `STANDARD`); the result is
/// named by `base64_bytes`.
#[verifier::external_body]
fn base64_decode(text: &str) -> (res: Option<Vec<u8>>)
    ensures
        match res {
            Some(d) => base64_bytes(text@) == Some(d@),
            None => base64_bytes(text@) is None,
        },
{
    STANDARD.decode(text).ok()
}

/// The text of UTF-8 bytes (std `String::from_utf8`): an error exactly where
/// the bytes are not valid UTF-8.
#[verifier::external_body]
fn utf8_string(data: Vec<u8>) -> (res: Option<String>)
    ensures
        match res {
            Some(s) => valid_utf8(data@) && s@ == decode_utf8(data@),
            None => !valid_utf8(data@),
        },
{
    String::from_utf8(data).ok()
}

/// The UTF-8 bytes of a text.
fn utf8_bytes(s: &str) -> (res: Vec<u8>)
    ensures
        res@ == encode_utf8(s@),
{
    let b = s.as_bytes();
    let mut res: Vec<u8> = Vec::new();
    let mut i: usize = 0;
    while i < b.len()
        invariant
            i <= b@.len(),
            b@ == encode_utf8(s@),
            res@ == b@.take(i as int),
        decreases b@.len() - i,
    {
        res.push(b[i]);
        proof { assert(res@ =~= b@.take(i + 1)); }
        i = i + 1;
    }
    proof { assert(b@.take(b@.len() as int) =~= b@); }
    res
}

/// Whether a playground id, where it is base64 at all, is long enough to hold
/// a nonce.
pub open spec fn play_id_fits(id: Seq<char>) -> bool {
    base64_bytes(id) matches Some(data) ==> data.len() >= NONCE_LEN
}

/// The gist id that a playground id stands for, under the key: the base64
/// bytes are the encrypted id followed by the nonce.
pub open spec fn play_id_gist(key: Seq<u8>, id: Seq<char>) -> Result<Seq<char>, PlaygroundError>
    recommends
        play_id_fits(id),
{
    match base64_bytes(id) {
        None => Err(PlaygroundError::DecodeError),
        Some(data) => {
            let cut = data.len() - NONCE_LEN;
            match aes_gcm_opened(key, data.subrange(cut, data.len() as int), data.subrange(0, cut)) {
                None => Err(PlaygroundError::CryptError),
                Some(p) => if valid_utf8(p) {
                    Ok(decode_utf8(p))
                } else {
                    Err(PlaygroundError::Utf8Error)
                },
            }
        },
    }
}

/// The gist id that a playground id stands for; an error without a key.
pub fn decrypt(key: Option<&[u8]>, encoded: &str) -> (res: Result<String, PlaygroundError>)
    requires
        key matches Some(k) ==> k@.len() == KEY_LEN,
        key is Some ==> play_id_fits(encoded@),
    ensures
        key is None ==> res == Err::<String, PlaygroundError>(PlaygroundError::SettingsError),
        key matches Some(k) ==> match play_id_gist(k@, encoded@) {
            Ok(g) => res matches Ok(s) && s@ == g,
            Err(e) => res == Err::<String, PlaygroundError>(e),
        },
{
    let k = match key {
        Some(k) => k,
        None => return Err(PlaygroundError::SettingsError),
    };
    let data = match base64_decode(encoded) {
        Some(d) => d,
        None => return Err(PlaygroundError::DecodeError),
    };
    let cut = data.len() - NONCE_LEN;
    let enc = copy_range(&data, 0, cut);
    let nonce = copy_range(&data, cut, data.len());
    match aes_gcm_open(k, nonce.as_slice(), enc.as_slice()) {
        None => Err(PlaygroundError::CryptError),
        Some(p) => match utf8_string(p) {
            Some(s) => Ok(s),
            None => Err(PlaygroundError::Utf8Error),
        },
    }
}

/// Reads a playground id as `decrypt` does, where the id is long enough to
/// hold a nonce; `None` for a shorter one.
pub fn decrypt_checked(key: Option<&[u8]>, encoded: &str) -> (res: Option<Result<String, PlaygroundError>>)
    requires
        key matches Some(k) ==> k@.len() == KEY_LEN,
    ensures
        res is None <==> (key is Some && !play_id_fits(encoded@)),
        key is None ==> res == Some(Err::<String, PlaygroundError>(PlaygroundError::SettingsError)),
        key matches Some(k) ==> (res matches Some(r) ==> match play_id_gist(k@, encoded@) {
            Ok(g) => r matches Ok(s) && s@ == g,
            Err(e) => r == Err::<String, PlaygroundError>(e),
        }),
{
    if key.is_some() {
        match base64_decode(encoded) {
            Some(d) => {
                if d.len() < NONCE_LEN {
                    return None;
                }
            },
            None => {},
        }
    }
    Some(decrypt(key, encoded))
}

fn copy_range(data: &Vec<u8>, from: usize, to: usize) -> (res: Vec<u8>)
    requires
        from <= to <= data@.len(),
    ensures
        res@ == data@.subrange(from as int, to as int),
{
    let mut res: Vec<u8> = Vec::new();
    let mut i: usize = from;
    while i < to
        invariant
            from <= i <= to <= data@.len(),
            res@ == data@.subrange(from as int, i as int),
        decreases to - i,
    {
        res.push(data[i]);
        proof { assert(res@ =~= data@.subrange(from as int, i + 1)); }
        i = i + 1;
    }
    res
}

/// Whether `id` is a playground id of the gist under the key: the gist id's
/// UTF-8 bytes encrypted under the key and some nonce, the nonce appended, in
/// base64.
pub open spec fn is_play_id_of(key: Seq<u8>, gist_id: Seq<char>, id: Seq<char>) -> bool {
    exists|nonce: Seq<u8>, ct: Seq<u8>|
        nonce.len() == NONCE_LEN && #[trigger] aes_gcm_sealed(key, nonce, encode_utf8(gist_id)) == Some(ct)
            && id == #[trigger] base64_text(ct + nonce)
}

/// The text of a playground id: the ciphertext with the nonce appended, in
/// base64.
pub fn play_id_text(ciphertext: Vec<u8>, nonce: &Vec<u8>) -> (res: String)
    ensures
        res@ == base64_text(ciphertext@ + nonce@),
        base64_bytes(res@) == Some(ciphertext@ + nonce@),
{
    let mut data = ciphertext;
    let mut n = nonce.clone();
    data.append(&mut n);
    base64_encode(data.as_slice())
}

/// The playground id of a gist: its id encrypted under the key with a fresh
/// nonce, the nonce appended, in base64. An id is made wherever a key is
/// configured and the id is not too long to encrypt, and it reads back as
/// the gist id under the same key.
pub fn encrypt(key: Option<&[u8]>, gist_id: &str) -> (res: Result<String, PlaygroundError>)
    requires
        key matches Some(k) ==> k@.len() == KEY_LEN,
    ensures
        key is None ==> res == Err::<String, PlaygroundError>(PlaygroundError::SettingsError),
        key matches Some(k) ==> (res is Ok || res == Err::<String, PlaygroundError>(PlaygroundError::CryptError)),
        key is Some && encode_utf8(gist_id@).len() <= MAX_PLAINTEXT ==> res is Ok,
        key matches Some(k) ==> (res matches Ok(id) ==> is_play_id_of(k@, gist_id@, id@)),
        key matches Some(k) ==> (res matches Ok(id) ==> play_id_fits(id@)
            && play_id_gist(k@, id@) == Ok::<Seq<char>, PlaygroundError>(gist_id@)),
{
    let k = match key {
        Some(k) => k,
        None => return Err(PlaygroundError::SettingsError),
    };
    let nonce = random_nonce();
    let plain = utf8_bytes(gist_id);
    let ct = match aes_gcm_seal(k, nonce.as_slice(), plain.as_slice()) {
        Some(c) => c,
        None => return Err(PlaygroundError::CryptError),
    };
    let ghost c = ct@;
    let id = play_id_text(ct, &nonce);
    proof {
        let d = c + nonce@;
        let cut = d.len() - NONCE_LEN;
        assert(d.subrange(cut, d.len() as int) =~= nonce@);
        assert(d.subrange(0, cut) =~= c);
        vstd::utf8::encode_utf8_valid_utf8(gist_id@);
        vstd::utf8::encode_utf8_decode_utf8(gist_id@);
        assert(aes_gcm_sealed(k@, nonce@, encode_utf8(gist_id@)) == Some(c));
        assert(id@ == base64_text(c + nonce@));
    }
    Ok(id)
}

/// The files of a gist, by name, with their contents.
#[derive(Debug, Clone)]
pub struct GistFile {
    pub name: String,
    pub content: Option<String>,
}

/// The text of a gist's code: the content of its one file (empty where the
/// file has none); nothing where the gist has no file or several.
pub fn gist_code_text(files: &Vec<GistFile>) -> (res: Option<String>)
    ensures
        files@.len() != 1 ==> res is None,
        files@.len() == 1 ==> (res matches Some(t) && t@ == match files@[0].content {
            Some(c) => c@,
            None => Seq::<char>::empty(),
        }),
{
    if files.len() != 1 {
        return None;
    }
    match &files[0].content {
        Some(c) => Some(c.clone()),
        None => Some(String::new()),
    }
}

/// The percent-encoding of some bytes: ASCII letters and digits stay, every
/// other byte is written as `%` and two upper-case hexadecimal digits.
pub open spec fn percent_encoded(data: Seq<u8>) -> Seq<char>
    decreases data.len(),
{
    if data.len() == 0 {
        Seq::empty()
    } else {
        percent_encoded(data.drop_last()) + percent_byte(data.last())
    }
}

/// The percent-encoding of one byte.
pub open spec fn percent_byte(b: u8) -> Seq<char> {
    if (0x30 <= b <= 0x39) || (0x41 <= b <= 0x5a) || (0x61 <= b <= 0x7a) {
        seq![b as char]
    } else {
        seq!['%', hex_digit(b / 16), hex_digit(b % 16)]
    }
}

/// An upper-case hexadecimal digit.
pub open spec fn hex_digit(v: u8) -> char {
    if v < 10 {
        (0x30 + v) as char
    } else {
        (0x37 + v) as char
    }
}

/// Percent-encodes a text's UTF-8 bytes, all but ASCII letters and digits
/// (`percent_encoding::utf8_percent_encode` with `NON_ALPHANUMERIC`).
#[verifier::external_body]
fn percent_encode_text(s: &str) -> (res: String)
    ensures
        res@ == percent_encoded(encode_utf8(s@)),
{
    utf8_percent_encode(s, NON_ALPHANUMERIC).to_string()
}

/// The issue filed when shared code is flagged: its title, and, where a
/// reason is given, a body with the playground address and the reason.
#[derive(Debug, Clone)]
pub struct FlagIssue {
    pub title: String,
    pub body: Option<String>,
}

/// The issue filed for flagged code: titled after the gist, with the
/// playground's address of the code (its id percent-encoded) and the reason.
pub fn flag_issue(document_base_url: &str, gist_id: &str, id: &str, reason: Option<String>) -> (res: FlagIssue)
    ensures
        res.title@ == "flag-"@ + gist_id@,
        match reason {
            Some(r) => res.body matches Some(b) && b@ == "url: "@ + document_base_url@ + "/en-US/play?id="@
                + percent_encoded(encode_utf8(id@)) + "\n"@ + r@,
            None => res.body is None,
        },
{
    let mut title = to_owned_string("flag-");
    push_str(&mut title, gist_id);
    let body = match reason {
        Some(r) => {
            let mut b = to_owned_string("url: ");
            push_str(&mut b, document_base_url);
            push_str(&mut b, "/en-US/play?id=");
            let enc = percent_encode_text(id);
            push_str(&mut b, enc.as_str());
            push_str(&mut b, "\n");
            push_str(&mut b, r.as_str());
            Some(b)
        },
        None => None,
    };
    FlagIssue { title, body }
}

/// A gist that holds shared code: its id, its address and its code.
#[derive(Debug, Clone)]
pub struct Gist {
    pub id: String,
    pub url: String,
    pub code: PlayCode,
}

} // verus!
