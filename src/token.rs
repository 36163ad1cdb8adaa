//! PKCE material, the authorization URL, and the token exchange's form and reply.

use vstd::prelude::*;

use rand::Rng;
use sha2::Digest;

use crate::error::Error;
use serde_json::Error as JsonError;

verus! {

/// The endpoint the operator opens in a browser to authorize access.
pub const AUTH_ENDPOINT: &'static str = "https://accounts.google.com/o/oauth2/v2/auth";

/// The read-only media scope that is asked for.
pub const SCOPE: &'static str = "https://www.googleapis.com/auth/photoslibrary.readonly";

/// Where the redirect listener is bound.
pub const LISTEN_ADDR: &'static str = "localhost:7878";

/// The redirect URI handed to the authorization and token endpoints.
pub const REDIRECT_URI: &'static str = "http://localhost:7878";

/// The length of a code verifier.
pub const VERIFIER_LEN: usize = 128;

/// The number of characters a code verifier is drawn from.
pub const ALPHABET_LEN: usize = 66;

/// An unreserved character of RFC 3986: a letter, a digit, or one of `-._~`.
pub open spec fn is_unreserved(c: char) -> bool {
    ('A' <= c && c <= 'Z') || ('a' <= c && c <= 'z') || ('0' <= c && c <= '9') || c == '-'
        || c == '.' || c == '~' || c == '_'
}

/// The bytes of an ASCII text.
pub open spec fn ascii_bytes(s: Seq<char>) -> Seq<u8> {
    s.map_values(|c: char| c as u8)
}

/// What SHA-256 gives for `data`.
pub uninterp spec fn sha256_of(data: Seq<u8>) -> Seq<u8>;

/// What the URL-safe base64 alphabet without padding writes for `data`.
pub uninterp spec fn base64_url_of(data: Seq<u8>) -> Seq<char>;

/// The code challenge of a code verifier: base64url, unpadded, of its SHA-256.
pub open spec fn challenge_of(verifier: Seq<u8>) -> Seq<char> {
    base64_url_of(sha256_of(verifier))
}

/// Relies on rand's `Rng::gen_range` on `thread_rng()`: a value drawn from
/// `0..n`; the call panics on an empty range.
#[verifier::external_body]
fn random_below(n: usize) -> (r: usize)
    requires
        n > 0,
    ensures
        r < n,
{
    rand::thread_rng().gen_range(0..n)
}

/// Relies on sha2's `Sha256::digest`: the 32-byte SHA-256 digest of `data`.
#[verifier::external_body]
fn sha256(data: &[u8]) -> (r: Vec<u8>)
    ensures
        r@ == sha256_of(data@),
        r@.len() == 32,
{
    sha2::Sha256::digest(data).to_vec()
}

/// Relies on base64's `encode_config` with `URL_SAFE_NO_PAD`, which panics
/// only where the encoded length overflows a `usize`.
#[verifier::external_body]
fn base64_url_no_pad(data: &[u8]) -> (r: String)
    requires
        data@.len() <= 0x1000_0000,
    ensures
        r@ == base64_url_of(data@),
{
    base64::encode_config(data, base64::URL_SAFE_NO_PAD)
}

/// The character at `i` of the verifier alphabet: the capitals, the small
/// letters, the digits, then `-.~_`.
pub fn alphabet_byte(i: usize) -> (r: u8)
    requires
        i < ALPHABET_LEN,
    ensures
        is_unreserved(r as char),
{
    if i < 26 {
        65 + i as u8
    } else if i < 52 {
        97 + (i - 26) as u8
    } else if i < 62 {
        48 + (i - 52) as u8
    } else if i == 62 {
        45
    } else if i == 63 {
        46
    } else if i == 64 {
        126
    } else {
        95
    }
}

/// A fresh code verifier: 128 characters drawn at random from the alphabet.
pub fn gen_code_verifier() -> (r: Vec<u8>)
    ensures
        r@.len() == VERIFIER_LEN,
        forall|i: int| 0 <= i < r@.len() ==> is_unreserved(#[trigger] r@[i] as char),
{
    let mut v: Vec<u8> = Vec::new();
    while v.len() < VERIFIER_LEN
        invariant
            v@.len() <= VERIFIER_LEN,
            forall|i: int| 0 <= i < v@.len() ==> is_unreserved(#[trigger] v@[i] as char),
        decreases VERIFIER_LEN - v@.len(),
    {
        let i = random_below(ALPHABET_LEN);
        v.push(alphabet_byte(i));
    }
    v
}

/// The code challenge for a code verifier.
pub fn gen_code_challenge(code_verifier: &Vec<u8>) -> (r: String)
    requires
        code_verifier@.len() <= 0x1000_0000,
    ensures
        r@ == challenge_of(code_verifier@),
{
    let digest = sha256(code_verifier.as_slice());
    base64_url_no_pad(digest.as_slice())
}

/// The text of a verifier's bytes, one character each.
fn ascii_text(bytes: &Vec<u8>) -> (r: String)
    requires
        forall|i: int| 0 <= i < bytes@.len() ==> is_unreserved(#[trigger] bytes@[i] as char),
    ensures
        r@.len() == bytes@.len(),
        forall|i: int| 0 <= i < r@.len() ==> r@[i] == bytes@[i] as char,
        ascii_bytes(r@) == bytes@,
{
    let mut s = String::new();
    let mut i: usize = 0;
    while i < bytes.len()
        invariant
            i <= bytes@.len(),
            s@.len() == i,
            forall|j: int| 0 <= j < i ==> s@[j] == bytes@[j] as char,
            forall|j: int| 0 <= j < bytes@.len() ==> is_unreserved(#[trigger] bytes@[j] as char),
        decreases bytes@.len() - i,
    {
        s.push(bytes[i] as char);
        i = i + 1;
    }
    assert forall|j: int| 0 <= j < bytes@.len() implies #[trigger] ascii_bytes(s@)[j] == bytes@[j] by {
        let b = bytes@[j];
        assert(s@[j] == b as char);
        assert(((b as char) as u8) == b);
    }
    assert(ascii_bytes(s@) =~= bytes@);
    s
}

/// The pairs of the authorization URL's query.
pub open spec fn auth_query(client_id: Seq<char>, challenge: Seq<char>, redirect: Seq<char>) -> Seq<
    (Seq<char>, Seq<char>),
> {
    seq![
        ("client_id"@, client_id),
        ("redirect_uri"@, redirect),
        ("response_type"@, "code"@),
        ("scope"@, SCOPE@),
        ("code_challenge"@, challenge),
        ("code_challenge_method"@, "S256"@),
    ]
}

/// The form of the authorization-code grant.
pub open spec fn code_grant_form(
    client_id: Seq<char>,
    client_secret: Seq<char>,
    code: Seq<char>,
    verifier: Seq<char>,
    redirect: Seq<char>,
) -> Seq<(Seq<char>, Seq<char>)> {
    seq![
        ("client_id"@, client_id),
        ("client_secret"@, client_secret),
        ("code"@, code),
        ("code_verifier"@, verifier),
        ("grant_type"@, "authorization_code"@),
        ("redirect_uri"@, redirect),
    ]
}

/// The form of the refresh-token grant.
pub open spec fn refresh_grant_form(
    client_id: Seq<char>,
    client_secret: Seq<char>,
    refresh_token: Seq<char>,
) -> Seq<(Seq<char>, Seq<char>)> {
    seq![
        ("client_id"@, client_id),
        ("client_secret"@, client_secret),
        ("code"@, Seq::<char>::empty()),
        ("code_verifier"@, Seq::<char>::empty()),
        ("grant_type"@, "refresh_token"@),
        ("refresh_token"@, refresh_token),
    ]
}

/// The views of a list of pairs of strings.
pub open spec fn pairs_view(pairs: Seq<(String, String)>) -> Seq<(Seq<char>, Seq<char>)> {
    pairs.map_values(|p: (String, String)| (p.0@, p.1@))
}

/// The view of an optional string.
pub open spec fn opt_view(o: Option<String>) -> Option<Seq<char>> {
    match o {
        Some(s) => Some(s@),
        None => None,
    }
}

/// What parsing `base` as a URL and appending `pairs` to its query gives,
/// serialised; `None` where `base` is no absolute URL.
pub uninterp spec fn url_with_query_of(base: Seq<char>, pairs: Seq<(Seq<char>, Seq<char>)>) -> Option<
    Seq<char>,
>;

/// Relies on `reqwest::Url::parse_with_params` (of the url crate): parses
/// `base`, appends each pair form-encoded to the query, and serialises the URL.
#[verifier::external_body]
fn url_with_query(base: &str, pairs: &Vec<(String, String)>) -> (r: Option<String>)
    ensures
        opt_view(r) == url_with_query_of(base@, pairs_view(pairs@)),
{
    reqwest::Url::parse_with_params(base, pairs.iter()).ok().map(String::from)
}

/// What reading `field` of the JSON object in `body` gives: `None` where
/// `body` is no JSON, `Some(None)` where the field is absent or no string.
pub uninterp spec fn json_str_field_of(body: Seq<char>, field: Seq<char>) -> Option<
    Option<Seq<char>>,
>;

/// Relies on serde_json: `from_str::<Value>` parses `body`, and indexing the
/// value by `field` then `as_str` reads the field where it is a string.
#[verifier::external_body]
fn json_str_field(body: &str, field: &str) -> (r: Result<Option<String>, JsonError>)
    ensures
        match r {
            Ok(o) => json_str_field_of(body@, field@) == Some(opt_view(o)),
            Err(_) => json_str_field_of(body@, field@) is None,
        },
{
    serde_json::from_str::<serde_json::Value>(body).map(|v| v[field].as_str().map(String::from))
}

/// The token in a token endpoint's reply: the string at `field`.
pub open spec fn token_in_reply(body: Seq<char>, field: Seq<char>) -> Option<Seq<char>> {
    match json_str_field_of(body, field) {
        Some(Some(t)) => Some(t),
        _ => None,
    }
}

/// Reads the token at `field` of a token endpoint's reply; a body that is no
/// JSON, or lacks that string field, is a `SerError`.
pub fn token_from_reply(body: &str, field: &str) -> (r: Result<String, Error>)
    ensures
        match token_in_reply(body@, field@) {
            Some(t) => r matches Ok(s) && s@ == t,
            None => r == Err::<String, Error>(Error::SerError),
        },
{
    match json_str_field(body, field) {
        Ok(Some(t)) => Ok(t),
        Ok(None) => Err(Error::SerError),
        Err(e) => Err(Error::from(e)),
    }
}

/// A pair of owned strings.
fn pair(k: &str, v: &str) -> (r: (String, String))
    ensures
        r.0@ == k@,
        r.1@ == v@,
{
    (k.to_string(), v.to_string())
}

/// The client's side of the authorization-code flow with PKCE.
pub struct TokenFetcher {
    pub client_id: String,
    pub client_secret: String,
    /// Never leaves the process but as a parameter of the code exchange.
    pub code_verifier: String,
    pub code_challenge: String,
    pub redirect_uri: String,
    /// The token endpoint.
    pub refresh_uri: String,
}

impl TokenFetcher {
    /// A fetcher with fresh PKCE material. Nothing is sent.
    pub fn new(client_id: &str, client_secret: &str, refresh_uri: &str) -> (r: TokenFetcher)
        ensures
            r.client_id@ == client_id@,
            r.client_secret@ == client_secret@,
            r.refresh_uri@ == refresh_uri@,
            r.redirect_uri@ == REDIRECT_URI@,
            r.code_verifier@.len() == VERIFIER_LEN,
            forall|i: int|
                0 <= i < r.code_verifier@.len() ==> is_unreserved(#[trigger] r.code_verifier@[i]),
            r.code_challenge@ == challenge_of(ascii_bytes(r.code_verifier@)),
    {
        let verifier = gen_code_verifier();
        let code_challenge = gen_code_challenge(&verifier);
        let code_verifier = ascii_text(&verifier);
        TokenFetcher {
            client_id: client_id.to_string(),
            client_secret: client_secret.to_string(),
            code_verifier,
            code_challenge,
            redirect_uri: REDIRECT_URI.to_string(),
            refresh_uri: refresh_uri.to_string(),
        }
    }

    /// The URL the operator opens to authorize access; `None` only where the
    /// authorization endpoint does not parse as a URL.
    pub fn auth_url(&self) -> (r: Option<String>)
        ensures
            opt_view(r) == url_with_query_of(
                AUTH_ENDPOINT@,
                auth_query(self.client_id@, self.code_challenge@, self.redirect_uri@),
            ),
    {
        let mut q: Vec<(String, String)> = Vec::new();
        q.push(pair("client_id", self.client_id.as_str()));
        q.push(pair("redirect_uri", self.redirect_uri.as_str()));
        q.push(pair("response_type", "code"));
        q.push(pair("scope", SCOPE));
        q.push(pair("code_challenge", self.code_challenge.as_str()));
        q.push(pair("code_challenge_method", "S256"));
        assert(pairs_view(q@) =~= auth_query(
            self.client_id@,
            self.code_challenge@,
            self.redirect_uri@,
        ));
        url_with_query(AUTH_ENDPOINT, &q)
    }

    /// The form that exchanges an authorization code for a refresh token.
    pub fn code_grant_params(&self, code: &str) -> (r: Vec<(String, String)>)
        ensures
            pairs_view(r@) == code_grant_form(
                self.client_id@,
                self.client_secret@,
                code@,
                self.code_verifier@,
                self.redirect_uri@,
            ),
    {
        let mut q: Vec<(String, String)> = Vec::new();
        q.push(pair("client_id", self.client_id.as_str()));
        q.push(pair("client_secret", self.client_secret.as_str()));
        q.push(pair("code", code));
        q.push(pair("code_verifier", self.code_verifier.as_str()));
        q.push(pair("grant_type", "authorization_code"));
        q.push(pair("redirect_uri", self.redirect_uri.as_str()));
        assert(pairs_view(q@) =~= code_grant_form(
            self.client_id@,
            self.client_secret@,
            code@,
            self.code_verifier@,
            self.redirect_uri@,
        ));
        q
    }

    /// The form that exchanges a refresh token for an access token.
    pub fn refresh_grant_params(&self, refresh_token: &str) -> (r: Vec<(String, String)>)
        ensures
            pairs_view(r@) == refresh_grant_form(
                self.client_id@,
                self.client_secret@,
                refresh_token@,
            ),
    {
        let mut q: Vec<(String, String)> = Vec::new();
        q.push(pair("client_id", self.client_id.as_str()));
        q.push(pair("client_secret", self.client_secret.as_str()));
        q.push(("code".to_string(), String::new()));
        q.push(("code_verifier".to_string(), String::new()));
        q.push(pair("grant_type", "refresh_token"));
        q.push(pair("refresh_token", refresh_token));
        assert(pairs_view(q@) =~= refresh_grant_form(
            self.client_id@,
            self.client_secret@,
            refresh_token@,
        ));
        q
    }
}

} // verus!
