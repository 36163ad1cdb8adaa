use litho::callback::{AUTH_ALREADY_DONE, AUTH_COMPLETE, AUTH_FAILED};
use litho::token::{alphabet_byte, token_from_reply, ALPHABET_LEN, REDIRECT_URI};
use litho::{extract_code, gen_code_challenge, CodeSlot, Error, TokenFetcher};

fn is_unreserved(c: char) -> bool {
    c.is_ascii_alphanumeric() || c == '-' || c == '.' || c == '~' || c == '_'
}

#[test]
fn test_extract_code() {
    let result = extract_code("http://127.0.0.1:7878/?code=abcdefg&scope=some_scope").unwrap();
    assert_eq!("abcdefg", result)
}

#[test]
fn test_extract_code_at_end() {
    let result = extract_code("http://127.0.0.1:7878/?scope=some_scope&code=abcdefg").unwrap();
    assert_eq!("abcdefg", result)
}

#[test]
fn extract_code_missing_gives_none() {
    assert_eq!(None, extract_code("http://127.0.0.1:7878/?error=barf&scope=some_scope"));
}

#[test]
fn extract_code_takes_the_first_and_may_be_empty() {
    assert_eq!(Some(String::from("")), extract_code("/?code=&code=x"));
    assert_eq!(Some(String::from("a")), extract_code("/?code=a&code=b"));
    assert_eq!(None, extract_code("code"));
    assert_eq!(None, extract_code(""));
}

#[test]
fn verifier_alphabet_is_unreserved() {
    let mut seen = Vec::new();
    for i in 0..ALPHABET_LEN {
        let c = alphabet_byte(i) as char;
        assert!(is_unreserved(c));
        assert!(!seen.contains(&c));
        seen.push(c);
    }
    assert_eq!(66, seen.len());
}

#[test]
fn new_fetcher_has_fresh_pkce_material() {
    let tf = TokenFetcher::new("myclientid", "myclientsecret", "https://example.com/token");
    assert_eq!(128, tf.code_verifier.len());
    assert!(tf.code_verifier.chars().all(is_unreserved));
    let bytes: Vec<u8> = tf.code_verifier.bytes().collect();
    assert_eq!(gen_code_challenge(&bytes), tf.code_challenge);
    assert_eq!(43, tf.code_challenge.len());
    assert_eq!("myclientid", tf.client_id);
    assert_eq!("myclientsecret", tf.client_secret);
    assert_eq!("https://example.com/token", tf.refresh_uri);
    assert_eq!(REDIRECT_URI, tf.redirect_uri);
    let other = TokenFetcher::new("myclientid", "myclientsecret", "https://example.com/token");
    assert_ne!(tf.code_verifier, other.code_verifier);
}

#[test]
fn code_challenge_of_known_verifier() {
    let verifier = b"dBjftJeZ4CVP-mB92K27uhbUJU1p1r_wW1gFWFOEjXk".to_vec();
    assert_eq!("E9Melhoa2OwvFrEMTJguCHaoeK1t8URWbuGJSstw-cM", gen_code_challenge(&verifier));
}

#[test]
fn auth_url_carries_the_query() {
    let tf = TokenFetcher::new("myclientid", "myclientsecret", "https://example.com/token");
    let url = tf.auth_url().unwrap();
    assert!(url.starts_with("https://accounts.google.com/o/oauth2/v2/auth?client_id=myclientid&"));
    assert!(url.contains("&redirect_uri=http%3A%2F%2Flocalhost%3A7878&"));
    assert!(url.contains("&response_type=code&"));
    assert!(url.contains(
        "&scope=https%3A%2F%2Fwww.googleapis.com%2Fauth%2Fphotoslibrary.readonly&"
    ));
    assert!(url.contains(&format!("&code_challenge={}&", tf.code_challenge)));
    assert!(url.ends_with("&code_challenge_method=S256"));
}

fn pairs(v: &[(&str, &str)]) -> Vec<(String, String)> {
    v.iter().map(|(k, x)| (k.to_string(), x.to_string())).collect()
}

#[test]
fn code_grant_form() {
    let tf = TokenFetcher::new("myclientid", "myclientsecret", "https://example.com/token");
    let expected = pairs(&[
        ("client_id", "myclientid"),
        ("client_secret", "myclientsecret"),
        ("code", "mycode"),
        ("code_verifier", tf.code_verifier.as_str()),
        ("grant_type", "authorization_code"),
        ("redirect_uri", "http://localhost:7878"),
    ]);
    assert_eq!(expected, tf.code_grant_params("mycode"));
}

#[test]
fn refresh_grant_form() {
    let tf = TokenFetcher::new("myclientid", "myclientsecret", "https://example.com/token");
    let expected = pairs(&[
        ("client_id", "myclientid"),
        ("client_secret", "myclientsecret"),
        ("code", ""),
        ("code_verifier", ""),
        ("grant_type", "refresh_token"),
        ("refresh_token", "myrefreshtoken"),
    ]);
    assert_eq!(expected, tf.refresh_grant_params("myrefreshtoken"));
}

#[test]
fn token_read_from_reply() {
    assert_eq!(
        Ok(String::from("yourrefreshtoken")),
        token_from_reply(r#"{"refresh_token": "yourrefreshtoken"}"#, "refresh_token")
    );
    assert_eq!(
        Ok(String::from("youraccesstoken")),
        token_from_reply(r#"{"access_token":"youraccesstoken","expires_in":3599}"#, "access_token")
    );
}

#[test]
fn token_reply_errors() {
    assert_eq!(Err(Error::SerError), token_from_reply(r#"{"other": "x"}"#, "access_token"));
    assert_eq!(Err(Error::SerError), token_from_reply(r#"{"access_token": 7}"#, "access_token"));
    assert_eq!(Err(Error::SerError), token_from_reply("not json", "access_token"));
}

#[test]
fn first_redirect_claims_the_code() {
    let mut slot = CodeSlot::new();
    let reply = slot.on_request("/?code=mycode&scope=x");
    assert_eq!(Some(Ok(String::from("mycode"))), reply.hand_off);
    assert_eq!(AUTH_COMPLETE, reply.message);
    assert!(slot.claimed);
    let again = slot.on_request("/?code=other");
    assert_eq!(None, again.hand_off);
    assert_eq!(AUTH_ALREADY_DONE, again.message);
}

#[test]
fn redirect_without_code_fails_authorization() {
    let mut slot = CodeSlot::new();
    let reply = slot.on_request("/?error=access_denied");
    assert_eq!(Some(Err(Error::AuthorizationFailed)), reply.hand_off);
    assert_eq!(AUTH_FAILED, reply.message);
    let again = slot.on_request("/?code=late");
    assert_eq!(None, again.hand_off);
}
