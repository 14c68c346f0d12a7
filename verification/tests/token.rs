use std::borrow::Cow;

use service_kit::axum_extractors::reply::{Body, Reply};
use service_kit::axum_extractors::token::{
    find_cookie, token_in_header, CustomToken, SameSite, Token, TokenRejection, UnixNanos,
};
use service_kit::codec::{DeserializeError, SerializeError};
use service_kit::ed25519::{SigningKey, VerifyingKey};
use service_kit::encoding::{Base64Engine, DecodeError};
use service_kit::signed_data::{Error, SignedData};

struct State {
    key: SigningKey,
}

impl std::fmt::Debug for State {
    fn fmt(&self, formatter: &mut std::fmt::Formatter<'_>) -> std::fmt::Result {
        formatter.write_str("State")
    }
}

#[derive(Debug, Clone, Copy, PartialEq)]
struct Session {
    user: u8,
    expires: UnixNanos,
}

impl CustomToken<State> for Session {
    const COOKIE_NAME: &'static str = "session";

    fn get_expires_when(&self) -> UnixNanos {
        self.expires
    }

    fn signing_key_from_state(state: &State) -> Cow<'_, SigningKey> {
        Cow::Borrowed(&state.key)
    }
}

#[derive(Debug)]
struct Shared(u8);

impl CustomToken<State> for Shared {
    const COOKIE_NAME: &'static str = "shared";
    const SECURE: bool = false;
    const HTTP_ONLY: bool = false;
    const SAME_SITE: SameSite = SameSite::Lax;
    const PATH: &'static str = "/api";

    fn get_expires_when(&self) -> UnixNanos {
        -1
    }

    fn signing_key_from_state(state: &State) -> Cow<'_, SigningKey> {
        Cow::Owned(state.key.clone())
    }

    fn verifying_key_from_state(_: &State) -> Cow<'_, VerifyingKey> {
        Cow::Owned(SigningKey::from_bytes(&[9; 32]).verifying_key())
    }
}

fn state() -> State {
    State { key: SigningKey::from_bytes(&[5; 32]) }
}

fn encode(session: &Session) -> Result<Vec<u8>, SerializeError> {
    let mut bytes = vec![session.user];
    bytes.extend_from_slice(&session.expires.to_be_bytes());
    Ok(bytes)
}

fn decode(bytes: &[u8]) -> Result<Session, DeserializeError> {
    if bytes.len() != 17 {
        return Err(DeserializeError::Syntax(bytes.len()));
    }
    let mut expires = [0; 16];
    expires.copy_from_slice(&bytes[1..]);
    Ok(Session { user: bytes[0], expires: UnixNanos::from_be_bytes(expires) })
}

fn session() -> Session {
    Session { user: 42, expires: 1_000 }
}

fn issue(session: Session) -> String {
    let cookie = Token::new(session).to_cookie_with(&state(), encode).unwrap();
    format!("{}={}", cookie.name, cookie.value)
}

fn extract(header: &str, now: UnixNanos) -> Result<Option<Token<Session, State>>, TokenRejection> {
    Token::from_cookie_header(Some(header.as_bytes()), &state(), decode, || now)
}

#[test]
fn cookies_say_what_the_service_says() {
    let cookie = Token::new(session()).to_cookie_with(&state(), encode).unwrap();
    assert_eq!(cookie.name, "session");
    assert_eq!(cookie.expires, 1_000);
    assert!(cookie.secure);
    assert!(cookie.http_only);
    assert_eq!(cookie.same_site, SameSite::Strict);
    assert_eq!(cookie.path, "/");

    let key = state().key;
    let bytes = encode(&session()).unwrap();
    let mut frame = key.sign(&bytes).to_vec();
    frame.extend_from_slice(&bytes);
    assert_eq!(cookie.value, *Base64Engine::url_safe_no_pad().encode(&frame));

    let cookie = Token::new(Shared(1)).to_cookie_with(&state(), |s| Ok(vec![s.0])).unwrap();
    assert_eq!(cookie.name, "shared");
    assert_eq!(cookie.expires, -1);
    assert!(!cookie.secure);
    assert!(!cookie.http_only);
    assert_eq!(cookie.same_site, SameSite::Lax);
    assert_eq!(cookie.path, "/api");
}

#[test]
fn cookies_that_fit_into_memory_are_issued() {
    let token = Token::new(session());
    let tried = token.try_to_cookie_with(&state(), encode).unwrap().unwrap();
    let cookie = token.to_cookie_with(&state(), encode).unwrap();
    assert_eq!(tried.name, cookie.name);
    assert_eq!(tried.value, cookie.value);
    assert_eq!(tried.expires, cookie.expires);
    let res = token.try_to_cookie_with(&state(), |_| Err(SerializeError::Value("no".to_owned())));
    assert!(matches!(res, Err(Error::Serialize(SerializeError::Value(_)))), "{res:?}");
}

#[test]
fn tokens_that_do_not_encode_are_not_issued() {
    let res = Token::new(session())
        .to_cookie_with(&state(), |_| Err(SerializeError::Io("disk".to_owned())));
    assert!(matches!(res, Err(Error::Serialize(SerializeError::Io(_)))), "{res:?}");
}

#[test]
fn issued_tokens_are_extracted() {
    let cookie = issue(session());
    assert_eq!(*extract(&cookie, 0).unwrap().unwrap(), session());
    let among = format!("a=1; b=; {cookie}; session=x; ;broken");
    assert_eq!(*extract(&among, 0).unwrap().unwrap(), session());
}

#[test]
fn quoted_values_are_trimmed() {
    let cookie = issue(session()).replace('=', "=\"") + "\"";
    assert_eq!(*extract(&cookie, 0).unwrap().unwrap(), session());
}

#[test]
fn tokens_expire() {
    let cookie = issue(session());
    assert!(extract(&cookie, 1_000).unwrap().is_some());
    assert!(matches!(extract(&cookie, 1_001), Err(TokenRejection::Expired)));
    let token = Token::<Session, State>::unless_expired(session(), 5, 5).unwrap();
    assert_eq!(*token, session());
    let res = Token::<Session, State>::unless_expired(session(), 5, 6);
    assert!(matches!(res, Err(TokenRejection::Expired)));
}

#[test]
fn requests_without_token_have_none() {
    let none = Token::<Session, State>::from_cookie_header(None, &state(), decode, || 0);
    assert!(matches!(none, Ok(None)));
    assert!(matches!(extract("", 0), Ok(None)));
    assert!(matches!(extract("other=1; Session=2", 0), Ok(None)));
}

#[test]
fn headers_that_are_no_text_are_rejected() {
    let res = Token::<Session, State>::from_cookie_header(Some(b"a=\xff"), &state(), decode, || 0);
    assert!(matches!(res, Err(TokenRejection::CookieEncoding)));
}

#[test]
fn errors_before_the_token_are_rejected() {
    let cookie = issue(session());
    match extract(&format!("broken; {cookie}"), 0) {
        Err(TokenRejection::CookieParse(text)) => {
            assert_eq!(text, "the cookie is missing a name/value pair");
        }
        other => panic!("{other:?}"),
    }
    match extract(&format!("=1; {cookie}"), 0) {
        Err(TokenRejection::CookieParse(text)) => assert_eq!(text, "the cookie's name is empty"),
        other => panic!("{other:?}"),
    }
    match extract(&format!("a=%ff; {cookie}"), 0) {
        Err(TokenRejection::CookieParse(text)) => {
            assert_eq!(text, "decoding the cookie's name or value resulted in invalid UTF-8");
        }
        other => panic!("{other:?}"),
    }
}

#[test]
fn invalid_tokens_are_rejected() {
    let res = extract("session=*", 0);
    assert!(
        matches!(
            res,
            Err(TokenRejection::SignedData(Error::Base64Decode(DecodeError::InvalidByte(0, b'*'))))
        ),
        "{res:?}"
    );
    let res = extract("session=AAAA", 0);
    assert!(
        matches!(res, Err(TokenRejection::SignedData(Error::InvalidLength(3)))),
        "{res:?}"
    );
    let forged = Token::new(session())
        .to_cookie_with(&State { key: SigningKey::from_bytes(&[6; 32]) }, encode)
        .unwrap();
    let res = extract(&format!("session={}", forged.value), 0);
    assert!(matches!(res, Err(TokenRejection::SignedData(Error::Verify(_)))), "{res:?}");

    let signed = SignedData::<Session>::sign_raw(Box::from([1, 2]), &state().key);
    let cookie = Token::<Session, State>::cookie_for(&signed, 0);
    let res = extract(&format!("session={}", cookie.value), 0);
    assert!(
        matches!(
            res,
            Err(TokenRejection::SignedData(Error::Deserialize(DeserializeError::Syntax(2))))
        ),
        "{res:?}"
    );
}

#[test]
fn services_may_verify_with_another_key() {
    let signed = SignedData::<Shared>::sign_raw(Box::from([3]), &SigningKey::from_bytes(&[9; 32]));
    let token =
        Token::<Shared, State>::from_signed(&signed, &state(), |b| Ok(Shared(b[0])), || -5).unwrap();
    assert_eq!(token.0, 3);
    let signed = SignedData::<Shared>::sign_raw(Box::from([3]), &state().key);
    let res = Token::<Shared, State>::from_signed(&signed, &state(), |b| Ok(Shared(b[0])), || -5);
    assert!(matches!(res, Err(TokenRejection::SignedData(Error::Verify(_)))), "{res:?}");
}

#[test]
fn first_cookie_with_the_name_is_found() {
    let found = token_in_header(Some(b"a=1; b=2; a=3"), "a").unwrap();
    assert_eq!(found.as_deref(), Some("1"));
    let found = token_in_header(Some(b"a=1; b=2; a=3"), "b").unwrap();
    assert_eq!(found.as_deref(), Some("2"));
    let found = token_in_header(Some(b"a=1; b=%32%20; a=3"), "b").unwrap();
    assert_eq!(found.as_deref(), Some("2 "));
    assert!(token_in_header(Some(b"a="), "a").unwrap().as_deref() == Some(""));
}

#[test]
fn cookies_behind_a_match_or_an_error_are_ignored() {
    let cookie = |name: &str, value: &str| Ok((name.to_owned(), value.to_owned()));
    let cookies = vec![cookie("a", "1"), cookie("b", "2"), Err("bad".to_owned()), cookie("c", "3")];
    assert_eq!(find_cookie(&cookies, "b"), Ok(Some("2".to_owned())));
    assert_eq!(find_cookie(&cookies, "c"), Err("bad".to_owned()));
    assert_eq!(find_cookie(&cookies[..2].to_vec(), "c"), Ok(None));
}

#[test]
fn missing_token_iff_absent() {
    let required = Token::<Session, State>::required;
    assert!(matches!(required(Ok(None)), Err(TokenRejection::Missing)));
    assert_eq!(*required(Ok(Some(Token::new(session())))).unwrap(), session());
    assert!(matches!(required(Err(TokenRejection::Expired)), Err(TokenRejection::Expired)));
}

fn problem_of(reply: Reply) -> (u16, String, String) {
    let problem = reply.problem.unwrap();
    assert_eq!(problem.status, reply.status);
    match reply.body {
        Body::Text(text) => (reply.status, problem.detail, text),
        other => panic!("{other:?}"),
    }
}

#[test]
fn token_rejections_are_answered() {
    let cases = [
        (
            TokenRejection::CookieEncoding,
            (400, "invalid cookie encoding", "invalid cookie encoding"),
        ),
        (
            TokenRejection::CookieParse("odd".to_owned()),
            (400, "invalid cookie syntax: odd", "invalid cookie syntax: odd"),
        ),
        (
            TokenRejection::from(Error::InvalidLength(1)),
            (401, "invalid token", "invalid token"),
        ),
        (
            TokenRejection::from(Error::Base64Decode(DecodeError::InvalidPadding)),
            (401, "invalid token", "invalid token"),
        ),
        (TokenRejection::Missing, (401, "missing token", "missing token")),
        (TokenRejection::Expired, (401, "token exipred", "token expired")),
    ];
    for (rejection, (status, detail, text)) in cases {
        let answer = problem_of(rejection.into_response());
        assert_eq!(answer, (status, detail.to_owned(), text.to_owned()));
    }
}

#[test]
fn token_is_its_content() {
    let token = Token::<Session, State>::new(session());
    assert_eq!(token.user, 42);
    assert_eq!(token.get_expires_when(), 1_000);
}

#[test]
fn text_around_the_token_does_not_matter() {
    let cookie = issue(session());
    for before in ["", "a=%20; ", "a=\"x y\";", ";;; ", "a b = c d; "] {
        for after in ["", ";", "; broken", ";=", "; session=x", "; a=%ff;\t"] {
            let found = extract(&format!("{before}{cookie}{after}"), 0).unwrap().unwrap();
            assert_eq!(*found, session(), "{before:?} {after:?}");
        }
    }
}

#[test]
fn text_behind_a_match_or_an_error_does_not_matter() {
    let find = |header: &str| token_in_header(Some(header.as_bytes()), "a");
    assert_eq!(find("a=%31;broken;=;a=2").unwrap().as_deref(), Some("1"));
    match find("broken;=;a=2") {
        Err(TokenRejection::CookieParse(text)) => {
            assert_eq!(text, "the cookie is missing a name/value pair");
        }
        other => panic!("{other:?}"),
    }
    assert_eq!(find("b=1;a=2").unwrap().as_deref(), Some("2"));
}

#[test]
fn required_tokens_are_extracted_or_missing() {
    let require = |header: Option<&str>, now| {
        let header = header.map(|header| header.as_bytes());
        Token::<Session, State>::required_from_cookie_header(header, &state(), decode, || now)
    };
    let cookie = issue(session());
    assert_eq!(*require(Some(&cookie), 0).unwrap(), session());
    assert!(matches!(require(None, 0), Err(TokenRejection::Missing)));
    assert!(matches!(require(Some("b=1"), 0), Err(TokenRejection::Missing)));
    assert!(matches!(require(Some(&cookie), 1_001), Err(TokenRejection::Expired)));
}

#[test]
fn unverified_tokens_are_not_decoded() {
    let signed = SignedData::<Session>::sign_raw(Box::from([0; 17]), &SigningKey::from_bytes(&[6; 32]));
    let never = |_: &[u8]| panic!("decoded");
    let res = Token::<Session, State>::from_signed(&signed, &state(), never, || 0);
    assert!(matches!(res, Err(TokenRejection::SignedData(Error::Verify(_)))), "{res:?}");
    let cookie = Token::<Session, State>::cookie_for(&signed, 0);
    let header = format!("session={}", cookie.value);
    let res = Token::<Session, State>::from_cookie_header(
        Some(header.as_bytes()),
        &state(),
        never,
        || 0,
    );
    assert!(matches!(res, Err(TokenRejection::SignedData(Error::Verify(_)))), "{res:?}");
}
