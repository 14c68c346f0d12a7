//! Tokens that travel in cookies, signed and with a time of expiry.

use std::borrow::Cow;
use std::marker::PhantomData;

use cookie::Cookie;
use vstd::prelude::*;
use vstd::string::*;
use vstd::utf8::*;

use super::header::header_text;
use super::reply::{Reply, BAD_REQUEST, UNAUTHORIZED};
use crate::codec::{DeserializeError, SerializeError};
use crate::ed25519::{SigningKey, VerifyingKey, SIGNATURE_LENGTH};
use crate::encoding::{Base64Engine, DecodeError};
use crate::signed_data::{Error, SignedData};
use crate::text::same_text;

verus! {

/// A cookie as parsing gave it: its name and its value, or a description of the error.
pub type ParsedCookie = Result<(String, String), String>;

/// A parsed cookie with its strings as sequences.
pub type ParsedCookieView = Result<(Seq<char>, Seq<char>), Seq<char>>;

/// A parsed cookie with its strings as sequences.
pub open spec fn cookie_view(cookie: ParsedCookie) -> ParsedCookieView {
    match cookie {
        Ok((name, value)) => Ok((name@, value@)),
        Err(error) => Err(error@),
    }
}

/// Parsed cookies with their strings as sequences.
pub open spec fn cookie_views(cookies: Seq<ParsedCookie>) -> Seq<ParsedCookieView> {
    cookies.map_values(|cookie: ParsedCookie| cookie_view(cookie))
}

/// The cookies in the text of a `Cookie` header.
pub uninterp spec fn cookies_in(header: Seq<char>) -> Seq<ParsedCookieView>;

/// A printable ASCII character other than a blank, `"`, `%`, `;` and `=`.
pub open spec fn is_cookie_safe(c: char) -> bool {
    33 <= c as int <= 126 && c != '"' && c != '%' && c != ';' && c != '='
}

/// A nonempty name and a value of characters that stand for themselves in a cookie.
pub open spec fn is_safe_pair(pair: (Seq<char>, Seq<char>)) -> bool {
    &&& pair.0.len() > 0
    &&& forall|i: int| 0 <= i < pair.0.len() ==> is_cookie_safe(#[trigger] pair.0[i])
    &&& forall|i: int| 0 <= i < pair.1.len() ==> is_cookie_safe(#[trigger] pair.1[i])
}

/// The text of a `Cookie` header with these names and values.
pub open spec fn cookie_header(pairs: Seq<(Seq<char>, Seq<char>)>) -> Seq<char>
    decreases pairs.len(),
{
    if pairs.len() == 0 {
        Seq::empty()
    } else {
        let pair = pairs[0].0 + seq!['='] + pairs[0].1;
        if pairs.len() == 1 {
            pair
        } else {
            pair + seq![';', ' '] + cookie_header(pairs.drop_first())
        }
    }
}

/// A text behind which a cookie begins: none, or one with `;` or `; ` at its end.
pub open spec fn ends_before_cookie(before: Seq<char>) -> bool {
    let n = before.len() as int;
    n == 0 || before[n - 1] == ';' || (n >= 2 && before[n - 1] == ' ' && before[n - 2] == ';')
}

/// A text that ends the cookie before it: none, or one with `;` at its start.
pub open spec fn begins_behind_cookie(after: Seq<char>) -> bool {
    after.len() == 0 || after[0] == ';'
}

/// The cookies in a part of a header, of which there are none if it is empty.
pub open spec fn cookies_in_part(part: Seq<char>) -> Seq<ParsedCookieView> {
    if part.len() == 0 {
        Seq::empty()
    } else {
        cookies_in(part)
    }
}

/// Cookies with these names and values.
pub open spec fn as_cookies(pairs: Seq<(Seq<char>, Seq<char>)>) -> Seq<ParsedCookieView> {
    pairs.map_values(|pair: (Seq<char>, Seq<char>)| Ok::<_, Seq<char>>(pair))
}

/// Names and values with some text before and behind them.
pub open spec fn header_around(
    before: Seq<char>,
    pairs: Seq<(Seq<char>, Seq<char>)>,
    after: Seq<char>,
) -> Seq<char> {
    before + cookie_header(pairs) + after
}

/// Wherever safe names and values stand in the text, the cookies are those, between the cookies
/// before and behind them.
pub open spec fn reads_safe_pairs(header: Seq<char>, cookies: Seq<ParsedCookieView>) -> bool {
    forall|before: Seq<char>, pairs: Seq<(Seq<char>, Seq<char>)>, after: Seq<char>|
        header == #[trigger] header_around(before, pairs, after) && ends_before_cookie(before)
            && begins_behind_cookie(after) && (forall|i: int|
            0 <= i < pairs.len() ==> is_safe_pair(#[trigger] pairs[i])) ==> cookies
            == cookies_in_part(before) + as_cookies(pairs) + cookies_in_part(after)
}

/// Two texts with `;` between them.
pub open spec fn with_semicolon(text: Seq<char>, later: Seq<char>) -> Seq<char> {
    text + seq![';'] + later
}

/// At every `;` the cookies are those of the text before it and then those of the text behind it.
pub open spec fn splits_at_semicolons(header: Seq<char>, cookies: Seq<ParsedCookieView>) -> bool {
    forall|text: Seq<char>, later: Seq<char>|
        header == #[trigger] with_semicolon(text, later) ==> cookies == cookies_in(text)
            + cookies_in(later)
}

/// What is known of the cookies in the text.
pub open spec fn reads_cookies(header: Seq<char>, cookies: Seq<ParsedCookieView>) -> bool {
    reads_safe_pairs(header, cookies) && splits_at_semicolons(header, cookies)
}

/// Calls `cookie::Cookie::split_parse_encoded` and reads the names with `Cookie::name` and the
/// values with `Cookie::value_trimmed`.
///
/// Claimed: the names and values, or the displayed forms of the errors, are a function of the
/// text alone; what stands between two `;` is read by itself, so at every `;` the cookies of the
/// text are those of the part before it followed by those of the part behind it; and pairs of
/// safe names and values, separated by `; `, are read as they stand, wherever they stand.
#[verifier::external_body]
fn parse_cookies(header: &str) -> (cookies: Vec<ParsedCookie>)
    ensures
        cookie_views(cookies@) == cookies_in(header@),
        reads_cookies(header@, cookie_views(cookies@)),
{
    Cookie::split_parse_encoded(header).map(|cookie| match cookie {
        Ok(cookie) => Ok((cookie.name().to_owned(), cookie.value_trimmed().to_owned())),
        Err(error) => Err(error.to_string()),
    }).collect()
}

/// The value of the first cookie with the name, unless an erroneous cookie stands before it.
/// Cookies behind the first match are not looked at.
pub open spec fn lookup(cookies: Seq<ParsedCookieView>, name: Seq<char>) -> Result<
    Option<Seq<char>>,
    Seq<char>,
>
    decreases cookies.len(),
{
    if cookies.len() == 0 {
        Ok(None)
    } else {
        match cookies[0] {
            Err(error) => Err(error),
            Ok((n, value)) => if n == name {
                Ok(Some(value))
            } else {
                lookup(cookies.drop_first(), name)
            },
        }
    }
}

/// Finds the value of the first cookie with the name.
///
/// # Errors
///
/// if an erroneous cookie stands before it
pub fn find_cookie(cookies: &Vec<ParsedCookie>, name: &str) -> (result: Result<
    Option<String>,
    String,
>)
    ensures
        match lookup(cookie_views(cookies@), name@) {
            Ok(Some(value)) => result matches Ok(Some(v)) && v@ == value,
            Ok(None) => result matches Ok(None),
            Err(error) => result matches Err(e) && e@ == error,
        },
{
    let ghost views = cookie_views(cookies@);
    let mut i: usize = 0;
    assert(views.skip(0) =~= views);
    while i < cookies.len()
        invariant
            i <= cookies@.len(),
            views == cookie_views(cookies@),
            lookup(views, name@) == lookup(views.skip(i as int), name@),
        decreases cookies@.len() - i,
    {
        assert(views.skip(i as int)[0] == cookie_view(cookies@[i as int]));
        assert(views.skip(i as int).drop_first() =~= views.skip(i + 1));
        match &cookies[i] {
            Err(error) => return Err(error.clone()),
            Ok((n, value)) => if same_text(n.as_str(), name) {
                return Ok(Some(value.clone()));
            },
        }
        i = i + 1;
    }
    Ok(None)
}

/// A point in time, in nanoseconds since the Unix epoch.
pub type UnixNanos = i128;

/// On which requests from other sites a browser sends a cookie.
#[derive(Debug, Clone, Copy, PartialEq, Eq, Structural)]
pub enum SameSite {
    /// On none.
    Strict,
    /// On top-level navigations.
    Lax,
    /// On all: the attribute is written `None`.
    Unrestricted,
}

/// What a service says of its tokens.
pub trait CustomToken<S> where S: Send + Sync {
    /// The name of the cookie.
    const COOKIE_NAME: &'static str;

    /// Whether the cookie is sent over secure connections only.
    const SECURE: bool = true;

    /// Whether the cookie is hidden from scripts.
    const HTTP_ONLY: bool = true;

    /// On which requests from other sites the cookie is sent.
    const SAME_SITE: SameSite = SameSite::Strict;

    /// The path below which the cookie is sent.
    const PATH: &'static str = "/";

    /// When the token expires.
    fn get_expires_when(&self) -> UnixNanos;

    /// The key that signs tokens.
    fn signing_key_from_state(state: &S) -> Cow<'_, SigningKey>;

    /// The key that verifies tokens: that of the signing key, if the service does not say
    /// otherwise.
    fn verifying_key_from_state(state: &S) -> (key: Cow<'_, VerifyingKey>)
        default_ensures
            exists|signing_key: Cow<SigningKey>| #[trigger]
                call_ensures(Self::signing_key_from_state, (state,), signing_key) && key@
                    == crate::ed25519::ed25519_public_key(signing_key@),
    {
        match Self::signing_key_from_state(state) {
            Cow::Borrowed(key) => Cow::Owned(key.verifying_key()),
            Cow::Owned(key) => Cow::Owned(key.verifying_key()),
        }
    }
}

/// A token that a request carries. When one is extracted, its time of expiry is checked.
#[derive(Debug, Default, PartialEq, Eq, PartialOrd, Ord, Hash)]
pub struct Token<T, S> {
    inner: T,
    _state: PhantomData<S>,
}

/// The cookie that carries a token.
#[derive(Debug)]
pub struct TokenCookie {
    /// Its name.
    pub name: String,
    /// Its value.
    pub value: String,
    /// When it expires.
    pub expires: UnixNanos,
    /// Whether it is sent over secure connections only.
    pub secure: bool,
    /// Whether it is hidden from scripts.
    pub http_only: bool,
    /// On which requests from other sites it is sent.
    pub same_site: SameSite,
    /// The path below which it is sent.
    pub path: String,
}

/// Why a request has no valid token.
#[derive(Debug)]
pub enum TokenRejection {
    /// The `Cookie` header is no text.
    CookieEncoding,
    /// A cookie before the token is erroneous; a description.
    CookieParse(String),
    /// The token is not signed data, or not valid ones.
    SignedData(Error),
    /// There is no token.
    Missing,
    /// The token has expired.
    Expired,
}

impl<T, S> View for Token<T, S> {
    type V = T;

    closed spec fn view(&self) -> T {
        self.inner
    }
}

impl<T: Clone, S: Clone> Clone for Token<T, S> {
    fn clone(&self) -> (copy: Self)
        ensures
            cloned(self@, copy@),
    {
        Token { inner: self.inner.clone(), _state: PhantomData }
    }
}

impl<T: Copy, S: Copy> Copy for Token<T, S> {

}

impl<T, S> std::ops::Deref for Token<T, S> {
    type Target = T;

    fn deref(&self) -> (inner: &T)
        ensures
            *inner == self@,
    {
        &self.inner
    }
}

impl From<Error> for TokenRejection {
    fn from(error: Error) -> Self {
        TokenRejection::SignedData(error)
    }
}

impl vstd::std_specs::convert::FromSpecImpl<Error> for TokenRejection {
    open spec fn obeys_from_spec() -> bool {
        true
    }

    open spec fn from_spec(error: Error) -> Self {
        TokenRejection::SignedData(error)
    }
}

/// What is found of a token in the `Cookie` header: its text, nothing, or an error.
pub open spec fn finds_token(
    header: Option<&[u8]>,
    name: Seq<char>,
    result: Result<Option<String>, TokenRejection>,
) -> bool {
    match header {
        None => result matches Ok(None),
        Some(value) => if super::header::all_visible(value@) {
            match lookup(cookies_in(super::header::characters(value@)), name) {
                Ok(Some(text)) => result matches Ok(Some(t)) && t@ == text,
                Ok(None) => result matches Ok(None),
                Err(error) => result matches Err(TokenRejection::CookieParse(e)) && e@ == error,
            }
        } else {
            result matches Err(rejection) && rejection is CookieEncoding
        },
    }
}

/// Finds the text of a token in the `Cookie` header.
///
/// # Errors
///
/// if the header is no text,
/// or an erroneous cookie stands before the token
pub fn token_in_header(header: Option<&[u8]>, name: &str) -> (result: Result<
    Option<String>,
    TokenRejection,
>)
    ensures
        finds_token(header, name@, result),
        header matches Some(value) ==> super::header::all_visible(value@) ==> reads_cookies(
            super::header::characters(value@),
            cookies_in(super::header::characters(value@)),
        ),
{
    let value = match header {
        Some(value) => value,
        None => return Ok(None),
    };
    let text = match header_text(value) {
        Ok(text) => text,
        Err(_) => return Err(TokenRejection::CookieEncoding),
    };
    match find_cookie(&parse_cookies(text.as_str()), name) {
        Ok(token) => Ok(token),
        Err(error) => Err(TokenRejection::CookieParse(error)),
    }
}

/// The value of the cookie for a token with this encoding: the signature and the encoding as
/// base64 of the URL-safe alphabet, without padding.
pub open spec fn token_text(secret: Seq<u8>, encoding: Seq<u8>) -> Seq<char> {
    crate::encoding::base64_text(
        crate::encoding::URL_SAFE_SYMBOLS@,
        false,
        crate::ed25519::ed25519_signature(secret, encoding) + encoding,
    )
}

/// What the value of a cookie decodes to.
pub open spec fn decoded_token(text: Seq<char>) -> Result<Seq<u8>, DecodeError> {
    crate::encoding::base64_decoded(
        crate::encoding::URL_SAFE_SYMBOLS@,
        false,
        crate::encoding::DecodePadding::RequireNone,
        encode_utf8(text),
    )
}

impl TokenCookie {
    /// Whether the cookie has this value and time of expiry, and otherwise what the service says
    /// of its tokens.
    pub open spec fn carries<T: CustomToken<S>, S: Send + Sync>(
        self,
        value: Seq<char>,
        expires: UnixNanos,
    ) -> bool {
        &&& self.name@ == T::COOKIE_NAME@
        &&& self.value@ == value
        &&& self.expires == expires
        &&& self.secure == T::SECURE
        &&& self.http_only == T::HTTP_ONLY
        &&& self.same_site == T::SAME_SITE
        &&& self.path@ == T::PATH@
    }
}

impl<T, S> Token<T, S> where T: CustomToken<S>, S: Send + Sync {
    /// A token with this content.
    #[must_use]
    pub fn new(inner: T) -> (token: Self)
        ensures
            token@ == inner,
    {
        Token { inner, _state: PhantomData }
    }

    /// The cookie for signed data that expire at this time.
    pub fn cookie_for(signed: &SignedData<T>, expires: UnixNanos) -> (cookie: TokenCookie)
        requires
            crate::encoding::base64_length(false, signed.frame().len()) <= isize::MAX,
        ensures
            cookie.carries::<T, S>(
                crate::encoding::base64_text(
                    crate::encoding::URL_SAFE_SYMBOLS@,
                    false,
                    signed.frame(),
                ),
                expires,
            ),
    {
        let value = signed.to_base64(&Base64Engine::url_safe_no_pad());
        TokenCookie {
            name: T::COOKIE_NAME.to_owned(),
            value: (&*value).to_owned(),
            expires,
            secure: T::SECURE,
            http_only: T::HTTP_ONLY,
            same_site: T::SAME_SITE,
            path: T::PATH.to_owned(),
        }
    }

    /// Signs the token with the key of the service. With it comes the time of expiry.
    fn to_signed_with<F>(&self, state: &S, encode: F) -> (result: Result<
        (SignedData<T>, UnixNanos),
        Error,
    >) where F: FnOnce(&T) -> Result<Vec<u8>, SerializeError>
        requires
            encode.requires((&self@,)),
        ensures
            exists|
                expires: UnixNanos,
                key: Cow<SigningKey>,
                encoded: Result<Vec<u8>, SerializeError>,
            |
                {
                    &&& #[trigger] call_ensures(T::get_expires_when, (&self@,), expires)
                    &&& #[trigger] call_ensures(T::signing_key_from_state, (state,), key)
                    &&& #[trigger] encode.ensures((&self@,), encoded)
                    &&& match encoded {
                        Ok(bytes) => result matches Ok(pair) && pair.0.is_signed_with(key@, bytes@)
                            && pair.1 == expires,
                        Err(error) => result matches Err(Error::Serialize(e)) && e == error,
                    }
                },
    {
        let expires = self.inner.get_expires_when();
        let key = T::signing_key_from_state(state);
        let key_ref: &SigningKey = match &key {
            Cow::Borrowed(key) => key,
            Cow::Owned(key) => key,
        };
        match SignedData::sign(&self.inner, key_ref, encode) {
            Ok(signed) => Ok((signed, expires)),
            Err(error) => Err(error),
        }
    }

    /// Signs the token and puts it into a cookie.
    ///
    /// # Errors
    ///
    /// if the token failed to encode
    pub fn to_cookie_with<F>(&self, state: &S, encode: F) -> (result: Result<
        TokenCookie,
        Error,
    >) where F: FnOnce(&T) -> Result<Vec<u8>, SerializeError>
        requires
            encode.requires((&self@,)),
            forall|bytes: Vec<u8>| #[trigger]
                encode.ensures((&self@,), Ok(bytes)) ==> crate::encoding::base64_length(
                    false,
                    crate::ed25519::SIGNATURE_LENGTH as nat + bytes@.len(),
                ) <= isize::MAX,
        ensures
            exists|
                expires: UnixNanos,
                key: Cow<SigningKey>,
                encoded: Result<Vec<u8>, SerializeError>,
            |
                {
                    &&& #[trigger] call_ensures(T::get_expires_when, (&self@,), expires)
                    &&& #[trigger] call_ensures(T::signing_key_from_state, (state,), key)
                    &&& #[trigger] encode.ensures((&self@,), encoded)
                    &&& match encoded {
                        Ok(bytes) => result matches Ok(cookie) && cookie.carries::<T, S>(
                            token_text(key@, bytes@),
                            expires,
                        ) && crate::ed25519::own_signature_verifies(key@, bytes@),
                        Err(error) => result matches Err(Error::Serialize(e)) && e == error,
                    }
                },
    {
        match self.to_signed_with(state, encode) {
            Ok((signed, expires)) => Ok(Self::cookie_for(&signed, expires)),
            Err(error) => Err(error),
        }
    }

    /// Signs the token and puts it into a cookie, if its value is not longer than memory can hold.
    ///
    /// # Errors
    ///
    /// if the token failed to encode
    pub fn try_to_cookie_with<F>(&self, state: &S, encode: F) -> (result: Result<
        Option<TokenCookie>,
        Error,
    >) where F: FnOnce(&T) -> Result<Vec<u8>, SerializeError>
        requires
            encode.requires((&self@,)),
        ensures
            exists|
                expires: UnixNanos,
                key: Cow<SigningKey>,
                encoded: Result<Vec<u8>, SerializeError>,
            |
                {
                    &&& #[trigger] call_ensures(T::get_expires_when, (&self@,), expires)
                    &&& #[trigger] call_ensures(T::signing_key_from_state, (state,), key)
                    &&& #[trigger] encode.ensures((&self@,), encoded)
                    &&& match encoded {
                        Ok(bytes) => if crate::encoding::base64_length(
                            false,
                            crate::ed25519::SIGNATURE_LENGTH as nat + bytes@.len(),
                        ) <= isize::MAX {
                            result matches Ok(Some(cookie)) && cookie.carries::<T, S>(
                                token_text(key@, bytes@),
                                expires,
                            ) && crate::ed25519::own_signature_verifies(key@, bytes@)
                        } else {
                            result matches Ok(None)
                        },
                        Err(error) => result matches Err(Error::Serialize(e)) && e == error,
                    }
                },
    {
        let (signed, expires) = match self.to_signed_with(state, encode) {
            Ok((signed, expires)) => (signed, expires),
            Err(error) => return Err(error),
        };
        let length: u128 = SIGNATURE_LENGTH as u128 + signed.data.len() as u128;
        if (4 * length + 2) / 3 > isize::MAX as u128 {
            return Ok(None);
        }
        Ok(Some(Self::cookie_for(&signed, expires)))
    }

    /// Admits a token unless it has expired.
    ///
    /// # Errors
    ///
    /// if it expired before now
    pub fn unless_expired(inner: T, expires: UnixNanos, now: UnixNanos) -> (result: Result<
        Self,
        TokenRejection,
    >)
        ensures
            if expires < now {
                result matches Err(rejection) && rejection is Expired
            } else {
                result matches Ok(token) && token@ == inner
            },
    {
        if expires < now {
            return Err(TokenRejection::Expired);
        }
        Ok(Self::new(inner))
    }

    /// What becomes of signed data that are read as a token: they are verified, then decoded, and
    /// then the time of expiry is checked.
    pub open spec fn verifies<F, C>(
        signed: SignedData<T>,
        state: &S,
        decode: F,
        clock: C,
        result: Result<Self, TokenRejection>,
    ) -> bool where F: FnOnce(&[u8]) -> Result<T, DeserializeError>, C: FnOnce() -> UnixNanos {
        exists|key: Cow<VerifyingKey>|
            {
                &&& #[trigger] call_ensures(T::verifying_key_from_state, (state,), key)
                &&& if signed.is_accepted_under(key@) {
                    exists|data: &[u8], decoded: Result<T, DeserializeError>|
                        data@ == signed.data@ && #[trigger] decode.ensures((data,), decoded)
                            && match decoded {
                            Ok(inner) => Self::is_admitted(inner, clock, result),
                            Err(error) => result == Err::<Self, TokenRejection>(
                                TokenRejection::SignedData(Error::Deserialize(error)),
                            ),
                        }
                } else {
                    result matches Err(TokenRejection::SignedData(error)) && error is Verify
                }
            }
    }

    /// What becomes of a decoded token when the clock is read.
    pub open spec fn is_admitted<C>(
        inner: T,
        clock: C,
        result: Result<Self, TokenRejection>,
    ) -> bool where C: FnOnce() -> UnixNanos {
        exists|expires: UnixNanos, now: UnixNanos|
            {
                &&& #[trigger] call_ensures(T::get_expires_when, (&inner,), expires)
                &&& #[trigger] clock.ensures((), now)
                &&& if expires < now {
                    result matches Err(rejection) && rejection is Expired
                } else {
                    result matches Ok(token) && token@ == inner
                }
            }
    }

    /// Reads signed data as a token.
    ///
    /// # Errors
    ///
    /// if signature is invalid,
    /// the data do not decode,
    /// or the token has expired
    pub fn from_signed<F, C>(signed: &SignedData<T>, state: &S, decode: F, clock: C) -> (result:
        Result<Self, TokenRejection>) where
        F: FnOnce(&[u8]) -> Result<T, DeserializeError>,
        C: FnOnce() -> UnixNanos,

        requires
            forall|key: Cow<VerifyingKey>, data: &[u8]|
                #![trigger call_ensures(T::verifying_key_from_state, (state,), key), decode.requires((data,))]
                call_ensures(T::verifying_key_from_state, (state,), key)
                    && signed.is_accepted_under(key@) && data@ == signed.data@
                    ==> decode.requires((data,)),
            clock.requires(()),
        ensures
            Self::verifies(*signed, state, decode, clock, result),
    {
        let key = T::verifying_key_from_state(state);
        let key_ref: &VerifyingKey = match &key {
            Cow::Borrowed(key) => key,
            Cow::Owned(key) => key,
        };
        let inner = match signed.to_verified(key_ref, decode) {
            Ok(inner) => inner,
            Err(error) => return Err(TokenRejection::from(error)),
        };
        let expires = inner.get_expires_when();
        let now = clock();
        let result = Self::unless_expired(inner, expires, now);
        assert(Self::is_admitted(inner, clock, result));
        result
    }

    /// What becomes of a request with this `Cookie` header.
    pub open spec fn is_extracted<F, C>(
        header: Option<&[u8]>,
        state: &S,
        decode: F,
        clock: C,
        result: Result<Option<Self>, TokenRejection>,
    ) -> bool where F: FnOnce(&[u8]) -> Result<T, DeserializeError>, C: FnOnce() -> UnixNanos {
        exists|found: Result<Option<String>, TokenRejection>|
            {
                &&& #[trigger] finds_token(header, T::COOKIE_NAME@, found)
                &&& match found {
                    Err(rejection) => result == Err::<Option<Self>, TokenRejection>(rejection),
                    Ok(None) => result == Ok::<Option<Self>, TokenRejection>(None),
                    Ok(Some(text)) => Self::reads_text(text@, state, decode, clock, result),
                }
            }
    }

    /// What becomes of a request whose cookie has this value.
    pub open spec fn reads_text<F, C>(
        text: Seq<char>,
        state: &S,
        decode: F,
        clock: C,
        result: Result<Option<Self>, TokenRejection>,
    ) -> bool where F: FnOnce(&[u8]) -> Result<T, DeserializeError>, C: FnOnce() -> UnixNanos {
        match decoded_token(text) {
            Err(error) => result == Err::<Option<Self>, TokenRejection>(
                TokenRejection::SignedData(Error::Base64Decode(error)),
            ),
            Ok(frame) => exists|read: Result<SignedData<T>, Error>|
                {
                    &&& #[trigger] crate::signed_data::reads_as(frame, read)
                    &&& match read {
                        Err(error) => result == Err::<Option<Self>, TokenRejection>(
                            TokenRejection::SignedData(error),
                        ),
                        Ok(signed) => match result {
                            Ok(Some(token)) => Self::verifies(
                                signed,
                                state,
                                decode,
                                clock,
                                Ok(token),
                            ),
                            Ok(None) => false,
                            Err(rejection) => Self::verifies(
                                signed,
                                state,
                                decode,
                                clock,
                                Err(rejection),
                            ),
                        },
                    }
                },
        }
    }

    /// Extracts the token from the `Cookie` header of a request, if there is one.
    ///
    /// # Errors
    ///
    /// if the header is no text,
    /// an erroneous cookie stands before the token,
    /// the token is not base64 of signed data,
    /// signature is invalid,
    /// the data do not decode,
    /// or the token has expired
    pub fn from_cookie_header<F, C>(
        header: Option<&[u8]>,
        state: &S,
        decode: F,
        clock: C,
    ) -> (result: Result<Option<Self>, TokenRejection>) where
        F: FnOnce(&[u8]) -> Result<T, DeserializeError>,
        C: FnOnce() -> UnixNanos,

        requires
            forall|key: Cow<VerifyingKey>, data: &[u8], signature: Seq<u8>|
                #![trigger call_ensures(T::verifying_key_from_state, (state,), key), crate::ed25519::ed25519_accepts(key@, data@, signature)]
                call_ensures(T::verifying_key_from_state, (state,), key)
                    && crate::ed25519::ed25519_accepts(key@, data@, signature)
                    ==> decode.requires((data,)),
            clock.requires(()),
        ensures
            Self::is_extracted(header, state, decode, clock, result),
            header matches Some(value) ==> super::header::all_visible(value@) ==> {
                let cookies = cookies_in(super::header::characters(value@));
                &&& reads_cookies(super::header::characters(value@), cookies)
                &&& lookup(cookies, T::COOKIE_NAME@) matches Ok(Some(text))
                    ==> crate::encoding::inverts_encoding(
                    crate::encoding::URL_SAFE_SYMBOLS@,
                    crate::encoding::DecodePadding::RequireNone,
                    encode_utf8(text),
                    decoded_token(text),
                )
            },
    {
        let text = match token_in_header(header, T::COOKIE_NAME) {
            Ok(Some(text)) => text,
            Ok(None) => return Ok(None),
            Err(rejection) => return Err(rejection),
        };
        let engine = Base64Engine::url_safe_no_pad();
        let signed = match SignedData::<T>::try_from_base64(text.as_str().as_bytes(), &engine) {
            Ok(signed) => signed,
            Err(error) => return Err(TokenRejection::from(error)),
        };
        match Self::from_signed(&signed, state, decode, clock) {
            Ok(token) => Ok(Some(token)),
            Err(rejection) => Err(rejection),
        }
    }

    /// Insists on a token.
    ///
    /// # Errors
    ///
    /// if there is none
    pub fn required(optional: Result<Option<Self>, TokenRejection>) -> (result: Result<
        Self,
        TokenRejection,
    >)
        ensures
            match optional {
                Ok(Some(token)) => result == Ok::<Self, TokenRejection>(token),
                Ok(None) => result == Err::<Self, TokenRejection>(TokenRejection::Missing),
                Err(rejection) => result == Err::<Self, TokenRejection>(rejection),
            },
    {
        match optional {
            Ok(Some(token)) => Ok(token),
            Ok(None) => Err(TokenRejection::Missing),
            Err(rejection) => Err(rejection),
        }
    }

    /// Extracts the token from the `Cookie` header of a request, with a decoder that takes any
    /// bytes, and insists on one.
    ///
    /// # Errors
    ///
    /// if there is none, or extracting it failed
    pub fn required_from_cookie_header<F, C>(
        header: Option<&[u8]>,
        state: &S,
        decode: F,
        clock: C,
    ) -> (result: Result<Self, TokenRejection>) where
        F: FnOnce(&[u8]) -> Result<T, DeserializeError>,
        C: FnOnce() -> UnixNanos,

        requires
            forall|data: &[u8]| #[trigger] decode.requires((data,)),
            clock.requires(()),
        ensures
            exists|optional: Result<Option<Self>, TokenRejection>|
                #[trigger] Self::is_extracted(header, state, decode, clock, optional)
                    && match optional {
                    Ok(Some(token)) => result == Ok::<Self, TokenRejection>(token),
                    Ok(None) => result == Err::<Self, TokenRejection>(TokenRejection::Missing),
                    Err(rejection) => result == Err::<Self, TokenRejection>(rejection),
                },
    {
        Self::required(Self::from_cookie_header(header, state, decode, clock))
    }
}

impl TokenRejection {
    /// Replies to the rejected request.
    pub fn into_response(self) -> (reply: Reply)
        ensures
            match self {
                TokenRejection::CookieEncoding => reply.is_problem(
                    BAD_REQUEST,
                    "invalid cookie encoding"@,
                    "invalid cookie encoding"@,
                ),
                TokenRejection::CookieParse(error) => reply.is_problem(
                    BAD_REQUEST,
                    "invalid cookie syntax: "@ + error@,
                    "invalid cookie syntax: "@ + error@,
                ),
                TokenRejection::SignedData(_) => reply.is_problem(
                    UNAUTHORIZED,
                    "invalid token"@,
                    "invalid token"@,
                ),
                TokenRejection::Missing => reply.is_problem(
                    UNAUTHORIZED,
                    "missing token"@,
                    "missing token"@,
                ),
                TokenRejection::Expired => reply.is_problem(
                    UNAUTHORIZED,
                    "token exipred"@,
                    "token expired"@,
                ),
            },
    {
        match self {
            TokenRejection::CookieEncoding => Reply::problem(
                BAD_REQUEST,
                "invalid cookie encoding",
                "invalid cookie encoding",
            ),
            TokenRejection::CookieParse(error) => {
                let detail = "invalid cookie syntax: ".to_owned().concat(error.as_str());
                Reply::problem(BAD_REQUEST, detail.as_str(), detail.as_str())
            },
            TokenRejection::SignedData(_) => Reply::problem(
                UNAUTHORIZED,
                "invalid token",
                "invalid token",
            ),
            TokenRejection::Missing => Reply::problem(
                UNAUTHORIZED,
                "missing token",
                "missing token",
            ),
            TokenRejection::Expired => Reply::problem(
                UNAUTHORIZED,
                "token exipred",
                "token expired",
            ),
        }
    }
}

/// A cookie with the name is found where only cookies with other names stand before it.
proof fn lemma_lookup_finds_first(cookies: Seq<ParsedCookieView>, name: Seq<char>, k: int)
    requires
        0 <= k < cookies.len(),
        forall|j: int| 0 <= j < k ==> (#[trigger] cookies[j] matches Ok((n, _)) && n != name),
        cookies[k] matches Ok((n, _)) && n == name,
    ensures
        lookup(cookies, name) == Ok::<Option<Seq<char>>, Seq<char>>(Some(cookies[k]->Ok_0.1)),
    decreases k,
{
    if k > 0 {
        assert(cookies[0] is Ok);
        let rest = cookies.drop_first();
        assert forall|j: int| 0 <= j < k - 1 implies (#[trigger] rest[j] matches Ok((n, _)) && n
            != name) by {
            assert(rest[j] == cookies[j + 1]);
        }
        lemma_lookup_finds_first(rest, name, k - 1);
    }
}

/// The text of a `Cookie` header with safe names and values is printable.
proof fn lemma_cookie_header_is_printable(pairs: Seq<(Seq<char>, Seq<char>)>)
    requires
        forall|i: int| 0 <= i < pairs.len() ==> is_safe_pair(#[trigger] pairs[i]),
    ensures
        forall|i: int|
            0 <= i < cookie_header(pairs).len() ==> 32 <= #[trigger] cookie_header(pairs)[i] as int
                <= 126,
    decreases pairs.len(),
{
    if pairs.len() > 0 {
        assert(is_safe_pair(pairs[0]));
        let rest = pairs.drop_first();
        assert forall|i: int| 0 <= i < rest.len() implies is_safe_pair(#[trigger] rest[i]) by {
            assert(rest[i] == pairs[i + 1]);
        }
        lemma_cookie_header_is_printable(rest);
        let (name, value) = pairs[0];
        let text = cookie_header(pairs);
        assert forall|i: int| 0 <= i < text.len() implies 32 <= #[trigger] text[i] as int <= 126 by {
            let end = name.len() + 1 + value.len();
            if i < name.len() {
                assert(text[i] == name[i]);
            } else if name.len() < i < end {
                assert(text[i] == value[i - name.len() - 1]);
            } else if i >= end + 2 {
                assert(text[i] == cookie_header(rest)[i - end - 2]);
            }
        }
    }
}

/// The value of a cookie that carries a token is made of characters that stand for themselves.
pub proof fn lemma_token_text_is_safe(secret: Seq<u8>, encoding: Seq<u8>)
    ensures
        forall|i: int|
            0 <= i < token_text(secret, encoding).len() ==> is_cookie_safe(
                #[trigger] token_text(secret, encoding)[i],
            ),
{
    crate::encoding::lemma_url_safe_symbols();
    let frame = crate::ed25519::ed25519_signature(secret, encoding) + encoding;
    assert forall|i: int| 0 <= i < token_text(secret, encoding).len() implies is_cookie_safe(
        #[trigger] token_text(secret, encoding)[i],
    ) by {
        crate::encoding::lemma_sextet_range(frame, i);
        assert(crate::encoding::is_url_safe(
            crate::encoding::URL_SAFE_SYMBOLS@[crate::encoding::sextet(frame, i)],
        ));
    }
}

/// Cookies are looked at one after the other.
proof fn lemma_lookup_goes_on(
    cookies: Seq<ParsedCookieView>,
    later: Seq<ParsedCookieView>,
    name: Seq<char>,
)
    ensures
        lookup(cookies + later, name) == if lookup(cookies, name) == Ok::<
            Option<Seq<char>>,
            Seq<char>,
        >(None) {
            lookup(later, name)
        } else {
            lookup(cookies, name)
        },
    decreases cookies.len(),
{
    if cookies.len() == 0 {
        assert(cookies + later =~= later);
    } else {
        assert((cookies + later)[0] == cookies[0]);
        match cookies[0] {
            Err(_) => {},
            Ok((n, _)) => if n != name {
                assert((cookies + later).drop_first() =~= cookies.drop_first() + later);
                lemma_lookup_goes_on(cookies.drop_first(), later, name);
            },
        }
    }
}

/// The first cookie with the name is found, wherever in a header of text it stands among cookies
/// with safe names and values. What stands before these may be any text that has no cookie with
/// the name and no erroneous one; what stands behind them may be any text.
pub proof fn law_first_cookie_is_found(
    before: Seq<char>,
    pairs: Seq<(Seq<char>, Seq<char>)>,
    after: Seq<char>,
    k: int,
    header: &[u8],
    name: &str,
    result: Result<Option<String>, TokenRejection>,
)
    requires
        ends_before_cookie(before),
        begins_behind_cookie(after),
        super::header::is_visible_text(before),
        super::header::is_visible_text(after),
        lookup(cookies_in_part(before), name@) == Ok::<Option<Seq<char>>, Seq<char>>(None),
        forall|i: int| 0 <= i < pairs.len() ==> is_safe_pair(#[trigger] pairs[i]),
        0 <= k < pairs.len(),
        pairs[k].0 == name@,
        forall|j: int| 0 <= j < k ==> (#[trigger] pairs[j]).0 != name@,
        header@ == encode_utf8(header_around(before, pairs, after)),
        call_ensures(token_in_header, (Some(header), name), result),
    ensures
        result matches Ok(Some(text)) && text@ == pairs[k].1,
{
    lemma_safe_pairs_are_found(before, pairs, after, k, header@, name@);
}

/// The cookies in a header with safe names and values, once the reader of it is known to read
/// those as they stand.
proof fn lemma_safe_pairs_are_found(
    before: Seq<char>,
    pairs: Seq<(Seq<char>, Seq<char>)>,
    after: Seq<char>,
    k: int,
    header: Seq<u8>,
    name: Seq<char>,
)
    requires
        ends_before_cookie(before),
        begins_behind_cookie(after),
        super::header::is_visible_text(before),
        super::header::is_visible_text(after),
        lookup(cookies_in_part(before), name) == Ok::<Option<Seq<char>>, Seq<char>>(None),
        forall|i: int| 0 <= i < pairs.len() ==> is_safe_pair(#[trigger] pairs[i]),
        0 <= k < pairs.len(),
        pairs[k].0 == name,
        forall|j: int| 0 <= j < k ==> (#[trigger] pairs[j]).0 != name,
        header == encode_utf8(header_around(before, pairs, after)),
    ensures
        super::header::all_visible(header),
        super::header::characters(header) == header_around(before, pairs, after),
        reads_safe_pairs(
            super::header::characters(header),
            cookies_in(super::header::characters(header)),
        ) ==> lookup(cookies_in(super::header::characters(header)), name) == Ok::<
            Option<Seq<char>>,
            Seq<char>,
        >(Some(pairs[k].1)),
{
    lemma_cookie_header_is_printable(pairs);
    let text = header_around(before, pairs, after);
    let middle = cookie_header(pairs);
    assert forall|i: int| 0 <= i < text.len() implies 32 <= #[trigger] text[i] as int <= 126
        || text[i] as int == 9 by {
        if i < before.len() {
            assert(text[i] == before[i]);
        } else if i < before.len() + middle.len() {
            assert(text[i] == middle[i - before.len()]);
        } else {
            assert(text[i] == after[i - before.len() - middle.len()]);
        }
    }
    super::header::lemma_visible_text(text);
    if reads_safe_pairs(super::header::characters(header), cookies_in(text)) {
        let first = cookies_in_part(before);
        let found = as_cookies(pairs);
        assert(cookies_in(text) == first + found + cookies_in_part(after));
        lemma_lookup_finds_first(found, name, k);
        lemma_lookup_goes_on(first, found, name);
        lemma_lookup_goes_on(first + found, cookies_in_part(after), name);
    }
}

/// What is found does not depend on the cookies behind the first match or the first error.
pub proof fn law_later_cookies_are_ignored(
    cookies: Seq<ParsedCookieView>,
    later: Seq<ParsedCookieView>,
    name: Seq<char>,
)
    requires
        lookup(cookies, name) != Ok::<Option<Seq<char>>, Seq<char>>(None),
    ensures
        lookup(cookies + later, name) == lookup(cookies, name),
{
    lemma_lookup_goes_on(cookies, later, name);
}

/// What is found in a header does not change by text that is put behind it, after a `;`, however
/// malformed, once there was a match or an error.
pub proof fn law_later_text_is_ignored(
    shorter: &[u8],
    later: Seq<u8>,
    header: &[u8],
    name: &str,
    shorter_result: Result<Option<String>, TokenRejection>,
    result: Result<Option<String>, TokenRejection>,
)
    requires
        header@ == shorter@ + seq![59u8] + later,
        super::header::all_visible(header@),
        call_ensures(token_in_header, (Some(shorter), name), shorter_result),
        call_ensures(token_in_header, (Some(header), name), result),
        shorter_result != Ok::<Option<String>, TokenRejection>(None),
    ensures
        match shorter_result {
            Ok(Some(text)) => result matches Ok(Some(t)) && t@ == text@,
            Err(TokenRejection::CookieParse(error)) => result matches Err(
                TokenRejection::CookieParse(e),
            ) && e@ == error@,
            _ => false,
        },
{
    lemma_header_splits(shorter@, later, header@, name@);
}

/// A request is treated as if the text behind the first match or the first error in its `Cookie`
/// header, after a `;`, were not there.
pub proof fn law_later_text_does_not_change_the_token<T, S, F, C>(
    shorter: &[u8],
    later: Seq<u8>,
    header: &[u8],
    state: &S,
    decode: F,
    clock: C,
    result: Result<Option<Token<T, S>>, TokenRejection>,
) where
    T: CustomToken<S>,
    S: Send + Sync,
    F: FnOnce(&[u8]) -> Result<T, DeserializeError>,
    C: FnOnce() -> UnixNanos,

    requires
        header@ == shorter@ + seq![59u8] + later,
        super::header::all_visible(header@),
        lookup(cookies_in(super::header::characters(shorter@)), T::COOKIE_NAME@) != Ok::<
            Option<Seq<char>>,
            Seq<char>,
        >(None),
        call_ensures(
            Token::<T, S>::from_cookie_header::<F, C>,
            (Some(header), state, decode, clock),
            result,
        ),
    ensures
        Token::<T, S>::is_extracted(Some(shorter), state, decode, clock, result),
{
    lemma_header_splits(shorter@, later, header@, T::COOKIE_NAME@);
    let found = choose|found: Result<Option<String>, TokenRejection>|
        {
            &&& #[trigger] finds_token(Some(header), T::COOKIE_NAME@, found)
            &&& match found {
                Err(rejection) => result == Err::<Option<Token<T, S>>, TokenRejection>(rejection),
                Ok(None) => result == Ok::<Option<Token<T, S>>, TokenRejection>(None),
                Ok(Some(text)) => Token::<T, S>::reads_text(text@, state, decode, clock, result),
            }
        };
    assert(finds_token(Some(shorter), T::COOKIE_NAME@, found));
}

/// What is looked up in a header and in the part of it before a `;`, once the reader of it is known
/// to split there.
proof fn lemma_header_splits(shorter: Seq<u8>, later: Seq<u8>, header: Seq<u8>, name: Seq<char>)
    requires
        header == shorter + seq![59u8] + later,
        super::header::all_visible(header),
    ensures
        super::header::all_visible(shorter),
        splits_at_semicolons(
            super::header::characters(header),
            cookies_in(super::header::characters(header)),
        ) && lookup(cookies_in(super::header::characters(shorter)), name) != Ok::<
            Option<Seq<char>>,
            Seq<char>,
        >(None) ==> lookup(cookies_in(super::header::characters(header)), name) == lookup(
            cookies_in(super::header::characters(shorter)),
            name,
        ),
{
    assert forall|i: int| 0 <= i < shorter.len() implies super::header::is_visible(
        #[trigger] shorter[i],
    ) by {
        assert(header[i] == shorter[i]);
    }
    let text = super::header::characters(shorter);
    let rest = super::header::characters(later);
    assert(super::header::characters(header) =~= with_semicolon(text, rest));
    lemma_lookup_goes_on(cookies_in(text), cookies_in(rest), name);
}

/// A token is missing exactly where the optional extractor found none.
pub proof fn law_missing_iff_absent<T, S>(
    optional: Result<Option<Token<T, S>>, TokenRejection>,
    result: Result<Token<T, S>, TokenRejection>,
) where T: CustomToken<S>, S: Send + Sync
    requires
        call_ensures(Token::<T, S>::required, (optional,), result),
        optional != Err::<Option<Token<T, S>>, TokenRejection>(TokenRejection::Missing),
    ensures
        result == Err::<Token<T, S>, TokenRejection>(TokenRejection::Missing) <==> optional == Ok::<
            Option<Token<T, S>>,
            TokenRejection,
        >(None),
{
}

/// The optional extractor never says that a token is missing.
pub proof fn law_optional_token_is_never_missing<T, S, F, C>(
    header: Option<&[u8]>,
    state: &S,
    decode: F,
    clock: C,
    result: Result<Option<Token<T, S>>, TokenRejection>,
) where
    T: CustomToken<S>,
    S: Send + Sync,
    F: FnOnce(&[u8]) -> Result<T, DeserializeError>,
    C: FnOnce() -> UnixNanos,

    requires
        call_ensures(
            Token::<T, S>::from_cookie_header::<F, C>,
            (header, state, decode, clock),
            result,
        ),
    ensures
        result != Err::<Option<Token<T, S>>, TokenRejection>(TokenRejection::Missing),
{
}

/// The reply to signed data that are refused does not tell why they are.
pub proof fn law_invalid_tokens_are_answered_alike(
    one: Error,
    other: Error,
    reply: Reply,
    other_reply: Reply,
)
    requires
        call_ensures(TokenRejection::into_response, (TokenRejection::SignedData(one),), reply),
        call_ensures(
            TokenRejection::into_response,
            (TokenRejection::SignedData(other),),
            other_reply,
        ),
    ensures
        exists|detail: Seq<char>, text: Seq<char>|
            #![trigger reply.is_problem(UNAUTHORIZED, detail, text)]
            reply.is_problem(UNAUTHORIZED, detail, text) && other_reply.is_problem(
                UNAUTHORIZED,
                detail,
                text,
            ),
{
    assert(reply.is_problem(UNAUTHORIZED, "invalid token"@, "invalid token"@));
}

/// A token that was put into a cookie and comes back in a request is extracted as it was until it
/// expires; from then on it is rejected. In the request it may stand among other cookies with safe
/// names and values, if no cookie before it has its name. Before these there may be any text in
/// which no cookie has its name and none is erroneous, and behind them any text. The exception is
/// a signature with the identity as its nonce point, which is refused.
///
/// The service is to verify with the key that belongs to the one it signs with, and decoding is
/// to undo the encoding of the token.
pub proof fn law_issued_tokens_are_extracted<T, S, F, G, C>(
    token: &Token<T, S>,
    state: &S,
    encode: F,
    cookie: TokenCookie,
    before: Seq<char>,
    pairs: Seq<(Seq<char>, Seq<char>)>,
    after: Seq<char>,
    k: int,
    header: &[u8],
    decode: G,
    clock: C,
    expires: UnixNanos,
    now: UnixNanos,
    result: Result<Option<Token<T, S>>, TokenRejection>,
) where
    T: CustomToken<S>,
    S: Send + Sync,
    F: FnOnce(&T) -> Result<Vec<u8>, SerializeError>,
    G: FnOnce(&[u8]) -> Result<T, DeserializeError>,
    C: FnOnce() -> UnixNanos,

    requires
        call_ensures(Token::<T, S>::to_cookie_with::<F>, (token, state, encode), Ok(cookie)),
        0 <= k < pairs.len(),
        pairs[k] == (cookie.name@, cookie.value@),
        forall|i: int| 0 <= i < pairs.len() && i != k ==> is_safe_pair(#[trigger] pairs[i]),
        is_safe_pair((cookie.name@, Seq::empty())),
        forall|j: int| 0 <= j < k ==> (#[trigger] pairs[j]).0 != cookie.name@,
        ends_before_cookie(before),
        begins_behind_cookie(after),
        super::header::is_visible_text(before),
        super::header::is_visible_text(after),
        lookup(cookies_in_part(before), cookie.name@) == Ok::<Option<Seq<char>>, Seq<char>>(None),
        header@ == encode_utf8(header_around(before, pairs, after)),
        call_ensures(
            Token::<T, S>::from_cookie_header::<G, C>,
            (Some(header), state, decode, clock),
            result,
        ),
        forall|sk: Cow<SigningKey>, vk: Cow<VerifyingKey>|
            #![trigger call_ensures(T::signing_key_from_state, (state,), sk), call_ensures(T::verifying_key_from_state, (state,), vk)]
            call_ensures(T::signing_key_from_state, (state,), sk) && call_ensures(
                T::verifying_key_from_state,
                (state,),
                vk,
            ) ==> vk@ == crate::ed25519::ed25519_public_key(sk@),
        forall|bytes: Vec<u8>, data: &[u8], decoded: Result<T, DeserializeError>|
            #![trigger encode.ensures((&token@,), Ok(bytes)), decode.ensures((data,), decoded)]
            encode.ensures((&token@,), Ok(bytes)) && data@ == bytes@ && decode.ensures(
                (data,),
                decoded,
            ) ==> decoded == Ok::<T, DeserializeError>(token@),
        forall|e: UnixNanos| #[trigger]
            call_ensures(T::get_expires_when, (&token@,), e) ==> e == expires,
        forall|n: UnixNanos| #[trigger] clock.ensures((), n) ==> n == now,
    ensures
        cookie.expires == expires,
        exists|key: Cow<SigningKey>, bytes: Vec<u8>|
            #![trigger call_ensures(T::signing_key_from_state, (state,), key), encode.ensures((&token@,), Ok(bytes))]
            {
                &&& call_ensures(T::signing_key_from_state, (state,), key)
                &&& encode.ensures((&token@,), Ok(bytes))
                &&& if crate::ed25519::has_identity_nonce(
                    crate::ed25519::ed25519_signature(key@, bytes@),
                ) {
                    result matches Err(TokenRejection::SignedData(error)) && error is Verify
                } else if expires < now {
                    result matches Err(rejection) && rejection is Expired
                } else {
                    result matches Ok(Some(extracted)) && extracted@ == token@
                }
            },
{
    let (issued_expires, key, encoded) = choose|
        expires: UnixNanos,
        key: Cow<SigningKey>,
        encoded: Result<Vec<u8>, SerializeError>,
    |
        {
            &&& #[trigger] call_ensures(T::get_expires_when, (&token@,), expires)
            &&& #[trigger] call_ensures(T::signing_key_from_state, (state,), key)
            &&& #[trigger] encode.ensures((&token@,), encoded)
            &&& encoded matches Ok(bytes)
            &&& cookie.carries::<T, S>(token_text(key@, bytes@), expires)
            &&& crate::ed25519::own_signature_verifies(key@, bytes@)
        };
    let bytes = encoded->Ok_0;
    let signature = crate::ed25519::ed25519_signature(key@, bytes@);
    let frame = signature + bytes@;
    let text = token_text(key@, bytes@);

    lemma_token_text_is_safe(key@, bytes@);
    assert forall|i: int| 0 <= i < pairs.len() implies is_safe_pair(#[trigger] pairs[i]) by {
        if i == k {
            let named = (cookie.name@, Seq::<char>::empty());
            assert(is_safe_pair(named));
            assert(named.0 == pairs[i].0);
        }
    }
    lemma_safe_pairs_are_found(before, pairs, after, k, header@, T::COOKIE_NAME@);
    assert(decoded_token(text) == Ok::<Seq<u8>, DecodeError>(frame));
    assert(frame.take(crate::ed25519::SIGNATURE_LENGTH as int) =~= signature);
    assert(frame.skip(crate::ed25519::SIGNATURE_LENGTH as int) =~= bytes@);
    assert(Token::<T, S>::reads_text(text, state, decode, clock, result));
    assert(encode.ensures((&token@,), Ok(bytes)));
}

/// A token is extracted only where the value of its cookie is a signature and an encoding that the
/// service's key verifies, decoding gives the token, and it has not expired.
pub proof fn law_extracted_tokens_were_signed<T, S, G, C>(
    header: Option<&[u8]>,
    state: &S,
    decode: G,
    clock: C,
    token: Token<T, S>,
) where
    T: CustomToken<S>,
    S: Send + Sync,
    G: FnOnce(&[u8]) -> Result<T, DeserializeError>,
    C: FnOnce() -> UnixNanos,

    requires
        call_ensures(
            Token::<T, S>::from_cookie_header::<G, C>,
            (header, state, decode, clock),
            Ok(Some(token)),
        ),
    ensures
        header matches Some(value) && {
            &&& super::header::all_visible(value@)
            &&& lookup(cookies_in(super::header::characters(value@)), T::COOKIE_NAME@) matches Ok(
                Some(text),
            )
            &&& decoded_token(text) matches Ok(frame)
            &&& frame.len() >= crate::ed25519::SIGNATURE_LENGTH
            &&& exists|
                key: Cow<VerifyingKey>,
                data: &[u8],
                expires: UnixNanos,
                now: UnixNanos,
            |
                {
                    &&& #[trigger] call_ensures(T::verifying_key_from_state, (state,), key)
                    &&& data@ == frame.skip(crate::ed25519::SIGNATURE_LENGTH as int)
                    &&& crate::ed25519::ed25519_accepts(
                        key@,
                        data@,
                        frame.take(crate::ed25519::SIGNATURE_LENGTH as int),
                    )
                    &&& #[trigger] decode.ensures((data,), Ok(token@))
                    &&& #[trigger] call_ensures(T::get_expires_when, (&token@,), expires)
                    &&& #[trigger] clock.ensures((), now)
                    &&& now <= expires
                }
        },
{
    let result = Ok::<Option<Token<T, S>>, TokenRejection>(Some(token));
    let found = choose|found: Result<Option<String>, TokenRejection>|
        {
            &&& #[trigger] finds_token(header, T::COOKIE_NAME@, found)
            &&& found matches Ok(Some(text))
            &&& Token::<T, S>::reads_text(text@, state, decode, clock, result)
        };
    let text = found->Ok_0->Some_0@;
    let frame = decoded_token(text)->Ok_0;
    let read = choose|read: Result<SignedData<T>, Error>|
        {
            &&& #[trigger] crate::signed_data::reads_as(frame, read)
            &&& read matches Ok(signed)
            &&& Token::<T, S>::verifies(signed, state, decode, clock, Ok(token))
        };
    let signed = read->Ok_0;
    let key = choose|key: Cow<VerifyingKey>|
        {
            &&& #[trigger] call_ensures(T::verifying_key_from_state, (state,), key)
            &&& signed.is_accepted_under(key@)
        };
    let data = choose|data: &[u8]|
        {
            &&& data@ == signed.data@
            &&& #[trigger] decode.ensures((data,), Ok(token@))
            &&& Token::<T, S>::is_admitted(token@, clock, Ok(token))
        };
    assert(decode.ensures((data,), Ok(token@)));
}

} // verus!
