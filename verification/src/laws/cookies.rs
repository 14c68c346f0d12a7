//! Tokens in cookies.

use std::borrow::Cow;
use std::ops::Deref;

use vstd::prelude::*;
use vstd::utf8::*;

use crate::axum_extractors::token::{
    find_cookie, token_in_header, CustomToken, ParsedCookie, Token, TokenCookie, TokenRejection,
    UnixNanos,
};
use crate::codec::{DeserializeError, SerializeError};
use crate::ed25519::{SigningKey, VerifyingKey};
use crate::encoding::DecodePadding;
use crate::signed_data::{Error, SignedData};

verus! {

/// Nothing is found among cookies exactly if all of them are well-formed and have other names.
pub proof fn law_nothing_is_found_without_the_name(
    cookies: &Vec<ParsedCookie>,
    name: &str,
    result: Result<Option<String>, String>,
)
    requires
        call_ensures(find_cookie, (cookies, name), result),
    ensures
        result == Ok::<Option<String>, String>(None) <==> forall|i: int|
            0 <= i < cookies@.len() ==> (#[trigger] cookies@[i] matches Ok(pair) && pair.0@
                != name@),
{
    let views = crate::axum_extractors::token::cookie_views(cookies@);
    lemma_lookup(views, name@);
    assert forall|i: int| 0 <= i < cookies@.len() implies views[i]
        == crate::axum_extractors::token::cookie_view(#[trigger] cookies@[i]) by {}
    if result == Ok::<Option<String>, String>(None) {
        assert forall|i: int| 0 <= i < cookies@.len() implies (#[trigger] cookies@[i] matches Ok(
            pair,
        ) && pair.0@ != name@) by {
            assert(views[i] is Ok);
        }
    }
}

/// The first cookie that is erroneous or has the name decides: its error, or its value, is what is
/// found.
pub proof fn law_first_cookie_decides(
    cookies: &Vec<ParsedCookie>,
    name: &str,
    k: int,
    result: Result<Option<String>, String>,
)
    requires
        call_ensures(find_cookie, (cookies, name), result),
        0 <= k < cookies@.len(),
        forall|j: int|
            0 <= j < k ==> (#[trigger] cookies@[j] matches Ok(pair) && pair.0@ != name@),
        cookies@[k] matches Ok(pair) ==> pair.0@ == name@,
    ensures
        match cookies@[k] {
            Ok(pair) => result matches Ok(Some(value)) && value@ == pair.1@,
            Err(error) => result matches Err(e) && e@ == error@,
        },
{
    let views = crate::axum_extractors::token::cookie_views(cookies@);
    assert forall|i: int| 0 <= i < cookies@.len() implies views[i]
        == crate::axum_extractors::token::cookie_view(#[trigger] cookies@[i]) by {}
    assert forall|j: int| 0 <= j < k implies (#[trigger] views[j] matches Ok(pair) && pair.0
        != name@) by {
        assert(cookies@[j] is Ok);
    }
    lemma_lookup_at(views, name@, k);
}

/// What looking up a name in cookies gives, by what cookies there are.
proof fn lemma_lookup(
    cookies: Seq<crate::axum_extractors::token::ParsedCookieView>,
    name: Seq<char>,
)
    ensures
        crate::axum_extractors::token::lookup(cookies, name) == Ok::<
            Option<Seq<char>>,
            Seq<char>,
        >(None) <==> forall|i: int|
            0 <= i < cookies.len() ==> (#[trigger] cookies[i] matches Ok(pair) && pair.0 != name),
        crate::axum_extractors::token::lookup(cookies, name) != Ok::<
            Option<Seq<char>>,
            Seq<char>,
        >(None) ==> exists|k: int|
            {
                &&& 0 <= k < cookies.len()
                &&& #[trigger] cookies[k] matches Ok(pair) ==> pair.0 == name
                &&& forall|j: int|
                    0 <= j < k ==> (#[trigger] cookies[j] matches Ok(pair) && pair.0 != name)
            },
    decreases cookies.len(),
{
    if cookies.len() > 0 {
        let rest = cookies.drop_first();
        lemma_lookup(rest, name);
        let here = cookies[0] matches Ok(pair) && pair.0 != name;
        if here {
            if crate::axum_extractors::token::lookup(rest, name) == Ok::<
                Option<Seq<char>>,
                Seq<char>,
            >(None) {
                assert forall|i: int| 0 <= i < cookies.len() implies (#[trigger] cookies[i] matches Ok(
                    pair,
                ) && pair.0 != name) by {
                    if i > 0 {
                        assert(cookies[i] == rest[i - 1]);
                    }
                }
            } else {
                let k = choose|k: int|
                    {
                        &&& 0 <= k < rest.len()
                        &&& #[trigger] rest[k] matches Ok(pair) ==> pair.0 == name
                        &&& forall|j: int|
                            0 <= j < k ==> (#[trigger] rest[j] matches Ok(pair) && pair.0 != name)
                    };
                assert(cookies[k + 1] == rest[k]);
                assert forall|j: int| 0 <= j < k + 1 implies (#[trigger] cookies[j] matches Ok(pair)
                    && pair.0 != name) by {
                    if j > 0 {
                        assert(cookies[j] == rest[j - 1]);
                    }
                }
            }
        } else {
            assert(cookies[0] matches Ok(pair) ==> pair.0 == name);
        }
    }
}

/// What looking up a name gives where this cookie is the first that is erroneous or has the name.
proof fn lemma_lookup_at(
    cookies: Seq<crate::axum_extractors::token::ParsedCookieView>,
    name: Seq<char>,
    k: int,
)
    requires
        0 <= k < cookies.len(),
        forall|j: int| 0 <= j < k ==> (#[trigger] cookies[j] matches Ok(pair) && pair.0 != name),
        cookies[k] matches Ok(pair) ==> pair.0 == name,
    ensures
        match cookies[k] {
            Ok(pair) => crate::axum_extractors::token::lookup(cookies, name) == Ok::<
                Option<Seq<char>>,
                Seq<char>,
            >(Some(pair.1)),
            Err(error) => crate::axum_extractors::token::lookup(cookies, name) == Err::<
                Option<Seq<char>>,
                Seq<char>,
            >(error),
        },
    decreases k,
{
    if k > 0 {
        assert(cookies[0] is Ok);
        let rest = cookies.drop_first();
        assert forall|j: int| 0 <= j < k - 1 implies (#[trigger] rest[j] matches Ok(pair) && pair.0
            != name) by {
            assert(rest[j] == cookies[j + 1]);
        }
        lemma_lookup_at(rest, name, k - 1);
    }
}

/// No token is found in a header exactly if there is no header, or one of visible characters in
/// which every cookie is well-formed and has another name. A header with other bytes is rejected
/// for its encoding, and for nothing else is.
pub proof fn law_no_text_without_the_cookie(
    header: Option<&[u8]>,
    name: &str,
    result: Result<Option<String>, TokenRejection>,
)
    requires
        call_ensures(token_in_header, (header, name), result),
    ensures
        result == Ok::<Option<String>, TokenRejection>(None) <==> match header {
            None => true,
            Some(value) => {
                let cookies = crate::axum_extractors::token::cookies_in(
                    Seq::new(value@.len(), |i: int| value@[i] as char),
                );
                &&& forall|i: int|
                    0 <= i < value@.len() ==> 32 <= #[trigger] value@[i] < 127 || value@[i] == 9
                &&& forall|i: int|
                    0 <= i < cookies.len() ==> (#[trigger] cookies[i] matches Ok(pair) && pair.0
                        != name@)
            },
        },
        (result matches Err(rejection) && rejection is CookieEncoding) <==> (
        header matches Some(value) && exists|i: int|
            0 <= i < value@.len() && !(32 <= #[trigger] value@[i] < 127 || value@[i] == 9)),
{
    if let Some(value) = header {
        lemma_lookup(
            crate::axum_extractors::token::cookies_in(
                crate::axum_extractors::header::characters(value@),
            ),
            name@,
        );
    }
}

/// In a header of visible characters the first cookie that is erroneous or has the name decides
/// what is found.
pub proof fn law_first_cookie_of_the_header_decides(
    header: &[u8],
    name: &str,
    k: int,
    result: Result<Option<String>, TokenRejection>,
)
    requires
        call_ensures(token_in_header, (Some(header), name), result),
        forall|i: int|
            0 <= i < header@.len() ==> 32 <= #[trigger] header@[i] < 127 || header@[i] == 9,
        ({
            let cookies = crate::axum_extractors::token::cookies_in(
                Seq::new(header@.len(), |i: int| header@[i] as char),
            );
            &&& 0 <= k < cookies.len()
            &&& forall|j: int|
                0 <= j < k ==> (#[trigger] cookies[j] matches Ok(pair) && pair.0 != name@)
            &&& cookies[k] matches Ok(pair) ==> pair.0 == name@
        }),
    ensures
        match crate::axum_extractors::token::cookies_in(
            Seq::new(header@.len(), |i: int| header@[i] as char),
        )[k] {
            Ok(pair) => result matches Ok(Some(text)) && text@ == pair.1,
            Err(error) => result matches Err(TokenRejection::CookieParse(e)) && e@ == error,
        },
{
    lemma_lookup_at(
        crate::axum_extractors::token::cookies_in(
            crate::axum_extractors::header::characters(header@),
        ),
        name@,
        k,
    );
}

/// A request passes as one without a token exactly if it has no `Cookie` header, or one of visible
/// characters in which every cookie is well-formed and has another name. Whatever the value of a
/// cookie with the name is, the request is not one without a token.
pub proof fn law_no_token_without_the_cookie<T, S, F, C>(
    header: Option<&[u8]>,
    state: &S,
    decode: F,
    clock: C,
    result: Result<Option<Token<T, S>>, TokenRejection>,
) where
    T: CustomToken<S>,
    S: Send + Sync,
    F: FnOnce(&[u8]) -> Result<T, DeserializeError>,
    C: FnOnce() -> UnixNanos,

    requires
        call_ensures(
            Token::<T, S>::from_cookie_header::<F, C>,
            (header, state, decode, clock),
            result,
        ),
    ensures
        result == Ok::<Option<Token<T, S>>, TokenRejection>(None) <==> match header {
            None => true,
            Some(value) => {
                let cookies = crate::axum_extractors::token::cookies_in(
                    Seq::new(value@.len(), |i: int| value@[i] as char),
                );
                &&& forall|i: int|
                    0 <= i < value@.len() ==> 32 <= #[trigger] value@[i] < 127 || value@[i] == 9
                &&& forall|i: int|
                    0 <= i < cookies.len() ==> (#[trigger] cookies[i] matches Ok(pair) && pair.0
                        != T::COOKIE_NAME@)
            },
        },
        (result matches Err(rejection) && rejection is CookieEncoding) <==> (
        header matches Some(value) && exists|i: int|
            0 <= i < value@.len() && !(32 <= #[trigger] value@[i] < 127 || value@[i] == 9)),
{
    if let Some(value) = header {
        lemma_lookup(
            crate::axum_extractors::token::cookies_in(
                crate::axum_extractors::header::characters(value@),
            ),
            T::COOKIE_NAME@,
        );
    }
}

/// A cookie with the name, where none before it has it or is erroneous, decides what becomes of a
/// request. A value that is not base64, or of too few bytes for a signature, is an error. Otherwise
/// the first 64 bytes are the signature of the others: where a key of the service refuses it, that
/// is the error; where it takes it, the others are decoded, and an error of the decoder is handed
/// on; and a token that is decoded is extracted unless it expires before now.
pub proof fn law_first_cookie_decides_the_token<T, S, F, C>(
    header: &[u8],
    state: &S,
    decode: F,
    clock: C,
    k: int,
    value: Seq<char>,
    result: Result<Option<Token<T, S>>, TokenRejection>,
) where
    T: CustomToken<S>,
    S: Send + Sync,
    F: FnOnce(&[u8]) -> Result<T, DeserializeError>,
    C: FnOnce() -> UnixNanos,

    requires
        call_ensures(
            Token::<T, S>::from_cookie_header::<F, C>,
            (Some(header), state, decode, clock),
            result,
        ),
        forall|i: int|
            0 <= i < header@.len() ==> 32 <= #[trigger] header@[i] < 127 || header@[i] == 9,
        ({
            let cookies = crate::axum_extractors::token::cookies_in(
                Seq::new(header@.len(), |i: int| header@[i] as char),
            );
            &&& 0 <= k < cookies.len()
            &&& forall|j: int|
                0 <= j < k ==> (#[trigger] cookies[j] matches Ok(pair) && pair.0
                    != T::COOKIE_NAME@)
            &&& cookies[k] == Ok::<(Seq<char>, Seq<char>), Seq<char>>((T::COOKIE_NAME@, value))
        }),
    ensures
        match crate::encoding::base64_decoded(
            "ABCDEFGHIJKLMNOPQRSTUVWXYZabcdefghijklmnopqrstuvwxyz0123456789-_"@,
            false,
            DecodePadding::RequireNone,
            encode_utf8(value),
        ) {
            Err(error) => result == Err::<Option<Token<T, S>>, TokenRejection>(
                TokenRejection::SignedData(Error::Base64Decode(error)),
            ),
            Ok(frame) => if frame.len() < 64 {
                result matches Err(TokenRejection::SignedData(Error::InvalidLength(length)))
                    && length == frame.len()
            } else {
                exists|key: Cow<VerifyingKey>|
                    {
                        &&& #[trigger] call_ensures(T::verifying_key_from_state, (state,), key)
                        &&& if crate::ed25519::ed25519_accepts(key@, frame.skip(64), frame.take(64)) {
                            exists|data: &[u8], decoded: Result<T, DeserializeError>|
                                {
                                    &&& data@ == frame.skip(64)
                                    &&& #[trigger] decode.ensures((data,), decoded)
                                    &&& match decoded {
                                        Err(error) => result == Err::<
                                            Option<Token<T, S>>,
                                            TokenRejection,
                                        >(TokenRejection::SignedData(Error::Deserialize(error))),
                                        Ok(inner) => exists|expires: UnixNanos, now: UnixNanos|
                                            {
                                                &&& #[trigger] call_ensures(
                                                    T::get_expires_when,
                                                    (&inner,),
                                                    expires,
                                                )
                                                &&& #[trigger] clock.ensures((), now)
                                                &&& if expires < now {
                                                    result matches Err(rejection)
                                                        && rejection is Expired
                                                } else {
                                                    result matches Ok(Some(token)) && token@
                                                        == inner
                                                }
                                            },
                                    }
                                }
                        } else {
                            result matches Err(TokenRejection::SignedData(error))
                                && error is Verify
                        }
                    }
            },
        },
{
    lemma_lookup_at(
        crate::axum_extractors::token::cookies_in(
            crate::axum_extractors::header::characters(header@),
        ),
        T::COOKIE_NAME@,
        k,
    );
    assert(Token::<T, S>::reads_text(value, state, decode, clock, result));
}

/// An erroneous cookie, where none before it is erroneous or has the name, is why the request is
/// rejected.
pub proof fn law_erroneous_cookie_is_rejected<T, S, F, C>(
    header: &[u8],
    state: &S,
    decode: F,
    clock: C,
    k: int,
    error: Seq<char>,
    result: Result<Option<Token<T, S>>, TokenRejection>,
) where
    T: CustomToken<S>,
    S: Send + Sync,
    F: FnOnce(&[u8]) -> Result<T, DeserializeError>,
    C: FnOnce() -> UnixNanos,

    requires
        call_ensures(
            Token::<T, S>::from_cookie_header::<F, C>,
            (Some(header), state, decode, clock),
            result,
        ),
        forall|i: int|
            0 <= i < header@.len() ==> 32 <= #[trigger] header@[i] < 127 || header@[i] == 9,
        ({
            let cookies = crate::axum_extractors::token::cookies_in(
                Seq::new(header@.len(), |i: int| header@[i] as char),
            );
            &&& 0 <= k < cookies.len()
            &&& forall|j: int|
                0 <= j < k ==> (#[trigger] cookies[j] matches Ok(pair) && pair.0
                    != T::COOKIE_NAME@)
            &&& cookies[k] == Err::<(Seq<char>, Seq<char>), Seq<char>>(error)
        }),
    ensures
        result matches Err(TokenRejection::CookieParse(e)) && e@ == error,
{
    lemma_lookup_at(
        crate::axum_extractors::token::cookies_in(
            crate::axum_extractors::header::characters(header@),
        ),
        T::COOKIE_NAME@,
        k,
    );
}

/// Where a token is required it is missing exactly if a request passes as one without a token: it
/// has no `Cookie` header, or one of visible characters in which every cookie is well-formed and
/// has another name.
pub proof fn law_required_token_is_missing_without_the_cookie<T, S, F, C>(
    header: Option<&[u8]>,
    state: &S,
    decode: F,
    clock: C,
    result: Result<Token<T, S>, TokenRejection>,
) where
    T: CustomToken<S>,
    S: Send + Sync,
    F: FnOnce(&[u8]) -> Result<T, DeserializeError>,
    C: FnOnce() -> UnixNanos,

    requires
        call_ensures(
            Token::<T, S>::required_from_cookie_header::<F, C>,
            (header, state, decode, clock),
            result,
        ),
    ensures
        (result matches Err(rejection) && rejection is Missing) <==> match header {
            None => true,
            Some(value) => {
                let cookies = crate::axum_extractors::token::cookies_in(
                    Seq::new(value@.len(), |i: int| value@[i] as char),
                );
                &&& forall|i: int|
                    0 <= i < value@.len() ==> 32 <= #[trigger] value@[i] < 127 || value@[i] == 9
                &&& forall|i: int|
                    0 <= i < cookies.len() ==> (#[trigger] cookies[i] matches Ok(pair) && pair.0
                        != T::COOKIE_NAME@)
            },
        },
        (result matches Err(rejection) && rejection is CookieEncoding) <==> (
        header matches Some(value) && exists|i: int|
            0 <= i < value@.len() && !(32 <= #[trigger] value@[i] < 127 || value@[i] == 9)),
{
    if let Some(value) = header {
        lemma_lookup(
            crate::axum_extractors::token::cookies_in(
                crate::axum_extractors::header::characters(value@),
            ),
            T::COOKIE_NAME@,
        );
    }
}

/// Where a token is required, the first cookie with the name decides as it does where one is not.
pub proof fn law_first_cookie_decides_the_required_token<T, S, F, C>(
    header: &[u8],
    state: &S,
    decode: F,
    clock: C,
    k: int,
    value: Seq<char>,
    result: Result<Token<T, S>, TokenRejection>,
) where
    T: CustomToken<S>,
    S: Send + Sync,
    F: FnOnce(&[u8]) -> Result<T, DeserializeError>,
    C: FnOnce() -> UnixNanos,

    requires
        call_ensures(
            Token::<T, S>::required_from_cookie_header::<F, C>,
            (Some(header), state, decode, clock),
            result,
        ),
        forall|i: int|
            0 <= i < header@.len() ==> 32 <= #[trigger] header@[i] < 127 || header@[i] == 9,
        ({
            let cookies = crate::axum_extractors::token::cookies_in(
                Seq::new(header@.len(), |i: int| header@[i] as char),
            );
            &&& 0 <= k < cookies.len()
            &&& forall|j: int|
                0 <= j < k ==> (#[trigger] cookies[j] matches Ok(pair) && pair.0
                    != T::COOKIE_NAME@)
            &&& cookies[k] == Ok::<(Seq<char>, Seq<char>), Seq<char>>((T::COOKIE_NAME@, value))
        }),
    ensures
        match crate::encoding::base64_decoded(
            "ABCDEFGHIJKLMNOPQRSTUVWXYZabcdefghijklmnopqrstuvwxyz0123456789-_"@,
            false,
            DecodePadding::RequireNone,
            encode_utf8(value),
        ) {
            Err(error) => result == Err::<Token<T, S>, TokenRejection>(
                TokenRejection::SignedData(Error::Base64Decode(error)),
            ),
            Ok(frame) => if frame.len() < 64 {
                result matches Err(TokenRejection::SignedData(Error::InvalidLength(length)))
                    && length == frame.len()
            } else {
                exists|key: Cow<VerifyingKey>|
                    {
                        &&& #[trigger] call_ensures(T::verifying_key_from_state, (state,), key)
                        &&& if crate::ed25519::ed25519_accepts(key@, frame.skip(64), frame.take(64)) {
                            exists|data: &[u8], decoded: Result<T, DeserializeError>|
                                {
                                    &&& data@ == frame.skip(64)
                                    &&& #[trigger] decode.ensures((data,), decoded)
                                    &&& match decoded {
                                        Err(error) => result == Err::<
                                            Token<T, S>,
                                            TokenRejection,
                                        >(TokenRejection::SignedData(Error::Deserialize(error))),
                                        Ok(inner) => exists|expires: UnixNanos, now: UnixNanos|
                                            {
                                                &&& #[trigger] call_ensures(
                                                    T::get_expires_when,
                                                    (&inner,),
                                                    expires,
                                                )
                                                &&& #[trigger] clock.ensures((), now)
                                                &&& if expires < now {
                                                    result matches Err(rejection)
                                                        && rejection is Expired
                                                } else {
                                                    result matches Ok(token) && token@ == inner
                                                }
                                            },
                                    }
                                }
                        } else {
                            result matches Err(TokenRejection::SignedData(error))
                                && error is Verify
                        }
                    }
            },
        },
{
    lemma_lookup_at(
        crate::axum_extractors::token::cookies_in(
            crate::axum_extractors::header::characters(header@),
        ),
        T::COOKIE_NAME@,
        k,
    );
    let optional = choose|optional: Result<Option<Token<T, S>>, TokenRejection>|
        #[trigger] Token::<T, S>::is_extracted(Some(header), state, decode, clock, optional)
            && match optional {
            Ok(Some(token)) => result == Ok::<Token<T, S>, TokenRejection>(token),
            Ok(None) => result == Err::<Token<T, S>, TokenRejection>(TokenRejection::Missing),
            Err(rejection) => result == Err::<Token<T, S>, TokenRejection>(rejection),
        };
    assert(Token::<T, S>::reads_text(value, state, decode, clock, optional));
}

/// Where a token is required, an erroneous cookie before it is why the request is rejected.
pub proof fn law_erroneous_cookie_is_rejected_where_required<T, S, F, C>(
    header: &[u8],
    state: &S,
    decode: F,
    clock: C,
    k: int,
    error: Seq<char>,
    result: Result<Token<T, S>, TokenRejection>,
) where
    T: CustomToken<S>,
    S: Send + Sync,
    F: FnOnce(&[u8]) -> Result<T, DeserializeError>,
    C: FnOnce() -> UnixNanos,

    requires
        call_ensures(
            Token::<T, S>::required_from_cookie_header::<F, C>,
            (Some(header), state, decode, clock),
            result,
        ),
        forall|i: int|
            0 <= i < header@.len() ==> 32 <= #[trigger] header@[i] < 127 || header@[i] == 9,
        ({
            let cookies = crate::axum_extractors::token::cookies_in(
                Seq::new(header@.len(), |i: int| header@[i] as char),
            );
            &&& 0 <= k < cookies.len()
            &&& forall|j: int|
                0 <= j < k ==> (#[trigger] cookies[j] matches Ok(pair) && pair.0
                    != T::COOKIE_NAME@)
            &&& cookies[k] == Err::<(Seq<char>, Seq<char>), Seq<char>>(error)
        }),
    ensures
        result matches Err(TokenRejection::CookieParse(e)) && e@ == error,
{
    lemma_lookup_at(
        crate::axum_extractors::token::cookies_in(
            crate::axum_extractors::header::characters(header@),
        ),
        T::COOKIE_NAME@,
        k,
    );
}

/// Signed data are a token only where a key of the service takes the signature, the decoder makes
/// one of the data, and it does not expire before now; each failure has its own error.
pub proof fn law_signed_data_as_token<T, S, F, C>(
    signed: &SignedData<T>,
    state: &S,
    decode: F,
    clock: C,
    result: Result<Token<T, S>, TokenRejection>,
) where
    T: CustomToken<S>,
    S: Send + Sync,
    F: FnOnce(&[u8]) -> Result<T, DeserializeError>,
    C: FnOnce() -> UnixNanos,

    requires
        call_ensures(Token::<T, S>::from_signed::<F, C>, (signed, state, decode, clock), result),
    ensures
        exists|key: Cow<VerifyingKey>|
            {
                &&& #[trigger] call_ensures(T::verifying_key_from_state, (state,), key)
                &&& if crate::ed25519::ed25519_accepts(key@, signed.data@, signed.signature@) {
                    exists|data: &[u8], decoded: Result<T, DeserializeError>|
                        {
                            &&& data@ == signed.data@
                            &&& #[trigger] decode.ensures((data,), decoded)
                            &&& match decoded {
                                Err(error) => result == Err::<Token<T, S>, TokenRejection>(
                                    TokenRejection::SignedData(Error::Deserialize(error)),
                                ),
                                Ok(inner) => exists|expires: UnixNanos, now: UnixNanos|
                                    {
                                        &&& #[trigger] call_ensures(
                                            T::get_expires_when,
                                            (&inner,),
                                            expires,
                                        )
                                        &&& #[trigger] clock.ensures((), now)
                                        &&& if expires < now {
                                            result matches Err(rejection) && rejection is Expired
                                        } else {
                                            result matches Ok(token) && token@ == inner
                                        }
                                    },
                            }
                        }
                } else {
                    result matches Err(TokenRejection::SignedData(error)) && error is Verify
                }
            },
{
}

/// A token is refused exactly if it expires before now; the last moment still counts.
pub proof fn law_tokens_expire<T, S>(
    inner: T,
    expires: UnixNanos,
    now: UnixNanos,
    result: Result<Token<T, S>, TokenRejection>,
) where T: CustomToken<S>, S: Send + Sync
    requires
        call_ensures(Token::<T, S>::unless_expired, (inner, expires, now), result),
    ensures
        result is Ok <==> now <= expires,
        match result {
            Ok(token) => token@ == inner,
            Err(rejection) => rejection is Expired,
        },
{
}

/// Where a token is required, one that is there is handed on, as is an error; only one that is not
/// there is missing.
pub proof fn law_tokens_are_required<T, S>(
    optional: Result<Option<Token<T, S>>, TokenRejection>,
    result: Result<Token<T, S>, TokenRejection>,
) where T: CustomToken<S>, S: Send + Sync
    requires
        call_ensures(Token::<T, S>::required, (optional,), result),
    ensures
        result matches Ok(token) ==> optional == Ok::<Option<Token<T, S>>, TokenRejection>(
            Some(token),
        ),
        optional matches Ok(None) ==> (result matches Err(rejection) && rejection is Missing),
        optional matches Ok(Some(token)) ==> result == Ok::<Token<T, S>, TokenRejection>(token),
        optional matches Err(rejection) ==> result == Err::<Token<T, S>, TokenRejection>(
            rejection,
        ),
{
}

/// The cookie of signed data has the name, the path and each of the attributes that the service
/// gives its tokens, the time of expiry that it is made with, and the signature followed by the
/// data, in URL-safe base64 without padding, as its value.
pub proof fn law_cookies_have_their_attributes<T, S>(
    signed: &SignedData<T>,
    expires: UnixNanos,
    cookie: TokenCookie,
) where T: CustomToken<S>, S: Send + Sync
    requires
        call_ensures(Token::<T, S>::cookie_for, (signed, expires), cookie),
    ensures
        cookie.name@ == T::COOKIE_NAME@,
        cookie.secure == T::SECURE,
        cookie.http_only == T::HTTP_ONLY,
        cookie.same_site == T::SAME_SITE,
        cookie.path@ == T::PATH@,
        cookie.expires == expires,
        cookie.value@ == crate::encoding::base64_text(
            "ABCDEFGHIJKLMNOPQRSTUVWXYZabcdefghijklmnopqrstuvwxyz0123456789-_"@,
            false,
            signed.signature@ + signed.data@,
        ),
{
}

/// The cookie of a token has the name, the path and each of the attributes that the service gives
/// its tokens, expires when the token does, and carries the signature of its encoding under the key
/// of the service, followed by the encoding. Only a token without an encoding has none.
pub proof fn law_issued_cookies_have_their_attributes<T, S, F>(
    token: &Token<T, S>,
    state: &S,
    encode: F,
    result: Result<TokenCookie, Error>,
) where
    T: CustomToken<S>,
    S: Send + Sync,
    F: FnOnce(&T) -> Result<Vec<u8>, SerializeError>,

    requires
        call_ensures(Token::<T, S>::to_cookie_with::<F>, (token, state, encode), result),
    ensures
        match result {
            Ok(cookie) => {
                &&& cookie.name@ == T::COOKIE_NAME@
                &&& cookie.secure == T::SECURE
                &&& cookie.http_only == T::HTTP_ONLY
                &&& cookie.same_site == T::SAME_SITE
                &&& cookie.path@ == T::PATH@
                &&& call_ensures(T::get_expires_when, (&token@,), cookie.expires)
                &&& exists|key: Cow<SigningKey>, bytes: Vec<u8>|
                    {
                        &&& #[trigger] call_ensures(T::signing_key_from_state, (state,), key)
                        &&& #[trigger] encode.ensures((&token@,), Ok(bytes))
                        &&& cookie.value@ == crate::encoding::base64_text(
                            "ABCDEFGHIJKLMNOPQRSTUVWXYZabcdefghijklmnopqrstuvwxyz0123456789-_"@,
                            false,
                            crate::ed25519::ed25519_signature(key@, bytes@) + bytes@,
                        )
                    }
            },
            Err(Error::Serialize(error)) => encode.ensures((&token@,), Err(error)),
            Err(_) => false,
        },
{
}

/// The same of a cookie that is issued only if its value fits into memory. It is not exactly if
/// its value would be longer than the largest `isize`.
pub proof fn law_tried_cookies_have_their_attributes<T, S, F>(
    token: &Token<T, S>,
    state: &S,
    encode: F,
    result: Result<Option<TokenCookie>, Error>,
) where
    T: CustomToken<S>,
    S: Send + Sync,
    F: FnOnce(&T) -> Result<Vec<u8>, SerializeError>,

    requires
        call_ensures(Token::<T, S>::try_to_cookie_with::<F>, (token, state, encode), result),
    ensures
        match result {
            Ok(Some(cookie)) => {
                &&& cookie.name@ == T::COOKIE_NAME@
                &&& cookie.secure == T::SECURE
                &&& cookie.http_only == T::HTTP_ONLY
                &&& cookie.same_site == T::SAME_SITE
                &&& cookie.path@ == T::PATH@
                &&& call_ensures(T::get_expires_when, (&token@,), cookie.expires)
                &&& exists|key: Cow<SigningKey>, bytes: Vec<u8>|
                    {
                        &&& #[trigger] call_ensures(T::signing_key_from_state, (state,), key)
                        &&& #[trigger] encode.ensures((&token@,), Ok(bytes))
                        &&& (4 * (64 + bytes@.len()) + 2) / 3 <= isize::MAX
                        &&& cookie.value@ == crate::encoding::base64_text(
                            "ABCDEFGHIJKLMNOPQRSTUVWXYZabcdefghijklmnopqrstuvwxyz0123456789-_"@,
                            false,
                            crate::ed25519::ed25519_signature(key@, bytes@) + bytes@,
                        )
                    }
            },
            Ok(None) => exists|bytes: Vec<u8>| #[trigger]
                encode.ensures((&token@,), Ok(bytes)) && (4 * (64 + bytes@.len()) + 2) / 3
                    > isize::MAX,
            Err(Error::Serialize(error)) => encode.ensures((&token@,), Err(error)),
            Err(_) => false,
        },
{
}

/// A token holds what it was made of, shows it, and copies it as far as it copies itself.
pub proof fn law_tokens_hold_their_content<T, S>(
    inner: T,
    token: Token<T, S>,
    shown: &T,
    copy: Token<T, S>,
) where T: CustomToken<S> + Clone, S: Send + Sync + Clone
    requires
        call_ensures(Token::<T, S>::new, (inner,), token),
        call_ensures(<Token<T, S> as Deref>::deref, (&token,), shown),
        call_ensures(<Token<T, S> as Clone>::clone, (&token,), copy),
    ensures
        token@ == inner,
        *shown == inner,
        cloned(inner, copy@),
{
}

} // verus!
