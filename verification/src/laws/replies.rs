//! Replies, and those to requests that are refused.

use vstd::prelude::*;

use crate::axum_extractors::cbor::{BodyRejection, Cbor, CborRejection, ContentTypeError};
use crate::axum_extractors::reply::{Body, Reply};
use crate::axum_extractors::token::TokenRejection;
use crate::codec::{DeserializeError, SerializeError};

verus! {

/// The parts of a reply are those that it is made of; only a reply with a problem has one, and the
/// problem names the status of the reply.
pub proof fn law_replies_have_their_parts(
    status: u16,
    text: String,
    detail: &str,
    problem_text: &str,
    content_type: &str,
    bytes: Vec<u8>,
    text_reply: Reply,
    empty_reply: Reply,
    bytes_reply: Reply,
    problem_reply: Reply,
)
    requires
        call_ensures(Reply::text, (status, text), text_reply),
        call_ensures(Reply::empty, (status,), empty_reply),
        call_ensures(Reply::bytes, (content_type, bytes), bytes_reply),
        call_ensures(Reply::problem, (status, detail, problem_text), problem_reply),
    ensures
        text_reply.status == status,
        text_reply.problem is None,
        text_reply.body matches Body::Text(t) && t@ == text@,
        empty_reply.status == status,
        empty_reply.problem is None,
        empty_reply.body is Empty,
        bytes_reply.status == 200,
        bytes_reply.problem is None,
        bytes_reply.body matches Body::Bytes { content_type: c, bytes: b } && c@ == content_type@
            && b@ == bytes@,
        problem_reply.status == status,
        problem_reply.problem matches Some(problem) && problem.status == status
            && problem.detail@ == detail@,
        problem_reply.body matches Body::Text(t) && t@ == problem_text@,
{
}

/// A request without a valid token is refused with status 400 where its cookies cannot be read, and
/// with status 401 otherwise. The problem names the same status.
pub proof fn law_token_rejection_status(rejection: TokenRejection, reply: Reply)
    requires
        call_ensures(TokenRejection::into_response, (rejection,), reply),
    ensures
        rejection is CookieEncoding || rejection is CookieParse ==> reply.status == 400,
        rejection is SignedData || rejection is Missing || rejection is Expired ==> reply.status
            == 401,
        reply.problem matches Some(problem) && problem.status == reply.status,
{
}

/// What the replies to requests without a valid token say.
pub proof fn law_token_rejection_texts(rejection: TokenRejection, reply: Reply)
    requires
        call_ensures(TokenRejection::into_response, (rejection,), reply),
    ensures
        reply.body matches Body::Text(text) && reply.problem matches Some(problem)
            && match rejection {
            TokenRejection::CookieEncoding => text@ == "invalid cookie encoding"@
                && problem.detail@ == "invalid cookie encoding"@,
            TokenRejection::CookieParse(error) => text@ == "invalid cookie syntax: "@ + error@
                && problem.detail@ == "invalid cookie syntax: "@ + error@,
            TokenRejection::SignedData(_) => text@ == "invalid token"@ && problem.detail@
                == "invalid token"@,
            TokenRejection::Missing => text@ == "missing token"@ && problem.detail@
                == "missing token"@,
            TokenRejection::Expired => text@ == "token expired"@ && problem.detail@
                == "token exipred"@,
        },
{
}

/// What is said of a refused content type.
pub proof fn law_content_type_descriptions(error: &ContentTypeError, text: String)
    requires
        call_ensures(ContentTypeError::description, (error,), text),
    ensures
        match *error {
            ContentTypeError::Missing => text@ == "missing header"@,
            ContentTypeError::InvalidValue(e) => text@ == "invalid value: "@ + e@,
            ContentTypeError::InvalidMime(e) => text@ == "invalid mime: "@ + e@,
            ContentTypeError::ExpectCbor => text@ == "expect application/cbor"@,
        },
{
}

/// A request is refused with status 415 for its content type, with the status and text of the
/// reader where its body cannot be read, and with status 400 where there is none.
pub proof fn law_cbor_rejections_before_decoding(rejection: CborRejection, reply: Reply)
    requires
        call_ensures(CborRejection::into_response, (rejection,), reply),
        rejection !is Cbor,
    ensures
        reply.problem is None,
        reply.body matches Body::Text(text) && match rejection {
            CborRejection::ContentType(ContentTypeError::Missing) => reply.status == 415 && text@
                == "missing header"@,
            CborRejection::ContentType(ContentTypeError::InvalidValue(e)) => reply.status == 415
                && text@ == "invalid value: "@ + e@,
            CborRejection::ContentType(ContentTypeError::InvalidMime(e)) => reply.status == 415
                && text@ == "invalid mime: "@ + e@,
            CborRejection::ContentType(ContentTypeError::ExpectCbor) => reply.status == 415
                && text@ == "expect application/cbor"@,
            CborRejection::Bytes(body) => reply.status == body.status && text@ == body.text@,
            CborRejection::Missing => reply.status == 400 && text@ == "expect body"@,
            CborRejection::Cbor(_) => false,
        },
{
}

/// A body that is not CBOR, or does not fit the value, is refused with status 400 and a text that
/// tells where; any other failure of decoding is one of the service, with status 500 and no text.
pub proof fn law_cbor_rejections_by_decoding(error: DeserializeError, reply: Reply)
    requires
        call_ensures(CborRejection::into_response, (CborRejection::Cbor(error),), reply),
    ensures
        reply.problem is None,
        match error {
            DeserializeError::Syntax(offset) => reply.status == 400 && (
            reply.body matches Body::Text(text) && text@ == "idx: "@ + crate::text::decimal(
                offset as nat,
            )),
            DeserializeError::Semantic(None, message) => reply.status == 400 && (
            reply.body matches Body::Text(text) && text@ == message@ + ": "@ + "None"@),
            DeserializeError::Semantic(Some(offset), message) => reply.status == 400 && (
            reply.body matches Body::Text(text) && text@ == message@ + ": "@ + ("Some("@
                + crate::text::decimal(offset as nat) + ")"@)),
            DeserializeError::Io(_) | DeserializeError::RecursionLimitExceeded => reply.status
                == 500 && reply.body is Empty,
        },
{
}

/// A value is sent as what the encoder makes of it, with status 200 and the content type of CBOR;
/// one that has no encoding is a failure of the service, with status 500 and no body.
pub proof fn law_values_are_sent<T, F>(value: Cbor<T>, encode: F, reply: Reply) where
    F: FnOnce(&T) -> Result<Vec<u8>, SerializeError>,

    requires
        call_ensures(Cbor::<T>::into_response::<F>, (value, encode), reply),
    ensures
        reply.problem is None,
        match reply.body {
            Body::Bytes { content_type, bytes } => reply.status == 200 && content_type@
                == "application/cbor"@ && exists|encoded: Vec<u8>| #[trigger]
                encode.ensures((&value.0,), Ok(encoded)) && encoded@ == bytes@,
            Body::Empty => reply.status == 500 && exists|error: SerializeError| #[trigger]
                encode.ensures((&value.0,), Err(error)),
            Body::Text(_) => false,
        },
{
    let encoded = choose|encoded: Result<Vec<u8>, SerializeError>| #[trigger]
        encode.ensures((&value.0,), encoded) && match encoded {
            Ok(bytes) => reply.is_bytes("application/cbor"@, bytes@),
            Err(_) => reply.is_empty(500),
        };
    match encoded {
        Ok(bytes) => assert(encode.ensures((&value.0,), Ok(bytes))),
        Err(error) => assert(encode.ensures((&value.0,), Err(error))),
    }
}

/// Why signed data are no token is kept as it is.
pub proof fn law_token_rejections_keep_their_cause(
    error: crate::signed_data::Error,
    rejection: TokenRejection,
)
    requires
        call_ensures(
            <TokenRejection as From<crate::signed_data::Error>>::from,
            (error,),
            rejection,
        ),
    ensures
        rejection == TokenRejection::SignedData(error),
{
}

/// Why a body has no value is kept as it is.
pub proof fn law_cbor_rejections_keep_their_cause(
    content_type: ContentTypeError,
    body: BodyRejection,
    decode: DeserializeError,
    by_content_type: CborRejection,
    by_body: CborRejection,
    by_decode: CborRejection,
)
    requires
        call_ensures(
            <CborRejection as From<ContentTypeError>>::from,
            (content_type,),
            by_content_type,
        ),
        call_ensures(<CborRejection as From<BodyRejection>>::from, (body,), by_body),
        call_ensures(<CborRejection as From<DeserializeError>>::from, (decode,), by_decode),
    ensures
        by_content_type == CborRejection::ContentType(content_type),
        by_body == CborRejection::Bytes(body),
        by_decode == CborRejection::Cbor(decode),
{
}

} // verus!
