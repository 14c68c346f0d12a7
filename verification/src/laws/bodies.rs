//! Request bodies in CBOR.

use std::ops::Deref;

use vstd::prelude::*;

use crate::axum_extractors::cbor::{
    check_content_type, expect_cbor, BodyPlan, BodyRejection, Cbor, CborRejection,
    ContentTypeError, MediaType,
};
use crate::codec::DeserializeError;

verus! {

/// A media type is that of CBOR exactly if its type is `application` and its subtype, or its
/// suffix where it has one, is `cbor`.
pub proof fn law_cbor_media_types(media_type: &MediaType, cbor: bool)
    requires
        call_ensures(MediaType::is_cbor, (media_type,), cbor),
    ensures
        media_type.type_@ != "application"@ ==> !cbor,
        media_type.type_@ == "application"@ && media_type.subtype@ == "cbor"@ ==> cbor,
        media_type.type_@ == "application"@ && media_type.subtype@ != "cbor"@ ==> cbor == (
        media_type.suffix matches Some(suffix) && suffix@ == "cbor"@),
{
}

/// A media type is accepted exactly if its type is `application` and its subtype, or its suffix
/// where it has one, is `cbor`; any other is refused for not being CBOR. A text that is no media
/// type is refused with what parsing said.
pub proof fn law_only_cbor_is_accepted(
    parsed: Result<MediaType, String>,
    result: Result<(), ContentTypeError>,
)
    requires
        call_ensures(expect_cbor, (parsed,), result),
    ensures
        match parsed {
            Err(text) => result matches Err(ContentTypeError::InvalidMime(t)) && t@ == text@,
            Ok(media_type) => {
                &&& result is Ok <==> media_type.type_@ == "application"@ && (media_type.subtype@
                    == "cbor"@ || (media_type.suffix matches Some(suffix) && suffix@ == "cbor"@))
                &&& result matches Err(error) ==> error is ExpectCbor
            },
        },
{
}

/// A type with a suffix other than `cbor` and a subtype other than `cbor` is refused, as is one
/// without a suffix and with another subtype, and one of another type.
pub proof fn law_other_media_types_are_refused(
    media_type: MediaType,
    result: Result<(), ContentTypeError>,
)
    requires
        call_ensures(expect_cbor, (Ok(media_type),), result),
        media_type.type_@ != "application"@ || (media_type.subtype@ != "cbor"@ && (
        media_type.suffix matches Some(suffix) ==> suffix@ != "cbor"@)),
    ensures
        result matches Err(error) && error is ExpectCbor,
{
}

/// A content type is checked as text: without one, or where it is no text, or no media type, or
/// not that of CBOR, it is refused, each for its own reason.
pub proof fn law_content_types_are_checked(
    content_type: Option<&[u8]>,
    result: Result<(), ContentTypeError>,
)
    requires
        call_ensures(check_content_type, (content_type,), result),
    ensures
        content_type is None <==> (result matches Err(error) && error is Missing),
        content_type matches Some(value) ==> {
            let visible = forall|i: int|
                0 <= i < value@.len() ==> 32 <= #[trigger] value@[i] < 127 || value@[i] == 9;
            let names = crate::axum_extractors::cbor::media_type_in(
                Seq::new(value@.len(), |i: int| value@[i] as char),
            );
            if !visible {
                result matches Err(ContentTypeError::InvalidValue(text)) && ((forall|i: int|
                    0 <= i < value@.len() ==> #[trigger] value@[i] >= 32 && value@[i] != 127
                        || value@[i] == 9) ==> text@ == "ToStrError { _priv: () }"@)
            } else {
                match names {
                    Err(text) => result matches Err(ContentTypeError::InvalidMime(t)) && t@ == text,
                    Ok((type_, subtype, suffix)) => if type_ == "application"@ && (subtype
                        == "cbor"@ || suffix == Some("cbor"@)) {
                        result is Ok
                    } else {
                        result matches Err(error) && error is ExpectCbor
                    },
                }
            }
        },
{
}

/// A request is taken to have no value exactly if it has no body. Otherwise its body is read exactly
/// if its content type is that of CBOR.
pub proof fn law_heads_are_checked<T>(
    end_of_stream: bool,
    content_type: Option<&[u8]>,
    plan: Result<BodyPlan, CborRejection>,
)
    requires
        call_ensures(Cbor::<T>::from_request_head, (end_of_stream, content_type), plan),
    ensures
        end_of_stream <==> (plan matches Ok(plan) && plan is Absent),
        plan matches Err(rejection) ==> rejection is ContentType,
        !end_of_stream && content_type is None ==> plan == Err::<BodyPlan, CborRejection>(
            CborRejection::ContentType(ContentTypeError::Missing),
        ),
        content_type matches Some(value) ==> !end_of_stream ==> {
            let visible = forall|i: int|
                0 <= i < value@.len() ==> 32 <= #[trigger] value@[i] < 127 || value@[i] == 9;
            let names = crate::axum_extractors::cbor::media_type_in(
                Seq::new(value@.len(), |i: int| value@[i] as char),
            );
            if !visible {
                plan matches Err(CborRejection::ContentType(ContentTypeError::InvalidValue(text))) && ((
                forall|i: int|
                    0 <= i < value@.len() ==> #[trigger] value@[i] >= 32 && value@[i] != 127
                        || value@[i] == 9) ==> text@ == "ToStrError { _priv: () }"@)
            } else {
                match names {
                    Err(text) => plan matches Err(
                        CborRejection::ContentType(ContentTypeError::InvalidMime(t)),
                    ) && t@ == text,
                    Ok((type_, subtype, suffix)) => if type_ == "application"@ && (subtype
                        == "cbor"@ || suffix == Some("cbor"@)) {
                        plan matches Ok(plan) && plan is Read
                    } else {
                        plan matches Err(CborRejection::ContentType(error)) && error is ExpectCbor
                    },
                }
            }
        },
{
}

/// The value of a body that was read is what the decoder makes of it; an error of the decoder, or
/// of reading, is handed on. A body that was read always has a value or an error.
pub proof fn law_bodies_are_decoded<T, F>(
    body: Result<Vec<u8>, BodyRejection>,
    decode: F,
    result: Result<Option<Cbor<T>>, CborRejection>,
) where F: FnOnce(&[u8]) -> Result<T, DeserializeError>
    requires
        call_ensures(Cbor::<T>::from_request_body::<F>, (body, decode), result),
    ensures
        result != Ok::<Option<Cbor<T>>, CborRejection>(None),
        body matches Err(rejection) ==> result == Err::<Option<Cbor<T>>, CborRejection>(
            CborRejection::Bytes(rejection),
        ),
        body matches Ok(body) ==> match result {
            Ok(Some(value)) => exists|bytes: &[u8]|
                bytes@ == body@ && #[trigger] decode.ensures((bytes,), Ok(value.0)),
            Err(CborRejection::Cbor(error)) => exists|bytes: &[u8]|
                bytes@ == body@ && #[trigger] decode.ensures((bytes,), Err(error)),
            _ => false,
        },
{
}

/// Where a value is required, one that is there is handed on, as is an error; only one that is not
/// there is missing.
pub proof fn law_values_are_required<T>(
    optional: Result<Option<Cbor<T>>, CborRejection>,
    result: Result<Cbor<T>, CborRejection>,
)
    requires
        call_ensures(Cbor::<T>::required, (optional,), result),
    ensures
        result matches Ok(value) ==> optional == Ok::<Option<Cbor<T>>, CborRejection>(Some(value)),
        optional matches Ok(None) ==> (result matches Err(rejection) && rejection is Missing),
        optional matches Ok(Some(value)) ==> result == Ok::<Cbor<T>, CborRejection>(value),
        optional matches Err(rejection) ==> result == Err::<Cbor<T>, CborRejection>(rejection),
{
}

/// A wrapped value is the value that was wrapped, and so is a copy of it as far as the value copies
/// itself.
pub proof fn law_cbor_wraps_its_value<T: Clone>(
    value: T,
    wrapped: Cbor<T>,
    inner: &T,
    copy: Cbor<T>,
)
    requires
        call_ensures(<Cbor<T> as From<T>>::from, (value,), wrapped),
        call_ensures(<Cbor<T> as Deref>::deref, (&wrapped,), inner),
        call_ensures(<Cbor<T> as Clone>::clone, (&wrapped,), copy),
    ensures
        wrapped.0 == value,
        *inner == value,
        cloned(value, copy.0),
{
}

} // verus!
