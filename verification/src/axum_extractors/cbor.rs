//! Request and reply bodies in CBOR.

use mime::Mime;
use vstd::prelude::*;
use vstd::string::*;

use super::header::header_text;
use super::reply::{
    Reply, BAD_REQUEST, INTERNAL_SERVER_ERROR, UNSUPPORTED_MEDIA_TYPE,
};
use crate::codec::{DeserializeError, SerializeError};
use crate::text::{same_text, to_decimal};

verus! {

/// A value that travels as a CBOR body.
#[derive(Debug, Default, PartialEq, Eq, PartialOrd, Ord, Hash)]
pub struct Cbor<T>(pub T);

/// Why the `Content-Type` header is refused.
#[derive(Debug)]
pub enum ContentTypeError {
    /// There is none.
    Missing,
    /// Its value is no text; the debug form of the error.
    InvalidValue(String),
    /// Its value is no media type; the debug form of the error.
    InvalidMime(String),
    /// It names another media type.
    ExpectCbor,
}

/// Why reading the body failed: the status and the text to reply with.
#[derive(Debug)]
pub struct BodyRejection {
    /// The status code.
    pub status: u16,
    /// The text.
    pub text: String,
}

/// Why a request has no CBOR value.
#[derive(Debug)]
pub enum CborRejection {
    /// The content type is not that of CBOR.
    ContentType(ContentTypeError),
    /// The body could not be read.
    Bytes(BodyRejection),
    /// The body does not encode a value.
    Cbor(DeserializeError),
    /// There is no body.
    Missing,
}

/// What to do with the body once the head of the request is known.
#[derive(Debug, Clone, Copy, PartialEq, Eq, Structural)]
pub enum BodyPlan {
    /// There is no body to read, and so no value.
    Absent,
    /// Read the body and decode it.
    Read,
}

/// The names in a media type, in lower case.
#[derive(Debug)]
pub struct MediaType {
    /// What stands before the slash.
    pub type_: String,
    /// What stands behind the slash, up to the last plus sign.
    pub subtype: String,
    /// What stands behind the last plus sign.
    pub suffix: Option<String>,
}

/// The names in the media type that a text denotes, or the debug form of the error.
pub uninterp spec fn media_type_in(text: Seq<char>) -> Result<
    (Seq<char>, Seq<char>, Option<Seq<char>>),
    Seq<char>,
>;

/// The names in a media type as sequences, or the text of the error.
pub open spec fn names_or_error(parsed: Result<MediaType, String>) -> Result<
    (Seq<char>, Seq<char>, Option<Seq<char>>),
    Seq<char>,
> {
    match parsed {
        Ok(media_type) => Ok(
            (
                media_type.type_@,
                media_type.subtype@,
                match media_type.suffix {
                    Some(suffix) => Some(suffix@),
                    None => None,
                },
            ),
        ),
        Err(error) => Err(error@),
    }
}

/// A nonempty run of lower-case ASCII letters.
pub open spec fn is_lower_word(word: Seq<char>) -> bool {
    word.len() > 0 && forall|i: int| 0 <= i < word.len() ==> 'a' <= #[trigger] word[i] <= 'z'
}

/// Two names with a slash between them.
pub open spec fn with_slash(type_: Seq<char>, subtype: Seq<char>) -> Seq<char> {
    type_ + seq!['/'] + subtype
}

/// Where the text is two lower-case words with a slash between them, the result is those words,
/// without a suffix.
pub open spec fn splits_at_slash(
    text: Seq<char>,
    result: Result<(Seq<char>, Seq<char>, Option<Seq<char>>), Seq<char>>,
) -> bool {
    forall|type_: Seq<char>, subtype: Seq<char>|
        text == #[trigger] with_slash(type_, subtype) && is_lower_word(type_) && is_lower_word(
            subtype,
        ) ==> result == Ok::<_, Seq<char>>((type_, subtype, None::<Seq<char>>))
}

/// Parses the text with `<mime::Mime as FromStr>::from_str` and reads the names with
/// `Mime::type_`, `Mime::subtype` and `Mime::suffix`.
///
/// Claimed: the names, or the debug form of the error, are a function of the text alone, and two
/// lower-case words with a slash between them are the names of a type without a suffix.
#[verifier::external_body]
fn parse_media_type(text: &str) -> (result: Result<MediaType, String>)
    ensures
        names_or_error(result) == media_type_in(text@),
        splits_at_slash(text@, names_or_error(result)),
{
    match text.parse::<Mime>() {
        Ok(mime) => Ok(MediaType {
            type_: mime.type_().as_str().to_owned(),
            subtype: mime.subtype().as_str().to_owned(),
            suffix: mime.suffix().map(|name| name.as_str().to_owned()),
        }),
        Err(error) => Err(format!("{error:?}")),
    }
}

/// The names are those of CBOR: `application/cbor`, or some `application` type with the suffix
/// `cbor`.
pub open spec fn names_cbor(names: (Seq<char>, Seq<char>, Option<Seq<char>>)) -> bool {
    names.0 == "application"@ && (names.1 == "cbor"@ || names.2 == Some("cbor"@))
}

impl MediaType {
    /// Whether the type is that of CBOR.
    pub fn is_cbor(&self) -> (cbor: bool)
        ensures
            cbor == (self.type_@ == "application"@ && (self.subtype@ == "cbor"@ || (
            self.suffix matches Some(suffix) && suffix@ == "cbor"@))),
    {
        same_text(self.type_.as_str(), "application") && (same_text(self.subtype.as_str(), "cbor")
            || match &self.suffix {
            Some(suffix) => same_text(suffix.as_str(), "cbor"),
            None => false,
        })
    }
}

impl ContentTypeError {
    /// What the error says.
    pub open spec fn says(self) -> Seq<char> {
        match self {
            ContentTypeError::Missing => "missing header"@,
            ContentTypeError::InvalidValue(error) => "invalid value: "@ + error@,
            ContentTypeError::InvalidMime(error) => "invalid mime: "@ + error@,
            ContentTypeError::ExpectCbor => "expect application/cbor"@,
        }
    }

    /// Describes the error.
    pub fn description(&self) -> (text: String)
        ensures
            text@ == self.says(),
    {
        match self {
            ContentTypeError::Missing => "missing header".to_owned(),
            ContentTypeError::InvalidValue(error) => "invalid value: ".to_owned().concat(
                error.as_str(),
            ),
            ContentTypeError::InvalidMime(error) => "invalid mime: ".to_owned().concat(
                error.as_str(),
            ),
            ContentTypeError::ExpectCbor => "expect application/cbor".to_owned(),
        }
    }
}

/// Accepts the media type that parsing gave if it is that of CBOR.
///
/// # Errors
///
/// if parsing failed,
/// or the type is another one
pub fn expect_cbor(parsed: Result<MediaType, String>) -> (result: Result<(), ContentTypeError>)
    ensures
        match names_or_error(parsed) {
            Ok(names) => if names_cbor(names) {
                result is Ok
            } else {
                result matches Err(error) && error is ExpectCbor
            },
            Err(text) => result matches Err(ContentTypeError::InvalidMime(t)) && t@ == text,
        },
{
    match parsed {
        Ok(media_type) => if media_type.is_cbor() {
            Ok(())
        } else {
            Err(ContentTypeError::ExpectCbor)
        },
        Err(error) => Err(ContentTypeError::InvalidMime(error)),
    }
}

/// What becomes of a request with this `Content-Type` header.
pub open spec fn content_type_checked(
    content_type: Option<&[u8]>,
    result: Result<(), ContentTypeError>,
) -> bool {
    match content_type {
        None => result matches Err(error) && error is Missing,
        Some(value) => if super::header::all_visible(value@) {
            match media_type_in(super::header::characters(value@)) {
                Ok(names) => if names_cbor(names) {
                    result is Ok
                } else {
                    result matches Err(error) && error is ExpectCbor
                },
                Err(text) => result matches Err(ContentTypeError::InvalidMime(t)) && t@ == text,
            }
        } else {
            &&& result matches Err(ContentTypeError::InvalidValue(t))
            &&& super::header::is_header_value(value@) ==> t@ == "ToStrError { _priv: () }"@
        },
    }
}

/// Checks the `Content-Type` header of a request with a body.
///
/// # Errors
///
/// if there is none, or it does not name CBOR
pub fn check_content_type(content_type: Option<&[u8]>) -> (result: Result<(), ContentTypeError>)
    ensures
        content_type_checked(content_type, result),
        content_type matches Some(value) ==> super::header::all_visible(value@) ==> splits_at_slash(
            super::header::characters(value@),
            media_type_in(super::header::characters(value@)),
        ),
        content_type matches Some(value) && value@ == vstd::utf8::encode_utf8(CBOR_CONTENT_TYPE@)
            ==> result is Ok,
{
    proof {
        lemma_cbor_content_type();
    }
    let value = match content_type {
        Some(value) => value,
        None => return Err(ContentTypeError::Missing),
    };
    let text = match header_text(value) {
        Ok(text) => text,
        Err(error) => return Err(ContentTypeError::InvalidValue(error)),
    };
    expect_cbor(parse_media_type(text.as_str()))
}

impl<T: Clone> Clone for Cbor<T> {
    fn clone(&self) -> (copy: Self)
        ensures
            cloned(self.0, copy.0),
    {
        Cbor(self.0.clone())
    }
}

impl<T: Copy> Copy for Cbor<T> {

}

impl<T> std::ops::Deref for Cbor<T> {
    type Target = T;

    fn deref(&self) -> (value: &T)
        ensures
            *value == self.0,
    {
        &self.0
    }
}

impl<T> From<T> for Cbor<T> {
    fn from(value: T) -> Self {
        Cbor(value)
    }
}

impl<T> vstd::std_specs::convert::FromSpecImpl<T> for Cbor<T> {
    open spec fn obeys_from_spec() -> bool {
        true
    }

    open spec fn from_spec(value: T) -> Self {
        Cbor(value)
    }
}

impl From<ContentTypeError> for CborRejection {
    fn from(error: ContentTypeError) -> Self {
        CborRejection::ContentType(error)
    }
}

impl vstd::std_specs::convert::FromSpecImpl<ContentTypeError> for CborRejection {
    open spec fn obeys_from_spec() -> bool {
        true
    }

    open spec fn from_spec(error: ContentTypeError) -> Self {
        CborRejection::ContentType(error)
    }
}

impl From<BodyRejection> for CborRejection {
    fn from(error: BodyRejection) -> Self {
        CborRejection::Bytes(error)
    }
}

impl vstd::std_specs::convert::FromSpecImpl<BodyRejection> for CborRejection {
    open spec fn obeys_from_spec() -> bool {
        true
    }

    open spec fn from_spec(error: BodyRejection) -> Self {
        CborRejection::Bytes(error)
    }
}

impl From<DeserializeError> for CborRejection {
    fn from(error: DeserializeError) -> Self {
        CborRejection::Cbor(error)
    }
}

impl vstd::std_specs::convert::FromSpecImpl<DeserializeError> for CborRejection {
    open spec fn obeys_from_spec() -> bool {
        true
    }

    open spec fn from_spec(error: DeserializeError) -> Self {
        CborRejection::Cbor(error)
    }
}

impl<T> Cbor<T> {
    /// Decides from the head of a request whether to read its body: one without a body has no
    /// value, whatever its content type.
    ///
    /// # Errors
    ///
    /// if there is a body and the content type is not that of CBOR
    pub fn from_request_head(end_of_stream: bool, content_type: Option<&[u8]>) -> (result: Result<
        BodyPlan,
        CborRejection,
    >)
        ensures
            match result {
                Ok(BodyPlan::Absent) => end_of_stream,
                Ok(BodyPlan::Read) => !end_of_stream && content_type_checked(content_type, Ok(())),
                Err(CborRejection::ContentType(error)) => !end_of_stream && content_type_checked(
                    content_type,
                    Err(error),
                ),
                Err(_) => false,
            },
            content_type matches Some(value) ==> !end_of_stream && super::header::all_visible(
                value@,
            ) ==> splits_at_slash(
                super::header::characters(value@),
                media_type_in(super::header::characters(value@)),
            ),
            content_type matches Some(value) && !end_of_stream && value@
                == vstd::utf8::encode_utf8(CBOR_CONTENT_TYPE@) ==> result == Ok::<
                BodyPlan,
                CborRejection,
            >(BodyPlan::Read),
    {
        if end_of_stream {
            return Ok(BodyPlan::Absent);
        }
        match check_content_type(content_type) {
            Ok(()) => Ok(BodyPlan::Read),
            Err(error) => Err(CborRejection::from(error)),
        }
    }

    /// Decodes the body that reading gave.
    ///
    /// # Errors
    ///
    /// if reading failed,
    /// or the body does not encode a value
    pub fn from_request_body<F>(body: Result<Vec<u8>, BodyRejection>, decode: F) -> (result: Result<
        Option<Self>,
        CborRejection,
    >) where F: FnOnce(&[u8]) -> Result<T, DeserializeError>
        requires
            body matches Ok(body) ==> forall|bytes: &[u8]|
                bytes@ == body@ ==> #[trigger] decode.requires((bytes,)),
        ensures
            match body {
                Ok(body) => exists|bytes: &[u8], decoded: Result<T, DeserializeError>|
                    bytes@ == body@ && #[trigger] decode.ensures((bytes,), decoded)
                        && match decoded {
                        Ok(value) => result matches Ok(Some(Cbor(v))) && v == value,
                        Err(error) => result matches Err(CborRejection::Cbor(e)) && e == error,
                    },
                Err(rejection) => result matches Err(CborRejection::Bytes(r)) && r == rejection,
            },
    {
        let body = match body {
            Ok(body) => body,
            Err(rejection) => return Err(CborRejection::from(rejection)),
        };
        match decode(body.as_slice()) {
            Ok(value) => Ok(Some(Cbor(value))),
            Err(error) => Err(CborRejection::from(error)),
        }
    }

    /// Insists on a value.
    ///
    /// # Errors
    ///
    /// if there is none
    pub fn required(optional: Result<Option<Self>, CborRejection>) -> (result: Result<
        Self,
        CborRejection,
    >)
        ensures
            match optional {
                Ok(Some(value)) => result == Ok::<Self, CborRejection>(value),
                Ok(None) => result == Err::<Self, CborRejection>(CborRejection::Missing),
                Err(rejection) => result == Err::<Self, CborRejection>(rejection),
            },
    {
        match optional {
            Ok(Some(value)) => Ok(value),
            Ok(None) => Err(CborRejection::Missing),
            Err(rejection) => Err(rejection),
        }
    }

    /// Replies with the value. One that has no encoding is a failure of the service.
    pub fn into_response<F>(self, encode: F) -> (reply: Reply) where
        F: FnOnce(&T) -> Result<Vec<u8>, SerializeError>,

        requires
            encode.requires((&self.0,)),
        ensures
            exists|encoded: Result<Vec<u8>, SerializeError>| #[trigger]
                encode.ensures((&self.0,), encoded) && match encoded {
                    Ok(bytes) => reply.is_bytes(CBOR_CONTENT_TYPE@, bytes@),
                    Err(_) => reply.is_empty(INTERNAL_SERVER_ERROR),
                },
    {
        match encode(&self.0) {
            Ok(bytes) => Reply::bytes(CBOR_CONTENT_TYPE, bytes),
            Err(_) => Reply::empty(INTERNAL_SERVER_ERROR),
        }
    }
}

/// An offset as it is shown: `None`, or `Some` with the number in brackets.
pub open spec fn shown_offset(offset: Option<usize>) -> Seq<char> {
    match offset {
        None => "None"@,
        Some(n) => "Some("@ + crate::text::decimal(n as nat) + ")"@,
    }
}

/// The reply to a body that does not encode a value.
pub open spec fn replies_to_decode_error(error: DeserializeError, reply: Reply) -> bool {
    match error {
        DeserializeError::Syntax(offset) => reply.is_text(
            BAD_REQUEST,
            "idx: "@ + crate::text::decimal(offset as nat),
        ),
        DeserializeError::Semantic(offset, message) => reply.is_text(
            BAD_REQUEST,
            message@ + ": "@ + shown_offset(offset),
        ),
        DeserializeError::Io(_) | DeserializeError::RecursionLimitExceeded => reply.is_empty(
            INTERNAL_SERVER_ERROR,
        ),
    }
}

impl CborRejection {
    /// Replies to the rejected request.
    pub fn into_response(self) -> (reply: Reply)
        ensures
            match self {
                CborRejection::ContentType(error) => reply.is_text(
                    UNSUPPORTED_MEDIA_TYPE,
                    error.says(),
                ),
                CborRejection::Bytes(rejection) => reply.is_text(
                    rejection.status,
                    rejection.text@,
                ),
                CborRejection::Cbor(error) => replies_to_decode_error(error, reply),
                CborRejection::Missing => reply.is_text(BAD_REQUEST, "expect body"@),
            },
    {
        match self {
            CborRejection::ContentType(error) => Reply::text(
                UNSUPPORTED_MEDIA_TYPE,
                error.description(),
            ),
            CborRejection::Bytes(rejection) => Reply::text(rejection.status, rejection.text),
            CborRejection::Cbor(error) => match error {
                DeserializeError::Syntax(offset) => {
                    let number = to_decimal(offset);
                    Reply::text(BAD_REQUEST, "idx: ".to_owned().concat(number.as_str()))
                },
                DeserializeError::Semantic(offset, message) => {
                    let text = message.concat(": ");
                    let text = match offset {
                        None => text.concat("None"),
                        Some(offset) => {
                            let number = to_decimal(offset);
                            text.concat("Some(").concat(number.as_str()).concat(")")
                        },
                    };
                    assert(text@ =~= message@ + ": "@ + shown_offset(offset));
                    Reply::text(BAD_REQUEST, text)
                },
                DeserializeError::Io(_) | DeserializeError::RecursionLimitExceeded => Reply::empty(
                    INTERNAL_SERVER_ERROR,
                ),
            },
            CborRejection::Missing => Reply::text(BAD_REQUEST, "expect body".to_owned()),
        }
    }
}

/// A reply with a value, sent back as a request, is taken for CBOR and gives the value again, if
/// decoding undoes the encoding of it.
pub proof fn law_replies_read_back<T, F, G>(
    value: Cbor<T>,
    encode: F,
    reply: Reply,
    content_type: &[u8],
    body: Vec<u8>,
    plan: Result<BodyPlan, CborRejection>,
    decode: G,
    result: Result<Option<Cbor<T>>, CborRejection>,
) where
    F: FnOnce(&T) -> Result<Vec<u8>, SerializeError>,
    G: FnOnce(&[u8]) -> Result<T, DeserializeError>,

    requires
        call_ensures(Cbor::<T>::into_response::<F>, (value, encode), reply),
        reply.body matches super::reply::Body::Bytes { content_type: c, bytes } && content_type@
            == vstd::utf8::encode_utf8(c@) && body@ == bytes@,
        call_ensures(Cbor::<T>::from_request_head, (false, Some(content_type)), plan),
        call_ensures(Cbor::<T>::from_request_body::<G>, (Ok(body), decode), result),
        forall|encoded: Vec<u8>, bytes: &[u8], decoded: Result<T, DeserializeError>|
            #![trigger encode.ensures((&value.0,), Ok(encoded)), decode.ensures((bytes,), decoded)]
            encode.ensures((&value.0,), Ok(encoded)) && bytes@ == encoded@ && decode.ensures(
                (bytes,),
                decoded,
            ) ==> decoded == Ok::<T, DeserializeError>(value.0),
    ensures
        plan == Ok::<BodyPlan, CborRejection>(BodyPlan::Read),
        result == Ok::<Option<Cbor<T>>, CborRejection>(Some(value)),
{
}

/// A value is missing exactly where the optional extractor found none.
pub proof fn law_missing_iff_absent<T>(
    optional: Result<Option<Cbor<T>>, CborRejection>,
    result: Result<Cbor<T>, CborRejection>,
)
    requires
        call_ensures(Cbor::<T>::required, (optional,), result),
        optional != Err::<Option<Cbor<T>>, CborRejection>(CborRejection::Missing),
    ensures
        result == Err::<Cbor<T>, CborRejection>(CborRejection::Missing) <==> optional == Ok::<
            Option<Cbor<T>>,
            CborRejection,
        >(None),
{
}

/// Of the content types that are two lower-case words with a slash between them, one is taken for
/// CBOR; a body of any other is refused for its type.
pub proof fn law_plain_types_are_told_apart<T>(
    type_: Seq<char>,
    subtype: Seq<char>,
    content_type: &[u8],
    plan: Result<BodyPlan, CborRejection>,
)
    requires
        is_lower_word(type_),
        is_lower_word(subtype),
        content_type@ == vstd::utf8::encode_utf8(with_slash(type_, subtype)),
        call_ensures(Cbor::<T>::from_request_head, (false, Some(content_type)), plan),
    ensures
        if type_ == "application"@ && subtype == "cbor"@ {
            plan == Ok::<BodyPlan, CborRejection>(BodyPlan::Read)
        } else {
            plan matches Err(CborRejection::ContentType(error)) && error is ExpectCbor
        },
{
    let text = with_slash(type_, subtype);
    assert forall|i: int| 0 <= i < text.len() implies 32 <= #[trigger] text[i] as int <= 126 by {
        if i < type_.len() {
            assert(text[i] == type_[i]);
        } else if i > type_.len() {
            assert(text[i] == subtype[i - type_.len() - 1]);
        }
    }
    super::header::lemma_visible_text(text);
}

/// The head of a request never says that a value is missing.
pub proof fn law_head_is_never_missing<T>(
    end_of_stream: bool,
    content_type: Option<&[u8]>,
    plan: Result<BodyPlan, CborRejection>,
)
    requires
        call_ensures(Cbor::<T>::from_request_head, (end_of_stream, content_type), plan),
    ensures
        plan != Err::<BodyPlan, CborRejection>(CborRejection::Missing),
{
}

/// A body that is read never says that a value is missing.
pub proof fn law_body_is_never_missing<T, F>(
    body: Result<Vec<u8>, BodyRejection>,
    decode: F,
    result: Result<Option<Cbor<T>>, CborRejection>,
) where F: FnOnce(&[u8]) -> Result<T, DeserializeError>
    requires
        call_ensures(Cbor::<T>::from_request_body::<F>, (body, decode), result),
    ensures
        result != Err::<Option<Cbor<T>>, CborRejection>(CborRejection::Missing),
{
}

/// The content type of CBOR bodies is printable and made of two lower-case words.
proof fn lemma_cbor_content_type()
    ensures
        super::header::all_visible(vstd::utf8::encode_utf8(CBOR_CONTENT_TYPE@)),
        super::header::characters(vstd::utf8::encode_utf8(CBOR_CONTENT_TYPE@))
            == CBOR_CONTENT_TYPE@,
        CBOR_CONTENT_TYPE@ == with_slash("application"@, "cbor"@),
        is_lower_word("application"@),
        is_lower_word("cbor"@),
{
    reveal_strlit("application/cbor");
    reveal_strlit("application");
    reveal_strlit("cbor");
    super::header::lemma_visible_text(CBOR_CONTENT_TYPE@);
    assert(CBOR_CONTENT_TYPE@ =~= with_slash("application"@, "cbor"@));
}

/// The content type of CBOR bodies.
pub const CBOR_CONTENT_TYPE: &'static str = "application/cbor";

} // verus!
