use service_kit::axum_extractors::cbor::{
    check_content_type, BodyPlan, BodyRejection, Cbor, CborRejection, ContentTypeError,
};
use service_kit::axum_extractors::reply::{Body, Reply};
use service_kit::codec::{DeserializeError, SerializeError};

fn text_of(reply: Reply) -> (u16, String) {
    assert!(reply.problem.is_none());
    match reply.body {
        Body::Text(text) => (reply.status, text),
        other => panic!("{other:?}"),
    }
}

fn one_byte(value: &u8) -> Result<Vec<u8>, SerializeError> {
    Ok(vec![*value])
}

fn read_byte(bytes: &[u8]) -> Result<u8, DeserializeError> {
    match bytes {
        [byte] => Ok(*byte),
        _ => Err(DeserializeError::Syntax(bytes.len())),
    }
}

#[test]
fn cbor_content_types_are_accepted() {
    for value in [
        "application/cbor",
        "APPLICATION/Cbor",
        "application/cbor; charset=utf-8",
        "application/problem+cbor",
        "application/problem+CBOR",
        "application/cbor+xml",
    ] {
        assert!(check_content_type(Some(value.as_bytes())).is_ok(), "{value}");
    }
}

#[test]
fn other_content_types_are_refused() {
    for value in ["application/json", "text/cbor", "text/x+cbor", "application/cborx"] {
        let res = check_content_type(Some(value.as_bytes()));
        assert!(matches!(res, Err(ContentTypeError::ExpectCbor)), "{value}");
    }
    assert!(matches!(check_content_type(None), Err(ContentTypeError::Missing)));
}

#[test]
fn content_types_that_are_no_text_are_described() {
    let res = check_content_type(Some(b"application/\xff"));
    match res {
        Err(ContentTypeError::InvalidValue(text)) => assert_eq!(text, "ToStrError { _priv: () }"),
        other => panic!("{other:?}"),
    }
}

#[test]
fn content_types_that_are_no_media_types_are_described() {
    let text = match check_content_type(Some(b"application")) {
        Err(ContentTypeError::InvalidMime(text)) => text,
        other => panic!("{other:?}"),
    };
    assert_eq!(text, "FromStrError { inner: MissingSlash }");
    let error = "application".parse::<mime::Mime>().unwrap_err();
    assert_eq!(text, format!("{error:?}"));
}

#[test]
fn requests_without_body_have_no_value() {
    let plan = Cbor::<u8>::from_request_head(true, None);
    assert!(matches!(plan, Ok(BodyPlan::Absent)));
    let plan = Cbor::<u8>::from_request_head(true, Some(b"text/plain"));
    assert!(matches!(plan, Ok(BodyPlan::Absent)));
}

#[test]
fn requests_with_body_are_read() {
    let plan = Cbor::<u8>::from_request_head(false, Some(b"application/cbor"));
    assert!(matches!(plan, Ok(BodyPlan::Read)));
    let plan = Cbor::<u8>::from_request_head(false, None);
    assert!(matches!(plan, Err(CborRejection::ContentType(ContentTypeError::Missing))));

    let value = Cbor::from_request_body(Ok(vec![7]), read_byte).unwrap();
    assert_eq!(value, Some(Cbor(7)));
    let res = Cbor::from_request_body(Ok(vec![7, 8]), read_byte);
    assert!(matches!(res, Err(CborRejection::Cbor(DeserializeError::Syntax(2)))), "{res:?}");
    let rejection = BodyRejection { status: 413, text: "too large".to_owned() };
    let res = Cbor::<u8>::from_request_body(Err(rejection), |_| panic!("decoded"));
    assert!(matches!(res, Err(CborRejection::Bytes(_))), "{res:?}");
}

#[test]
fn missing_value_iff_absent() {
    assert!(matches!(Cbor::<u8>::required(Ok(None)), Err(CborRejection::Missing)));
    assert!(matches!(Cbor::required(Ok(Some(Cbor(1_u8)))), Ok(Cbor(1))));
    let content_type = CborRejection::from(ContentTypeError::ExpectCbor);
    let res = Cbor::<u8>::required(Err(content_type));
    assert!(matches!(res, Err(CborRejection::ContentType(ContentTypeError::ExpectCbor))));
}

#[test]
fn values_are_sent_as_cbor() {
    let reply = Cbor(5_u8).into_response(one_byte);
    assert_eq!(reply.status, 200);
    assert!(reply.problem.is_none());
    let (content_type, bytes) = match reply.body {
        Body::Bytes { content_type, bytes } => (content_type, bytes),
        other => panic!("{other:?}"),
    };
    assert_eq!(content_type, "application/cbor");
    assert_eq!(bytes, [5]);

    let plan = Cbor::<u8>::from_request_head(false, Some(content_type.as_bytes()));
    assert!(matches!(plan, Ok(BodyPlan::Read)));
    assert_eq!(Cbor::from_request_body(Ok(bytes), read_byte).unwrap(), Some(Cbor(5)));
}

#[test]
fn values_that_do_not_encode_are_a_failure_of_the_service() {
    let reply = Cbor(5_u8).into_response(|_| Err(SerializeError::Value("no".to_owned())));
    assert_eq!(reply.status, 500);
    assert!(matches!(reply.body, Body::Empty));
}

#[test]
fn content_type_rejections_are_answered() {
    let cases = [
        (ContentTypeError::Missing, "missing header"),
        (ContentTypeError::InvalidValue("x".to_owned()), "invalid value: x"),
        (ContentTypeError::InvalidMime("y".to_owned()), "invalid mime: y"),
        (ContentTypeError::ExpectCbor, "expect application/cbor"),
    ];
    for (error, text) in cases {
        assert_eq!(error.description(), text);
        let reply = CborRejection::ContentType(error).into_response();
        assert_eq!(text_of(reply), (415, text.to_owned()));
    }
}

#[test]
fn body_rejections_are_answered() {
    let rejection = BodyRejection { status: 413, text: "too large".to_owned() };
    let reply = CborRejection::from(rejection).into_response();
    assert_eq!(text_of(reply), (413, "too large".to_owned()));
    let reply = CborRejection::Missing.into_response();
    assert_eq!(text_of(reply), (400, "expect body".to_owned()));
}

#[test]
fn decode_rejections_are_answered() {
    let answer = |error| CborRejection::from(error).into_response();
    let reply = answer(DeserializeError::Syntax(120));
    assert_eq!(text_of(reply), (400, "idx: 120".to_owned()));
    let reply = answer(DeserializeError::Semantic(Some(3), "odd".to_owned()));
    assert_eq!(text_of(reply), (400, format!("odd: {:?}", Some(3))));
    let reply = answer(DeserializeError::Semantic(None, "odd".to_owned()));
    assert_eq!(text_of(reply), (400, format!("odd: {:?}", None::<usize>)));
    for error in [DeserializeError::Io("eof".to_owned()), DeserializeError::RecursionLimitExceeded] {
        let reply = answer(error);
        assert_eq!(reply.status, 500);
        assert!(reply.problem.is_none());
        assert!(matches!(reply.body, Body::Empty));
    }
}

#[test]
fn cbor_is_its_value() {
    let value = Cbor::from(3_u8);
    assert_eq!(*value, 3);
    assert_eq!(value.clone(), Cbor(3));
    assert_eq!(Cbor::<u8>::default(), Cbor(0));
    assert!(Cbor(1) < Cbor(2));
}
