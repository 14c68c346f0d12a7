use service_kit::encoding::{Base64Engine, DecodeError, DecodePadding, URL_SAFE_SYMBOLS};
use service_kit::text::{same_text, to_decimal};

fn engine(padded: bool, trailing: bool, mode: DecodePadding) -> Base64Engine {
    Base64Engine::new(URL_SAFE_SYMBOLS, padded, trailing, mode).unwrap()
}

#[test]
fn text_of_known_bytes() {
    let plain = Base64Engine::url_safe_no_pad();
    assert_eq!(&*plain.encode(b""), "");
    assert_eq!(&*plain.encode(b"hi"), "aGk");
    assert_eq!(&*plain.encode(b"hello world~\n"), "aGVsbG8gd29ybGR-Cg");
    assert_eq!(&*plain.encode(&[0xff, 0xff, 0xff]), "____");

    let padded = engine(true, false, DecodePadding::RequireCanonical);
    assert_eq!(&*padded.encode(b"h"), "aA==");
    assert_eq!(&*padded.encode(b"hi"), "aGk=");
    assert_eq!(&*padded.encode(b"hi!"), "aGkh");
}

#[test]
fn decoding_inverts_encoding() {
    let engines = [
        Base64Engine::url_safe_no_pad(),
        engine(true, false, DecodePadding::RequireCanonical),
        engine(true, true, DecodePadding::Indifferent),
        engine(false, true, DecodePadding::Indifferent),
    ];
    for engine in engines {
        for length in 0..9_u8 {
            let bytes: Vec<u8> = (0..length).map(|i| i.wrapping_mul(91)).collect();
            let text = engine.encode(&bytes);
            assert_eq!(engine.clone().decode(text.as_bytes()), Ok(bytes));
        }
    }
}

#[test]
fn engines_may_refuse_their_own_padding() {
    let engine = engine(true, false, DecodePadding::RequireNone);
    let text = engine.encode(b"h");
    assert_eq!(engine.decode(text.as_bytes()), Err(DecodeError::InvalidPadding));
    assert_eq!(engine.decode(engine.encode(b"hi!").as_bytes()), Ok(b"hi!".to_vec()));
}

#[test]
fn decoding_errors() {
    let plain = Base64Engine::url_safe_no_pad();
    assert_eq!(plain.decode(b"aG+k"), Err(DecodeError::InvalidByte(2, b'+')));
    assert_eq!(plain.decode(b"aGkha"), Err(DecodeError::InvalidLength(5)));
    assert_eq!(plain.decode(b"aGl"), Err(DecodeError::InvalidLastSymbol(2, b'l')));
    let padded = engine(true, false, DecodePadding::RequireCanonical);
    assert_eq!(padded.decode(b"aGk"), Err(DecodeError::InvalidPadding));
    let lenient = engine(false, true, DecodePadding::RequireNone);
    assert_eq!(lenient.decode(b"aGl"), Ok(b"hi".to_vec()));
}

#[test]
fn alphabets_have_64_different_printable_symbols() {
    let new = |symbols: &str| Base64Engine::new(symbols, false, false, DecodePadding::RequireNone);
    assert!(new(URL_SAFE_SYMBOLS).is_some());
    assert!(new(&URL_SAFE_SYMBOLS[1..]).is_none());
    assert!(new(&URL_SAFE_SYMBOLS.replace('A', "B")).is_none());
    assert!(new(&URL_SAFE_SYMBOLS.replace('A', "=")).is_none());
    assert!(new(&URL_SAFE_SYMBOLS.replace('A', "\n")).is_none());
    assert!(new(&URL_SAFE_SYMBOLS.replace('A', " ")).is_some());
}

#[test]
fn texts_and_numbers() {
    assert!(same_text("", ""));
    assert!(same_text("abc", "abc"));
    assert!(!same_text("abc", "abd"));
    assert!(!same_text("abc", "ab"));
    for n in [0, 9, 10, 99, 1234567890, usize::MAX] {
        assert_eq!(to_decimal(n), n.to_string());
    }
}
