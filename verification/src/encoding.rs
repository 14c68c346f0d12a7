//! Base64 with a configurable alphabet and padding.

use base64::alphabet::Alphabet;
use base64::engine::{DecodePaddingMode, GeneralPurpose, GeneralPurposeConfig};
use base64::Engine;
use vstd::prelude::*;
use vstd::utf8::*;

verus! {

/// What a decoder does about the padding at the end of the text.
#[derive(Debug, Clone, Copy, PartialEq, Eq, Structural)]
pub enum DecodePadding {
    /// Any amount of padding that completes the last group, or none.
    Indifferent,
    /// Exactly the padding that completes the last group.
    RequireCanonical,
    /// No padding.
    RequireNone,
}

/// Why a text is not base64 for an engine.
#[derive(Debug, Clone, Copy, PartialEq, Eq, Structural)]
pub enum DecodeError {
    /// A byte outside the alphabet, with its offset.
    InvalidByte(usize, u8),
    /// A number of symbols that encodes no whole number of bytes.
    InvalidLength(usize),
    /// A last symbol with bits set that belong to no byte, with its offset.
    InvalidLastSymbol(usize, u8),
    /// Padding other than the engine wants it.
    InvalidPadding,
}

/// How bytes are written as base64 text and read back.
#[derive(Debug)]
pub struct Base64Engine {
    alphabet: String,
    encode_padding: bool,
    decode_allow_trailing_bits: bool,
    decode_padding: DecodePadding,
}

/// 64 different printable ASCII characters, `=` not among them.
pub open spec fn valid_alphabet(alphabet: Seq<char>) -> bool {
    &&& alphabet.len() == 64
    &&& forall|i: int| 0 <= i < 64 ==> 32 <= #[trigger] alphabet[i] as int <= 126 && alphabet[i] != '='
    &&& forall|i: int, j: int| 0 <= i < j < 64 ==> alphabet[i] != alphabet[j]
}

/// The byte at the index, or zero behind the end.
pub open spec fn byte_or_zero(bytes: Seq<u8>, i: int) -> int {
    if i < bytes.len() {
        bytes[i] as int
    } else {
        0
    }
}

/// The `i`-th group of six bits, the most significant first. Three bytes make four groups.
pub open spec fn sextet(bytes: Seq<u8>, i: int) -> int {
    let first = 3 * (i / 4);
    let word = byte_or_zero(bytes, first) * 65536 + byte_or_zero(bytes, first + 1) * 256
        + byte_or_zero(bytes, first + 2);
    if i % 4 == 0 {
        word / 262144
    } else if i % 4 == 1 {
        word / 4096 % 64
    } else if i % 4 == 2 {
        word / 64 % 64
    } else {
        word % 64
    }
}

/// The number of symbols that encode `n` bytes, padding not counted.
pub open spec fn symbol_count(n: nat) -> nat {
    (4 * n + 2) / 3
}

/// The number of `=` characters that complete the last group of four symbols.
pub open spec fn padding_count(n: nat) -> nat {
    if n % 3 == 0 {
        0
    } else {
        (3 - n % 3) as nat
    }
}

/// The length of the text that encodes `n` bytes.
pub open spec fn base64_length(padded: bool, n: nat) -> nat {
    if padded {
        symbol_count(n) + padding_count(n)
    } else {
        symbol_count(n)
    }
}

/// The bytes as base64 text: a symbol for each group of six bits, then the padding if there is to
/// be any.
pub open spec fn base64_text(alphabet: Seq<char>, padded: bool, bytes: Seq<u8>) -> Seq<char> {
    let symbols = Seq::new(symbol_count(bytes.len()), |i: int| alphabet[sextet(bytes, i)]);
    if padded {
        symbols + Seq::new(padding_count(bytes.len()), |i: int| '=')
    } else {
        symbols
    }
}

/// Whether a decoder takes the padding, or the want of it, behind the text of `n` bytes.
pub open spec fn padding_accepted(mode: DecodePadding, padded: bool, n: nat) -> bool {
    n % 3 == 0 || match mode {
        DecodePadding::Indifferent => true,
        DecodePadding::RequireCanonical => padded,
        DecodePadding::RequireNone => !padded,
    }
}

/// The result of decoding, seen with the bytes as a sequence.
pub open spec fn bytes_or_error(result: Result<Vec<u8>, DecodeError>) -> Result<
    Seq<u8>,
    DecodeError,
> {
    match result {
        Ok(bytes) => Ok(bytes@),
        Err(error) => Err(error),
    }
}

/// Where the text is that of some bytes, with padding that the decoder takes, the result is those
/// bytes.
pub open spec fn inverts_encoding(
    alphabet: Seq<char>,
    mode: DecodePadding,
    text: Seq<u8>,
    result: Result<Seq<u8>, DecodeError>,
) -> bool {
    forall|padded: bool, bytes: Seq<u8>|
        text == encode_utf8(#[trigger] base64_text(alphabet, padded, bytes)) && padding_accepted(
            mode,
            padded,
            bytes.len(),
        ) ==> result == Ok::<Seq<u8>, DecodeError>(bytes)
}

/// What the bytes of a text decode to.
pub uninterp spec fn base64_decoded(
    alphabet: Seq<char>,
    allow_trailing_bits: bool,
    mode: DecodePadding,
    text: Seq<u8>,
) -> Result<Seq<u8>, DecodeError>;

/// Calls `base64::alphabet::Alphabet::new` and keeps only whether it succeeds.
///
/// Claimed: it takes a string of 64 different printable ASCII characters without `=`, and no
/// other.
#[verifier::external_body]
fn accepts_alphabet(symbols: &str) -> (accepted: bool)
    ensures
        accepted == valid_alphabet(symbols@),
{
    Alphabet::new(symbols).is_ok()
}

/// Calls `base64::Engine::encode` on a `GeneralPurpose` engine.
///
/// Claimed: the text holds a symbol of the alphabet for each group of six bits and, where the
/// engine pads, the `=` characters that complete the last group of four. The call panics where
/// the text would be longer than memory can hold.
#[verifier::external_body]
fn encode_base64(alphabet: &str, padded: bool, bytes: &[u8]) -> (text: Box<str>)
    requires
        valid_alphabet(alphabet@),
        base64_length(padded, bytes@.len()) <= isize::MAX,
    ensures
        text@ == base64_text(alphabet@, padded, bytes@),
{
    let config = GeneralPurposeConfig::new().with_encode_padding(padded);
    let alphabet = Alphabet::new(alphabet).unwrap();
    GeneralPurpose::new(&alphabet, config).encode(bytes).into_boxed_str()
}

/// Calls `base64::Engine::decode` on a `GeneralPurpose` engine.
///
/// Claimed: the result is a function of the engine's settings and the text alone, and the text
/// that encodes some bytes decodes to them wherever the decoder takes its padding.
#[verifier::external_body]
fn decode_base64(
    alphabet: &str,
    allow_trailing_bits: bool,
    mode: DecodePadding,
    text: &[u8],
) -> (result: Result<Vec<u8>, DecodeError>)
    requires
        valid_alphabet(alphabet@),
    ensures
        bytes_or_error(result) == base64_decoded(alphabet@, allow_trailing_bits, mode, text@),
        inverts_encoding(alphabet@, mode, text@, bytes_or_error(result)),
{
    let mode = match mode {
        DecodePadding::Indifferent => DecodePaddingMode::Indifferent,
        DecodePadding::RequireCanonical => DecodePaddingMode::RequireCanonical,
        DecodePadding::RequireNone => DecodePaddingMode::RequireNone,
    };
    let config = GeneralPurposeConfig::new().with_decode_padding_mode(mode);
    let config = config.with_decode_allow_trailing_bits(allow_trailing_bits);
    let engine = GeneralPurpose::new(&Alphabet::new(alphabet).unwrap(), config);
    engine.decode(text).map_err(|error| match error {
        base64::DecodeError::InvalidByte(at, byte) => DecodeError::InvalidByte(at, byte),
        base64::DecodeError::InvalidLength(length) => DecodeError::InvalidLength(length),
        base64::DecodeError::InvalidLastSymbol(at, byte) => DecodeError::InvalidLastSymbol(at, byte),
        base64::DecodeError::InvalidPadding => DecodeError::InvalidPadding,
    })
}

impl Base64Engine {
    #[verifier::type_invariant]
    spec fn has_valid_alphabet(self) -> bool {
        valid_alphabet(self.alphabet@)
    }

    /// The symbols, the one for zero first.
    pub closed spec fn alphabet(self) -> Seq<char> {
        self.alphabet@
    }

    /// Whether padding is written.
    pub closed spec fn encode_padding(self) -> bool {
        self.encode_padding
    }

    /// Whether bits that belong to no byte may be set in a last symbol that is read.
    pub closed spec fn decode_allow_trailing_bits(self) -> bool {
        self.decode_allow_trailing_bits
    }

    /// What padding is read.
    pub closed spec fn decode_padding(self) -> DecodePadding {
        self.decode_padding
    }

    /// The text that the engine writes for the bytes.
    pub open spec fn text_of(self, bytes: Seq<u8>) -> Seq<char> {
        base64_text(self.alphabet(), self.encode_padding(), bytes)
    }

    /// What the engine reads in the text.
    pub open spec fn decoded(self, text: Seq<u8>) -> Result<Seq<u8>, DecodeError> {
        base64_decoded(
            self.alphabet(),
            self.decode_allow_trailing_bits(),
            self.decode_padding(),
            text,
        )
    }

    /// Whether the engine reads the padding that it writes itself behind `n` bytes.
    pub open spec fn reads_own_padding(self, n: nat) -> bool {
        padding_accepted(self.decode_padding(), self.encode_padding(), n)
    }

    /// An engine with these settings, if the symbols are 64 different printable ASCII characters
    /// other than `=`.
    pub fn new(
        alphabet: &str,
        encode_padding: bool,
        decode_allow_trailing_bits: bool,
        decode_padding: DecodePadding,
    ) -> (engine: Option<Self>)
        ensures
            engine is Some <==> valid_alphabet(alphabet@),
            engine matches Some(engine) ==> {
                &&& engine.alphabet() == alphabet@
                &&& engine.encode_padding() == encode_padding
                &&& engine.decode_allow_trailing_bits() == decode_allow_trailing_bits
                &&& engine.decode_padding() == decode_padding
            },
    {
        if accepts_alphabet(alphabet) {
            Some(
                Base64Engine {
                    alphabet: alphabet.to_owned(),
                    encode_padding,
                    decode_allow_trailing_bits,
                    decode_padding,
                },
            )
        } else {
            None
        }
    }

    /// The engine with the URL-safe alphabet that neither writes nor reads padding.
    pub fn url_safe_no_pad() -> (engine: Self)
        ensures
            engine.alphabet() == URL_SAFE_SYMBOLS@,
            engine.encode_padding() == false,
            engine.decode_allow_trailing_bits() == false,
            engine.decode_padding() == DecodePadding::RequireNone,
    {
        proof {
            lemma_url_safe_symbols();
        }
        Base64Engine {
            alphabet: URL_SAFE_SYMBOLS.to_owned(),
            encode_padding: false,
            decode_allow_trailing_bits: false,
            decode_padding: DecodePadding::RequireNone,
        }
    }

    /// Writes the bytes as text.
    pub fn encode(&self, bytes: &[u8]) -> (text: Box<str>)
        requires
            base64_length(self.encode_padding(), bytes@.len()) <= isize::MAX,
        ensures
            text@ == self.text_of(bytes@),
    {
        proof {
            use_type_invariant(self);
        }
        encode_base64(self.alphabet.as_str(), self.encode_padding, bytes)
    }

    /// Reads the bytes back from the text.
    ///
    /// # Errors
    ///
    /// if the text is not base64 for this engine
    pub fn decode(&self, text: &[u8]) -> (result: Result<Vec<u8>, DecodeError>)
        ensures
            bytes_or_error(result) == self.decoded(text@),
            inverts_encoding(
                self.alphabet(),
                self.decode_padding(),
                text@,
                bytes_or_error(result),
            ),
    {
        proof {
            use_type_invariant(self);
        }
        decode_base64(
            self.alphabet.as_str(),
            self.decode_allow_trailing_bits,
            self.decode_padding,
            text,
        )
    }
}

impl Clone for Base64Engine {
    fn clone(&self) -> (engine: Self)
        ensures
            engine == *self,
    {
        proof {
            use_type_invariant(self);
        }
        Base64Engine {
            alphabet: self.alphabet.clone(),
            encode_padding: self.encode_padding,
            decode_allow_trailing_bits: self.decode_allow_trailing_bits,
            decode_padding: self.decode_padding,
        }
    }
}

/// The symbols of the URL-safe alphabet.
pub const URL_SAFE_SYMBOLS: &'static str =
    "ABCDEFGHIJKLMNOPQRSTUVWXYZabcdefghijklmnopqrstuvwxyz0123456789-_";

/// The URL-safe alphabet is one, and holds letters, digits, `-` and `_` only.
pub proof fn lemma_url_safe_symbols()
    ensures
        valid_alphabet(URL_SAFE_SYMBOLS@),
        forall|i: int|
            0 <= i < 64 ==> is_url_safe(#[trigger] URL_SAFE_SYMBOLS@[i]),
{
    reveal_strlit("ABCDEFGHIJKLMNOPQRSTUVWXYZabcdefghijklmnopqrstuvwxyz0123456789-_");
}

/// A letter, a digit, `-` or `_`.
pub open spec fn is_url_safe(c: char) -> bool {
    ||| 'A' <= c <= 'Z'
    ||| 'a' <= c <= 'z'
    ||| '0' <= c <= '9'
    ||| c == '-'
    ||| c == '_'
}

/// Every group of six bits has a value below 64.
pub proof fn lemma_sextet_range(bytes: Seq<u8>, i: int)
    requires
        0 <= i,
    ensures
        0 <= sextet(bytes, i) < 64,
{
}

/// What an engine writes it reads back unchanged, wherever it reads its own padding.
pub proof fn law_decode_inverts_encode(
    engine: &Base64Engine,
    bytes: &[u8],
    text: Box<str>,
    received: &[u8],
    result: Result<Vec<u8>, DecodeError>,
)
    requires
        call_ensures(Base64Engine::encode, (engine, bytes), text),
        received@ == encode_utf8(text@),
        call_ensures(Base64Engine::decode, (engine, received), result),
        engine.reads_own_padding(bytes@.len()),
    ensures
        result matches Ok(decoded) && decoded@ == bytes@,
{
}

} // verus!
