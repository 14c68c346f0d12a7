//! Numbers, strings and base64.

use vstd::prelude::*;

use crate::encoding::{Base64Engine, DecodeError, DecodePadding};
use crate::text::{same_text, to_decimal};

verus! {

/// Two strings are the same exactly if they hold the same characters.
pub proof fn law_same_text(a: &str, b: &str, same: bool)
    requires
        call_ensures(same_text, (a, b), same),
    ensures
        same <==> a@ == b@,
{
}

/// A number below ten is written as its digit; any other as the number without its last digit,
/// and then that digit.
pub proof fn law_decimal_digits(n: usize, text: String, shorter: String)
    requires
        call_ensures(to_decimal, (n,), text),
        call_ensures(to_decimal, ((n / 10) as usize,), shorter),
    ensures
        n < 10 ==> text@ == seq![('0' as int + n) as char],
        n >= 10 ==> text@ == shorter@.push(('0' as int + n % 10) as char),
{
    reveal_with_fuel(crate::text::decimal, 2);
    if n >= 10 {
        assert(text@ =~= shorter@.push(('0' as int + n % 10) as char));
    }
}

/// An engine is made exactly of 64 different printable ASCII characters other than `=`, and has
/// the settings that it was asked for.
pub proof fn law_engine_settings(
    alphabet: &str,
    encode_padding: bool,
    allow_trailing_bits: bool,
    decode_padding: DecodePadding,
    engine: Option<Base64Engine>,
)
    requires
        call_ensures(
            Base64Engine::new,
            (alphabet, encode_padding, allow_trailing_bits, decode_padding),
            engine,
        ),
    ensures
        engine is Some <==> {
            &&& alphabet@.len() == 64
            &&& forall|i: int|
                0 <= i < 64 ==> 32 <= #[trigger] alphabet@[i] as int <= 126 && alphabet@[i] != '='
            &&& forall|i: int, j: int| 0 <= i < j < 64 ==> alphabet@[i] != alphabet@[j]
        },
        engine matches Some(e) ==> e.alphabet() == alphabet@ && e.encode_padding() == encode_padding
            && e.decode_allow_trailing_bits() == allow_trailing_bits && e.decode_padding()
            == decode_padding,
{
}

/// The URL-safe engine has the letters, the digits, `-` and `_` as its symbols, writes no padding,
/// takes none, and takes no last symbol with bits that belong to no byte.
pub proof fn law_url_safe_engine(engine: Base64Engine)
    requires
        call_ensures(Base64Engine::url_safe_no_pad, (), engine),
    ensures
        engine.alphabet() == "ABCDEFGHIJKLMNOPQRSTUVWXYZabcdefghijklmnopqrstuvwxyz0123456789-_"@,
        !engine.encode_padding(),
        !engine.decode_allow_trailing_bits(),
        engine.decode_padding() is RequireNone,
{
}

/// A copy of an engine has the settings of the engine.
pub proof fn law_engine_copies(engine: &Base64Engine, copy: Base64Engine)
    requires
        call_ensures(<Base64Engine as Clone>::clone, (engine,), copy),
    ensures
        copy.alphabet() == engine.alphabet(),
        copy.encode_padding() == engine.encode_padding(),
        copy.decode_allow_trailing_bits() == engine.decode_allow_trailing_bits(),
        copy.decode_padding() == engine.decode_padding(),
{
}

/// The text of some bytes has four symbols for three bytes. One byte that is left over has two,
/// two bytes have three, and behind these an engine that pads writes `=` up to four.
pub proof fn law_encoded_length(engine: &Base64Engine, bytes: &[u8], text: Box<str>)
    requires
        call_ensures(Base64Engine::encode, (engine, bytes), text),
    ensures
        bytes@.len() % 3 == 0 ==> text@.len() == bytes@.len() / 3 * 4,
        bytes@.len() % 3 == 1 && !engine.encode_padding() ==> text@.len() == bytes@.len() / 3 * 4
            + 2,
        bytes@.len() % 3 == 2 && !engine.encode_padding() ==> text@.len() == bytes@.len() / 3 * 4
            + 3,
        bytes@.len() % 3 != 0 && engine.encode_padding() ==> {
            &&& text@.len() == bytes@.len() / 3 * 4 + 4
            &&& text@.last() == '='
            &&& bytes@.len() % 3 == 1 ==> text@[text@.len() - 2] == '='
        },
{
    let n = bytes@.len();
    let q = n / 3;
    assert(n == 3 * q + n % 3);
    assert(crate::encoding::symbol_count(n) == if n % 3 == 0 {
        4 * q
    } else {
        4 * q + n % 3 + 1
    });
}

/// Every character of the text of some bytes is a symbol of the alphabet, but for the padding.
pub proof fn law_encoded_symbols(engine: &Base64Engine, bytes: &[u8], text: Box<str>, i: int)
    requires
        call_ensures(Base64Engine::encode, (engine, bytes), text),
        0 <= i,
        3 * i < 4 * bytes@.len(),
    ensures
        exists|a: int| 0 <= a < 64 && text@[i] == #[trigger] engine.alphabet()[a],
{
    let a = crate::encoding::sextet(bytes@, i);
    crate::encoding::lemma_sextet_range(bytes@, i);
    assert(text@[i] == engine.alphabet()[a]);
}

/// The symbols of three bytes, read as digits to the base 64, make the number that the bytes make
/// to the base 256.
pub proof fn law_encoded_triples(
    engine: &Base64Engine,
    bytes: &[u8],
    text: Box<str>,
    g: int,
    a: int,
    b: int,
    c: int,
    d: int,
)
    requires
        call_ensures(Base64Engine::encode, (engine, bytes), text),
        forall|i: int, j: int|
            0 <= i < j < 64 ==> engine.alphabet()[i] != engine.alphabet()[j],
        0 <= g,
        3 * g + 3 <= bytes@.len(),
        0 <= a < 64 && text@[4 * g] == engine.alphabet()[a],
        0 <= b < 64 && text@[4 * g + 1] == engine.alphabet()[b],
        0 <= c < 64 && text@[4 * g + 2] == engine.alphabet()[c],
        0 <= d < 64 && text@[4 * g + 3] == engine.alphabet()[d],
    ensures
        a * 262144 + b * 4096 + c * 64 + d == bytes@[3 * g] * 65536 + bytes@[3 * g + 1] * 256
            + bytes@[3 * g + 2],
{
    lemma_symbol(engine, bytes, text, 4 * g, a);
    lemma_symbol(engine, bytes, text, 4 * g + 1, b);
    lemma_symbol(engine, bytes, text, 4 * g + 2, c);
    lemma_symbol(engine, bytes, text, 4 * g + 3, d);
    lemma_sextets(bytes@, g);
}

/// The symbols of one byte that is left over hold its bits and then zeros.
pub proof fn law_encoded_last_byte(
    engine: &Base64Engine,
    bytes: &[u8],
    text: Box<str>,
    g: int,
    a: int,
    b: int,
)
    requires
        call_ensures(Base64Engine::encode, (engine, bytes), text),
        forall|i: int, j: int|
            0 <= i < j < 64 ==> engine.alphabet()[i] != engine.alphabet()[j],
        0 <= g,
        3 * g + 1 == bytes@.len(),
        0 <= a < 64 && text@[4 * g] == engine.alphabet()[a],
        0 <= b < 64 && text@[4 * g + 1] == engine.alphabet()[b],
    ensures
        a * 64 + b == bytes@[3 * g] * 16,
{
    lemma_symbol(engine, bytes, text, 4 * g, a);
    lemma_symbol(engine, bytes, text, 4 * g + 1, b);
    lemma_sextets(bytes@, g);
}

/// The symbols of two bytes that are left over hold their bits and then zeros.
pub proof fn law_encoded_last_two_bytes(
    engine: &Base64Engine,
    bytes: &[u8],
    text: Box<str>,
    g: int,
    a: int,
    b: int,
    c: int,
)
    requires
        call_ensures(Base64Engine::encode, (engine, bytes), text),
        forall|i: int, j: int|
            0 <= i < j < 64 ==> engine.alphabet()[i] != engine.alphabet()[j],
        0 <= g,
        3 * g + 2 == bytes@.len(),
        0 <= a < 64 && text@[4 * g] == engine.alphabet()[a],
        0 <= b < 64 && text@[4 * g + 1] == engine.alphabet()[b],
        0 <= c < 64 && text@[4 * g + 2] == engine.alphabet()[c],
    ensures
        a * 4096 + b * 64 + c == (bytes@[3 * g] * 256 + bytes@[3 * g + 1]) * 4,
{
    lemma_symbol(engine, bytes, text, 4 * g, a);
    lemma_symbol(engine, bytes, text, 4 * g + 1, b);
    lemma_symbol(engine, bytes, text, 4 * g + 2, c);
    lemma_sextets(bytes@, g);
}

/// The digits of a number below the fourth power of 64, to that base.
proof fn lemma_digits(word: int)
    requires
        0 <= word < 16777216,
    ensures
        word / 262144 * 262144 + word / 4096 % 64 * 4096 + word / 64 % 64 * 64 + word % 64 == word,
{
    let p = word / 64;
    let q = p / 64;
    assert(word / 4096 == q);
    assert(word / 262144 == q / 64);
    assert(q == q / 64 * 64 + q % 64);
    assert(p == q * 64 + p % 64);
    assert(word == p * 64 + word % 64);
}

/// The digits of the number that three bytes make, taken from the groups of six bits.
proof fn lemma_sextets(bytes: Seq<u8>, g: int)
    requires
        0 <= g,
    ensures
        crate::encoding::sextet(bytes, 4 * g) * 262144 + crate::encoding::sextet(bytes, 4 * g + 1)
            * 4096 + crate::encoding::sextet(bytes, 4 * g + 2) * 64 + crate::encoding::sextet(
            bytes,
            4 * g + 3,
        ) == crate::encoding::byte_or_zero(bytes, 3 * g) * 65536 + crate::encoding::byte_or_zero(
            bytes,
            3 * g + 1,
        ) * 256 + crate::encoding::byte_or_zero(bytes, 3 * g + 2),
        crate::encoding::byte_or_zero(bytes, 3 * g + 2) == 0 ==> crate::encoding::sextet(
            bytes,
            4 * g + 3,
        ) == 0,
        crate::encoding::byte_or_zero(bytes, 3 * g + 1) == 0 && crate::encoding::byte_or_zero(
            bytes,
            3 * g + 2,
        ) == 0 ==> crate::encoding::sextet(bytes, 4 * g + 2) == 0,
{
    let x = crate::encoding::byte_or_zero(bytes, 3 * g);
    let y = crate::encoding::byte_or_zero(bytes, 3 * g + 1);
    let z = crate::encoding::byte_or_zero(bytes, 3 * g + 2);
    let word = x * 65536 + y * 256 + z;
    assert((4 * g) / 4 == g && (4 * g + 1) / 4 == g && (4 * g + 2) / 4 == g && (4 * g + 3) / 4 == g);
    assert(crate::encoding::sextet(bytes, 4 * g) == word / 262144);
    assert(crate::encoding::sextet(bytes, 4 * g + 1) == word / 4096 % 64);
    assert(crate::encoding::sextet(bytes, 4 * g + 2) == word / 64 % 64);
    assert(crate::encoding::sextet(bytes, 4 * g + 3) == word % 64);
    lemma_digits(word);
    if z == 0 {
        assert(word == 64 * (x * 1024 + y * 4));
        if y == 0 {
            assert(word / 64 == 64 * (x * 16));
        }
    }
}

/// The value of a symbol in the text.
proof fn lemma_symbol(engine: &Base64Engine, bytes: &[u8], text: Box<str>, i: int, a: int)
    requires
        call_ensures(Base64Engine::encode, (engine, bytes), text),
        forall|i: int, j: int|
            0 <= i < j < 64 ==> engine.alphabet()[i] != engine.alphabet()[j],
        0 <= i,
        3 * i < 4 * bytes@.len(),
        0 <= a < 64,
        text@[i] == engine.alphabet()[a],
    ensures
        a == crate::encoding::sextet(bytes@, i),
{
    let value = crate::encoding::sextet(bytes@, i);
    crate::encoding::lemma_sextet_range(bytes@, i);
    assert(text@[i] == engine.alphabet()[value]);
    if a < value {
        assert(engine.alphabet()[a] != engine.alphabet()[value]);
    } else if value < a {
        assert(engine.alphabet()[value] != engine.alphabet()[a]);
    }
}

/// Decoding gives what the base64 reader with the settings of the engine gives.
pub proof fn law_decoding_reads_the_text(
    engine: &Base64Engine,
    text: &[u8],
    result: Result<Vec<u8>, DecodeError>,
)
    requires
        call_ensures(Base64Engine::decode, (engine, text), result),
    ensures
        match crate::encoding::base64_decoded(
            engine.alphabet(),
            engine.decode_allow_trailing_bits(),
            engine.decode_padding(),
            text@,
        ) {
            Ok(bytes) => result matches Ok(b) && b@ == bytes,
            Err(error) => result == Err::<Vec<u8>, DecodeError>(error),
        },
{
}

} // verus!
