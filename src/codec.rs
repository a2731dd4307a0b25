//! Base-58 text form of fixed-length binary values.
use vstd::prelude::*;

verus! {

/// The base-58 text that `bs58` produces for a byte sequence.
pub uninterp spec fn base58_text(b: Seq<u8>) -> Seq<char>;

/// The bytes that `bs58` recovers from a text over the base-58 alphabet.
pub uninterp spec fn base58_bytes(s: Seq<char>) -> Seq<u8>;

/// Whether `c` belongs to the Bitcoin base-58 alphabet
/// (`1`-`9`, `A`-`Z` without `I` and `O`, `a`-`z` without `l`).
pub open spec fn is_base58_char(c: char) -> bool {
    ('1' <= c && c <= '9') || ('A' <= c && c <= 'H') || ('J' <= c && c <= 'N') || ('P' <= c
        && c <= 'Z') || ('a' <= c && c <= 'k') || ('m' <= c && c <= 'z')
}

pub open spec fn is_base58(s: Seq<char>) -> bool {
    forall|i: int| 0 <= i < s.len() ==> is_base58_char(#[trigger] s[i])
}

/// A text holds a character outside the base-58 alphabet.
#[derive(Clone, Copy, Debug, PartialEq, Eq)]
pub enum DecodeError {
    InvalidCharacter,
}

/// What decoding a text yields: its bytes, or an error when a character lies
/// outside the alphabet.
pub open spec fn decode_spec(s: Seq<char>) -> Result<Seq<u8>, DecodeError> {
    if is_base58(s) {
        Ok(base58_bytes(s))
    } else {
        Err(DecodeError::InvalidCharacter)
    }
}

#[verifier::external_type_specification]
#[verifier::external_body]
pub struct ExDecodeError(bs58::decode::Error);

/// Relies on `bs58::encode(..).into_string()`: the text uses only the alphabet,
/// is empty exactly for empty input, and `bs58::decode` gives the same bytes
/// back.
#[verifier::external_body]
fn bs58_encode(b: &[u8]) -> (r: String)
    ensures
        r@ == base58_text(b@),
        is_base58(r@),
        base58_bytes(r@) == b@,
        r@.len() == 0 <==> b@.len() == 0,
{
    bs58::encode(b).into_string()
}

/// Relies on `bs58::decode(..).into_vec()`: it fails exactly on a character
/// outside the alphabet (non-ASCII included).
#[verifier::external_body]
fn bs58_decode(s: &str) -> (r: Result<Vec<u8>, bs58::decode::Error>)
    ensures
        r is Ok <==> is_base58(s@),
        r matches Ok(v) ==> v@ == base58_bytes(s@),
        r matches Ok(v) ==> (s@.len() == 0 ==> v@.len() == 0),
{
    bs58::decode(s).into_vec()
}

/// Encodes any byte sequence as base-58 text; decoding the text gives the
/// bytes back. Only the empty sequence gives the empty text.
pub fn encode_base58(b: &[u8]) -> (r: String)
    ensures
        r@ == base58_text(b@),
        decode_spec(r@) == Ok::<Seq<u8>, DecodeError>(b@),
        r@.len() == 0 <==> b@.len() == 0,
{
    bs58_encode(b)
}

/// Decodes base-58 text; fails exactly when a character lies outside the
/// alphabet. The empty text gives the empty sequence.
pub fn decode_base58(s: &str) -> (r: Result<Vec<u8>, DecodeError>)
    ensures
        r matches Ok(v) ==> decode_spec(s@) == Ok::<Seq<u8>, DecodeError>(v@),
        r matches Err(e) ==> decode_spec(s@) == Err::<Seq<u8>, DecodeError>(e),
        s@.len() == 0 ==> (r matches Ok(v) && v@.len() == 0),
{
    match bs58_decode(s) {
        Ok(v) => Ok(v),
        Err(_) => Err(DecodeError::InvalidCharacter),
    }
}

/// A 32-byte value naming an account, a mint or a program.
#[derive(Clone, Debug, PartialEq, Eq)]
pub struct Identifier {
    pub bytes: Vec<u8>,
}

impl View for Identifier {
    type V = Seq<u8>;

    open spec fn view(&self) -> Seq<u8> {
        self.bytes@
    }
}

impl Identifier {
    pub open spec fn wf(&self) -> bool {
        self@.len() == 32
    }

    /// The base-58 text of the identifier.
    pub fn to_base58(&self) -> (r: String)
        ensures
            r@ == base58_text(self@),
            decode_spec(r@) == Ok::<Seq<u8>, DecodeError>(self@),
            r@.len() == 0 <==> self@.len() == 0,
    {
        encode_base58(self.bytes.as_slice())
    }
}

/// A 64-byte signature.
#[derive(Clone, Debug, PartialEq, Eq)]
pub struct Signature {
    pub bytes: Vec<u8>,
}

impl View for Signature {
    type V = Seq<u8>;

    open spec fn view(&self) -> Seq<u8> {
        self.bytes@
    }
}

impl Signature {
    pub open spec fn wf(&self) -> bool {
        self@.len() == 64
    }

    /// The base-58 text of the signature.
    pub fn to_base58(&self) -> (r: String)
        ensures
            r@ == base58_text(self@),
            decode_spec(r@) == Ok::<Seq<u8>, DecodeError>(self@),
            r@.len() == 0 <==> self@.len() == 0,
    {
        encode_base58(self.bytes.as_slice())
    }
}

/// The bytes that a text names when it is base-58 for exactly `n` bytes.
pub open spec fn fixed_length_spec(s: Seq<char>, n: nat) -> Option<Seq<u8>> {
    if is_base58(s) && base58_bytes(s).len() == n {
        Some(base58_bytes(s))
    } else {
        None
    }
}

/// Reads an identifier from its base-58 text: fails when the text is not
/// base-58 or does not stand for exactly 32 bytes.
pub fn parse_identifier(s: &str) -> (r: Option<Identifier>)
    ensures
        r matches Some(id) ==> id.wf() && fixed_length_spec(s@, 32) == Some(id@),
        r is None <==> fixed_length_spec(s@, 32) is None,
{
    match decode_base58(s) {
        Ok(v) => {
            if v.len() == 32 {
                Some(Identifier { bytes: v })
            } else {
                None
            }
        },
        Err(_) => None,
    }
}

/// Reads a signature from its base-58 text: fails when the text is not
/// base-58 or does not stand for exactly 64 bytes.
pub fn parse_signature(s: &str) -> (r: Option<Signature>)
    ensures
        r matches Some(sig) ==> sig.wf() && fixed_length_spec(s@, 64) == Some(sig@),
        r is None <==> fixed_length_spec(s@, 64) is None,
{
    match decode_base58(s) {
        Ok(v) => {
            if v.len() == 64 {
                Some(Signature { bytes: v })
            } else {
                None
            }
        },
        Err(_) => None,
    }
}

/// Encoding an identifier and reading the text back gives the same identifier.
pub proof fn lemma_identifier_round_trip(id: Identifier, text: Seq<char>)
    requires
        id.wf(),
        decode_spec(text) == Ok::<Seq<u8>, DecodeError>(id@),
    ensures
        fixed_length_spec(text, 32) == Some(id@),
{
}

} // verus!
