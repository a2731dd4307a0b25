//! Request-level operations: each checks its raw fields in a fixed order,
//! stops at the first failure, and only then runs the domain component.
use vstd::prelude::*;
use vstd::string::StringSliceAdditionalSpecFns;
use crate::codec::{
    base58_bytes, decode_base58, fixed_length_spec, is_base58, parse_identifier, parse_signature,
    Identifier, Signature,
};
use crate::instruction::{
    initialize_mint, initialize_mint_spec, mint_to, mint_to_spec, token_transfer,
    token_transfer_spec, value_transfer, value_transfer_spec, BuildError, DescriptorView,
    InstructionDescriptor,
};
use crate::keys::{
    derived_public, secret_bytes_valid, signature_accepts, signature_of, verify, KeyError, Keypair,
};

verus! {

/// The request field that held a malformed identifier.
#[derive(Clone, Copy, Debug, PartialEq, Eq)]
pub enum Field {
    Mint,
    MintAuthority,
    Destination,
    Authority,
    From,
    To,
    Owner,
    Pubkey,
}

/// Why a request was refused.
#[derive(Clone, Copy, Debug, PartialEq, Eq)]
pub enum RequestError {
    /// A required field is empty (or a decimals count is zero).
    MissingField,
    /// A field is not base-58 text for exactly 32 bytes.
    InvalidIdentifier(Field),
    /// An amount of zero where it is not allowed.
    InvalidAmount,
    /// The secret is not base-58 text.
    InvalidSecretEncoding,
    /// The secret bytes do not make a keypair.
    InvalidKeypair,
    /// The signature is not base-58 text for exactly 64 bytes.
    InvalidSignatureEncoding,
    /// The instruction encoder refused the parameters.
    InstructionEncoding,
    /// Every seed that key generation drew gave a degenerate keypair.
    KeyGeneration,
}

/// A signature together with the public identifier that accepts it.
pub struct SignedMessage {
    pub signature: Signature,
    pub public: Identifier,
}

pub open spec fn descriptor_result(r: Result<InstructionDescriptor, RequestError>) -> Result<DescriptorView, RequestError> {
    match r {
        Ok(d) => Ok(d@),
        Err(e) => Err(e),
    }
}

pub open spec fn id_of(s: Seq<char>) -> Seq<u8> {
    base58_bytes(s)
}

pub open spec fn bad_id(s: Seq<char>) -> bool {
    fixed_length_spec(s, 32) is None
}

pub open spec fn create_token_spec(mint_authority: Seq<char>, mint: Seq<char>, decimals: u8) -> Result<DescriptorView, RequestError> {
    if mint_authority.len() == 0 || mint.len() == 0 || decimals == 0 {
        Err(RequestError::MissingField)
    } else if bad_id(mint) {
        Err(RequestError::InvalidIdentifier(Field::Mint))
    } else if bad_id(mint_authority) {
        Err(RequestError::InvalidIdentifier(Field::MintAuthority))
    } else {
        Ok(initialize_mint_spec(id_of(mint), id_of(mint_authority), decimals))
    }
}

pub open spec fn token_mint_spec(mint: Seq<char>, destination: Seq<char>, authority: Seq<char>, amount: u64) -> Result<DescriptorView, RequestError> {
    if mint.len() == 0 || destination.len() == 0 || authority.len() == 0 {
        Err(RequestError::MissingField)
    } else if bad_id(mint) {
        Err(RequestError::InvalidIdentifier(Field::Mint))
    } else if bad_id(authority) {
        Err(RequestError::InvalidIdentifier(Field::Authority))
    } else if bad_id(destination) {
        Err(RequestError::InvalidIdentifier(Field::Destination))
    } else if amount == 0 {
        Err(RequestError::InvalidAmount)
    } else {
        Ok(mint_to_spec(id_of(mint), id_of(destination), id_of(authority), amount))
    }
}

pub open spec fn transfer_sol_spec(from: Seq<char>, to: Seq<char>, lamports: u64) -> Result<DescriptorView, RequestError> {
    if from.len() == 0 || to.len() == 0 {
        Err(RequestError::MissingField)
    } else if bad_id(from) {
        Err(RequestError::InvalidIdentifier(Field::From))
    } else if bad_id(to) {
        Err(RequestError::InvalidIdentifier(Field::To))
    } else if lamports == 0 {
        Err(RequestError::InvalidAmount)
    } else {
        Ok(value_transfer_spec(id_of(from), id_of(to), lamports))
    }
}

pub open spec fn transfer_token_spec(owner: Seq<char>, destination: Seq<char>, mint: Seq<char>, amount: u64) -> Result<DescriptorView, RequestError> {
    if owner.len() == 0 || destination.len() == 0 || mint.len() == 0 {
        Err(RequestError::MissingField)
    } else if bad_id(owner) {
        Err(RequestError::InvalidIdentifier(Field::Owner))
    } else if bad_id(destination) {
        Err(RequestError::InvalidIdentifier(Field::Destination))
    } else if bad_id(mint) {
        Err(RequestError::InvalidIdentifier(Field::Mint))
    } else if amount == 0 {
        Err(RequestError::InvalidAmount)
    } else {
        Ok(token_transfer_spec(id_of(owner), id_of(destination), id_of(owner), amount))
    }
}

/// Outcome of signing: the signature and the public identifier, as bytes.
pub open spec fn message_sign_spec(message: Seq<char>, message_bytes: Seq<u8>, secret: Seq<char>) -> Result<(Seq<u8>, Seq<u8>), RequestError> {
    if message.len() == 0 || secret.len() == 0 {
        Err(RequestError::MissingField)
    } else if !is_base58(secret) {
        Err(RequestError::InvalidSecretEncoding)
    } else if !secret_bytes_valid(base58_bytes(secret)) {
        Err(RequestError::InvalidKeypair)
    } else {
        let seed = base58_bytes(secret).subrange(0, 32);
        Ok((signature_of(seed, message_bytes), derived_public(seed)))
    }
}

pub open spec fn message_verify_spec(message: Seq<char>, message_bytes: Seq<u8>, signature: Seq<char>, pubkey: Seq<char>) -> Result<bool, RequestError> {
    if message.len() == 0 || signature.len() == 0 || pubkey.len() == 0 {
        Err(RequestError::MissingField)
    } else if bad_id(pubkey) {
        Err(RequestError::InvalidIdentifier(Field::Pubkey))
    } else if fixed_length_spec(signature, 64) is None {
        Err(RequestError::InvalidSignatureEncoding)
    } else {
        Ok(signature_accepts(base58_bytes(signature), message_bytes, base58_bytes(pubkey)))
    }
}

fn require_identifier(s: &str, field: Field) -> (r: Result<Identifier, RequestError>)
    ensures
        r matches Ok(id) ==> id.wf() && !bad_id(s@) && id@ == id_of(s@),
        r is Err <==> bad_id(s@),
        r matches Err(e) ==> e == RequestError::InvalidIdentifier(field),
{
    match parse_identifier(s) {
        Some(id) => Ok(id),
        None => Err(RequestError::InvalidIdentifier(field)),
    }
}

fn from_build(r: Result<InstructionDescriptor, BuildError>) -> (out: Result<InstructionDescriptor, RequestError>)
    ensures
        r matches Ok(d) ==> out == Ok::<InstructionDescriptor, RequestError>(d),
        r matches Err(e) ==> out == Err::<InstructionDescriptor, RequestError>(
            match e {
                BuildError::InvalidDecimals => RequestError::MissingField,
                BuildError::InvalidAmount => RequestError::InvalidAmount,
                BuildError::Encoding => RequestError::InstructionEncoding,
            },
        ),
{
    match r {
        Ok(d) => Ok(d),
        Err(BuildError::InvalidDecimals) => Err(RequestError::MissingField),
        Err(BuildError::InvalidAmount) => Err(RequestError::InvalidAmount),
        Err(BuildError::Encoding) => Err(RequestError::InstructionEncoding),
    }
}

/// Mint initialisation from raw fields.
pub fn create_token(mint_authority: &str, mint: &str, decimals: u8) -> (r: Result<InstructionDescriptor, RequestError>)
    ensures
        descriptor_result(r) == create_token_spec(mint_authority@, mint@, decimals),
{
    if mint_authority.is_empty() || mint.is_empty() || decimals == 0 {
        return Err(RequestError::MissingField);
    }
    let mint_id = require_identifier(mint, Field::Mint)?;
    let authority_id = require_identifier(mint_authority, Field::MintAuthority)?;
    from_build(initialize_mint(&mint_id, &authority_id, decimals))
}

/// Token minting from raw fields.
pub fn token_mint(mint: &str, destination: &str, authority: &str, amount: u64) -> (r: Result<InstructionDescriptor, RequestError>)
    ensures
        descriptor_result(r) == token_mint_spec(mint@, destination@, authority@, amount),
{
    if mint.is_empty() || destination.is_empty() || authority.is_empty() {
        return Err(RequestError::MissingField);
    }
    let mint_id = require_identifier(mint, Field::Mint)?;
    let authority_id = require_identifier(authority, Field::Authority)?;
    let destination_id = require_identifier(destination, Field::Destination)?;
    from_build(mint_to(&mint_id, &destination_id, &authority_id, amount))
}

/// Value transfer from raw fields.
pub fn transfer_sol(from: &str, to: &str, lamports: u64) -> (r: Result<InstructionDescriptor, RequestError>)
    ensures
        descriptor_result(r) == transfer_sol_spec(from@, to@, lamports),
{
    if from.is_empty() || to.is_empty() {
        return Err(RequestError::MissingField);
    }
    let from_id = require_identifier(from, Field::From)?;
    let to_id = require_identifier(to, Field::To)?;
    from_build(value_transfer(&from_id, &to_id, lamports))
}

/// Token transfer from raw fields. The mint must be a well-formed identifier;
/// the instruction itself does not name it.
pub fn transfer_token(owner: &str, destination: &str, mint: &str, amount: u64) -> (r: Result<InstructionDescriptor, RequestError>)
    ensures
        descriptor_result(r) == transfer_token_spec(owner@, destination@, mint@, amount),
{
    if owner.is_empty() || destination.is_empty() || mint.is_empty() {
        return Err(RequestError::MissingField);
    }
    let owner_id = require_identifier(owner, Field::Owner)?;
    let destination_id = require_identifier(destination, Field::Destination)?;
    let _mint_id = require_identifier(mint, Field::Mint)?;
    from_build(token_transfer(&owner_id, &destination_id, amount))
}

/// Signs the UTF-8 bytes of a message with a keypair given as base-58 text.
pub fn message_sign(message: &str, secret: &str) -> (r: Result<SignedMessage, RequestError>)
    ensures
        r matches Ok(m) ==> m.signature.wf() && m.public.wf() && message_sign_spec(
            message@,
            message.spec_bytes(),
            secret@,
        ) == Ok::<(Seq<u8>, Seq<u8>), RequestError>((m.signature@, m.public@)),
        r matches Err(e) ==> message_sign_spec(message@, message.spec_bytes(), secret@) == Err::<
            (Seq<u8>, Seq<u8>),
            RequestError,
        >(e),
        r matches Ok(m) ==> signature_accepts(m.signature@, message.spec_bytes(), m.public@),
{
    if message.is_empty() || secret.is_empty() {
        return Err(RequestError::MissingField);
    }
    let bytes = match decode_base58(secret) {
        Ok(b) => b,
        Err(_) => return Err(RequestError::InvalidSecretEncoding),
    };
    let keypair = match Keypair::from_secret_bytes(bytes.as_slice()) {
        Ok(k) => k,
        Err(_) => return Err(RequestError::InvalidKeypair),
    };
    let signature = keypair.sign(message.as_bytes());
    Ok(SignedMessage { signature, public: keypair.pubkey() })
}

/// Checks a base-58 signature over the UTF-8 bytes of a message against a
/// base-58 public identifier.
pub fn message_verify(message: &str, signature: &str, pubkey: &str) -> (r: Result<bool, RequestError>)
    ensures
        r == message_verify_spec(message@, message.spec_bytes(), signature@, pubkey@),
{
    if message.is_empty() || signature.is_empty() || pubkey.is_empty() {
        return Err(RequestError::MissingField);
    }
    let id = require_identifier(pubkey, Field::Pubkey)?;
    let sig = match parse_signature(signature) {
        Some(s) => s,
        None => return Err(RequestError::InvalidSignatureEncoding),
    };
    Ok(verify(&sig, message.as_bytes(), &id))
}

/// A fresh keypair; refused only when every seed drawn gave a degenerate
/// identifier.
pub fn generate_keypair() -> (r: Result<Keypair, RequestError>)
    ensures
        r matches Ok(k) ==> k.wf() && !crate::keys::is_zero(k.public_view()),
        r matches Err(e) ==> e == RequestError::KeyGeneration,
{
    match Keypair::generate() {
        Ok(k) => Ok(k),
        Err(_) => Err(RequestError::KeyGeneration),
    }
}

/// Once every required field is present, a malformed identifier in any field
/// that names one makes the request fail with an identifier error.
pub proof fn lemma_malformed_identifier_rejected(a: Seq<char>, b: Seq<char>, c: Seq<char>, bad: Seq<char>, decimals: u8, amount: u64)
    requires
        a.len() > 0,
        b.len() > 0,
        c.len() > 0,
        bad.len() > 0,
        bad_id(bad),
    ensures
        decimals != 0 ==> create_token_spec(bad, a, decimals) matches Err(RequestError::InvalidIdentifier(_)),
        decimals != 0 ==> create_token_spec(a, bad, decimals) matches Err(RequestError::InvalidIdentifier(_)),
        token_mint_spec(bad, a, b, amount) matches Err(RequestError::InvalidIdentifier(_)),
        token_mint_spec(a, bad, b, amount) matches Err(RequestError::InvalidIdentifier(_)),
        token_mint_spec(a, b, bad, amount) matches Err(RequestError::InvalidIdentifier(_)),
        transfer_sol_spec(bad, a, amount) matches Err(RequestError::InvalidIdentifier(_)),
        transfer_sol_spec(a, bad, amount) matches Err(RequestError::InvalidIdentifier(_)),
        transfer_token_spec(bad, a, b, amount) matches Err(RequestError::InvalidIdentifier(_)),
        transfer_token_spec(a, bad, b, amount) matches Err(RequestError::InvalidIdentifier(_)),
        transfer_token_spec(a, b, bad, amount) matches Err(RequestError::InvalidIdentifier(_)),
        forall|bytes: Seq<u8>|
            #[trigger] message_verify_spec(a, bytes, b, bad) == Err::<bool, RequestError>(
                RequestError::InvalidIdentifier(Field::Pubkey),
            ),
{
}

} // verus!
