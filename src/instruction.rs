//! Unsigned instruction descriptors for the token program and the system
//! program.
use vstd::prelude::*;
use crate::codec::Identifier;
use spl_token::solana_program::pubkey::Pubkey;

verus! {

#[verifier::external_type_specification]
#[verifier::external_body]
pub struct ExProgramError(spl_token::solana_program::program_error::ProgramError);

/// One account referenced by an instruction.
#[derive(Clone, Debug, PartialEq, Eq)]
pub struct AccountMeta {
    pub pubkey: Identifier,
    pub is_signer: bool,
    pub is_writable: bool,
}

pub ghost struct MetaView {
    pub key: Seq<u8>,
    pub is_signer: bool,
    pub is_writable: bool,
}

impl View for AccountMeta {
    type V = MetaView;

    open spec fn view(&self) -> MetaView {
        MetaView { key: self.pubkey@, is_signer: self.is_signer, is_writable: self.is_writable }
    }
}

/// A target program, an ordered list of accounts and an opaque payload.
#[derive(Clone, Debug, PartialEq, Eq)]
pub struct InstructionDescriptor {
    pub program_id: Identifier,
    pub accounts: Vec<AccountMeta>,
    pub data: Vec<u8>,
}

pub ghost struct DescriptorView {
    pub program_id: Seq<u8>,
    pub accounts: Seq<MetaView>,
    pub data: Seq<u8>,
}

impl View for InstructionDescriptor {
    type V = DescriptorView;

    open spec fn view(&self) -> DescriptorView {
        DescriptorView {
            program_id: self.program_id@,
            accounts: self.accounts@.map_values(|m: AccountMeta| m@),
            data: self.data@,
        }
    }
}

/// Why a builder refused its parameters.
#[derive(Clone, Copy, Debug, PartialEq, Eq)]
pub enum BuildError {
    /// A decimals count of zero.
    InvalidDecimals,
    /// An amount of zero.
    InvalidAmount,
    /// The token program's own encoder refused the parameters.
    Encoding,
}

/// The token program: `TokenkegQfeZyiNwAJbNbGKPFXCWuBvf9Ss623VQ5DA`.
pub open spec fn token_program_id() -> Seq<u8> {
    seq![
        6u8, 221, 246, 225, 215, 101, 161, 147, 217, 203, 225, 70, 206, 235, 121, 172, 28, 180,
        133, 237, 95, 91, 55, 145, 58, 140, 245, 133, 126, 255, 0, 169,
    ]
}

/// The system program: 32 zero bytes.
pub open spec fn system_program_id() -> Seq<u8> {
    Seq::new(32, |i: int| 0u8)
}

/// Little-endian bytes of a 64-bit value.
pub open spec fn le_bytes(v: u64) -> Seq<u8> {
    seq![
        v as u8, (v >> 8u64) as u8, (v >> 16u64) as u8, (v >> 24u64) as u8, (v >> 32u64) as u8,
        (v >> 40u64) as u8, (v >> 48u64) as u8, (v >> 56u64) as u8,
    ]
}

pub open spec fn meta(key: Seq<u8>, is_signer: bool, is_writable: bool) -> MetaView {
    MetaView { key, is_signer, is_writable }
}

/// Mint initialisation: tag 20, decimals, mint authority, then the freeze
/// authority (present, and the mint authority itself).
pub open spec fn initialize_mint_spec(mint: Seq<u8>, authority: Seq<u8>, decimals: u8) -> DescriptorView {
    DescriptorView {
        program_id: token_program_id(),
        accounts: seq![meta(mint, false, true)],
        data: seq![20u8, decimals] + authority + seq![1u8] + authority,
    }
}

/// Token minting: tag 7 and the amount.
pub open spec fn mint_to_spec(mint: Seq<u8>, destination: Seq<u8>, authority: Seq<u8>, amount: u64) -> DescriptorView {
    DescriptorView {
        program_id: token_program_id(),
        accounts: seq![meta(mint, false, true), meta(destination, false, true), meta(authority, true, false)],
        data: seq![7u8] + le_bytes(amount),
    }
}

/// Token transfer: tag 3 and the amount.
pub open spec fn token_transfer_spec(source: Seq<u8>, destination: Seq<u8>, owner: Seq<u8>, amount: u64) -> DescriptorView {
    DescriptorView {
        program_id: token_program_id(),
        accounts: seq![meta(source, false, true), meta(destination, false, true), meta(owner, true, false)],
        data: seq![3u8] + le_bytes(amount),
    }
}

/// Value transfer: the 32-bit tag 2 and the amount, both little-endian.
pub open spec fn value_transfer_spec(from: Seq<u8>, to: Seq<u8>, lamports: u64) -> DescriptorView {
    DescriptorView {
        program_id: system_program_id(),
        accounts: seq![meta(from, true, true), meta(to, false, true)],
        data: seq![2u8, 0, 0, 0] + le_bytes(lamports),
    }
}

/// Relies on `spl_token::instruction::initialize_mint2` with the token
/// program's own id, which it accepts.
#[verifier::external_body]
fn spl_initialize_mint2(mint: &Identifier, authority: &Identifier, decimals: u8) -> (r: Result<InstructionDescriptor, spl_token::solana_program::program_error::ProgramError>)
    requires
        mint.wf(),
        authority.wf(),
    ensures
        r is Ok,
        r->Ok_0@ == initialize_mint_spec(mint@, authority@, decimals),
{
    let key = |id: &Identifier| Pubkey::new_from_array(id.bytes.as_slice().try_into().unwrap());
    let auth = key(authority);
    spl_token::instruction::initialize_mint2(&spl_token::id(), &key(mint), &auth, Some(&auth), decimals)
        .map(|ix| InstructionDescriptor {
            program_id: Identifier { bytes: ix.program_id.to_bytes().to_vec() },
            accounts: ix.accounts.iter().map(|m| AccountMeta { pubkey: Identifier { bytes: m.pubkey.to_bytes().to_vec() }, is_signer: m.is_signer, is_writable: m.is_writable }).collect(),
            data: ix.data,
        })
}

/// Relies on `spl_token::instruction::mint_to` with the token program's own id
/// and no multisignature signers, which it accepts.
#[verifier::external_body]
fn spl_mint_to(mint: &Identifier, destination: &Identifier, authority: &Identifier, amount: u64) -> (r: Result<InstructionDescriptor, spl_token::solana_program::program_error::ProgramError>)
    requires
        mint.wf(),
        destination.wf(),
        authority.wf(),
    ensures
        r is Ok,
        r->Ok_0@ == mint_to_spec(mint@, destination@, authority@, amount),
{
    let key = |id: &Identifier| Pubkey::new_from_array(id.bytes.as_slice().try_into().unwrap());
    spl_token::instruction::mint_to(&spl_token::id(), &key(mint), &key(destination), &key(authority), &[], amount)
        .map(|ix| InstructionDescriptor {
            program_id: Identifier { bytes: ix.program_id.to_bytes().to_vec() },
            accounts: ix.accounts.iter().map(|m| AccountMeta { pubkey: Identifier { bytes: m.pubkey.to_bytes().to_vec() }, is_signer: m.is_signer, is_writable: m.is_writable }).collect(),
            data: ix.data,
        })
}

/// Relies on `spl_token::instruction::transfer` with the token program's own id
/// and no multisignature signers, which it accepts.
#[verifier::external_body]
fn spl_transfer(source: &Identifier, destination: &Identifier, owner: &Identifier, amount: u64) -> (r: Result<InstructionDescriptor, spl_token::solana_program::program_error::ProgramError>)
    requires
        source.wf(),
        destination.wf(),
        owner.wf(),
    ensures
        r is Ok,
        r->Ok_0@ == token_transfer_spec(source@, destination@, owner@, amount),
{
    let key = |id: &Identifier| Pubkey::new_from_array(id.bytes.as_slice().try_into().unwrap());
    spl_token::instruction::transfer(&spl_token::id(), &key(source), &key(destination), &key(owner), &[], amount)
        .map(|ix| InstructionDescriptor {
            program_id: Identifier { bytes: ix.program_id.to_bytes().to_vec() },
            accounts: ix.accounts.iter().map(|m| AccountMeta { pubkey: Identifier { bytes: m.pubkey.to_bytes().to_vec() }, is_signer: m.is_signer, is_writable: m.is_writable }).collect(),
            data: ix.data,
        })
}

/// Relies on `system_instruction::transfer`: the system program, the bincode
/// form of the transfer variant, the payer as signer.
#[verifier::external_body]
fn system_transfer(from: &Identifier, to: &Identifier, lamports: u64) -> (r: InstructionDescriptor)
    requires
        from.wf(),
        to.wf(),
    ensures
        r@ == value_transfer_spec(from@, to@, lamports),
{
    let key = |id: &Identifier| solana_sdk::pubkey::Pubkey::new_from_array(id.bytes.as_slice().try_into().unwrap());
    let ix = solana_sdk::system_instruction::transfer(&key(from), &key(to), lamports);
    InstructionDescriptor {
        program_id: Identifier { bytes: ix.program_id.to_bytes().to_vec() },
        accounts: ix.accounts.iter().map(|m| AccountMeta { pubkey: Identifier { bytes: m.pubkey.to_bytes().to_vec() }, is_signer: m.is_signer, is_writable: m.is_writable }).collect(),
        data: ix.data,
    }
}

/// Mint initialisation; a decimals count of zero is refused.
pub fn initialize_mint(mint: &Identifier, authority: &Identifier, decimals: u8) -> (r: Result<InstructionDescriptor, BuildError>)
    requires
        mint.wf(),
        authority.wf(),
    ensures
        decimals == 0 ==> r == Err::<InstructionDescriptor, BuildError>(BuildError::InvalidDecimals),
        decimals != 0 ==> r is Ok && r->Ok_0@ == initialize_mint_spec(mint@, authority@, decimals),
{
    if decimals == 0 {
        return Err(BuildError::InvalidDecimals);
    }
    match spl_initialize_mint2(mint, authority, decimals) {
        Ok(d) => Ok(d),
        Err(_) => Err(BuildError::Encoding),
    }
}

/// Token minting; an amount of zero is refused.
pub fn mint_to(mint: &Identifier, destination: &Identifier, authority: &Identifier, amount: u64) -> (r: Result<InstructionDescriptor, BuildError>)
    requires
        mint.wf(),
        destination.wf(),
        authority.wf(),
    ensures
        amount == 0 ==> r == Err::<InstructionDescriptor, BuildError>(BuildError::InvalidAmount),
        amount != 0 ==> r is Ok && r->Ok_0@ == mint_to_spec(mint@, destination@, authority@, amount),
{
    if amount == 0 {
        return Err(BuildError::InvalidAmount);
    }
    match spl_mint_to(mint, destination, authority, amount) {
        Ok(d) => Ok(d),
        Err(_) => Err(BuildError::Encoding),
    }
}

/// Token transfer from the owner's account, signed by the owner; an amount of
/// zero is refused, as for value transfer.
pub fn token_transfer(owner: &Identifier, destination: &Identifier, amount: u64) -> (r: Result<InstructionDescriptor, BuildError>)
    requires
        owner.wf(),
        destination.wf(),
    ensures
        amount == 0 ==> r == Err::<InstructionDescriptor, BuildError>(BuildError::InvalidAmount),
        amount != 0 ==> r is Ok && r->Ok_0@ == token_transfer_spec(owner@, destination@, owner@, amount),
{
    if amount == 0 {
        return Err(BuildError::InvalidAmount);
    }
    match spl_transfer(owner, destination, owner, amount) {
        Ok(d) => Ok(d),
        Err(_) => Err(BuildError::Encoding),
    }
}

/// Value transfer; an amount of zero is refused.
pub fn value_transfer(from: &Identifier, to: &Identifier, lamports: u64) -> (r: Result<InstructionDescriptor, BuildError>)
    requires
        from.wf(),
        to.wf(),
    ensures
        lamports == 0 ==> r == Err::<InstructionDescriptor, BuildError>(BuildError::InvalidAmount),
        lamports != 0 ==> r is Ok && r->Ok_0@ == value_transfer_spec(from@, to@, lamports),
{
    if lamports == 0 {
        return Err(BuildError::InvalidAmount);
    }
    Ok(system_transfer(from, to, lamports))
}

} // verus!
