//! Derivation of a vault's escrow address.
//!
//! The funds of a vault sit at an address that nobody holds a key for. It is
//! derived from a fixed domain tag and the vault's own address, under the
//! program that manages the vault, together with a one-byte salt (the bump)
//! that pushes the result off the signing curve.

use vstd::prelude::*;
use anchor_lang::prelude::Pubkey;
use crate::address::Address;

verus! {

/// What `Pubkey::try_find_program_address` returns for the two seeds
/// `first_seed` and `second_seed` under the program `program_id`: the derived
/// address with its bump, or `None` where no bump yields an address off the
/// curve or a seed is longer than the ledger accepts.
pub uninterp spec fn program_address(
    first_seed: Seq<u8>,
    second_seed: Seq<u8>,
    program_id: Seq<u8>,
) -> Option<(Seq<u8>, u8)>;

/// The domain tag of every escrow derivation: the ASCII bytes of `vault`.
pub open spec fn domain_tag() -> Seq<u8> {
    seq![118u8, 97u8, 117u8, 108u8, 116u8]
}

/// The escrow address of the vault stored at `vault`, with its bump, under the
/// program `program_id`.
pub open spec fn escrow_of(program_id: Seq<u8>, vault: Seq<u8>) -> Option<(Seq<u8>, u8)> {
    program_address(domain_tag(), vault, program_id)
}

/// The seeds that derive an escrow without a search: the domain tag, the
/// vault's address, and the bump as one byte.
pub open spec fn signer_seeds(vault: Seq<u8>, bump: u8) -> Seq<Seq<u8>> {
    seq![domain_tag(), vault, seq![bump]]
}

/// A derived escrow address and the bump that the derivation settled on.
#[derive(Clone, Copy, Debug, PartialEq, Eq)]
pub struct Escrow {
    pub address: Address,
    pub bump: u8,
}

impl View for Escrow {
    type V = (Seq<u8>, u8);

    open spec fn view(&self) -> (Seq<u8>, u8) {
        (self.address@, self.bump)
    }
}

/// The mathematical content of an optional derivation.
pub open spec fn escrow_view(escrow: Option<Escrow>) -> Option<(Seq<u8>, u8)> {
    match escrow {
        Some(e) => Some(e@),
        None => None,
    }
}

/// Calls `Pubkey::try_find_program_address` of the ledger's SDK on two seeds.
///
/// Trusted: the result is the value that `program_address` names for the same
/// seeds and program. Nothing else is claimed of it; the hashing and the curve
/// test are the SDK's.
#[verifier::external_body]
fn try_find_program_address(
    first_seed: &Vec<u8>,
    second_seed: &[u8; 32],
    program_id: &[u8; 32],
) -> (found: Option<([u8; 32], u8)>)
    ensures
        match found {
            Some((address, bump)) => program_address(first_seed@, second_seed@, program_id@)
                == Some((address@, bump)),
            None => program_address(first_seed@, second_seed@, program_id@) is None,
        },
{
    let program = Pubkey::new_from_array(*program_id);
    let seeds = [first_seed.as_slice(), second_seed.as_slice()];
    match Pubkey::try_find_program_address(&seeds, &program) {
        Some((address, bump)) => Some((address.to_bytes(), bump)),
        None => None,
    }
}

/// The bytes of the domain tag.
pub fn domain_tag_bytes() -> (tag: Vec<u8>)
    ensures
        tag@ == domain_tag(),
{
    let mut tag: Vec<u8> = Vec::new();
    tag.push(118u8);
    tag.push(97u8);
    tag.push(117u8);
    tag.push(108u8);
    tag.push(116u8);
    proof {
        assert(tag@ =~= domain_tag());
    }
    tag
}

/// Derives the escrow address of the vault stored at `vault` under the program
/// `program_id`.
pub fn derive_escrow(program_id: &Address, vault: &Address) -> (escrow: Option<Escrow>)
    ensures
        escrow_view(escrow) == escrow_of(program_id@, vault@),
{
    let tag = domain_tag_bytes();
    match try_find_program_address(&tag, &vault.bytes, &program_id.bytes) {
        Some((bytes, bump)) => Some(Escrow { address: Address::new(bytes), bump }),
        None => None,
    }
}

} // verus!
