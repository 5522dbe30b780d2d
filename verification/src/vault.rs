//! The vault record, the accounts that an operation is handed, and the
//! transfers that an operation asks for.

use vstd::prelude::*;
use crate::address::Address;
use crate::derivation::{domain_tag, domain_tag_bytes, signer_seeds};

verus! {

/// Why an operation was refused. A refused operation changes nothing.
#[derive(Clone, Copy, Debug, PartialEq, Eq, Structural)]
pub enum ErrorCode {
    /// A withdrawal asks for more than the vault's recorded balance.
    InsufficientFunds,
    /// The requester did not sign, is not the vault's owner, or the escrow
    /// address presented is not the one derived for the vault.
    Unauthorized,
    /// The recorded balance would leave the range of a `u64`.
    ArithmeticOverflow,
    /// The storage slot already holds a vault.
    AlreadyInitialized,
    /// The storage slot holds no vault.
    StorageNotFound,
}

/// The record kept for one vault.
#[derive(Clone, Copy, Debug, PartialEq, Eq)]
pub struct Vault {
    /// The identity allowed to deposit and withdraw. Never changes.
    pub owner: Address,
    /// The accounted funds, in the smallest currency unit.
    pub balance: u64,
}

impl Vault {
    /// The record of a vault that `owner` has just created.
    pub open spec fn created(owner: Address) -> Vault {
        Vault { owner, balance: 0 }
    }

    /// The record after `amount` has come in, or `None` where the balance
    /// would pass `u64::MAX`.
    pub open spec fn credited(self, amount: u64) -> Option<Vault> {
        if self.balance + amount > u64::MAX {
            None
        } else {
            Some(Vault { owner: self.owner, balance: (self.balance + amount) as u64 })
        }
    }

    /// The record after `amount` has gone out, or `None` where the vault
    /// holds less than that.
    pub open spec fn debited(self, amount: u64) -> Option<Vault> {
        if amount > self.balance {
            None
        } else {
            Some(Vault { owner: self.owner, balance: (self.balance - amount) as u64 })
        }
    }

    /// Tells whether the record names `account` as its owner.
    pub fn has_owner(&self, account: &Address) -> (named: bool)
        ensures
            named == (self.owner@ == account@),
    {
        self.owner.same_as(account)
    }
}

/// The party that asks for an operation, with the ledger's word on whether
/// its signature accompanies the request.
#[derive(Clone, Copy, Debug, PartialEq, Eq)]
pub struct Signer {
    pub key: Address,
    pub is_signer: bool,
}

impl Signer {
    /// Tells whether this party's key is the owner recorded in `vault`.
    pub fn owns(&self, vault: &Vault) -> (owner: bool)
        ensures
            owner == (self.key@ == vault.owner@),
    {
        self.key.same_as(&vault.owner)
    }
}

/// A storage slot for a vault: its address, and the record it holds once the
/// vault has been created.
#[derive(Clone, Copy, Debug, PartialEq, Eq)]
pub struct VaultAccount {
    pub key: Address,
    pub data: Option<Vault>,
}

/// What entitles a transfer to take funds from its source.
#[derive(Clone, Copy, Debug, PartialEq, Eq)]
pub enum Authority {
    /// The source signed the request itself.
    Signature,
    /// The source is the escrow derived from the domain tag, the address
    /// `vault` and the salt `bump`.
    Derivation { vault: Address, bump: u8 },
}

impl Authority {
    /// The seeds to present to the transfer service as proof of the right to
    /// spend from the escrow: none for a source that signed itself.
    pub fn seeds(&self) -> (seeds: Option<Vec<Vec<u8>>>)
        ensures
            match *self {
                Authority::Signature => seeds is None,
                Authority::Derivation { vault, bump } => seeds is Some && seeds->0.deep_view()
                    == signer_seeds(vault@, bump),
            },
    {
        match self {
            Authority::Signature => None,
            Authority::Derivation { vault, bump } => {
                let mut salt: Vec<u8> = Vec::new();
                salt.push(*bump);
                let mut seeds: Vec<Vec<u8>> = Vec::new();
                seeds.push(domain_tag_bytes());
                seeds.push(vault.to_vec());
                seeds.push(salt);
                proof {
                    assert(salt@ =~= seq![*bump]);
                    assert(seeds@[0].deep_view() =~= domain_tag());
                    assert(seeds@[1].deep_view() =~= vault@);
                    assert(seeds@[2].deep_view() =~= seq![*bump]);
                    assert(seeds.deep_view() =~= signer_seeds(vault@, *bump));
                }
                Some(seeds)
            },
        }
    }
}

/// A movement of native currency that the caller has to carry out on the
/// ledger, in the same transaction as the operation that asked for it.
#[derive(Clone, Copy, Debug, PartialEq, Eq)]
pub struct Transfer {
    pub from: Address,
    pub to: Address,
    pub lamports: u64,
    pub authority: Authority,
}

} // verus!
