//! The persisted form of a vault's record: the owner's 32 bytes, then the
//! balance as 8 bytes, least significant first.

use vstd::prelude::*;
use vstd::bytes::{
    lemma_auto_spec_u64_to_from_le_bytes, spec_u64_from_le_bytes, spec_u64_to_le_bytes,
    u64_from_le_bytes, u64_to_le_bytes,
};
use vstd::slice::slice_subrange;
use crate::address::{lemma_address_ext, Address};
use crate::vault::Vault;

verus! {

/// Number of bytes that a record takes.
pub const RECORD_BYTES: usize = 40;

/// The bytes that stand for `vault` in storage.
pub open spec fn record_bytes(vault: Vault) -> Seq<u8> {
    vault.owner@ + spec_u64_to_le_bytes(vault.balance)
}

impl Vault {
    /// Writes the record out.
    pub fn to_bytes(&self) -> (bytes: Vec<u8>)
        ensures
            bytes@ == record_bytes(*self),
            bytes@.len() == RECORD_BYTES,
    {
        let mut bytes = self.owner.to_vec();
        let mut balance = u64_to_le_bytes(self.balance);
        bytes.append(&mut balance);
        bytes
    }

    /// Reads a record back: `None` unless `bytes` holds exactly 40 bytes, and
    /// else the one record whose stored form they are.
    pub fn from_bytes(bytes: &[u8]) -> (vault: Option<Vault>)
        ensures
            match vault {
                Some(record) => bytes@.len() == RECORD_BYTES && record_bytes(record) == bytes@,
                None => bytes@.len() != RECORD_BYTES,
            },
    {
        if bytes.len() != 40 {
            return None;
        }
        let mut owner = [0u8; 32];
        let mut i: usize = 0;
        while i < 32
            invariant
                i <= 32,
                bytes@.len() == 40,
                forall|j: int| 0 <= j < i ==> owner@[j] == bytes@[j],
            decreases 32 - i,
        {
            owner[i] = bytes[i];
            i += 1;
        }
        let tail = slice_subrange(bytes, 32, 40);
        let balance = u64_from_le_bytes(tail);
        let record = Vault { owner: Address::new(owner), balance };
        proof {
            lemma_auto_spec_u64_to_from_le_bytes();
            assert(spec_u64_to_le_bytes(balance) == tail@);
            assert(record_bytes(record) =~= bytes@);
        }
        Some(record)
    }
}

/// Two records with the same stored form are the same record, and every
/// stored form is 40 bytes long.
pub proof fn lemma_record_bytes_injective(a: Vault, b: Vault)
    ensures
        record_bytes(a).len() == RECORD_BYTES,
        record_bytes(a) == record_bytes(b) ==> a == b,
{
    lemma_auto_spec_u64_to_from_le_bytes();
    if record_bytes(a) == record_bytes(b) {
        assert(a.owner@ =~= record_bytes(a).subrange(0, 32));
        assert(b.owner@ =~= record_bytes(b).subrange(0, 32));
        assert(spec_u64_to_le_bytes(a.balance) =~= record_bytes(a).subrange(32, 40));
        assert(spec_u64_to_le_bytes(b.balance) =~= record_bytes(b).subrange(32, 40));
        assert(spec_u64_from_le_bytes(spec_u64_to_le_bytes(a.balance)) == a.balance);
        assert(spec_u64_from_le_bytes(spec_u64_to_le_bytes(b.balance)) == b.balance);
        lemma_address_ext(a.owner, b.owner);
    }
}

} // verus!
