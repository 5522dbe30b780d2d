//! The vault manager: the four operations on a vault.

use vstd::prelude::*;
use crate::address::Address;
use crate::derivation::{derive_escrow, escrow_of, escrow_view, Escrow};
use crate::vault::{Authority, ErrorCode, Signer, Transfer, Vault, VaultAccount};

verus! {

/// The accounts of a request to create a vault.
#[derive(Clone, Copy, Debug, PartialEq, Eq)]
pub struct Initialize {
    /// The slot that is to hold the new vault.
    pub vault: VaultAccount,
    /// The requester, who becomes the owner.
    pub user: Signer,
}

/// The accounts of a request to deposit.
#[derive(Clone, Copy, Debug, PartialEq, Eq)]
pub struct Deposit {
    /// The program that manages the vault.
    pub program_id: Address,
    pub vault: VaultAccount,
    /// The address presented as the vault's escrow.
    pub vault_authority: Address,
    pub user: Signer,
}

/// The accounts of a request to withdraw.
#[derive(Clone, Copy, Debug, PartialEq, Eq)]
pub struct Withdraw {
    /// The program that manages the vault.
    pub program_id: Address,
    pub vault: VaultAccount,
    /// The address presented as the vault's escrow.
    pub vault_authority: Address,
    pub user: Signer,
}

/// The accounts of a request to look at a vault.
#[derive(Clone, Copy, Debug, PartialEq, Eq)]
pub struct CheckBalance {
    pub vault: VaultAccount,
    pub user: Signer,
}

/// Why a deposit or a withdrawal on these accounts is turned away before any
/// amount is looked at, if it is: the slot is empty; or the requester did not
/// sign, is not the recorded owner, or `vault_authority` is not the address
/// that `escrow` holds.
pub open spec fn access_error(
    vault: VaultAccount,
    vault_authority: Address,
    user: Signer,
    escrow: Option<(Seq<u8>, u8)>,
) -> Option<ErrorCode> {
    if vault.data is None {
        Some(ErrorCode::StorageNotFound)
    } else if !user.is_signer || user.key@ != vault.data->0.owner@ || escrow is None
        || (escrow->0).0 != vault_authority@ {
        Some(ErrorCode::Unauthorized)
    } else {
        None
    }
}

/// What creating a vault on `ctx` returns.
pub open spec fn initialize_outcome(ctx: Initialize) -> Result<(), ErrorCode> {
    if ctx.vault.data is Some {
        Err(ErrorCode::AlreadyInitialized)
    } else if !ctx.user.is_signer {
        Err(ErrorCode::Unauthorized)
    } else {
        Ok(())
    }
}

/// The accounts after creating a vault on `ctx`.
pub open spec fn initialize_next(ctx: Initialize) -> Initialize {
    if initialize_outcome(ctx) is Ok {
        Initialize {
            vault: VaultAccount { key: ctx.vault.key, data: Some(Vault::created(ctx.user.key)) },
            user: ctx.user,
        }
    } else {
        ctx
    }
}

/// What depositing `amount` on `ctx` returns, where `escrow` is the derived
/// escrow of the vault.
pub open spec fn deposit_outcome(ctx: Deposit, escrow: Option<(Seq<u8>, u8)>, amount: u64) -> Result<
    Transfer,
    ErrorCode,
> {
    match access_error(ctx.vault, ctx.vault_authority, ctx.user, escrow) {
        Some(error) => Err(error),
        None => if ctx.vault.data->0.credited(amount) is None {
            Err(ErrorCode::ArithmeticOverflow)
        } else {
            Ok(
                Transfer {
                    from: ctx.user.key,
                    to: ctx.vault_authority,
                    lamports: amount,
                    authority: Authority::Signature,
                },
            )
        },
    }
}

/// The accounts after depositing `amount` on `ctx`.
pub open spec fn deposit_next(ctx: Deposit, escrow: Option<(Seq<u8>, u8)>, amount: u64) -> Deposit {
    if deposit_outcome(ctx, escrow, amount) is Ok {
        Deposit {
            program_id: ctx.program_id,
            vault: VaultAccount { key: ctx.vault.key, data: ctx.vault.data->0.credited(amount) },
            vault_authority: ctx.vault_authority,
            user: ctx.user,
        }
    } else {
        ctx
    }
}

/// What withdrawing `amount` on `ctx` returns, where `escrow` is the derived
/// escrow of the vault.
pub open spec fn withdraw_outcome(ctx: Withdraw, escrow: Option<(Seq<u8>, u8)>, amount: u64) -> Result<
    Transfer,
    ErrorCode,
> {
    match access_error(ctx.vault, ctx.vault_authority, ctx.user, escrow) {
        Some(error) => Err(error),
        None => if ctx.vault.data->0.debited(amount) is None {
            Err(ErrorCode::InsufficientFunds)
        } else {
            Ok(
                Transfer {
                    from: ctx.vault_authority,
                    to: ctx.user.key,
                    lamports: amount,
                    authority: Authority::Derivation { vault: ctx.vault.key, bump: (escrow->0).1 },
                },
            )
        },
    }
}

/// The accounts after withdrawing `amount` on `ctx`.
pub open spec fn withdraw_next(ctx: Withdraw, escrow: Option<(Seq<u8>, u8)>, amount: u64) -> Withdraw {
    if withdraw_outcome(ctx, escrow, amount) is Ok {
        Withdraw {
            program_id: ctx.program_id,
            vault: VaultAccount { key: ctx.vault.key, data: ctx.vault.data->0.debited(amount) },
            vault_authority: ctx.vault_authority,
            user: ctx.user,
        }
    } else {
        ctx
    }
}

/// What looking at the vault of `ctx` returns.
pub open spec fn check_balance_outcome(ctx: CheckBalance) -> Result<(), ErrorCode> {
    if ctx.vault.data is None {
        Err(ErrorCode::StorageNotFound)
    } else if !ctx.user.is_signer {
        Err(ErrorCode::Unauthorized)
    } else {
        Ok(())
    }
}

/// Runs the checks that a deposit and a withdrawal share, and hands back the
/// vault's record and its escrow where all of them pass.
fn authorize(
    vault: &VaultAccount,
    vault_authority: &Address,
    user: &Signer,
    escrow: Option<Escrow>,
) -> (granted: Result<(Vault, Escrow), ErrorCode>)
    ensures
        match granted {
            Ok((record, derived)) => access_error(
                *vault,
                *vault_authority,
                *user,
                escrow_view(escrow),
            ) is None && vault.data == Some(record) && escrow == Some(derived),
            Err(error) => access_error(*vault, *vault_authority, *user, escrow_view(escrow))
                == Some(error),
        },
{
    let record = match vault.data {
        Some(record) => record,
        None => { return Err(ErrorCode::StorageNotFound); },
    };
    if !user.is_signer {
        return Err(ErrorCode::Unauthorized);
    }
    // The record must name the requester as its owner.
    if !record.has_owner(&user.key) {
        return Err(ErrorCode::Unauthorized);
    }
    let derived = match escrow {
        Some(derived) => derived,
        None => { return Err(ErrorCode::Unauthorized); },
    };
    if !vault_authority.same_as(&derived.address) {
        return Err(ErrorCode::Unauthorized);
    }
    // The requester's key must equal the recorded owner: kept as a check of
    // its own beside the one above.
    if !user.owns(&record) {
        return Err(ErrorCode::Unauthorized);
    }
    Ok((record, derived))
}

/// Creates the vault: the requester becomes its owner and its balance is 0.
/// No transfer goes with it.
///
/// Refused with `AlreadyInitialized` where the slot holds a vault, whoever
/// asks, and with `Unauthorized` where the requester did not sign.
pub fn initialize(ctx: &mut Initialize) -> (result: Result<(), ErrorCode>)
    ensures
        result == initialize_outcome(*old(ctx)),
        *final(ctx) == initialize_next(*old(ctx)),
        result is Err ==> *final(ctx) == *old(ctx),
        old(ctx).vault.data is Some ==> result == Err::<(), ErrorCode>(ErrorCode::AlreadyInitialized),
{
    if ctx.vault.data.is_some() {
        return Err(ErrorCode::AlreadyInitialized);
    }
    if !ctx.user.is_signer {
        return Err(ErrorCode::Unauthorized);
    }
    ctx.vault.data = Some(Vault { owner: ctx.user.key, balance: 0 });
    Ok(())
}

/// Deposits `amount` into the vault whose escrow derivation is `escrow`.
///
/// On success the balance has grown by `amount`, and the transfer returned
/// moves `amount` from the requester to the escrow on the requester's own
/// signature. Refused, with nothing changed: `StorageNotFound` on an empty
/// slot; `Unauthorized` where the requester did not sign or is not the owner,
/// or the escrow presented is not the derived one; `ArithmeticOverflow` where
/// the balance would pass `u64::MAX`.
pub fn deposit_with_escrow(ctx: &mut Deposit, escrow: Option<Escrow>, amount: u64) -> (result: Result<
    Transfer,
    ErrorCode,
>)
    ensures
        result == deposit_outcome(*old(ctx), escrow_view(escrow), amount),
        *final(ctx) == deposit_next(*old(ctx), escrow_view(escrow), amount),
        result is Err ==> *final(ctx) == *old(ctx),
        result is Ok ==> final(ctx).vault.data == Some(
            Vault {
                owner: old(ctx).vault.data->0.owner,
                balance: (old(ctx).vault.data->0.balance + amount) as u64,
            },
        ),
        old(ctx).vault.data is Some && old(ctx).user.key@ != old(ctx).vault.data->0.owner@
            ==> result == Err::<Transfer, ErrorCode>(ErrorCode::Unauthorized),
        old(ctx).vault.data is Some && old(ctx).vault.data->0.balance + amount > u64::MAX
            ==> result is Err,
        access_error(old(ctx).vault, old(ctx).vault_authority, old(ctx).user, escrow_view(escrow))
            is None && old(ctx).vault.data->0.balance + amount > u64::MAX ==> result == Err::<
            Transfer,
            ErrorCode,
        >(ErrorCode::ArithmeticOverflow),
{
    let (record, _) = match authorize(&ctx.vault, &ctx.vault_authority, &ctx.user, escrow) {
        Ok(granted) => granted,
        Err(error) => { return Err(error); },
    };
    let balance = match record.balance.checked_add(amount) {
        Some(balance) => balance,
        None => { return Err(ErrorCode::ArithmeticOverflow); },
    };
    ctx.vault.data = Some(Vault { owner: record.owner, balance });
    Ok(
        Transfer {
            from: ctx.user.key,
            to: ctx.vault_authority,
            lamports: amount,
            authority: Authority::Signature,
        },
    )
}

/// Withdraws `amount` from the vault whose escrow derivation is `escrow`.
///
/// On success the balance has shrunk by `amount`, and the transfer returned
/// moves `amount` from the escrow to the requester on the strength of the
/// derivation. Refused, with nothing changed: `StorageNotFound` on an empty
/// slot; `Unauthorized` where the requester did not sign or is not the owner,
/// or the escrow presented is not the derived one; `InsufficientFunds` where
/// `amount` exceeds the balance.
pub fn withdraw_with_escrow(ctx: &mut Withdraw, escrow: Option<Escrow>, amount: u64) -> (result: Result<
    Transfer,
    ErrorCode,
>)
    ensures
        result == withdraw_outcome(*old(ctx), escrow_view(escrow), amount),
        *final(ctx) == withdraw_next(*old(ctx), escrow_view(escrow), amount),
        result is Err ==> *final(ctx) == *old(ctx),
        result is Ok ==> final(ctx).vault.data == Some(
            Vault {
                owner: old(ctx).vault.data->0.owner,
                balance: (old(ctx).vault.data->0.balance - amount) as u64,
            },
        ),
        old(ctx).vault.data is Some && old(ctx).user.key@ != old(ctx).vault.data->0.owner@
            ==> result == Err::<Transfer, ErrorCode>(ErrorCode::Unauthorized),
        old(ctx).vault.data is Some && amount > old(ctx).vault.data->0.balance ==> result is Err,
        old(ctx).vault.data is Some && (escrow is None || escrow->0.address@ != old(
            ctx,
        ).vault_authority@) ==> result == Err::<Transfer, ErrorCode>(ErrorCode::Unauthorized),
        result != Err::<Transfer, ErrorCode>(ErrorCode::ArithmeticOverflow),
{
    let (record, derived) = match authorize(&ctx.vault, &ctx.vault_authority, &ctx.user, escrow) {
        Ok(granted) => granted,
        Err(error) => { return Err(error); },
    };
    if record.balance < amount {
        return Err(ErrorCode::InsufficientFunds);
    }
    let balance = match record.balance.checked_sub(amount) {
        Some(balance) => balance,
        None => { return Err(ErrorCode::ArithmeticOverflow); },
    };
    ctx.vault.data = Some(Vault { owner: record.owner, balance });
    Ok(
        Transfer {
            from: ctx.vault_authority,
            to: ctx.user.key,
            lamports: amount,
            authority: Authority::Derivation { vault: ctx.vault.key, bump: derived.bump },
        },
    )
}

/// Deposits `amount` into the vault, deriving its escrow from the program and
/// the vault's address.
pub fn deposit(ctx: &mut Deposit, amount: u64) -> (result: Result<Transfer, ErrorCode>)
    ensures
        result == deposit_outcome(
            *old(ctx),
            escrow_of(old(ctx).program_id@, old(ctx).vault.key@),
            amount,
        ),
        *final(ctx) == deposit_next(
            *old(ctx),
            escrow_of(old(ctx).program_id@, old(ctx).vault.key@),
            amount,
        ),
        result is Err ==> *final(ctx) == *old(ctx),
        result is Ok ==> final(ctx).vault.data == Some(
            Vault {
                owner: old(ctx).vault.data->0.owner,
                balance: (old(ctx).vault.data->0.balance + amount) as u64,
            },
        ),
        old(ctx).vault.data is Some && old(ctx).user.key@ != old(ctx).vault.data->0.owner@
            ==> result == Err::<Transfer, ErrorCode>(ErrorCode::Unauthorized),
        old(ctx).vault.data is Some && old(ctx).vault.data->0.balance + amount > u64::MAX
            ==> result is Err,
        access_error(
            old(ctx).vault,
            old(ctx).vault_authority,
            old(ctx).user,
            escrow_of(old(ctx).program_id@, old(ctx).vault.key@),
        ) is None && old(ctx).vault.data->0.balance + amount > u64::MAX ==> result == Err::<
            Transfer,
            ErrorCode,
        >(ErrorCode::ArithmeticOverflow),
{
    let escrow = derive_escrow(&ctx.program_id, &ctx.vault.key);
    deposit_with_escrow(ctx, escrow, amount)
}

/// Withdraws `amount` from the vault, deriving its escrow from the program and
/// the vault's address.
pub fn withdraw(ctx: &mut Withdraw, amount: u64) -> (result: Result<Transfer, ErrorCode>)
    ensures
        result == withdraw_outcome(
            *old(ctx),
            escrow_of(old(ctx).program_id@, old(ctx).vault.key@),
            amount,
        ),
        *final(ctx) == withdraw_next(
            *old(ctx),
            escrow_of(old(ctx).program_id@, old(ctx).vault.key@),
            amount,
        ),
        result is Err ==> *final(ctx) == *old(ctx),
        result is Ok ==> final(ctx).vault.data == Some(
            Vault {
                owner: old(ctx).vault.data->0.owner,
                balance: (old(ctx).vault.data->0.balance - amount) as u64,
            },
        ),
        old(ctx).vault.data is Some && old(ctx).user.key@ != old(ctx).vault.data->0.owner@
            ==> result == Err::<Transfer, ErrorCode>(ErrorCode::Unauthorized),
        old(ctx).vault.data is Some && amount > old(ctx).vault.data->0.balance ==> result is Err,
        old(ctx).vault.data is Some && (escrow_of(old(ctx).program_id@, old(ctx).vault.key@)
            is None || (escrow_of(old(ctx).program_id@, old(ctx).vault.key@)->0).0 != old(
            ctx,
        ).vault_authority@) ==> result == Err::<Transfer, ErrorCode>(ErrorCode::Unauthorized),
        result != Err::<Transfer, ErrorCode>(ErrorCode::ArithmeticOverflow),
{
    let escrow = derive_escrow(&ctx.program_id, &ctx.vault.key);
    withdraw_with_escrow(ctx, escrow, amount)
}

/// Looks at the vault: changes nothing and asks for no transfer. The balance
/// is read from the record itself.
pub fn check_balance(ctx: &CheckBalance) -> (result: Result<(), ErrorCode>)
    ensures
        result == check_balance_outcome(*ctx),
{
    if ctx.vault.data.is_none() {
        return Err(ErrorCode::StorageNotFound);
    }
    if !ctx.user.is_signer {
        return Err(ErrorCode::Unauthorized);
    }
    Ok(())
}

} // verus!
