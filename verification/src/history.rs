//! What holds of a vault over many operations.

use vstd::prelude::*;
use crate::address::{lemma_address_ext, Address};
use crate::derivation::escrow_of;
use crate::manager::{
    access_error, deposit_next, deposit_outcome, initialize_next, initialize_outcome,
    withdraw_next, withdraw_outcome, Deposit, Initialize, Withdraw,
};
use crate::vault::{Authority, ErrorCode, Signer, VaultAccount};

verus! {

/// One deposit or withdrawal asked of a vault: who asks, the escrow address
/// presented, and the amount.
#[derive(Clone, Copy, Debug)]
pub enum Call {
    Deposit { user: Signer, vault_authority: Address, amount: u64 },
    Withdraw { user: Signer, vault_authority: Address, amount: u64 },
}

impl Call {
    /// What the call adds to the balance where it succeeds: the amount of a
    /// deposit, the negated amount of a withdrawal.
    pub open spec fn flow(self) -> int {
        match self {
            Call::Deposit { amount, .. } => amount as int,
            Call::Withdraw { amount, .. } => -(amount as int),
        }
    }

    /// Whether the call succeeds on the slot `vault` under `program_id`.
    pub open spec fn succeeds(self, program_id: Address, vault: VaultAccount) -> bool {
        let escrow = escrow_of(program_id@, vault.key@);
        match self {
            Call::Deposit { user, vault_authority, amount } => deposit_outcome(
                Deposit { program_id, vault, vault_authority, user },
                escrow,
                amount,
            ) is Ok,
            Call::Withdraw { user, vault_authority, amount } => withdraw_outcome(
                Withdraw { program_id, vault, vault_authority, user },
                escrow,
                amount,
            ) is Ok,
        }
    }

    /// The slot after the call was made on `vault` under `program_id`.
    pub open spec fn apply(self, program_id: Address, vault: VaultAccount) -> VaultAccount {
        let escrow = escrow_of(program_id@, vault.key@);
        match self {
            Call::Deposit { user, vault_authority, amount } => deposit_next(
                Deposit { program_id, vault, vault_authority, user },
                escrow,
                amount,
            ).vault,
            Call::Withdraw { user, vault_authority, amount } => withdraw_next(
                Withdraw { program_id, vault, vault_authority, user },
                escrow,
                amount,
            ).vault,
        }
    }
}

/// The slot after the calls of `calls` were made on `vault`, in order.
pub open spec fn replay(program_id: Address, vault: VaultAccount, calls: Seq<Call>) -> VaultAccount
    decreases calls.len(),
{
    if calls.len() == 0 {
        vault
    } else {
        calls.last().apply(program_id, replay(program_id, vault, calls.drop_last()))
    }
}

/// Whether each call of `calls` succeeds in its turn.
pub open spec fn all_succeed(program_id: Address, vault: VaultAccount, calls: Seq<Call>) -> bool
    decreases calls.len(),
{
    calls.len() == 0 || (all_succeed(program_id, vault, calls.drop_last()) && calls.last().succeeds(
        program_id,
        replay(program_id, vault, calls.drop_last()),
    ))
}

/// The sum of the amounts deposited by `calls` minus the sum of the amounts
/// withdrawn.
pub open spec fn net_flow(calls: Seq<Call>) -> int
    decreases calls.len(),
{
    if calls.len() == 0 {
        0
    } else {
        net_flow(calls.drop_last()) + calls.last().flow()
    }
}

/// After any sequence of successful deposits and withdrawals on one vault,
/// the balance is the balance before plus what was deposited minus what was
/// withdrawn, it lies within the range of a `u64`, and the owner and the
/// address of the vault are what they were. A vault that started at 0, as
/// every vault does, holds exactly the net flow.
pub proof fn lemma_balance_is_net_flow(program_id: Address, vault: VaultAccount, calls: Seq<Call>)
    requires
        vault.data is Some,
        all_succeed(program_id, vault, calls),
    ensures
        replay(program_id, vault, calls).data is Some,
        replay(program_id, vault, calls).key == vault.key,
        replay(program_id, vault, calls).data->0.owner == vault.data->0.owner,
        replay(program_id, vault, calls).data->0.balance == vault.data->0.balance + net_flow(calls),
        0 <= vault.data->0.balance + net_flow(calls) <= u64::MAX,
        vault.data->0.balance == 0 ==> replay(program_id, vault, calls).data->0.balance
            == net_flow(calls),
    decreases calls.len(),
{
    if calls.len() > 0 {
        lemma_balance_is_net_flow(program_id, vault, calls.drop_last());
    }
}

/// A call that does not succeed leaves the slot as it was.
pub proof fn lemma_failed_call_changes_nothing(program_id: Address, vault: VaultAccount, call: Call)
    requires
        !call.succeeds(program_id, vault),
    ensures
        call.apply(program_id, vault) == vault,
{
}

/// A vault is created once: after a creation that succeeded, a second one on
/// the same slot is refused with `AlreadyInitialized`, whoever asks, and
/// leaves the record as it is.
pub proof fn lemma_initialize_only_once(ctx: Initialize, again: Signer)
    requires
        initialize_outcome(ctx) is Ok,
    ensures
        initialize_outcome(Initialize { vault: initialize_next(ctx).vault, user: again }) == Err::<
            (),
            ErrorCode,
        >(ErrorCode::AlreadyInitialized),
        initialize_next(Initialize { vault: initialize_next(ctx).vault, user: again }).vault
            == initialize_next(ctx).vault,
{
}

/// The escrow that a withdrawal takes from is the escrow that the deposits
/// went to: where a deposit and a withdrawal on the same vault under the same
/// program both succeed, the source of the one transfer is the target of the
/// other, and the withdrawal's authority is the derivation from that vault's
/// address with the bump that the derivation gives.
pub proof fn lemma_escrow_is_stable(
    paying_in: Deposit,
    deposited: u64,
    paying_out: Withdraw,
    withdrawn: u64,
)
    requires
        paying_in.program_id@ == paying_out.program_id@,
        paying_in.vault.key@ == paying_out.vault.key@,
        deposit_outcome(
            paying_in,
            escrow_of(paying_in.program_id@, paying_in.vault.key@),
            deposited,
        ) is Ok,
        withdraw_outcome(
            paying_out,
            escrow_of(paying_out.program_id@, paying_out.vault.key@),
            withdrawn,
        ) is Ok,
    ensures
        ({
            let escrow = escrow_of(paying_out.program_id@, paying_out.vault.key@);
            let incoming = deposit_outcome(paying_in, escrow, deposited)->Ok_0;
            let outgoing = withdraw_outcome(paying_out, escrow, withdrawn)->Ok_0;
            &&& escrow is Some
            &&& outgoing.from == incoming.to
            &&& outgoing.from@ == (escrow->0).0
            &&& outgoing.authority == (Authority::Derivation {
                vault: paying_out.vault.key,
                bump: (escrow->0).1,
            })
        }),
{
    lemma_address_ext(paying_in.vault_authority, paying_out.vault_authority);
}

/// Accounts of an existing vault that present any other address than the
/// derived escrow, or for which no escrow can be derived, are turned away as
/// `Unauthorized`, whoever asks.
pub proof fn lemma_wrong_escrow_is_refused(
    vault: VaultAccount,
    vault_authority: Address,
    user: Signer,
    escrow: Option<(Seq<u8>, u8)>,
)
    requires
        vault.data is Some,
        escrow is None || (escrow->0).0 != vault_authority@,
    ensures
        access_error(vault, vault_authority, user, escrow) == Some(ErrorCode::Unauthorized),
{
}

} // verus!
