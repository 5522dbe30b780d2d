use solana_deposit_app::address::Address;
use solana_deposit_app::derivation::{derive_escrow, Escrow};
use solana_deposit_app::manager::{
    check_balance, deposit, deposit_with_escrow, initialize, withdraw, withdraw_with_escrow,
    CheckBalance, Deposit, Initialize, Withdraw,
};
use solana_deposit_app::vault::{Authority, ErrorCode, Signer, Transfer, Vault, VaultAccount};

const PROGRAM: [u8; 32] = [
    218, 7, 92, 178, 255, 94, 198, 129, 118, 19, 222, 83, 11, 105, 42, 135, 53, 71, 119, 105, 218,
    71, 67, 12, 189, 129, 84, 51, 92, 74, 131, 39,
];

fn owner() -> Signer {
    Signer { key: Address::new([11u8; 32]), is_signer: true }
}

fn slot() -> Address {
    Address::new([7u8; 32])
}

fn escrow() -> Escrow {
    derive_escrow(&Address::new(PROGRAM), &slot()).unwrap()
}

fn active(balance: u64) -> VaultAccount {
    VaultAccount { key: slot(), data: Some(Vault { owner: owner().key, balance }) }
}

fn deposit_on(vault: VaultAccount, user: Signer) -> Deposit {
    Deposit { program_id: Address::new(PROGRAM), vault, vault_authority: escrow().address, user }
}

fn withdraw_on(vault: VaultAccount, user: Signer) -> Withdraw {
    Withdraw { program_id: Address::new(PROGRAM), vault, vault_authority: escrow().address, user }
}

#[test]
fn initialize_records_owner_and_zero_balance() {
    let mut ctx = Initialize { vault: VaultAccount { key: slot(), data: None }, user: owner() };
    assert_eq!(initialize(&mut ctx), Ok(()));
    assert_eq!(ctx.vault.key, slot());
    assert_eq!(ctx.vault.data, Some(Vault { owner: owner().key, balance: 0 }));
    assert_eq!(ctx.user, owner());
}

#[test]
fn initialize_needs_the_requesters_signature() {
    let user = Signer { key: owner().key, is_signer: false };
    let mut ctx = Initialize { vault: VaultAccount { key: slot(), data: None }, user };
    assert_eq!(initialize(&mut ctx), Err(ErrorCode::Unauthorized));
    assert_eq!(ctx.vault.data, None);
}

#[test]
fn initialize_twice_is_rejected() {
    let mut ctx = Initialize { vault: VaultAccount { key: slot(), data: None }, user: owner() };
    assert_eq!(initialize(&mut ctx), Ok(()));
    assert_eq!(initialize(&mut ctx), Err(ErrorCode::AlreadyInitialized));
    assert_eq!(ctx.vault.data, Some(Vault { owner: owner().key, balance: 0 }));
}

#[test]
fn initialize_leaves_an_existing_record_untouched() {
    let intruder = Signer { key: Address::new([99u8; 32]), is_signer: true };
    let mut ctx = Initialize { vault: active(42), user: intruder };
    assert_eq!(initialize(&mut ctx), Err(ErrorCode::AlreadyInitialized));
    assert_eq!(ctx.vault, active(42));
    let unsigned = Signer { key: Address::new([99u8; 32]), is_signer: false };
    let mut ctx = Initialize { vault: active(42), user: unsigned };
    assert_eq!(initialize(&mut ctx), Err(ErrorCode::AlreadyInitialized));
    assert_eq!(ctx.vault, active(42));
}

#[test]
fn round_trip_of_one_coin() {
    let mut create = Initialize { vault: VaultAccount { key: slot(), data: None }, user: owner() };
    assert_eq!(initialize(&mut create), Ok(()));

    let mut paying_in = deposit_on(create.vault, owner());
    let moved = deposit(&mut paying_in, 1_000_000_000);
    assert_eq!(
        moved,
        Ok(Transfer {
            from: owner().key,
            to: escrow().address,
            lamports: 1_000_000_000,
            authority: Authority::Signature,
        })
    );
    let look = CheckBalance { vault: paying_in.vault, user: owner() };
    assert_eq!(check_balance(&look), Ok(()));
    assert_eq!(look.vault.data.unwrap().balance, 1_000_000_000);

    let mut paying_out = withdraw_on(paying_in.vault, owner());
    let moved = withdraw(&mut paying_out, 500_000_000);
    assert_eq!(
        moved,
        Ok(Transfer {
            from: escrow().address,
            to: owner().key,
            lamports: 500_000_000,
            authority: Authority::Derivation { vault: slot(), bump: 251 },
        })
    );
    let look = CheckBalance { vault: paying_out.vault, user: owner() };
    assert_eq!(check_balance(&look), Ok(()));
    assert_eq!(look.vault.data.unwrap().balance, 500_000_000);
    assert_eq!(look.vault.data.unwrap().owner, owner().key);
}

#[test]
fn deposits_add_up() {
    let mut ctx = deposit_on(active(0), owner());
    assert!(deposit(&mut ctx, 3).is_ok());
    assert!(deposit(&mut ctx, 4).is_ok());
    assert!(deposit(&mut ctx, 0).is_ok());
    assert_eq!(ctx.vault.data, Some(Vault { owner: owner().key, balance: 7 }));
}

#[test]
fn balance_is_deposits_minus_withdrawals() {
    let mut vault = active(0);
    let steps: [(bool, u64); 6] =
        [(true, 100), (true, 250), (false, 80), (true, 5), (false, 270), (false, 5)];
    let mut net: i128 = 0;
    for (incoming, amount) in steps {
        if incoming {
            let mut ctx = deposit_on(vault, owner());
            assert!(deposit(&mut ctx, amount).is_ok());
            vault = ctx.vault;
            net += amount as i128;
        } else {
            let mut ctx = withdraw_on(vault, owner());
            assert!(withdraw(&mut ctx, amount).is_ok());
            vault = ctx.vault;
            net -= amount as i128;
        }
        assert_eq!(vault.data.unwrap().balance as i128, net);
    }
    assert_eq!(vault.data.unwrap().balance, 0);
    assert_eq!(vault.data.unwrap().owner, owner().key);
}

#[test]
fn failed_calls_do_not_count() {
    let mut ctx = deposit_on(active(10), owner());
    assert!(deposit(&mut ctx, 5).is_ok());
    let mut out = withdraw_on(ctx.vault, owner());
    assert_eq!(withdraw(&mut out, 16), Err(ErrorCode::InsufficientFunds));
    assert!(withdraw(&mut out, 15).is_ok());
    assert_eq!(out.vault.data.unwrap().balance, 0);
}

#[test]
fn withdraw_of_the_whole_balance() {
    let mut ctx = withdraw_on(active(1_000), owner());
    assert!(withdraw(&mut ctx, 1_000).is_ok());
    assert_eq!(ctx.vault.data, Some(Vault { owner: owner().key, balance: 0 }));
}

#[test]
fn withdraw_of_nothing() {
    let mut ctx = withdraw_on(active(0), owner());
    let moved = withdraw(&mut ctx, 0).unwrap();
    assert_eq!(moved.lamports, 0);
    assert_eq!(ctx.vault, active(0));
}

#[test]
fn withdraw_beyond_the_balance_is_refused() {
    let mut ctx = withdraw_on(active(500), owner());
    let before = ctx;
    assert_eq!(withdraw(&mut ctx, 501), Err(ErrorCode::InsufficientFunds));
    assert_eq!(ctx, before);
    assert_eq!(withdraw(&mut ctx, u64::MAX), Err(ErrorCode::InsufficientFunds));
    assert_eq!(ctx, before);
}

#[test]
fn deposit_up_to_the_largest_balance() {
    let mut ctx = deposit_on(active(1), owner());
    assert!(deposit(&mut ctx, u64::MAX - 1).is_ok());
    assert_eq!(ctx.vault.data.unwrap().balance, u64::MAX);
}

#[test]
fn deposit_past_the_largest_balance_is_refused() {
    let mut ctx = deposit_on(active(2), owner());
    let before = ctx;
    assert_eq!(deposit(&mut ctx, u64::MAX - 1), Err(ErrorCode::ArithmeticOverflow));
    assert_eq!(ctx, before);
    assert_eq!(deposit(&mut ctx, u64::MAX), Err(ErrorCode::ArithmeticOverflow));
    assert_eq!(ctx.vault.data.unwrap().balance, 2);
}

#[test]
fn deposit_with_a_given_escrow() {
    let given = Escrow { address: Address::new([50u8; 32]), bump: 200 };
    let mut ctx = Deposit {
        program_id: Address::new([1u8; 32]),
        vault: active(5),
        vault_authority: given.address,
        user: owner(),
    };
    assert_eq!(
        deposit_with_escrow(&mut ctx, Some(given), 6),
        Ok(Transfer {
            from: owner().key,
            to: given.address,
            lamports: 6,
            authority: Authority::Signature,
        })
    );
    assert_eq!(ctx.vault.data.unwrap().balance, 11);
}

#[test]
fn withdraw_with_a_given_escrow() {
    let given = Escrow { address: Address::new([50u8; 32]), bump: 200 };
    let mut ctx = Withdraw {
        program_id: Address::new([1u8; 32]),
        vault: active(11),
        vault_authority: given.address,
        user: owner(),
    };
    assert_eq!(
        withdraw_with_escrow(&mut ctx, Some(given), 6),
        Ok(Transfer {
            from: given.address,
            to: owner().key,
            lamports: 6,
            authority: Authority::Derivation { vault: slot(), bump: 200 },
        })
    );
    assert_eq!(ctx.vault.data.unwrap().balance, 5);
}

#[test]
fn check_balance_changes_nothing() {
    let ctx = CheckBalance { vault: active(77), user: owner() };
    assert_eq!(check_balance(&ctx), Ok(()));
    assert_eq!(ctx.vault, active(77));
}

#[test]
fn withdrawal_presents_tag_vault_and_bump() {
    let mut ctx = withdraw_on(active(9), owner());
    let moved = withdraw(&mut ctx, 9).unwrap();
    let seeds = moved.authority.seeds().unwrap();
    assert_eq!(seeds, vec![b"vault".to_vec(), vec![7u8; 32], vec![251u8]]);
}

#[test]
fn deposit_presents_no_seeds() {
    let mut ctx = deposit_on(active(9), owner());
    let moved = deposit(&mut ctx, 9).unwrap();
    assert_eq!(moved.authority.seeds(), None);
}
