use share_vault::auth::{Auth, Signer};
use share_vault::vault::{Error, Vault};

fn invoker(identity: u64) -> Auth {
    Auth { signer: Signer::Invoker { identity }, nonce: 0 }
}

fn signed(identity: u64, nonce: u128) -> Auth {
    Auth { signer: Signer::Signed { identity }, nonce }
}

/// End to end: user1 administers a vault over a token, both users
/// deposit, yield arrives, user1 withdraws.
#[test]
fn test() {
    let user1: u64 = 1;
    let user2: u64 = 2;
    let token_id = [9u8; 32];

    let mut vault = Vault::new();
    vault.initialize(user1, token_id).unwrap();

    // The token contract mints 1000 to each user; the host tracks the
    // asset balances, the vault only sees fresh readings of its own.
    let mut user1_tokens: u128 = 1000;
    let mut user2_tokens: u128 = 1000;
    let mut vault_tokens: u128 = 0;

    // user1 moves 5 into the vault, then buys shares
    user1_tokens -= 5;
    vault_tokens += 5;
    vault.deposit(&invoker(user1), user1, 5, vault_tokens).unwrap();
    assert_eq!(user1_tokens, 995);
    assert_eq!(vault.get_shares(user1), 5);

    // user2 moves 8 in, user1 (the admin) credits user2 with shares
    user2_tokens -= 8;
    vault_tokens += 8;
    vault.deposit(&invoker(user1), user2, 8, vault_tokens).unwrap();
    assert_eq!(user2_tokens, 992);
    assert_eq!(vault.get_shares(user2), 8);

    // the vault generates yield
    vault_tokens += 13;

    // user1 withdraws 3 shares; the host pays out what the vault reports
    let paid = vault.withdraw(&invoker(user1), user1, 3, vault_tokens).unwrap();
    vault_tokens -= paid;
    user1_tokens += paid;
    assert_eq!(user1_tokens, 1001);
    assert_eq!(vault.get_shares(user1), 2);
    assert_eq!(vault_tokens, 20);
}

/// First-deposit rate: with zero supply, a deposit mints one share per
/// asset unit.
#[test]
fn first_deposit_is_one_to_one() {
    let mut vault = Vault::new();
    vault.initialize(7, [0u8; 32]).unwrap();
    vault.deposit(&invoker(7), 40, 42, 42).unwrap();
    assert_eq!(vault.get_shares(40), 42);
    assert_eq!(vault.total_supply, 42);
}

/// Proportionality with truncation: supply 10, pre-deposit balance 3,
/// deposit 4 mints floor(4 * 10 / 3) = 13 shares.
#[test]
fn deposit_is_proportional_and_truncates() {
    let mut vault = Vault::new();
    vault.initialize(7, [0u8; 32]).unwrap();
    vault.deposit(&invoker(7), 40, 3, 3).unwrap();
    assert_eq!(vault.total_supply, 3);
    // yield of 1 raises the pooled balance to 4; depositing 4 doubles it
    vault.deposit(&invoker(7), 41, 4, 8).unwrap();
    assert_eq!(vault.get_shares(41), 4 * 3 / 4);
    assert_eq!(vault.total_supply, 6);
    // supply 6 over a pooled balance of 8: depositing 5 is worth 3.75
    // shares exactly, truncated to 3
    vault.deposit(&invoker(7), 42, 5, 13).unwrap();
    assert_eq!(vault.get_shares(42), 5 * 6 / 8);
    assert_eq!(vault.get_shares(42), 3);
    assert_eq!(vault.total_supply, 9);
}

/// A zero-amount deposit is a legal no-op mint.
#[test]
fn zero_deposit_mints_nothing() {
    let mut vault = Vault::new();
    vault.initialize(7, [0u8; 32]).unwrap();
    vault.deposit(&invoker(7), 40, 0, 0).unwrap();
    assert_eq!(vault.get_shares(40), 0);
    assert_eq!(vault.total_supply, 0);
}

/// Withdraw symmetry with truncation: the payout is floor(shares * V / S)
/// and both supply and the holder's balance drop by exactly `shares`.
#[test]
fn withdraw_pays_truncated_proportion() {
    let mut vault = Vault::new();
    vault.initialize(7, [0u8; 32]).unwrap();
    vault.deposit(&invoker(7), 40, 7, 7).unwrap();
    // yield: the vault's asset balance reads 10 while supply stays 7
    let paid = vault.withdraw(&invoker(7), 40, 3, 10).unwrap();
    assert_eq!(paid, 3 * 10 / 7);
    assert_eq!(paid, 4);
    assert_eq!(vault.get_shares(40), 4);
    assert_eq!(vault.total_supply, 4);
}

/// Burn floor: withdrawing the holder's entire balance is rejected; one
/// share less passes and leaves the dust unit behind.
#[test]
fn withdraw_full_balance_is_rejected() {
    let mut vault = Vault::new();
    vault.initialize(7, [0u8; 32]).unwrap();
    vault.deposit(&invoker(7), 40, 5, 5).unwrap();
    assert_eq!(
        vault.withdraw(&invoker(7), 40, 5, 5),
        Err(Error::InsufficientShares)
    );
    assert_eq!(vault.get_shares(40), 5);
    assert_eq!(vault.total_supply, 5);
    let paid = vault.withdraw(&invoker(7), 40, 4, 5).unwrap();
    assert_eq!(paid, 4);
    assert_eq!(vault.get_shares(40), 1);
}

/// Nonce monotonicity: a signed operation consumes its nonce, a replay of
/// the same value fails, and exactly the successor is demanded next.
#[test]
fn signed_nonce_is_consumed_and_replay_fails() {
    let mut vault = Vault::new();
    vault.initialize(7, [0u8; 32]).unwrap();
    assert_eq!(vault.nonce(), 0);
    vault.deposit(&signed(7, 0), 40, 5, 5).unwrap();
    assert_eq!(vault.nonce(), 1);
    assert_eq!(
        vault.deposit(&signed(7, 0), 40, 5, 10),
        Err(Error::InvalidNonce)
    );
    assert_eq!(vault.nonce(), 1);
    assert_eq!(
        vault.deposit(&signed(7, 2), 40, 5, 10),
        Err(Error::InvalidNonce)
    );
    vault.deposit(&signed(7, 1), 40, 5, 10).unwrap();
    assert_eq!(vault.nonce(), 2);
}

/// An invoker session cannot carry a persisted nonce: any nonzero claim
/// is rejected and consumes nothing.
#[test]
fn invoker_with_nonzero_nonce_is_rejected() {
    let mut vault = Vault::new();
    vault.initialize(7, [0u8; 32]).unwrap();
    let auth = Auth { signer: Signer::Invoker { identity: 7 }, nonce: 1 };
    assert_eq!(vault.deposit(&auth, 40, 5, 5), Err(Error::InvalidNonce));
    assert_eq!(vault.total_supply, 0);
}

/// Admin gate: operations authorized by any non-admin identity fail with
/// `Unauthorized` and leave balances, supply and nonces unchanged.
#[test]
fn non_admin_is_rejected_and_nothing_moves() {
    let mut vault = Vault::new();
    vault.initialize(7, [0u8; 32]).unwrap();
    vault.deposit(&invoker(7), 40, 5, 5).unwrap();
    assert_eq!(vault.deposit(&invoker(8), 40, 5, 10), Err(Error::Unauthorized));
    assert_eq!(vault.deposit(&signed(8, 0), 40, 5, 10), Err(Error::Unauthorized));
    assert_eq!(
        vault.withdraw(&signed(8, 0), 40, 3, 10),
        Err(Error::Unauthorized)
    );
    assert_eq!(vault.get_shares(40), 5);
    assert_eq!(vault.total_supply, 5);
    assert_eq!(vault.nonce(), 0);
    assert_eq!(vault.read_nonce(8), 0);
}

/// Re-initialization is rejected and keeps the first configuration.
#[test]
fn reinitialize_is_rejected() {
    let mut vault = Vault::new();
    vault.initialize(7, [3u8; 32]).unwrap();
    assert_eq!(
        vault.initialize(8, [4u8; 32]),
        Err(Error::AlreadyInitialized)
    );
    assert_eq!(vault.read_administrator(), 7);
    assert_eq!(vault.get_token_id(), [3u8; 32]);
}

/// Economic operations before initialization fail with `NotInitialized`.
#[test]
fn operations_before_initialize_are_rejected() {
    let mut vault = Vault::new();
    assert_eq!(
        vault.deposit(&invoker(7), 40, 5, 5),
        Err(Error::NotInitialized)
    );
    assert_eq!(
        vault.withdraw(&invoker(7), 40, 5, 5),
        Err(Error::NotInitialized)
    );
    assert_eq!(vault.total_supply, 0);
}

/// Reading an identity that never held shares yields zero.
#[test]
fn absent_balance_reads_zero() {
    let mut vault = Vault::new();
    vault.initialize(7, [0u8; 32]).unwrap();
    assert_eq!(vault.get_shares(99), 0);
    assert_eq!(vault.read_nonce(99), 0);
}
