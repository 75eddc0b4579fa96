//! The vault's state and operation surface.
//!
//! `Vault` carries the contract state that the host's keyed store
//! persists: the one-shot configuration, the total share supply, the
//! per-identity share balances and the per-identity nonces. The
//! operations decide; the host performs. A `deposit` is handed the
//! vault's asset balance as read after the deposited funds arrived, and
//! a `withdraw` reports the asset amount the host must then pay out.

use vstd::prelude::*;

use vstd::arithmetic::div_mod::{
    lemma_div_is_ordered, lemma_div_multiples_vanish, lemma_div_pos_is_pos,
};
use vstd::arithmetic::mul::lemma_mul_inequality;

use crate::auth::{Auth, Signer};
use crate::ledger::{lemma_lookup_le_sum, lemma_sum_nonneg, sum_values, Ledger};

verus! {

/// Why an operation was rejected. Every rejection leaves the vault
/// exactly as it was: there are no partial-failure states.
#[derive(Clone, Copy, Debug, PartialEq, Eq, Structural)]
pub enum Error {
    /// A second initialization was attempted.
    AlreadyInitialized,
    /// An economic operation ran before initialization.
    NotInitialized,
    /// The resolved identity is not the stored administrator.
    Unauthorized,
    /// The claimed nonce does not match what the replay guard demands.
    InvalidNonce,
    /// A burn of at least the holder's entire balance was attempted.
    InsufficientShares,
}

/// The vault's configuration, written exactly once.
pub enum Config {
    Uninitialized,
    Initialized { admin: u64, token: [u8; 32] },
}

/// Shares minted for depositing `amount`, given the share supply and the
/// vault's asset balance read *after* the deposited funds have arrived.
/// The first depositor sets a one-to-one rate; later deposits are
/// proportional to the pre-deposit pooled balance, rounding down.
pub open spec fn deposit_shares(total_supply: int, vault_balance_post: int, amount: int) -> int {
    if total_supply == 0 {
        amount
    } else {
        amount * total_supply / (vault_balance_post - amount)
    }
}

/// Asset amount paid out for burning `shares`, given the share supply and
/// the vault's asset balance, both read before the burn: proportional,
/// rounding down, so the vault never overpays.
pub open spec fn withdraw_amount(total_supply: int, vault_balance: int, shares: int) -> int {
    shares * vault_balance / total_supply
}

/// The authorization a signed caller presents: an identity recovered from
/// signature verification, plus the nonce it claims.
pub open spec fn signed_auth(identity: u64, nonce: u128) -> Auth {
    Auth { signer: Signer::Signed { identity }, nonce }
}

/// The whole contract state the host store persists.
pub struct Vault {
    pub config: Config,
    pub total_supply: u128,
    pub balances: Ledger,
    pub nonces: Ledger,
}

impl Vault {
    /// Well-formedness, established at construction and preserved by every
    /// operation: both stores bind each key once, and the total share
    /// supply equals the sum over all identities of their balances.
    pub open spec fn wf(self) -> bool {
        &&& self.balances.wf()
        &&& self.nonces.wf()
        &&& self.balances.total() == self.total_supply as int
    }

    pub open spec fn is_initialized(self) -> bool {
        self.config is Initialized
    }

    /// The stored administrator identity (meaningful once initialized).
    pub open spec fn spec_admin(self) -> u64 {
        match self.config {
            Config::Initialized { admin, .. } => admin,
            Config::Uninitialized => 0,
        }
    }

    /// The stored underlying-asset reference (meaningful once initialized).
    pub open spec fn spec_token(self) -> [u8; 32] {
        match self.config {
            Config::Initialized { token, .. } => token,
            Config::Uninitialized => arbitrary(),
        }
    }

    /// The share balance held by `id`, zero when none was ever minted.
    pub open spec fn spec_balance(self, id: u64) -> u128 {
        self.balances.spec_get(id)
    }

    /// The stored nonce of `id`, zero before its first signed operation.
    pub open spec fn spec_nonce(self, id: u64) -> u128 {
        self.nonces.spec_get(id)
    }

    /// The replay rule: an invoker session carries no persisted nonce, so
    /// it must claim zero; a signed caller must claim exactly the stored
    /// nonce of its identity.
    pub open spec fn nonce_ok(self, auth: Auth) -> bool {
        match auth.signer {
            Signer::Invoker { .. } => auth.nonce == 0,
            Signer::Signed { identity } => auth.nonce == self.spec_nonce(identity),
        }
    }

    /// The proof resolves to the stored administrator of an initialized
    /// vault.
    pub open spec fn authorized(self, auth: Auth) -> bool {
        self.is_initialized() && auth.signer.spec_identity() == self.spec_admin()
    }

    /// The guard passes entirely: admin check and replay check.
    pub open spec fn guard_ok(self, auth: Auth) -> bool {
        self.authorized(auth) && self.nonce_ok(auth)
    }

    /// A fresh, uninitialized vault with no shares and no nonces.
    pub fn new() -> (v: Vault)
        ensures
            v.wf(),
            !v.is_initialized(),
            v.total_supply == 0,
            forall|id: u64| v.spec_balance(id) == 0,
            forall|id: u64| v.spec_nonce(id) == 0,
    {
        Vault {
            config: Config::Uninitialized,
            total_supply: 0,
            balances: Ledger::new(),
            nonces: Ledger::new(),
        }
    }

    /// Whether the one-shot configuration has been written.
    pub fn has_administrator(&self) -> (b: bool)
        ensures
            b == self.is_initialized(),
    {
        match self.config {
            Config::Initialized { .. } => true,
            Config::Uninitialized => false,
        }
    }

    /// The stored administrator identity.
    pub fn read_administrator(&self) -> (id: u64)
        requires
            self.is_initialized(),
        ensures
            id == self.spec_admin(),
    {
        match &self.config {
            Config::Initialized { admin, .. } => *admin,
            // ruled out by the precondition
            Config::Uninitialized => 0,
        }
    }

    /// The stored underlying-asset reference.
    pub fn get_token_id(&self) -> (token: [u8; 32])
        requires
            self.is_initialized(),
        ensures
            token == self.spec_token(),
    {
        match &self.config {
            Config::Initialized { token, .. } => *token,
            // ruled out by the precondition
            Config::Uninitialized => [0u8; 32],
        }
    }

    /// The stored nonce of `id`.
    pub fn read_nonce(&self, id: u64) -> (n: u128)
        requires
            self.wf(),
        ensures
            n == self.spec_nonce(id),
    {
        self.nonces.get(id)
    }

    /// The share balance of `id`.
    pub fn get_shares(&self, id: u64) -> (s: u128)
        requires
            self.wf(),
        ensures
            s == self.spec_balance(id),
    {
        self.balances.get(id)
    }

    /// The administrator's current nonce.
    pub fn nonce(&self) -> (n: u128)
        requires
            self.wf(),
            self.is_initialized(),
        ensures
            n == self.spec_nonce(self.spec_admin()),
    {
        let admin = self.read_administrator();
        self.read_nonce(admin)
    }

    /// Write the administrator and asset reference, exactly once. A second
    /// attempt is rejected and changes nothing.
    pub fn initialize(&mut self, admin: u64, token: [u8; 32]) -> (r: Result<(), Error>)
        ensures
            old(self).wf() ==> final(self).wf(),
            old(self).is_initialized() ==> r == Err::<(), Error>(Error::AlreadyInitialized)
                && *final(self) == *old(self),
            !old(self).is_initialized() ==> {
                &&& r == Ok::<(), Error>(())
                &&& final(self).is_initialized()
                &&& final(self).spec_admin() == admin
                &&& final(self).spec_token() == token
                &&& final(self).total_supply == old(self).total_supply
                &&& forall|id: u64| final(self).spec_balance(id) == old(self).spec_balance(id)
                &&& forall|id: u64| final(self).spec_nonce(id) == old(self).spec_nonce(id)
            },
    {
        if self.has_administrator() {
            return Err(Error::AlreadyInitialized);
        }
        self.config = Config::Initialized { admin, token };
        Ok(())
    }

    /// Admin gate: the resolved identity must equal the stored
    /// administrator; any other identity is rejected.
    pub fn check_admin(&self, signer: &Signer) -> (r: Result<(), Error>)
        requires
            self.is_initialized(),
        ensures
            signer.spec_identity() == self.spec_admin() ==> r == Ok::<(), Error>(()),
            signer.spec_identity() != self.spec_admin() ==> r == Err::<(), Error>(
                Error::Unauthorized,
            ),
    {
        let auth_id = signer.identity();
        if auth_id != self.read_administrator() {
            return Err(Error::Unauthorized);
        }
        Ok(())
    }

    /// Replay guard: check the claimed nonce and, for a signed caller,
    /// consume it by incrementing the stored nonce by exactly one. A
    /// mismatch changes nothing. Balances, supply and configuration are
    /// never touched.
    pub fn verify_and_consume_nonce(&mut self, signer: &Signer, expected_nonce: u128) -> (r: Result<
        (),
        Error,
    >)
        requires
            old(self).wf(),
            (*signer) matches Signer::Signed { identity } && expected_nonce == old(self).spec_nonce(
                identity,
            ) ==> expected_nonce < u128::MAX,
        ensures
            final(self).wf(),
            final(self).config == old(self).config,
            final(self).total_supply == old(self).total_supply,
            forall|id: u64| final(self).spec_balance(id) == old(self).spec_balance(id),
            match *signer {
                Signer::Invoker { .. } => {
                    &&& *final(self) == *old(self)
                    &&& expected_nonce == 0 ==> r == Ok::<(), Error>(())
                    &&& expected_nonce != 0 ==> r == Err::<(), Error>(Error::InvalidNonce)
                },
                Signer::Signed { identity } => {
                    &&& expected_nonce == old(self).spec_nonce(identity) ==> {
                        &&& r == Ok::<(), Error>(())
                        &&& final(self).spec_nonce(identity) == expected_nonce + 1
                        &&& forall|o: u64|
                            o != identity ==> final(self).spec_nonce(o) == old(self).spec_nonce(o)
                    }
                    &&& expected_nonce != old(self).spec_nonce(identity) ==> r == Err::<(), Error>(
                        Error::InvalidNonce,
                    ) && *final(self) == *old(self)
                },
            },
    {
        match signer {
            Signer::Invoker { .. } => {
                if expected_nonce != 0 {
                    return Err(Error::InvalidNonce);
                }
                Ok(())
            },
            Signer::Signed { identity } => {
                let id = *identity;
                let nonce = self.read_nonce(id);
                if nonce != expected_nonce {
                    return Err(Error::InvalidNonce);
                }
                self.nonces.set(id, nonce + 1);
                Ok(())
            },
        }
    }

    /// Mint `shares` to `to`: supply and the one balance move up by the
    /// same amount, so the supply invariant is preserved. A zero-share
    /// mint is a legal no-op.
    pub fn mint_shares(&mut self, to: u64, shares: u128)
        requires
            old(self).wf(),
            old(self).total_supply + shares <= u128::MAX,
        ensures
            final(self).wf(),
            final(self).total_supply == old(self).total_supply + shares,
            final(self).spec_balance(to) == old(self).spec_balance(to) + shares,
            forall|o: u64| o != to ==> final(self).spec_balance(o) == old(self).spec_balance(o),
            forall|id: u64| final(self).spec_nonce(id) == old(self).spec_nonce(id),
            final(self).config == old(self).config,
    {
        proof {
            lemma_lookup_le_sum(self.balances@, to);
        }
        let bal = self.balances.get(to);
        self.total_supply = self.total_supply + shares;
        self.balances.set(to, bal + shares);
    }

    /// Burn `shares` from `from`: allowed only while `shares` is strictly
    /// below the holder's balance, so a holder can never burn the entire
    /// balance in one operation. On success, supply and the one balance
    /// move down by the same amount.
    pub fn burn_shares(&mut self, from: u64, shares: u128) -> (r: Result<(), Error>)
        requires
            old(self).wf(),
        ensures
            final(self).wf(),
            shares < old(self).spec_balance(from) ==> {
                &&& r == Ok::<(), Error>(())
                &&& final(self).total_supply == old(self).total_supply - shares
                &&& final(self).spec_balance(from) == old(self).spec_balance(from) - shares
                &&& forall|o: u64|
                    o != from ==> final(self).spec_balance(o) == old(self).spec_balance(o)
                &&& forall|id: u64| final(self).spec_nonce(id) == old(self).spec_nonce(id)
                &&& final(self).config == old(self).config
            },
            shares >= old(self).spec_balance(from) ==> r == Err::<(), Error>(
                Error::InsufficientShares,
            ) && *final(self) == *old(self),
    {
        let bal = self.balances.get(from);
        if shares >= bal {
            return Err(Error::InsufficientShares);
        }
        proof {
            lemma_lookup_le_sum(self.balances@, from);
        }
        self.total_supply = self.total_supply - shares;
        self.balances.set(from, bal - shares);
        Ok(())
    }

    /// Deposit `amount` of the underlying asset and mint the matching
    /// shares to `beneficiary`. The caller has already moved the funds
    /// into the vault, and `vault_balance_post` is the vault's asset
    /// balance read after they arrived. The guard runs first: a rejected
    /// call changes nothing.
    pub fn deposit(
        &mut self,
        auth: &Auth,
        beneficiary: u64,
        amount: u128,
        vault_balance_post: u128,
    ) -> (r: Result<(), Error>)
        requires
            old(self).wf(),
            old(self).guard_ok(*auth) ==> amount <= vault_balance_post,
            old(self).guard_ok(*auth) && old(self).total_supply > 0 ==> amount < vault_balance_post,
            old(self).guard_ok(*auth) ==> amount * old(self).total_supply <= u128::MAX,
            old(self).guard_ok(*auth) ==> old(self).total_supply + deposit_shares(
                old(self).total_supply as int,
                vault_balance_post as int,
                amount as int,
            ) <= u128::MAX,
            old(self).guard_ok(*auth) && auth.signer is Signed ==> auth.nonce < u128::MAX,
        ensures
            final(self).wf(),
            !old(self).is_initialized() ==> r == Err::<(), Error>(Error::NotInitialized)
                && *final(self) == *old(self),
            old(self).is_initialized() && auth.signer.spec_identity() != old(self).spec_admin()
                ==> r == Err::<(), Error>(Error::Unauthorized) && *final(self) == *old(self),
            old(self).authorized(*auth) && !old(self).nonce_ok(*auth) ==> r == Err::<(), Error>(
                Error::InvalidNonce,
            ) && *final(self) == *old(self),
            old(self).guard_ok(*auth) ==> {
                let shares = deposit_shares(
                    old(self).total_supply as int,
                    vault_balance_post as int,
                    amount as int,
                );
                &&& r == Ok::<(), Error>(())
                &&& final(self).total_supply == old(self).total_supply + shares
                &&& final(self).spec_balance(beneficiary) == old(self).spec_balance(beneficiary)
                    + shares
                &&& forall|o: u64|
                    o != beneficiary ==> final(self).spec_balance(o) == old(self).spec_balance(o)
                &&& (auth.signer matches Signer::Signed { identity } ==> final(self).spec_nonce(
                    identity,
                ) == auth.nonce + 1 && (forall|o: u64|
                    o != identity ==> final(self).spec_nonce(o) == old(self).spec_nonce(o)))
                &&& (auth.signer is Invoker ==> forall|id: u64|
                    final(self).spec_nonce(id) == old(self).spec_nonce(id))
                &&& final(self).config == old(self).config
            },
    {
        if !self.has_administrator() {
            return Err(Error::NotInitialized);
        }
        match self.check_admin(&auth.signer) {
            Err(e) => { return Err(e); },
            Ok(()) => {},
        }
        match self.verify_and_consume_nonce(&auth.signer, auth.nonce) {
            Err(e) => { return Err(e); },
            Ok(()) => {},
        }
        let tot_supply = self.total_supply;
        let shares = if tot_supply == 0 {
            amount
        } else {
            amount * tot_supply / (vault_balance_post - amount)
        };
        self.mint_shares(beneficiary, shares);
        Ok(())
    }

    /// Burn `shares` from `beneficiary` and report the proportional asset
    /// amount the host must pay out, computed from `vault_balance`, the
    /// vault's asset balance read before the burn. The guard and the
    /// balance check run before any write: a rejected call changes
    /// nothing, and in particular a rejected burn does not consume the
    /// nonce.
    pub fn withdraw(
        &mut self,
        auth: &Auth,
        beneficiary: u64,
        shares: u128,
        vault_balance: u128,
    ) -> (r: Result<u128, Error>)
        requires
            old(self).wf(),
            old(self).guard_ok(*auth) && shares < old(self).spec_balance(beneficiary)
                ==> shares * vault_balance <= u128::MAX,
            old(self).guard_ok(*auth) && shares < old(self).spec_balance(beneficiary)
                && auth.signer is Signed ==> auth.nonce < u128::MAX,
        ensures
            final(self).wf(),
            !old(self).is_initialized() ==> r == Err::<u128, Error>(Error::NotInitialized)
                && *final(self) == *old(self),
            old(self).is_initialized() && auth.signer.spec_identity() != old(self).spec_admin()
                ==> r == Err::<u128, Error>(Error::Unauthorized) && *final(self) == *old(self),
            old(self).authorized(*auth) && !old(self).nonce_ok(*auth) ==> r == Err::<u128, Error>(
                Error::InvalidNonce,
            ) && *final(self) == *old(self),
            old(self).guard_ok(*auth) && shares >= old(self).spec_balance(beneficiary) ==> r
                == Err::<u128, Error>(Error::InsufficientShares) && *final(self) == *old(self),
            old(self).guard_ok(*auth) && shares < old(self).spec_balance(beneficiary) ==> {
                &&& r == Ok::<u128, Error>(
                    withdraw_amount(
                        old(self).total_supply as int,
                        vault_balance as int,
                        shares as int,
                    ) as u128,
                )
                &&& final(self).total_supply == old(self).total_supply - shares
                &&& final(self).spec_balance(beneficiary) == old(self).spec_balance(beneficiary)
                    - shares
                &&& forall|o: u64|
                    o != beneficiary ==> final(self).spec_balance(o) == old(self).spec_balance(o)
                &&& (auth.signer matches Signer::Signed { identity } ==> final(self).spec_nonce(
                    identity,
                ) == auth.nonce + 1 && (forall|o: u64|
                    o != identity ==> final(self).spec_nonce(o) == old(self).spec_nonce(o)))
                &&& (auth.signer is Invoker ==> forall|id: u64|
                    final(self).spec_nonce(id) == old(self).spec_nonce(id))
                &&& final(self).config == old(self).config
            },
    {
        if !self.has_administrator() {
            return Err(Error::NotInitialized);
        }
        match self.check_admin(&auth.signer) {
            Err(e) => { return Err(e); },
            Ok(()) => {},
        }
        // Check the claimed nonce before consuming it, and the balance
        // before burning: every check precedes every write, so a rejected
        // operation leaves no trace.
        let claim_ok = match &auth.signer {
            Signer::Invoker { .. } => auth.nonce == 0,
            Signer::Signed { identity } => self.read_nonce(*identity) == auth.nonce,
        };
        if !claim_ok {
            return Err(Error::InvalidNonce);
        }
        let bal = self.get_shares(beneficiary);
        if shares >= bal {
            return Err(Error::InsufficientShares);
        }
        match self.verify_and_consume_nonce(&auth.signer, auth.nonce) {
            // ruled out: the claimed nonce was checked just above
            Err(_) => { return Err(Error::InvalidNonce); },
            Ok(()) => {},
        }
        let tot_supply = self.total_supply;
        proof {
            lemma_lookup_le_sum(self.balances@, beneficiary);
        }
        let amount = shares * vault_balance / tot_supply;
        match self.burn_shares(beneficiary, shares) {
            // ruled out: the balance was checked just above
            Err(_) => { return Err(Error::InsufficientShares); },
            Ok(()) => {},
        }
        Ok(amount)
    }
}

/// Invariant: in every well-formed state, the total share supply equals
/// the sum over all identities of their balances, and both are
/// non-negative.
pub proof fn lemma_supply_is_balance_sum(v: Vault)
    requires
        v.wf(),
    ensures
        v.total_supply as int == sum_values(v.balances@),
        sum_values(v.balances@) >= 0,
{
    lemma_sum_nonneg(v.balances@);
}

/// No identity ever holds more shares than the whole supply.
pub proof fn lemma_balance_within_supply(v: Vault, id: u64)
    requires
        v.wf(),
    ensures
        v.spec_balance(id) <= v.total_supply,
{
    lemma_lookup_le_sum(v.balances@, id);
}

/// First-deposit rate: depositing `amount` into a vault with zero supply
/// yields exactly `amount` shares.
pub proof fn lemma_first_deposit_rate(vault_balance_post: int, amount: int)
    ensures
        deposit_shares(0, vault_balance_post, amount) == amount,
{
}

/// Proportionality: with positive supply, depositing `amount` on top of a
/// pre-deposit pooled balance `pre_balance` yields
/// `amount * total_supply / pre_balance` shares, rounding down.
pub proof fn lemma_proportional_deposit(total_supply: int, pre_balance: int, amount: int)
    requires
        total_supply > 0,
    ensures
        deposit_shares(total_supply, pre_balance + amount, amount) == amount * total_supply
            / pre_balance,
{
}

/// The payout rounds down, so the vault never overpays: while the burned
/// shares stay within the supply, the payout stays within the pooled
/// balance it was computed from.
pub proof fn lemma_withdraw_never_overpays(total_supply: int, vault_balance: int, shares: int)
    requires
        0 < total_supply,
        0 <= shares <= total_supply,
        0 <= vault_balance,
    ensures
        0 <= withdraw_amount(total_supply, vault_balance, shares) <= vault_balance,
{
    lemma_div_pos_is_pos(shares * vault_balance, total_supply);
    lemma_mul_inequality(shares, total_supply, vault_balance);
    lemma_div_is_ordered(shares * vault_balance, total_supply * vault_balance, total_supply);
    lemma_div_multiples_vanish(vault_balance, total_supply);
}

/// Nonce monotonicity: once a signed operation for `identity` has
/// consumed the claimed nonce — which every successful signed operation
/// records as `spec_nonce(identity) == claimed + 1` — a second use of the
/// same claim no longer passes the replay rule, and the only claim that
/// passes is `claimed + 1`.
pub proof fn lemma_nonce_replay(pre: Vault, post: Vault, identity: u64, claimed: u128)
    requires
        pre.nonce_ok(signed_auth(identity, claimed)),
        claimed < u128::MAX,
        post.spec_nonce(identity) == pre.spec_nonce(identity) + 1,
    ensures
        !post.nonce_ok(signed_auth(identity, claimed)),
        post.nonce_ok(signed_auth(identity, (claimed + 1) as u128)),
{
}

} // verus!
