use vstd::prelude::*;
use std::collections::HashMap;
use crate::errors::Error;

verus! {

broadcast use vstd::std_specs::hash::group_hash_axioms;

/// Abstract state of the token ledger: the one-time initialization flag and,
/// per account, the spendable balance and the locked deposit. An account has
/// a balance record once it has ever been credited; reads of a missing record
/// yield zero.
#[verifier::ext_equal]
pub ghost struct LedgerModel {
    pub initialized: bool,
    pub balances: Map<u64, u64>,
    pub locked: Map<u64, u64>,
}

impl LedgerModel {
    /// Whether the account has a balance record.
    pub open spec fn has_record(self, a: u64) -> bool {
        self.balances.contains_key(a)
    }

    /// Spendable balance; zero when the account has no record.
    pub open spec fn bal(self, a: u64) -> u64 {
        if self.balances.contains_key(a) {
            self.balances[a]
        } else {
            0
        }
    }

    /// Locked deposit; zero when the account has no locked entry.
    pub open spec fn locked_of(self, a: u64) -> u64 {
        if self.locked.contains_key(a) {
            self.locked[a]
        } else {
            0
        }
    }

    /// The ledger before any operation has touched it.
    pub open spec fn empty() -> LedgerModel {
        LedgerModel { initialized: false, balances: Map::empty(), locked: Map::empty() }
    }

    /// `init` succeeds exactly when the ledger was never initialized and
    /// the credited owner balance still fits.
    pub open spec fn init_ok(self, owner: u64, amount: u64) -> bool {
        !self.initialized && self.bal(owner) + amount <= u64::MAX
    }

    /// The error a failing `init` reports, in check order.
    pub open spec fn init_err(self, owner: u64, amount: u64) -> Error {
        if self.initialized {
            Error::AlreadyInitialized
        } else {
            Error::ArithmeticOverflow
        }
    }

    /// State after a successful `init`: the amount is credited to the
    /// owner's balance and the one-time flag is set.
    pub open spec fn init_post(self, owner: u64, amount: u64) -> LedgerModel {
        LedgerModel {
            initialized: true,
            balances: self.balances.insert(owner, (self.bal(owner) + amount) as u64),
            ..self
        }
    }

    /// `mint` succeeds exactly when the credited balance still fits.
    pub open spec fn mint_ok(self, a: u64, amount: u64) -> bool {
        self.bal(a) + amount <= u64::MAX
    }

    /// State after a successful `mint`.
    pub open spec fn mint_post(self, a: u64, amount: u64) -> LedgerModel {
        LedgerModel {
            balances: self.balances.insert(a, (self.bal(a) + amount) as u64),
            ..self
        }
    }

    /// `lock` succeeds exactly when the account has a record, its balance is
    /// strictly greater than the amount, and the grown deposit still fits.
    /// The strict inequality is deliberate: locking the full balance fails.
    pub open spec fn lock_ok(self, a: u64, amount: u64) -> bool {
        &&& self.has_record(a)
        &&& self.bal(a) > amount
        &&& self.locked_of(a) + amount <= u64::MAX
    }

    /// The error a failing `lock` reports.
    pub open spec fn lock_err(self, a: u64, amount: u64) -> Error {
        if !self.has_record(a) || self.bal(a) <= amount {
            Error::InsufficientBalance
        } else {
            Error::ArithmeticOverflow
        }
    }

    /// State after a successful `lock`: the amount moves from the spendable
    /// balance into the locked deposit.
    pub open spec fn lock_post(self, a: u64, amount: u64) -> LedgerModel {
        LedgerModel {
            balances: self.balances.insert(a, (self.bal(a) - amount) as u64),
            locked: self.locked.insert(a, (self.locked_of(a) + amount) as u64),
            ..self
        }
    }

    /// `unlock` succeeds exactly when the grown balance still fits and the
    /// locked deposit covers the amount. No prior record is needed.
    pub open spec fn unlock_ok(self, a: u64, amount: u64) -> bool {
        &&& self.bal(a) + amount <= u64::MAX
        &&& self.locked_of(a) >= amount
    }

    /// The error a failing `unlock` reports.
    pub open spec fn unlock_err(self, a: u64, amount: u64) -> Error {
        if self.bal(a) + amount > u64::MAX {
            Error::ArithmeticOverflow
        } else {
            Error::ArithmeticUnderflow
        }
    }

    /// State after a successful `unlock`: the amount moves from the locked
    /// deposit back into the spendable balance.
    pub open spec fn unlock_post(self, a: u64, amount: u64) -> LedgerModel {
        LedgerModel {
            balances: self.balances.insert(a, (self.bal(a) + amount) as u64),
            locked: self.locked.insert(a, (self.locked_of(a) - amount) as u64),
            ..self
        }
    }

    /// `balance_transfer` subtracts from `from` and then adds to `to` on the
    /// intermediate state, so a transfer to oneself leaves the balance as it
    /// was. It succeeds exactly when `from` has a record that covers the
    /// amount and the receiving balance still fits.
    pub open spec fn transfer_ok(self, from: u64, to: u64, amount: u64) -> bool {
        &&& self.has_record(from)
        &&& self.bal(from) >= amount
        &&& self.transfer_mid(from, amount).bal(to) + amount <= u64::MAX
    }

    /// The intermediate state of a transfer, after the subtraction and before
    /// the addition.
    pub open spec fn transfer_mid(self, from: u64, amount: u64) -> LedgerModel {
        LedgerModel {
            balances: self.balances.insert(from, (self.bal(from) - amount) as u64),
            ..self
        }
    }

    /// The error a failing `balance_transfer` reports.
    pub open spec fn transfer_err(self, from: u64, to: u64, amount: u64) -> Error {
        if !self.has_record(from) || self.bal(from) < amount {
            Error::InsufficientBalance
        } else {
            Error::ArithmeticOverflow
        }
    }

    /// State after a successful `balance_transfer`.
    pub open spec fn transfer_post(self, from: u64, to: u64, amount: u64) -> LedgerModel {
        let mid = self.transfer_mid(from, amount);
        LedgerModel {
            balances: mid.balances.insert(to, (mid.bal(to) + amount) as u64),
            ..self
        }
    }
}

/// The token ledger: per-account spendable balances and locked deposits,
/// every mutation overflow-checked, every failing operation leaving the
/// ledger untouched.
pub struct Ledger {
    initialized: bool,
    balances: HashMap<u64, u64>,
    locked: HashMap<u64, u64>,
}

impl View for Ledger {
    type V = LedgerModel;

    closed spec fn view(&self) -> LedgerModel {
        LedgerModel {
            initialized: self.initialized,
            balances: self.balances@,
            locked: self.locked@,
        }
    }
}

impl Ledger {
    /// A ledger with no records and the initialization still to come.
    pub fn new() -> (l: Ledger)
        ensures
            l@ == LedgerModel::empty(),
    {
        let l = Ledger {
            initialized: false,
            balances: HashMap::new(),
            locked: HashMap::new(),
        };
        proof {
            assert(l@ =~= LedgerModel::empty());
        }
        l
    }

    /// Whether the one-time initialization has happened.
    pub fn is_init(&self) -> (r: bool)
        ensures
            r == self@.initialized,
    {
        self.initialized
    }

    /// The spendable balance of an account, zero when it has no record.
    pub fn balance_of(&self, a: u64) -> (b: u64)
        ensures
            b == self@.bal(a),
    {
        match self.balances.get(&a) {
            Some(v) => *v,
            None => 0,
        }
    }

    /// The locked deposit of an account, zero when it has none.
    pub fn locked_deposits(&self, a: u64) -> (b: u64)
        ensures
            b == self@.locked_of(a),
    {
        match self.locked.get(&a) {
            Some(v) => *v,
            None => 0,
        }
    }

    /// Whether the account has a balance record.
    pub fn has_record(&self, a: u64) -> (r: bool)
        ensures
            r == self@.has_record(a),
    {
        self.balances.contains_key(&a)
    }

    /// One-time initialization: credits the owner's balance with `amount`
    /// and sets the flag. Fails with `AlreadyInitialized` on any later
    /// call, and with `ArithmeticOverflow` when the credited balance does
    /// not fit.
    pub fn init(&mut self, owner: u64, amount: u64) -> (r: Result<(), Error>)
        ensures
            r is Ok <==> old(self)@.init_ok(owner, amount),
            r is Ok ==> final(self)@ == old(self)@.init_post(owner, amount),
            r is Ok ==> final(self)@.bal(owner) == old(self)@.bal(owner) + amount,
            r is Err ==> final(self)@ == old(self)@ && r == Err::<(), Error>(
                old(self)@.init_err(owner, amount),
            ),
    {
        if self.initialized {
            return Err(Error::AlreadyInitialized);
        }
        let current: u64 = self.balance_of(owner);
        if amount > u64::MAX - current {
            return Err(Error::ArithmeticOverflow);
        }
        self.balances.insert(owner, current + amount);
        self.initialized = true;
        proof {
            assert(self@ =~= old(self)@.init_post(owner, amount));
        }
        Ok(())
    }

    /// Credits `amount` to the account, creating its record if needed. Fails
    /// with `ArithmeticOverflow` when the sum does not fit.
    pub fn mint(&mut self, a: u64, amount: u64) -> (r: Result<(), Error>)
        ensures
            r is Ok <==> old(self)@.mint_ok(a, amount),
            r is Ok ==> final(self)@ == old(self)@.mint_post(a, amount),
            r is Err ==> final(self)@ == old(self)@ && r == Err::<(), Error>(
                Error::ArithmeticOverflow,
            ),
    {
        let current: u64 = self.balance_of(a);
        if amount > u64::MAX - current {
            return Err(Error::ArithmeticOverflow);
        }
        self.apply_mint(a, amount);
        Ok(())
    }

    /// The committing half of `mint`, for callers that have already checked
    /// `mint_ok`.
    pub(crate) fn apply_mint(&mut self, a: u64, amount: u64)
        requires
            old(self)@.mint_ok(a, amount),
        ensures
            final(self)@ == old(self)@.mint_post(a, amount),
    {
        let current: u64 = self.balance_of(a);
        self.balances.insert(a, current + amount);
        proof {
            assert(self@ =~= old(self)@.mint_post(a, amount));
        }
    }

    /// Moves `amount` from the spendable balance into the locked deposit.
    /// Requires an existing record and strictly more balance than `amount`;
    /// locking the whole balance is rejected.
    pub fn lock(&mut self, a: u64, amount: u64) -> (r: Result<(), Error>)
        ensures
            r is Ok <==> old(self)@.lock_ok(a, amount),
            r is Ok ==> final(self)@ == old(self)@.lock_post(a, amount),
            r is Err ==> final(self)@ == old(self)@ && r == Err::<(), Error>(
                old(self)@.lock_err(a, amount),
            ),
    {
        if !self.has_record(a) {
            return Err(Error::InsufficientBalance);
        }
        let current: u64 = self.balance_of(a);
        if current <= amount {
            return Err(Error::InsufficientBalance);
        }
        let deposit: u64 = self.locked_deposits(a);
        if amount > u64::MAX - deposit {
            return Err(Error::ArithmeticOverflow);
        }
        self.apply_lock(a, amount);
        Ok(())
    }

    /// The committing half of `lock`, for callers that have already checked
    /// `lock_ok`.
    pub(crate) fn apply_lock(&mut self, a: u64, amount: u64)
        requires
            old(self)@.lock_ok(a, amount),
        ensures
            final(self)@ == old(self)@.lock_post(a, amount),
    {
        let current: u64 = self.balance_of(a);
        let deposit: u64 = self.locked_deposits(a);
        self.balances.insert(a, current - amount);
        self.locked.insert(a, deposit + amount);
        proof {
            assert(self@ =~= old(self)@.lock_post(a, amount));
        }
    }

    /// Moves `amount` from the locked deposit back into the spendable
    /// balance. Fails with `ArithmeticOverflow` when the grown balance does
    /// not fit, and with `ArithmeticUnderflow` when the deposit is smaller
    /// than `amount`.
    pub fn unlock(&mut self, a: u64, amount: u64) -> (r: Result<(), Error>)
        ensures
            r is Ok <==> old(self)@.unlock_ok(a, amount),
            r is Ok ==> final(self)@ == old(self)@.unlock_post(a, amount),
            r is Err ==> final(self)@ == old(self)@ && r == Err::<(), Error>(
                old(self)@.unlock_err(a, amount),
            ),
    {
        let current: u64 = self.balance_of(a);
        if amount > u64::MAX - current {
            return Err(Error::ArithmeticOverflow);
        }
        let deposit: u64 = self.locked_deposits(a);
        if deposit < amount {
            return Err(Error::ArithmeticUnderflow);
        }
        self.apply_unlock(a, amount);
        Ok(())
    }

    /// The committing half of `unlock`, for callers that have already
    /// checked `unlock_ok`.
    pub(crate) fn apply_unlock(&mut self, a: u64, amount: u64)
        requires
            old(self)@.unlock_ok(a, amount),
        ensures
            final(self)@ == old(self)@.unlock_post(a, amount),
    {
        let current: u64 = self.balance_of(a);
        let deposit: u64 = self.locked_deposits(a);
        self.balances.insert(a, current + amount);
        self.locked.insert(a, deposit - amount);
        proof {
            assert(self@ =~= old(self)@.unlock_post(a, amount));
        }
    }

    /// Moves `amount` from one spendable balance to another: the subtraction
    /// happens first, then the addition on the intermediate state, so both
    /// sides update or neither does.
    pub fn balance_transfer(&mut self, from: u64, to: u64, amount: u64) -> (r: Result<(), Error>)
        ensures
            r is Ok <==> old(self)@.transfer_ok(from, to, amount),
            r is Ok ==> final(self)@ == old(self)@.transfer_post(from, to, amount),
            r is Err ==> final(self)@ == old(self)@ && r == Err::<(), Error>(
                old(self)@.transfer_err(from, to, amount),
            ),
    {
        if !self.has_record(from) {
            return Err(Error::InsufficientBalance);
        }
        let from_balance: u64 = self.balance_of(from);
        if from_balance < amount {
            return Err(Error::InsufficientBalance);
        }
        let updated_from: u64 = from_balance - amount;
        let to_balance: u64 = if to == from {
            updated_from
        } else {
            self.balance_of(to)
        };
        if amount > u64::MAX - to_balance {
            return Err(Error::ArithmeticOverflow);
        }
        self.apply_transfer(from, to, amount);
        Ok(())
    }

    /// The committing half of `balance_transfer`, for callers that have
    /// already checked `transfer_ok`.
    pub(crate) fn apply_transfer(&mut self, from: u64, to: u64, amount: u64)
        requires
            old(self)@.transfer_ok(from, to, amount),
        ensures
            final(self)@ == old(self)@.transfer_post(from, to, amount),
    {
        let from_balance: u64 = self.balance_of(from);
        let updated_from: u64 = from_balance - amount;
        let to_balance: u64 = if to == from {
            updated_from
        } else {
            self.balance_of(to)
        };
        self.balances.insert(from, updated_from);
        self.balances.insert(to, to_balance + amount);
        proof {
            assert(self@ =~= old(self)@.transfer_post(from, to, amount));
        }
    }
}

/// Law: a successful `lock(a, x)` immediately followed by `unlock(a, x)`
/// restores every account's spendable balance, locked deposit and record
/// presence to their pre-lock values, and leaves the initialization flag
/// unchanged.
pub proof fn lemma_lock_unlock_round_trip(l0: LedgerModel, a: u64, x: u64)
    requires
        l0.lock_ok(a, x),
    ensures
        l0.lock_post(a, x).unlock_ok(a, x),
        forall|b: u64|
            #![trigger l0.bal(b)]
            #![trigger l0.locked_of(b)]
            #![trigger l0.has_record(b)]
            {
                &&& l0.lock_post(a, x).unlock_post(a, x).bal(b) == l0.bal(b)
                &&& l0.lock_post(a, x).unlock_post(a, x).locked_of(b) == l0.locked_of(b)
                &&& l0.lock_post(a, x).unlock_post(a, x).has_record(b) == l0.has_record(b)
            },
        l0.lock_post(a, x).unlock_post(a, x).initialized == l0.initialized,
{
}

} // verus!
