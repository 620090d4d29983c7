//! The executable ledger engine.
//!
//! [`EduPassToken`] owns the whole state of one ledger instance, so several
//! independent ledgers can live in one process. Each mutating operation is
//! proved to return and change state exactly as the corresponding transition
//! function of [`crate::model::LedgerModel`] says: on success the new state is
//! the model's successor state, and on failure the result carries the model's
//! error and the state is untouched.

use std::collections::HashMap;
use vstd::prelude::*;

use crate::auth::AuthVerifier;
use crate::model::Allocation;
use crate::model::Error;
use crate::model::LedgerModel;

verus! {

broadcast use vstd::std_specs::hash::group_hash_axioms;

/// A credit ledger: per-account balances, per-beneficiary allocation records,
/// the admin identity once initialized, and the gross-issuance counter.
pub struct EduPassToken {
    admin: Option<u64>,
    total_issued: i128,
    balances: HashMap<u64, i128>,
    allocations: HashMap<u64, Allocation>,
}

impl View for EduPassToken {
    type V = LedgerModel;

    closed spec fn view(&self) -> LedgerModel {
        LedgerModel {
            admin: self.admin,
            total_issued: self.total_issued,
            balances: self.balances@,
            allocations: self.allocations@,
        }
    }
}

impl EduPassToken {
    /// A fresh, uninitialized ledger holding no balances and no allocations.
    pub fn new() -> (ledger: EduPassToken)
        ensures
            ledger@ == LedgerModel::empty(),
    {
        EduPassToken {
            admin: None,
            total_issued: 0,
            balances: HashMap::new(),
            allocations: HashMap::new(),
        }
    }

    /// Record `admin` as the admin of this ledger and start the
    /// gross-issuance counter at 0. Fails with `AlreadyInitialized`, changing
    /// nothing, if an admin is already recorded; so only the first call can
    /// ever succeed. No authority is demanded of the caller: on a fresh
    /// ledger, the first caller wins.
    pub fn initialize(&mut self, admin: u64) -> (r: Result<(), Error>)
        ensures
            (match old(self)@.init_model(admin) {
                Ok(l) => r is Ok && final(self)@ == l,
                Err(e) => r == Err::<(), Error>(e) && final(self)@ == old(self)@,
            }),
    {
        if self.admin.is_some() {
            return Err(Error::AlreadyInitialized);
        }
        self.admin = Some(admin);
        self.total_issued = 0;
        Ok(())
    }

    /// Credit `amount` to `beneficiary`, raise the gross-issuance counter by
    /// `amount`, and overwrite the beneficiary's allocation record with the
    /// returned one. The caller must have proven control of `issuer`
    /// (`Unauthorized` otherwise) and `amount` must be positive
    /// (`InvalidAmount` otherwise); an amount that would push the
    /// beneficiary's balance or the counter past `i128::MAX` fails with
    /// `Overflow`. Every failure leaves the ledger unchanged.
    pub fn issue_credits(
        &mut self,
        auth: &AuthVerifier,
        issuer: u64,
        beneficiary: u64,
        amount: i128,
        purpose: String,
        expires_at: u64,
    ) -> (r: Result<Allocation, Error>)
        ensures
            (match old(self)@.issue_model(
                auth.authorizes(issuer),
                issuer,
                beneficiary,
                amount,
                purpose,
                expires_at,
            ) {
                Ok((l, allocation)) => {
                    &&& r matches Ok(a) && a == allocation
                    &&& final(self)@ == l
                },
                Err(e) => r == Err::<Allocation, Error>(e) && final(self)@ == old(self)@,
            }),
    {
        if !auth.check(issuer) {
            return Err(Error::Unauthorized);
        }
        if amount <= 0 {
            return Err(Error::InvalidAmount);
        }
        let current = self.balance(beneficiary);
        if current > i128::MAX - amount {
            return Err(Error::Overflow);
        }
        if self.total_issued > i128::MAX - amount {
            return Err(Error::Overflow);
        }
        self.balances.insert(beneficiary, current + amount);
        self.total_issued = self.total_issued + amount;
        let allocation = Allocation { beneficiary, issuer, amount, purpose, expires_at };
        let stored = Allocation {
            beneficiary,
            issuer,
            amount,
            purpose: allocation.purpose.clone(),
            expires_at,
        };
        self.allocations.insert(beneficiary, stored);
        Ok(allocation)
    }

    /// Move `amount` from `from` to `to`. The caller must have proven control
    /// of `from` (`Unauthorized` otherwise), `amount` must be positive
    /// (`InvalidAmount` otherwise) and covered by `from`'s balance
    /// (`InsufficientBalance` otherwise), and `to`'s balance after the debit
    /// must have room for it (`Overflow` otherwise — impossible when `from`
    /// and `to` are the same account, whose balance a transfer to itself
    /// leaves unchanged). Every failure leaves the ledger unchanged.
    pub fn transfer(&mut self, auth: &AuthVerifier, from: u64, to: u64, amount: i128) -> (r: Result<
        (),
        Error,
    >)
        ensures
            (match old(self)@.transfer_model(auth.authorizes(from), from, to, amount) {
                Ok(l) => r is Ok && final(self)@ == l,
                Err(e) => r == Err::<(), Error>(e) && final(self)@ == old(self)@,
            }),
    {
        if !auth.check(from) {
            return Err(Error::Unauthorized);
        }
        if amount <= 0 {
            return Err(Error::InvalidAmount);
        }
        let from_balance = self.balance(from);
        if from_balance < amount {
            return Err(Error::InsufficientBalance);
        }
        let debited_to_balance = if to == from {
            from_balance - amount
        } else {
            self.balance(to)
        };
        if debited_to_balance > i128::MAX - amount {
            return Err(Error::Overflow);
        }
        self.balances.insert(from, from_balance - amount);
        self.balances.insert(to, debited_to_balance + amount);
        Ok(())
    }

    /// Remove `amount` from `account` for good: no other account receives it
    /// and the gross-issuance counter keeps counting it. The caller must have
    /// proven control of `account` (`Unauthorized` otherwise), and `amount`
    /// must be positive (`InvalidAmount` otherwise) and covered by the
    /// account's balance (`InsufficientBalance` otherwise). Every failure
    /// leaves the ledger unchanged.
    pub fn burn(&mut self, auth: &AuthVerifier, account: u64, amount: i128) -> (r: Result<
        (),
        Error,
    >)
        ensures
            (match old(self)@.burn_model(auth.authorizes(account), account, amount) {
                Ok(l) => r is Ok && final(self)@ == l,
                Err(e) => r == Err::<(), Error>(e) && final(self)@ == old(self)@,
            }),
    {
        if !auth.check(account) {
            return Err(Error::Unauthorized);
        }
        if amount <= 0 {
            return Err(Error::InvalidAmount);
        }
        let balance = self.balance(account);
        if balance < amount {
            return Err(Error::InsufficientBalance);
        }
        self.balances.insert(account, balance - amount);
        Ok(())
    }

    /// The balance of `account`; 0 when the account has never held credits.
    /// A public read: no authority is demanded.
    pub fn balance(&self, account: u64) -> (r: i128)
        ensures
            r == self@.balance_of(account),
    {
        match self.balances.get(&account) {
            Some(v) => *v,
            None => 0,
        }
    }

    /// The most recent allocation record of `beneficiary`, or `None` when the
    /// beneficiary has never been issued credits. A public read: no authority
    /// is demanded.
    pub fn get_allocation(&self, beneficiary: u64) -> (r: Option<Allocation>)
        ensures
            (match r {
                Some(a) => self@.allocations.dom().contains(beneficiary) && a
                    == self@.allocations[beneficiary],
                None => !self@.allocations.dom().contains(beneficiary),
            }),
    {
        match self.allocations.get(&beneficiary) {
            Some(a) => Some(
                Allocation {
                    beneficiary: a.beneficiary,
                    issuer: a.issuer,
                    amount: a.amount,
                    purpose: a.purpose.clone(),
                    expires_at: a.expires_at,
                },
            ),
            None => None,
        }
    }

    /// The sum of all amounts ever issued through `issue_credits` since the
    /// ledger was (last) initialized. Transfers and burns do not lower it.
    /// A public read: no authority is demanded.
    pub fn total_issued(&self) -> (r: i128)
        ensures
            r == self@.total_issued,
    {
        self.total_issued
    }
}

} // verus!
