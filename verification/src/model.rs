//! The data model of the ledger and its ghost transition functions.
//!
//! [`LedgerModel`] is the mathematical state of a ledger: the admin identity
//! (if initialization has happened), the gross-issuance counter, the balance
//! of every account, and the last allocation record of every beneficiary.
//! Each mutating operation of the engine has a transition function here
//! (`init_model`, `issue_model`, `transfer_model`, `burn_model`) that says
//! exactly which inputs fail, with which error, and what the successor state
//! is on success. The executable engine is proved to follow these functions,
//! and the ledger-wide laws are proved about them.

use vstd::prelude::*;

verus! {

/// Why an operation was refused. A refused operation leaves the ledger
/// exactly as it was.
#[derive(Clone, Copy, Debug, PartialEq, Eq, Structural)]
pub enum Error {
    /// `initialize` was called on a ledger that already has an admin.
    AlreadyInitialized,
    /// The caller has not proven control of the identity the operation
    /// demands authority over.
    Unauthorized,
    /// The amount of an issuance, transfer or burn was not positive.
    InvalidAmount,
    /// A transfer or burn asked for more than the debited account holds.
    InsufficientBalance,
    /// The operation would push a balance or the gross-issuance counter past
    /// the largest representable amount.
    Overflow,
}

/// The most recent issuance record for a beneficiary. Overwritten, not
/// appended, by each new issuance to the same beneficiary.
pub struct Allocation {
    pub beneficiary: u64,
    pub issuer: u64,
    pub amount: i128,
    pub purpose: String,
    pub expires_at: u64,
}

/// The mathematical state of a ledger.
///
/// `balances` and `allocations` are partial maps: an account absent from
/// `balances` implicitly holds 0, and a beneficiary absent from `allocations`
/// has never been issued credits.
pub struct LedgerModel {
    pub admin: Option<u64>,
    pub total_issued: i128,
    pub balances: Map<u64, i128>,
    pub allocations: Map<u64, Allocation>,
}

impl LedgerModel {
    /// The state of a freshly created ledger: uninitialized and empty.
    pub open spec fn empty() -> LedgerModel {
        LedgerModel {
            admin: None,
            total_issued: 0,
            balances: Map::empty(),
            allocations: Map::empty(),
        }
    }

    /// Whether `initialize` has succeeded on this ledger.
    pub open spec fn initialized(self) -> bool {
        self.admin is Some
    }

    /// The balance of `account`: the stored amount, or 0 when no amount is
    /// stored.
    pub open spec fn balance_of(self, account: u64) -> int {
        if self.balances.dom().contains(account) {
            self.balances[account] as int
        } else {
            0
        }
    }

    /// Every state the engine can reach satisfies this: no balance is
    /// negative, the gross-issuance counter is not negative, and every stored
    /// allocation is keyed by its own beneficiary and records a positive
    /// amount.
    pub open spec fn wf(self) -> bool {
        &&& forall|a: u64| self.balances.dom().contains(a) ==> 0 <= #[trigger] self.balances[a]
        &&& 0 <= self.total_issued
        &&& forall|b: u64|
            self.allocations.dom().contains(b) ==> {
                let al = #[trigger] self.allocations[b];
                al.beneficiary == b && al.amount > 0
            }
    }

    /// What `initialize(admin)` does: fails on an already initialized ledger,
    /// otherwise records the admin and starts the gross-issuance counter at 0.
    pub open spec fn init_model(self, admin: u64) -> Result<LedgerModel, Error> {
        if self.initialized() {
            Err(Error::AlreadyInitialized)
        } else {
            Ok(LedgerModel { admin: Some(admin), total_issued: 0, ..self })
        }
    }

    /// What `issue_credits` does: demands authority over `issuer` and a
    /// positive amount, refuses an amount that would overflow the
    /// beneficiary's balance or the gross-issuance counter, and otherwise
    /// credits the beneficiary, raises the counter, and overwrites the
    /// beneficiary's allocation record with the returned one.
    pub open spec fn issue_model(
        self,
        authed: bool,
        issuer: u64,
        beneficiary: u64,
        amount: i128,
        purpose: String,
        expires_at: u64,
    ) -> Result<(LedgerModel, Allocation), Error> {
        if !authed {
            Err(Error::Unauthorized)
        } else if amount <= 0 {
            Err(Error::InvalidAmount)
        } else if self.balance_of(beneficiary) + amount > i128::MAX {
            Err(Error::Overflow)
        } else if self.total_issued + amount > i128::MAX {
            Err(Error::Overflow)
        } else {
            let allocation = (Allocation { beneficiary, issuer, amount, purpose, expires_at });
            Ok(
                (
                    LedgerModel {
                        admin: self.admin,
                        total_issued: (self.total_issued + amount) as i128,
                        balances: self.balances.insert(
                            beneficiary,
                            (self.balance_of(beneficiary) + amount) as i128,
                        ),
                        allocations: self.allocations.insert(beneficiary, allocation),
                    },
                    allocation,
                ),
            )
        }
    }

    /// What `transfer` does: demands authority over `from`, a positive amount
    /// covered by `from`'s balance, and room in `to`'s balance; then debits
    /// `from` and credits `to`. The debit is applied first, so a transfer from
    /// an account to itself leaves its balance unchanged and can never
    /// overflow.
    pub open spec fn transfer_model(self, authed: bool, from: u64, to: u64, amount: i128) -> Result<
        LedgerModel,
        Error,
    > {
        if !authed {
            Err(Error::Unauthorized)
        } else if amount <= 0 {
            Err(Error::InvalidAmount)
        } else if self.balance_of(from) < amount {
            Err(Error::InsufficientBalance)
        } else {
            let debited = (LedgerModel {
                balances: self.balances.insert(from, (self.balance_of(from) - amount) as i128),
                ..self
            });
            if debited.balance_of(to) + amount > i128::MAX {
                Err(Error::Overflow)
            } else {
                Ok(
                    LedgerModel {
                        balances: debited.balances.insert(
                            to,
                            (debited.balance_of(to) + amount) as i128,
                        ),
                        ..debited
                    },
                )
            }
        }
    }

    /// What `burn` does: demands authority over `account` and a positive
    /// amount covered by its balance, then debits the account. The
    /// gross-issuance counter is deliberately untouched.
    pub open spec fn burn_model(self, authed: bool, account: u64, amount: i128) -> Result<
        LedgerModel,
        Error,
    > {
        if !authed {
            Err(Error::Unauthorized)
        } else if amount <= 0 {
            Err(Error::InvalidAmount)
        } else if self.balance_of(account) < amount {
            Err(Error::InsufficientBalance)
        } else {
            Ok(
                LedgerModel {
                    balances: self.balances.insert(
                        account,
                        (self.balance_of(account) - amount) as i128,
                    ),
                    ..self
                },
            )
        }
    }
}

/// One invocation of a mutating operation, as the ledger sees it: its
/// arguments together with whether the caller proved control of the identity
/// the operation demands authority over.
pub enum LedgerOp {
    Initialize { admin: u64 },
    IssueCredits {
        authed: bool,
        issuer: u64,
        beneficiary: u64,
        amount: i128,
        purpose: String,
        expires_at: u64,
    },
    Transfer { authed: bool, from: u64, to: u64, amount: i128 },
    Burn { authed: bool, account: u64, amount: i128 },
}

impl LedgerModel {
    /// The outcome of one operation on this state: the successor state, or
    /// the error it fails with.
    pub open spec fn op_result(self, op: LedgerOp) -> Result<LedgerModel, Error> {
        match op {
            LedgerOp::Initialize { admin } => self.init_model(admin),
            LedgerOp::IssueCredits { authed, issuer, beneficiary, amount, purpose, expires_at } => {
                match self.issue_model(authed, issuer, beneficiary, amount, purpose, expires_at) {
                    Ok((l, _)) => Ok(l),
                    Err(e) => Err(e),
                }
            },
            LedgerOp::Transfer { authed, from, to, amount } => self.transfer_model(
                authed,
                from,
                to,
                amount,
            ),
            LedgerOp::Burn { authed, account, amount } => self.burn_model(authed, account, amount),
        }
    }

    /// The state after one operation: the successor state on success, this
    /// very state on failure (every failure is all-or-nothing).
    pub open spec fn apply_op(self, op: LedgerOp) -> LedgerModel {
        match self.op_result(op) {
            Ok(l) => l,
            Err(_) => self,
        }
    }

    /// The state after a sequence of operations, applied first to last.
    pub open spec fn apply_ops(self, ops: Seq<LedgerOp>) -> LedgerModel
        decreases ops.len(),
    {
        if ops.len() == 0 {
            self
        } else {
            self.apply_op(ops[0]).apply_ops(ops.drop_first())
        }
    }

    /// The amount that `op`, run on this state, adds to the gross-issuance
    /// counter: the amount of a successful issuance, 0 for everything else.
    pub open spec fn issued_amount(self, op: LedgerOp) -> int {
        match op {
            LedgerOp::IssueCredits { authed, issuer, beneficiary, amount, purpose, expires_at } => {
                if self.issue_model(authed, issuer, beneficiary, amount, purpose, expires_at)
                    is Ok {
                    amount as int
                } else {
                    0
                }
            },
            _ => 0,
        }
    }

    /// The sum of the amounts of the successful issuances among `ops`, run on
    /// this state first to last.
    pub open spec fn issued_amounts(self, ops: Seq<LedgerOp>) -> int
        decreases ops.len(),
    {
        if ops.len() == 0 {
            0
        } else {
            self.issued_amount(ops[0]) + self.apply_op(ops[0]).issued_amounts(ops.drop_first())
        }
    }
}

} // verus!
