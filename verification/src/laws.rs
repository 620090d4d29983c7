//! The ledger-wide laws, proved over the ghost model.
//!
//! Each law quantifies over whole sequences of operations ([`LedgerOp`]), so
//! it holds of every run of the engine: the executable operations are proved
//! to follow the model's transition functions, and these lemmas say what any
//! chain of those transitions preserves.

use vstd::prelude::*;

use crate::model::Error;
use crate::model::LedgerModel;
use crate::model::LedgerOp;

verus! {

/// A fresh ledger is well-formed, so every law that asks for a well-formed
/// starting state applies to any run that begins at [`LedgerModel::empty`].
pub proof fn lemma_empty_ledger_wf()
    ensures
        LedgerModel::empty().wf(),
{
}

/// The sum of the balances of the listed accounts.
pub open spec fn balance_sum(l: LedgerModel, accounts: Seq<u64>) -> int
    decreases accounts.len(),
{
    if accounts.len() == 0 {
        0
    } else {
        l.balance_of(accounts[0]) + balance_sum(l, accounts.drop_first())
    }
}

/// `op` is a transfer between accounts that `accounts` lists.
pub open spec fn is_transfer_within(op: LedgerOp, accounts: Seq<u64>) -> bool {
    op matches LedgerOp::Transfer { from, to, .. } && accounts.contains(from)
        && accounts.contains(to)
}

proof fn lemma_drop_first_contains(s: Seq<u64>, a: u64)
    requires
        s.len() > 0,
    ensures
        s.contains(a) <==> (s[0] == a || s.drop_first().contains(a)),
{
    if s.drop_first().contains(a) {
        let j = choose|j: int| 0 <= j < s.drop_first().len() && s.drop_first()[j] == a;
        assert(s[j + 1] == a);
    }
    if s.contains(a) && s[0] != a {
        let j = choose|j: int| 0 <= j < s.len() && s[j] == a;
        assert(s.drop_first()[j - 1] == a);
    }
}

proof fn lemma_drop_first_no_duplicates(s: Seq<u64>)
    requires
        s.len() > 0,
        s.no_duplicates(),
    ensures
        s.drop_first().no_duplicates(),
        !s.drop_first().contains(s[0]),
{
    assert forall|i: int, j: int|
        0 <= i < s.drop_first().len() && 0 <= j < s.drop_first().len() && i
            != j implies s.drop_first()[i] != s.drop_first()[j] by {
        assert(s.drop_first()[i] == s[i + 1]);
        assert(s.drop_first()[j] == s[j + 1]);
    }
    if s.drop_first().contains(s[0]) {
        let j = choose|j: int| 0 <= j < s.drop_first().len() && s.drop_first()[j] == s[0];
        assert(s[j + 1] == s[0]);
        assert(false);
    }
}

proof fn lemma_balance_sum_congruence(l1: LedgerModel, l2: LedgerModel, accounts: Seq<u64>)
    requires
        forall|a: u64| accounts.contains(a) ==> l1.balance_of(a) == l2.balance_of(a),
    ensures
        balance_sum(l1, accounts) == balance_sum(l2, accounts),
    decreases accounts.len(),
{
    if accounts.len() > 0 {
        assert(accounts.contains(accounts[0]));
        assert forall|a: u64| accounts.drop_first().contains(a) implies accounts.contains(a) by {
            lemma_drop_first_contains(accounts, a);
        }
        lemma_balance_sum_congruence(l1, l2, accounts.drop_first());
    }
}

proof fn lemma_balance_sum_two_point_delta(
    l1: LedgerModel,
    l2: LedgerModel,
    accounts: Seq<u64>,
    x: u64,
    y: u64,
)
    requires
        x != y,
        accounts.no_duplicates(),
        forall|a: u64|
            accounts.contains(a) && a != x && a != y ==> l1.balance_of(a) == l2.balance_of(a),
    ensures
        balance_sum(l2, accounts) - balance_sum(l1, accounts) == (if accounts.contains(x) {
            l2.balance_of(x) - l1.balance_of(x)
        } else {
            0
        }) + (if accounts.contains(y) {
            l2.balance_of(y) - l1.balance_of(y)
        } else {
            0
        }),
    decreases accounts.len(),
{
    if accounts.len() > 0 {
        let h = accounts[0];
        let rest = accounts.drop_first();
        lemma_drop_first_no_duplicates(accounts);
        lemma_drop_first_contains(accounts, x);
        lemma_drop_first_contains(accounts, y);
        assert(accounts.contains(h));
        assert forall|a: u64|
            rest.contains(a) && a != x && a != y implies l1.balance_of(a) == l2.balance_of(a) by {
            lemma_drop_first_contains(accounts, a);
        }
        lemma_balance_sum_two_point_delta(l1, l2, rest, x, y);
    }
}

/// Conservation under one transfer: whether it succeeds or fails, a transfer
/// between accounts that `accounts` lists (each once) leaves the sum of the
/// listed balances unchanged, and leaves the balance of every account outside
/// the list untouched.
pub proof fn lemma_transfer_conserves_balance_sum(
    pre: LedgerModel,
    op: LedgerOp,
    accounts: Seq<u64>,
)
    requires
        accounts.no_duplicates(),
        is_transfer_within(op, accounts),
    ensures
        balance_sum(pre.apply_op(op), accounts) == balance_sum(pre, accounts),
        forall|a: u64|
            !accounts.contains(a) ==> pre.apply_op(op).balance_of(a) == pre.balance_of(a),
{
    let post = pre.apply_op(op);
    match op {
        LedgerOp::Transfer { authed, from, to, amount } => {
            if pre.transfer_model(authed, from, to, amount) is Ok {
                if from == to {
                    assert forall|a: u64| accounts.contains(a) implies pre.balance_of(a)
                        == post.balance_of(a) by {}
                    lemma_balance_sum_congruence(pre, post, accounts);
                } else {
                    assert(post.balance_of(from) == pre.balance_of(from) - amount);
                    assert(post.balance_of(to) == pre.balance_of(to) + amount);
                    lemma_balance_sum_two_point_delta(pre, post, accounts, from, to);
                }
            }
        },
        _ => {},
    }
}

/// Conservation: a run made of transfers alone, each between accounts that
/// `accounts` lists (each once), leaves the sum of the listed balances
/// exactly as it was, and leaves the balance of every account outside the
/// list untouched.
pub proof fn lemma_transfers_conserve_balance_sum(
    pre: LedgerModel,
    ops: Seq<LedgerOp>,
    accounts: Seq<u64>,
)
    requires
        accounts.no_duplicates(),
        forall|i: int| 0 <= i < ops.len() ==> is_transfer_within(#[trigger] ops[i], accounts),
    ensures
        balance_sum(pre.apply_ops(ops), accounts) == balance_sum(pre, accounts),
        forall|a: u64|
            !accounts.contains(a) ==> pre.apply_ops(ops).balance_of(a) == pre.balance_of(a),
    decreases ops.len(),
{
    if ops.len() > 0 {
        assert(is_transfer_within(ops[0], accounts));
        lemma_transfer_conserves_balance_sum(pre, ops[0], accounts);
        assert forall|i: int|
            0 <= i < ops.drop_first().len() implies is_transfer_within(
            #[trigger] ops.drop_first()[i],
            accounts,
        ) by {
            assert(ops.drop_first()[i] == ops[i + 1]);
        }
        lemma_transfers_conserve_balance_sum(pre.apply_op(ops[0]), ops.drop_first(), accounts);
    }
}

/// One operation keeps the state well-formed: balances stay non-negative, the
/// gross-issuance counter stays non-negative, and allocation records stay
/// consistent.
pub proof fn lemma_op_preserves_wf(pre: LedgerModel, op: LedgerOp)
    requires
        pre.wf(),
    ensures
        pre.apply_op(op).wf(),
{
    let post = pre.apply_op(op);
    match op {
        LedgerOp::Initialize { .. } => {},
        LedgerOp::IssueCredits { authed, issuer, beneficiary, amount, purpose, expires_at } => {
            if pre.issue_model(authed, issuer, beneficiary, amount, purpose, expires_at) is Ok {
                assert forall|a: u64| post.balances.dom().contains(a) implies 0
                    <= post.balances[a] by {
                    if a != beneficiary {
                        assert(post.balances[a] == pre.balances[a]);
                    }
                }
            }
        },
        LedgerOp::Transfer { authed, from, to, amount } => {
            if pre.transfer_model(authed, from, to, amount) is Ok {
                assert forall|a: u64| post.balances.dom().contains(a) implies 0
                    <= post.balances[a] by {
                    if a != from && a != to {
                        assert(post.balances[a] == pre.balances[a]);
                    }
                }
            }
        },
        LedgerOp::Burn { authed, account, amount } => {
            if pre.burn_model(authed, account, amount) is Ok {
                assert forall|a: u64| post.balances.dom().contains(a) implies 0
                    <= post.balances[a] by {
                    if a != account {
                        assert(post.balances[a] == pre.balances[a]);
                    }
                }
            }
        },
    }
}

/// Non-negativity: from a well-formed state, any run of operations ends in a
/// well-formed state, so no account's balance is ever observed negative.
pub proof fn lemma_ops_preserve_wf(pre: LedgerModel, ops: Seq<LedgerOp>)
    requires
        pre.wf(),
    ensures
        pre.apply_ops(ops).wf(),
        forall|a: u64| pre.apply_ops(ops).balance_of(a) >= 0,
    decreases ops.len(),
{
    if ops.len() > 0 {
        lemma_op_preserves_wf(pre, ops[0]);
        lemma_ops_preserve_wf(pre.apply_op(ops[0]), ops.drop_first());
    }
}

proof fn lemma_admin_stable(pre: LedgerModel, ops: Seq<LedgerOp>)
    requires
        pre.initialized(),
    ensures
        pre.apply_ops(ops).admin == pre.admin,
        pre.apply_ops(ops).initialized(),
    decreases ops.len(),
{
    if ops.len() > 0 {
        lemma_admin_stable(pre.apply_op(ops[0]), ops.drop_first());
    }
}

/// One operation on an initialized ledger moves the gross-issuance counter by
/// exactly the amount of a successful issuance — a non-negative amount — and
/// never changes the admin.
pub proof fn lemma_op_total_issued(pre: LedgerModel, op: LedgerOp)
    requires
        pre.initialized(),
    ensures
        pre.apply_op(op).total_issued == pre.total_issued + pre.issued_amount(op),
        pre.issued_amount(op) >= 0,
        pre.apply_op(op).initialized(),
        pre.apply_op(op).admin == pre.admin,
{
}

/// Monotonic issuance: on an initialized ledger, the gross-issuance counter
/// after any run of operations is its old value plus the sum of the amounts
/// of the successful issuances in the run — so it never decreases.
pub proof fn lemma_total_issued_is_sum_of_issuance(pre: LedgerModel, ops: Seq<LedgerOp>)
    requires
        pre.initialized(),
    ensures
        pre.apply_ops(ops).total_issued == pre.total_issued + pre.issued_amounts(ops),
        pre.issued_amounts(ops) >= 0,
        pre.apply_ops(ops).total_issued >= pre.total_issued,
    decreases ops.len(),
{
    if ops.len() > 0 {
        lemma_op_total_issued(pre, ops[0]);
        lemma_total_issued_is_sum_of_issuance(pre.apply_op(ops[0]), ops.drop_first());
    }
}

/// One-time initialization: once an initialization has succeeded, no later
/// initialization ever succeeds — whatever ran in between — and the admin
/// stays the first-set identity.
pub proof fn lemma_initialize_at_most_once(
    pre: LedgerModel,
    first_admin: u64,
    ops: Seq<LedgerOp>,
    second_admin: u64,
)
    requires
        !pre.initialized(),
    ensures
        ({
            let l1 = pre.apply_op(LedgerOp::Initialize { admin: first_admin });
            let l2 = l1.apply_ops(ops);
            &&& pre.init_model(first_admin) matches Ok(v) && v == l1
            &&& l1.admin == Some(first_admin)
            &&& l2.admin == Some(first_admin)
            &&& l2.init_model(second_admin) == Err::<LedgerModel, Error>(Error::AlreadyInitialized)
            &&& l2.apply_op(LedgerOp::Initialize { admin: second_admin }) == l2
        }),
{
    let l1 = pre.apply_op(LedgerOp::Initialize { admin: first_admin });
    lemma_admin_stable(l1, ops);
}

/// `op` is an operation that demands authority the caller has not proven.
pub open spec fn demands_unproven_authority(op: LedgerOp) -> bool {
    match op {
        LedgerOp::Initialize { .. } => false,
        LedgerOp::IssueCredits { authed, .. } => !authed,
        LedgerOp::Transfer { authed, .. } => !authed,
        LedgerOp::Burn { authed, .. } => !authed,
    }
}

/// Authorization enforcement: an issuance, transfer or burn whose caller has
/// not proven the demanded identity fails with `Unauthorized` and changes
/// nothing.
pub proof fn lemma_unauthorized_fails_without_change(pre: LedgerModel, op: LedgerOp)
    requires
        demands_unproven_authority(op),
    ensures
        pre.op_result(op) == Err::<LedgerModel, Error>(Error::Unauthorized),
        pre.apply_op(op) == pre,
{
}

/// All-or-nothing failure: an operation that fails — with whatever error —
/// leaves the ledger exactly as it was.
pub proof fn lemma_failure_changes_nothing(pre: LedgerModel, op: LedgerOp)
    requires
        pre.op_result(op) is Err,
    ensures
        pre.apply_op(op) == pre,
{
}

} // verus!
