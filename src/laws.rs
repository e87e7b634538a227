//! Properties that relate several operations of the ledger.

use vstd::prelude::*;
use crate::account::{Account, AccountStatus};
use crate::decimal::{max_scale_of, representable_at, Amount};
use crate::posting::{commit_allowed, debit_plan_allowed, successor};

verus! {

/// A valid account never holds a negative balance; every operation keeps
/// accounts valid (see the `wf` clauses of their contracts).
pub proof fn law_balance_never_negative(a: Account)
    requires
        a.wf(),
    ensures
        a.balance.value() >= 0,
        a.interest_accrued.value() >= 0,
{
}

/// A debit followed by a credit of the same amount restores the balance
/// exactly, and that credit always goes through. The balance must be
/// representable at the finer of its own and the amount's scale.
pub proof fn law_debit_then_credit_restores(a0: Account, amount: Amount, a1: Account)
    requires
        a0.wf(),
        amount.wf(),
        a0.debit_allowed(amount),
        a0.debit_applied(amount, a1),
        representable_at(a0.balance.value(), max_scale_of(a0.balance, amount)),
    ensures
        a1.credit_allowed(amount),
        forall|a2: Account|
            a1.credit_applied(amount, a2) ==> #[trigger] a2.balance.value()
                == a0.balance.value(),
        forall|a2: Account|
            a1.credit_applied(amount, a2) ==> #[trigger] a2.balance.scale == a1.balance.scale,
{
    assert(max_scale_of(a1.balance, amount) == max_scale_of(a0.balance, amount));
    assert(a1.balance.value() + amount.value() == a0.balance.value());
}

/// Any number of rounds of debiting and then crediting one amount leaves the
/// balance exactly where it started: `states[2k+1]` is `states[2k]` debited
/// by `amount`, and `states[2k+2]` is `states[2k+1]` credited by it.
pub proof fn law_no_drift(states: Seq<Account>, amount: Amount)
    requires
        forall|i: int|
            0 <= i < states.len() - 1 && i % 2 == 0 ==> (#[trigger] states[i]).debit_applied(
                amount,
                states[i + 1],
            ),
        forall|i: int|
            0 <= i < states.len() - 1 && i % 2 == 1 ==> (#[trigger] states[i]).credit_applied(
                amount,
                states[i + 1],
            ),
    ensures
        forall|k: int|
            0 <= k < states.len() && k % 2 == 0 ==> (#[trigger] states[k]).balance.value()
                == states[0].balance.value(),
{
    assert forall|k: int| 0 <= k < states.len() && k % 2 == 0 implies (
    #[trigger] states[k]).balance.value() == states[0].balance.value() by {
        lemma_rounds(states, amount, k);
    }
}

proof fn lemma_rounds(states: Seq<Account>, amount: Amount, k: int)
    requires
        forall|i: int|
            0 <= i < states.len() - 1 && i % 2 == 0 ==> (#[trigger] states[i]).debit_applied(
                amount,
                states[i + 1],
            ),
        forall|i: int|
            0 <= i < states.len() - 1 && i % 2 == 1 ==> (#[trigger] states[i]).credit_applied(
                amount,
                states[i + 1],
            ),
        0 <= k < states.len(),
        k % 2 == 0,
    ensures
        states[k].balance.value() == states[0].balance.value(),
    decreases k,
{
    if k >= 2 {
        lemma_rounds(states, amount, k - 2);
        assert(states[k - 2].debit_applied(amount, states[k - 1]));
        assert(states[k - 1].credit_applied(amount, states[k]));
    }
}

/// An account can be closed only while active with a zero balance, so a
/// closed account cannot be closed again.
pub proof fn law_close_once(a: Account)
    requires
        a.wf(),
        a.status == AccountStatus::Closed,
    ensures
        !(a.balance.value() == 0 && a.status == AccountStatus::Active),
{
}

/// Two debits planned from the same stored account, each with the
/// product's `fee`, that the balance cannot cover together: either may be
/// stored, but once one is stored the other is refused as a concurrent
/// modification, and planning it again on the new row is refused too (for
/// want of balance).
pub proof fn law_concurrent_debits(
    s: Account,
    fee: Amount,
    x: Amount,
    a1: Account,
    y: Amount,
    a2: Account,
    description: Seq<char>,
)
    requires
        s.wf(),
        fee.wf(),
        x.wf(),
        y.wf(),
        fee.value() >= 0,
        a1 == successor(s, a1.balance, a1.updated_at),
        a1.balance.value() == s.balance.value() - x.value() - fee.value(),
        a2 == successor(s, a2.balance, a2.updated_at),
        a2.balance.value() == s.balance.value() - y.value() - fee.value(),
        x.value() + fee.value() + y.value() + fee.value() > s.balance.value(),
    ensures
        commit_allowed(s, a1),
        commit_allowed(s, a2),
        !commit_allowed(a1, a2),
        !commit_allowed(a2, a1),
        !debit_plan_allowed(a1, fee, y, description),
        !debit_plan_allowed(a2, fee, x, description),
{
}

} // verus!
