//! The laws the ledger obeys, stated and proved over the same specification
//! functions the operations' contracts use.

use vstd::prelude::*;

use crate::identity::AccountId;
use crate::requests::{Approve, Transfer, TransferFrom, TransferFromContract};
use crate::state::{
    spec_approve_accounts, spec_approve_allowances, spec_approve_check, spec_contract_apply,
    spec_contract_check, spec_transfer_apply, spec_transfer_check, spec_transfer_from_accounts, spec_transfer_from_allowances,
    spec_transfer_from_check, TokenState,
};
use crate::table::{
    allowance_or_zero, get_or_empty, lemma_accounts_map_contains, lemma_accounts_map_index,
    lemma_balance_le_sum, lemma_two_balances_le_sum, sum_balances,
};

verus! {

/// In every well-formed ledger state the supply equals the sum of all
/// balances; the operations establish well-formedness of the state they
/// leave behind, so the equality holds in every reachable state.
pub proof fn lemma_supply_is_balance_sum(s: TokenState)
    requires
        s.wf(),
    ensures
        s.supply == sum_balances(s.accounts@),
{
}

/// A successful self-transfer steps the sender's nonce by exactly one and
/// moves no other identity's nonce.
pub proof fn lemma_transfer_nonces(pre: TokenState, t: Transfer)
    requires
        pre.wf(),
        spec_transfer_check(pre, t) is None,
    ensures
        ({
            let from = (AccountId::External { pk: t.from@ });
            let post = spec_transfer_apply(pre.accounts_view(), from, t.to@, t.value);
            &&& get_or_empty(post, from).nonce == get_or_empty(pre.accounts_view(), from).nonce
                + 1
            &&& forall|k: AccountId|
                k != from ==> get_or_empty(post, k).nonce == get_or_empty(
                    pre.accounts_view(),
                    k,
                ).nonce
        }),
{
}

/// A successful delegated transfer steps the spender's nonce by exactly one
/// and moves no other identity's nonce.
pub proof fn lemma_transfer_from_nonces(pre: TokenState, t: TransferFrom)
    requires
        pre.wf(),
        spec_transfer_from_check(pre, t) is None,
    ensures
        ({
            let spender = (AccountId::External { pk: t.spender@ });
            let post = spec_transfer_from_accounts(pre, t);
            &&& get_or_empty(post, spender).nonce == get_or_empty(
                pre.accounts_view(),
                spender,
            ).nonce + 1
            &&& forall|k: AccountId|
                k != spender ==> get_or_empty(post, k).nonce == get_or_empty(
                    pre.accounts_view(),
                    k,
                ).nonce
        }),
{
}

/// A successful approval steps the owner's nonce by exactly one and moves
/// no other identity's nonce.
pub proof fn lemma_approve_nonces(pre: TokenState, a: Approve)
    requires
        pre.wf(),
        spec_approve_check(pre, a) is None,
    ensures
        ({
            let owner = (AccountId::External { pk: a.owner@ });
            let post = spec_approve_accounts(pre, a);
            &&& get_or_empty(post, owner).nonce == get_or_empty(pre.accounts_view(), owner).nonce
                + 1
            &&& forall|k: AccountId|
                k != owner ==> get_or_empty(post, k).nonce == get_or_empty(
                    pre.accounts_view(),
                    k,
                ).nonce
        }),
{
}

/// A module-initiated transfer is not nonce-authenticated and moves no
/// identity's nonce at all.
pub proof fn lemma_contract_transfer_nonces(pre: TokenState, caller: Seq<u8>, t: TransferFromContract)
    requires
        pre.wf(),
        spec_contract_check(pre, caller, t) is None,
    ensures
        ({
            let contract = (AccountId::Contract { id: caller });
            let post = spec_contract_apply(pre.accounts_view(), contract, t.to@, t.value);
            forall|k: AccountId|
                get_or_empty(post, k).nonce == get_or_empty(pre.accounts_view(), k).nonce
        }),
{
}

/// A successful self-transfer is balance-preserving: it debits the sender
/// by exactly the value, credits the recipient by exactly the value — a
/// self-addressed transfer leaves the balance in place — and touches no
/// other identity's record.
pub proof fn lemma_transfer_balances(pre: TokenState, t: Transfer)
    requires
        pre.wf(),
        spec_transfer_check(pre, t) is None,
    ensures
        ({
            let from = (AccountId::External { pk: t.from@ });
            let post = spec_transfer_apply(pre.accounts_view(), from, t.to@, t.value);
            &&& from != t.to@ ==> get_or_empty(post, from).balance == get_or_empty(
                pre.accounts_view(),
                from,
            ).balance - t.value && get_or_empty(post, t.to@).balance == get_or_empty(
                pre.accounts_view(),
                t.to@,
            ).balance + t.value
            &&& from == t.to@ ==> get_or_empty(post, from).balance == get_or_empty(
                pre.accounts_view(),
                from,
            ).balance
            &&& forall|k: AccountId|
                k != from && k != t.to@ ==> get_or_empty(post, k) == get_or_empty(
                    pre.accounts_view(),
                    k,
                )
        }),
{
    let s = pre.accounts@;
    let m = pre.accounts_view();
    let from = (AccountId::External { pk: t.from@ });
    lemma_accounts_map_contains(s, from);
    let i = choose|i: int| 0 <= i < s.len() && (#[trigger] s[i]).0@ == from;
    lemma_accounts_map_index(s, i);
    if from != t.to@ && m.contains_key(t.to@) {
        lemma_accounts_map_contains(s, t.to@);
        let j = choose|j: int| 0 <= j < s.len() && (#[trigger] s[j]).0@ == t.to@;
        lemma_accounts_map_index(s, j);
        lemma_two_balances_le_sum(s, i, j);
    } else {
        lemma_balance_le_sum(s, i);
    }
}

/// A successful delegated transfer takes exactly the spent value off the
/// (owner, spender) allowance — a partial spend leaves the remainder — and
/// touches no other allowance entry.
pub proof fn lemma_transfer_from_allowance(pre: TokenState, t: TransferFrom)
    requires
        pre.wf(),
        spec_transfer_from_check(pre, t) is None,
    ensures
        ({
            let spender = (AccountId::External { pk: t.spender@ });
            let post = spec_transfer_from_allowances(pre, t);
            &&& allowance_or_zero(post, t.owner@, spender) == allowance_or_zero(
                pre.allowances_view(),
                t.owner@,
                spender,
            ) - t.value
            &&& forall|o: AccountId, s: AccountId|
                (o, s) != (t.owner@, spender) ==> allowance_or_zero(post, o, s)
                    == allowance_or_zero(pre.allowances_view(), o, s)
        }),
{
}

/// Approving a value and reading the allowance back gives that value; a
/// subsequent approval of zero — with the stepped nonce — sets it back to
/// zero. Approval overwrites, it never accumulates.
pub proof fn lemma_approve_roundtrip(pre: TokenState, mid: TokenState, a1: Approve, a2: Approve)
    requires
        spec_approve_check(pre, a1) is None,
        mid.allowances_view() == spec_approve_allowances(pre, a1),
        a2.owner@ == a1.owner@,
        a2.spender@ == a1.spender@,
        a2.value == 0,
        a2.nonce == a1.nonce + 1,
    ensures
        allowance_or_zero(
            spec_approve_allowances(pre, a1),
            (AccountId::External { pk: a1.owner@ }),
            a1.spender@,
        ) == a1.value,
        allowance_or_zero(
            spec_approve_allowances(mid, a2),
            (AccountId::External { pk: a1.owner@ }),
            a1.spender@,
        ) == 0,
{
}

} // verus!
