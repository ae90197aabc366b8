//! The mathematical view of the ledger's two tables.
//!
//! The account registry is a vector of `(identity, record)` entries with
//! pairwise distinct identities, viewed as a `Map<AccountId, AccountInfo>`;
//! the allowance table is a vector of `(owner, spender, amount)` entries
//! viewed as a `Map<(AccountId, AccountId), u64>`. This module defines the
//! views, the well-formedness of the vectors, the balance sum the supply
//! invariant speaks of, and the lemmas relating vector edits to map edits.

use vstd::prelude::*;

use crate::identity::{id_wf, Account, AccountId, AccountInfo};

verus! {

// ------------------------------------------------------------------
// The account registry.
// ------------------------------------------------------------------

/// The registry entries, read as a map from identity to record. A later
/// entry with the same identity would shadow an earlier one, but well-formed
/// registries (see [`accounts_uniq`]) never hold two entries for one
/// identity.
pub open spec fn accounts_map(s: Seq<(Account, AccountInfo)>) -> Map<AccountId, AccountInfo>
    decreases s.len(),
{
    if s.len() == 0 {
        Map::empty()
    } else {
        accounts_map(s.drop_last()).insert(s.last().0@, s.last().1)
    }
}

/// Entries hold pairwise distinct identities.
pub open spec fn accounts_uniq(s: Seq<(Account, AccountInfo)>) -> bool {
    forall|i: int, j: int|
        0 <= i < j < s.len() ==> (#[trigger] s[i]).0@ != (#[trigger] s[j]).0@
}

/// Every entry's identity carries bytes of its class's fixed width.
pub open spec fn accounts_keys_wf(s: Seq<(Account, AccountInfo)>) -> bool {
    forall|i: int| 0 <= i < s.len() ==> id_wf((#[trigger] s[i]).0@)
}

/// The sum of all balances held in the registry.
pub open spec fn sum_balances(s: Seq<(Account, AccountInfo)>) -> int
    decreases s.len(),
{
    if s.len() == 0 {
        0
    } else {
        sum_balances(s.drop_last()) + s.last().1.balance
    }
}

/// The record an identity holds in a registry map, or the empty record when
/// the identity is absent.
pub open spec fn get_or_empty(m: Map<AccountId, AccountInfo>, k: AccountId) -> AccountInfo {
    if m.contains_key(k) {
        m[k]
    } else {
        AccountInfo::empty_spec()
    }
}

/// Distinctness of identities carries over to a registry with its last entry
/// dropped.
pub proof fn lemma_accounts_uniq_drop_last(s: Seq<(Account, AccountInfo)>)
    requires
        accounts_uniq(s),
        s.len() > 0,
    ensures
        accounts_uniq(s.drop_last()),
{
    let t = s.drop_last();
    assert forall|a: int, b: int|
        0 <= a < b < t.len() implies (#[trigger] t[a]).0@ != (#[trigger] t[b]).0@ by {
        assert(t[a] == s[a]);
        assert(t[b] == s[b]);
    }
}

/// An identity is in the registry map exactly when some entry holds it.
pub proof fn lemma_accounts_map_contains(s: Seq<(Account, AccountInfo)>, k: AccountId)
    ensures
        accounts_map(s).contains_key(k) <==> exists|i: int|
            0 <= i < s.len() && (#[trigger] s[i]).0@ == k,
    decreases s.len(),
{
    if s.len() > 0 {
        let t = s.drop_last();
        lemma_accounts_map_contains(t, k);
        if s.last().0@ == k {
            assert((s[s.len() - 1]).0@ == k);
        } else {
            if accounts_map(s).contains_key(k) {
                let i = choose|i: int| 0 <= i < t.len() && (#[trigger] t[i]).0@ == k;
                assert((s[i]).0@ == k);
            }
            if exists|i: int| 0 <= i < s.len() && (#[trigger] s[i]).0@ == k {
                let i = choose|i: int| 0 <= i < s.len() && (#[trigger] s[i]).0@ == k;
                assert(i < s.len() - 1);
                assert((t[i]).0@ == k);
            }
        }
    }
}

/// In a registry without repeated identities, the map agrees with every
/// entry.
pub proof fn lemma_accounts_map_index(s: Seq<(Account, AccountInfo)>, i: int)
    requires
        accounts_uniq(s),
        0 <= i < s.len(),
    ensures
        accounts_map(s).contains_key(s[i].0@),
        accounts_map(s)[s[i].0@] == s[i].1,
    decreases s.len(),
{
    if i < s.len() - 1 {
        let t = s.drop_last();
        lemma_accounts_uniq_drop_last(s);
        lemma_accounts_map_index(t, i);
        assert(t[i] == s[i]);
        assert(s[i].0@ != s[s.len() - 1].0@);
    }
}

/// Overwriting an entry's record edits the registry map at that entry's
/// identity.
pub proof fn lemma_accounts_map_update(s: Seq<(Account, AccountInfo)>, i: int, e: (
    Account,
    AccountInfo,
))
    requires
        accounts_uniq(s),
        0 <= i < s.len(),
        e.0@ == s[i].0@,
    ensures
        accounts_map(s.update(i, e)) == accounts_map(s).insert(e.0@, e.1),
    decreases s.len(),
{
    let s2 = s.update(i, e);
    if i == s.len() - 1 {
        assert(s2.drop_last() =~= s.drop_last());
        assert(s2.last() == e);
        assert(accounts_map(s.drop_last()).insert(e.0@, e.1) =~= accounts_map(s.drop_last()).insert(
            s.last().0@,
            s.last().1,
        ).insert(e.0@, e.1));
    } else {
        let t = s.drop_last();
        lemma_accounts_uniq_drop_last(s);
        assert(s2.drop_last() =~= t.update(i, e));
        lemma_accounts_map_update(t, i, e);
        assert(s2.last() == s.last());
        assert(s[i].0@ != s[s.len() - 1].0@);
        assert(accounts_map(t).insert(e.0@, e.1).insert(s.last().0@, s.last().1)
            =~= accounts_map(t).insert(s.last().0@, s.last().1).insert(e.0@, e.1));
    }
}

/// Appending an entry edits the registry map at the appended identity.
pub proof fn lemma_accounts_map_push(s: Seq<(Account, AccountInfo)>, e: (Account, AccountInfo))
    ensures
        accounts_map(s.push(e)) == accounts_map(s).insert(e.0@, e.1),
{
    assert(s.push(e).drop_last() =~= s);
    assert(s.push(e).last() == e);
}

/// Overwriting an entry's record moves the balance sum by the difference of
/// the two records' balances.
pub proof fn lemma_sum_update(s: Seq<(Account, AccountInfo)>, i: int, e: (Account, AccountInfo))
    requires
        0 <= i < s.len(),
    ensures
        sum_balances(s.update(i, e)) == sum_balances(s) - s[i].1.balance + e.1.balance,
    decreases s.len(),
{
    let s2 = s.update(i, e);
    if i == s.len() - 1 {
        assert(s2.drop_last() =~= s.drop_last());
        assert(s2.last() == e);
    } else {
        assert(s2.drop_last() =~= s.drop_last().update(i, e));
        lemma_sum_update(s.drop_last(), i, e);
        assert(s2.last() == s.last());
        assert(s.drop_last()[i] == s[i]);
    }
}

/// Appending an entry adds its balance to the balance sum.
pub proof fn lemma_sum_push(s: Seq<(Account, AccountInfo)>, e: (Account, AccountInfo))
    ensures
        sum_balances(s.push(e)) == sum_balances(s) + e.1.balance,
{
    assert(s.push(e).drop_last() =~= s);
    assert(s.push(e).last() == e);
}

/// Balances are unsigned, so the balance sum is never negative.
pub proof fn lemma_sum_nonneg(s: Seq<(Account, AccountInfo)>)
    ensures
        sum_balances(s) >= 0,
    decreases s.len(),
{
    if s.len() > 0 {
        lemma_sum_nonneg(s.drop_last());
    }
}

/// A single entry's balance never exceeds the balance sum.
pub proof fn lemma_balance_le_sum(s: Seq<(Account, AccountInfo)>, i: int)
    requires
        0 <= i < s.len(),
    ensures
        s[i].1.balance <= sum_balances(s),
    decreases s.len(),
{
    if i == s.len() - 1 {
        lemma_sum_nonneg(s.drop_last());
    } else {
        lemma_balance_le_sum(s.drop_last(), i);
        assert(s.drop_last()[i] == s[i]);
    }
}

/// Two distinct entries' balances never exceed the balance sum together.
pub proof fn lemma_two_balances_le_sum(s: Seq<(Account, AccountInfo)>, i: int, j: int)
    requires
        0 <= i < s.len(),
        0 <= j < s.len(),
        i != j,
    ensures
        s[i].1.balance + s[j].1.balance <= sum_balances(s),
{
    let e = (s[i].0, AccountInfo { balance: 0, nonce: 0 });
    lemma_sum_update(s, i, e);
    lemma_balance_le_sum(s.update(i, e), j);
    assert(s.update(i, e)[j] == s[j]);
}

/// Crediting any identity in a registry whose balance sum leaves room for
/// the credited value cannot overflow that identity's balance.
pub proof fn lemma_credit_no_overflow(s: Seq<(Account, AccountInfo)>, to: AccountId, v: u64)
    requires
        accounts_uniq(s),
        sum_balances(s) + v <= u64::MAX,
    ensures
        get_or_empty(accounts_map(s), to).balance + v <= u64::MAX,
{
    lemma_accounts_map_contains(s, to);
    if accounts_map(s).contains_key(to) {
        let i = choose|i: int| 0 <= i < s.len() && (#[trigger] s[i]).0@ == to;
        lemma_accounts_map_index(s, i);
        lemma_balance_le_sum(s, i);
    } else {
        lemma_sum_nonneg(s);
    }
}

/// Two registries with entry-wise equal identities and records have the same
/// map and the same balance sum.
pub proof fn lemma_accounts_map_congruent(
    s1: Seq<(Account, AccountInfo)>,
    s2: Seq<(Account, AccountInfo)>,
)
    requires
        s1.len() == s2.len(),
        forall|i: int|
            0 <= i < s1.len() ==> (#[trigger] s1[i]).0@ == (#[trigger] s2[i]).0@ && s1[i].1
                == s2[i].1,
    ensures
        accounts_map(s1) == accounts_map(s2),
        sum_balances(s1) == sum_balances(s2),
    decreases s1.len(),
{
    if s1.len() > 0 {
        let t1 = s1.drop_last();
        let t2 = s2.drop_last();
        assert forall|i: int|
            0 <= i < t1.len() implies (#[trigger] t1[i]).0@ == (#[trigger] t2[i]).0@ && t1[i].1
            == t2[i].1 by {
            assert(t1[i] == s1[i]);
            assert(t2[i] == s2[i]);
        }
        lemma_accounts_map_congruent(t1, t2);
        assert(s1[s1.len() - 1].0@ == s2[s2.len() - 1].0@);
        assert(s1[s1.len() - 1].1 == s2[s2.len() - 1].1);
    }
}

// ------------------------------------------------------------------
// The allowance table.
// ------------------------------------------------------------------

/// The (owner, spender) pair an allowance entry is keyed by.
pub open spec fn allow_key(e: (Account, Account, u64)) -> (AccountId, AccountId) {
    (e.0@, e.1@)
}

/// The allowance entries, read as a map from (owner, spender) to the
/// approved amount.
pub open spec fn allowances_map(s: Seq<(Account, Account, u64)>) -> Map<
    (AccountId, AccountId),
    u64,
>
    decreases s.len(),
{
    if s.len() == 0 {
        Map::empty()
    } else {
        allowances_map(s.drop_last()).insert(allow_key(s.last()), s.last().2)
    }
}

/// Entries hold pairwise distinct (owner, spender) pairs.
pub open spec fn allowances_uniq(s: Seq<(Account, Account, u64)>) -> bool {
    forall|i: int, j: int|
        0 <= i < j < s.len() ==> allow_key(#[trigger] s[i]) != allow_key(#[trigger] s[j])
}

/// Every entry's two identities carry bytes of their classes' fixed widths.
pub open spec fn allowances_keys_wf(s: Seq<(Account, Account, u64)>) -> bool {
    forall|i: int|
        0 <= i < s.len() ==> id_wf((#[trigger] s[i]).0@) && id_wf(s[i].1@)
}

/// The amount an allowance map holds for a pair, or zero when the pair is
/// absent.
pub open spec fn allowance_or_zero(
    m: Map<(AccountId, AccountId), u64>,
    owner: AccountId,
    spender: AccountId,
) -> u64 {
    if m.contains_key((owner, spender)) {
        m[(owner, spender)]
    } else {
        0
    }
}

/// Distinctness of pairs carries over to a table with its last entry
/// dropped.
pub proof fn lemma_allowances_uniq_drop_last(s: Seq<(Account, Account, u64)>)
    requires
        allowances_uniq(s),
        s.len() > 0,
    ensures
        allowances_uniq(s.drop_last()),
{
    let t = s.drop_last();
    assert forall|a: int, b: int|
        0 <= a < b < t.len() implies allow_key(#[trigger] t[a]) != allow_key(#[trigger] t[b]) by {
        assert(t[a] == s[a]);
        assert(t[b] == s[b]);
    }
}

/// A pair is in the allowance map exactly when some entry holds it.
pub proof fn lemma_allowances_map_contains(s: Seq<(Account, Account, u64)>, k: (
    AccountId,
    AccountId,
))
    ensures
        allowances_map(s).contains_key(k) <==> exists|i: int|
            0 <= i < s.len() && allow_key(#[trigger] s[i]) == k,
    decreases s.len(),
{
    if s.len() > 0 {
        let t = s.drop_last();
        lemma_allowances_map_contains(t, k);
        if allow_key(s.last()) == k {
            assert(allow_key(s[s.len() - 1]) == k);
        } else {
            if allowances_map(s).contains_key(k) {
                let i = choose|i: int| 0 <= i < t.len() && allow_key(#[trigger] t[i]) == k;
                assert(allow_key(s[i]) == k);
            }
            if exists|i: int| 0 <= i < s.len() && allow_key(#[trigger] s[i]) == k {
                let i = choose|i: int| 0 <= i < s.len() && allow_key(#[trigger] s[i]) == k;
                assert(i < s.len() - 1);
                assert(allow_key(t[i]) == k);
            }
        }
    }
}

/// In a table without repeated pairs, the map agrees with every entry.
pub proof fn lemma_allowances_map_index(s: Seq<(Account, Account, u64)>, i: int)
    requires
        allowances_uniq(s),
        0 <= i < s.len(),
    ensures
        allowances_map(s).contains_key(allow_key(s[i])),
        allowances_map(s)[allow_key(s[i])] == s[i].2,
    decreases s.len(),
{
    if i < s.len() - 1 {
        let t = s.drop_last();
        lemma_allowances_uniq_drop_last(s);
        lemma_allowances_map_index(t, i);
        assert(t[i] == s[i]);
        assert(allow_key(s[i]) != allow_key(s[s.len() - 1]));
    }
}

/// Overwriting an entry's amount edits the allowance map at that entry's
/// pair.
pub proof fn lemma_allowances_map_update(s: Seq<(Account, Account, u64)>, i: int, e: (
    Account,
    Account,
    u64,
))
    requires
        allowances_uniq(s),
        0 <= i < s.len(),
        allow_key(e) == allow_key(s[i]),
    ensures
        allowances_map(s.update(i, e)) == allowances_map(s).insert(allow_key(e), e.2),
    decreases s.len(),
{
    let s2 = s.update(i, e);
    if i == s.len() - 1 {
        assert(s2.drop_last() =~= s.drop_last());
        assert(s2.last() == e);
        assert(allowances_map(s.drop_last()).insert(allow_key(e), e.2) =~= allowances_map(
            s.drop_last(),
        ).insert(allow_key(s.last()), s.last().2).insert(allow_key(e), e.2));
    } else {
        let t = s.drop_last();
        lemma_allowances_uniq_drop_last(s);
        assert(s2.drop_last() =~= t.update(i, e));
        lemma_allowances_map_update(t, i, e);
        assert(s2.last() == s.last());
        assert(allow_key(s[i]) != allow_key(s[s.len() - 1]));
        assert(allowances_map(t).insert(allow_key(e), e.2).insert(allow_key(s.last()), s.last().2)
            =~= allowances_map(t).insert(allow_key(s.last()), s.last().2).insert(
            allow_key(e),
            e.2,
        ));
    }
}

/// Appending an entry edits the allowance map at the appended pair.
pub proof fn lemma_allowances_map_push(s: Seq<(Account, Account, u64)>, e: (Account, Account, u64))
    ensures
        allowances_map(s.push(e)) == allowances_map(s).insert(allow_key(e), e.2),
{
    assert(s.push(e).drop_last() =~= s);
    assert(s.push(e).last() == e);
}

/// Two tables with entry-wise equal pairs and amounts have the same map.
pub proof fn lemma_allowances_map_congruent(
    s1: Seq<(Account, Account, u64)>,
    s2: Seq<(Account, Account, u64)>,
)
    requires
        s1.len() == s2.len(),
        forall|i: int|
            0 <= i < s1.len() ==> allow_key(#[trigger] s1[i]) == allow_key(#[trigger] s2[i])
                && s1[i].2 == s2[i].2,
    ensures
        allowances_map(s1) == allowances_map(s2),
    decreases s1.len(),
{
    if s1.len() > 0 {
        let t1 = s1.drop_last();
        let t2 = s2.drop_last();
        assert forall|i: int|
            0 <= i < t1.len() implies allow_key(#[trigger] t1[i]) == allow_key(#[trigger] t2[i])
            && t1[i].2 == t2[i].2 by {
            assert(t1[i] == s1[i]);
            assert(t2[i] == s2[i]);
        }
        lemma_allowances_map_congruent(t1, t2);
        assert(allow_key(s1[s1.len() - 1]) == allow_key(s2[s2.len() - 1]));
        assert(s1[s1.len() - 1].2 == s2[s2.len() - 1].2);
    }
}

} // verus!
