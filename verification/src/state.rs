//! The ledger engine: the operations that read and mutate the account
//! registry and the allowance table.
//!
//! The state is an explicit object handed by reference into every operation;
//! the hosting runtime is expected to serialize calls, so at most one
//! operation runs against a given state at a time. Every failure is returned
//! as a [`TokenError`] and leaves the state exactly as it was. A transfer
//! whose recipient is a module identity additionally names the acceptance
//! call the host must run; the host settles the pending transfer with
//! [`TokenState::settle_acceptance`], which restores the snapshot taken
//! before the operation when the callback failed, making the whole transfer
//! atomic.

use vstd::prelude::*;

use crate::bls::{bls_verifies, bls_verify};
use crate::identity::{id_wf, Account, AccountId, AccountInfo, CONTRACT_ID_BYTES, bytes_dup};
use crate::requests::{
    Allowance, Approve, ApproveEvent, Transfer, TransferEvent, TransferFrom, TransferFromContract,
    TransferInfo,
};
use crate::table::{
    accounts_keys_wf, accounts_map, accounts_uniq, allow_key, allowance_or_zero, allowances_keys_wf,
    allowances_map, allowances_uniq, get_or_empty, lemma_accounts_map_congruent,
    lemma_accounts_map_contains, lemma_accounts_map_index, lemma_accounts_map_push,
    lemma_accounts_map_update, lemma_allowances_map_congruent, lemma_allowances_map_contains,
    lemma_allowances_map_index, lemma_allowances_map_push, lemma_allowances_map_update,
    lemma_credit_no_overflow, lemma_sum_push, lemma_sum_update, sum_balances,
};

verus! {

/// The failures an operation can end in. Every one aborts the whole call:
/// callers observe either full success or a state identical to the one
/// before the call.
#[derive(Debug, Clone, Copy, PartialEq, Eq, Structural)]
pub enum TokenError {
    /// The sending account has never held a balance.
    NoSuchAccount,
    /// The sending account's balance is smaller than the transferred value.
    InsufficientBalance,
    /// The request's nonce is not the authenticated account's nonce plus
    /// one.
    InvalidNonce,
    /// The signature does not verify against the authenticated account's
    /// key.
    InvalidSignature,
    /// No allowance entry exists for the (owner, spender) pair.
    NoAllowance,
    /// The allowance entry is smaller than the transferred value.
    InsufficientAllowance,
    /// The recipient module's acceptance entry point reported failure.
    AcceptanceCallbackFailed,
}

/// The acceptance call a transfer into a module identity obliges the host to
/// run before the transfer may be considered complete.
#[derive(Debug, Clone)]
pub struct AcceptanceCall {
    /// The id of the module to invoke.
    pub contract: Vec<u8>,
    /// The payload for the module's acceptance entry point.
    pub info: TransferInfo,
}

/// What a successful transfer hands back: the event to emit, and the
/// acceptance call still owed when the recipient is a module identity.
#[derive(Debug, Clone)]
pub struct TransferEffect {
    /// The event describing the transfer.
    pub event: TransferEvent,
    /// The acceptance call the host must run, when the recipient is a
    /// module identity.
    pub acceptance: Option<AcceptanceCall>,
}

/// The ledger: account registry, allowance table, and the fixed total
/// supply.
#[derive(Debug)]
pub struct TokenState {
    /// The account registry entries; identities are pairwise distinct.
    pub accounts: Vec<(Account, AccountInfo)>,
    /// The allowance entries; (owner, spender) pairs are pairwise distinct.
    pub allowances: Vec<(Account, Account, u64)>,
    /// The total supply, fixed at genesis.
    pub supply: u64,
}

// ------------------------------------------------------------------
// Specification functions.
// ------------------------------------------------------------------

impl TokenState {
    /// The account registry as a map from identity to record.
    pub open spec fn accounts_view(self) -> Map<AccountId, AccountInfo> {
        accounts_map(self.accounts@)
    }

    /// The allowance table as a map from (owner, spender) to amount.
    pub open spec fn allowances_view(self) -> Map<(AccountId, AccountId), u64> {
        allowances_map(self.allowances@)
    }

    /// The two tables hold pairwise distinct, well-formed keys.
    pub open spec fn tables_wf(self) -> bool {
        &&& accounts_uniq(self.accounts@)
        &&& accounts_keys_wf(self.accounts@)
        &&& allowances_uniq(self.allowances@)
        &&& allowances_keys_wf(self.allowances@)
    }

    /// Well-formedness of the whole ledger: the tables are well formed and
    /// the supply equals the sum of all balances.
    pub open spec fn wf(self) -> bool {
        &&& self.tables_wf()
        &&& self.supply == sum_balances(self.accounts@)
    }

    /// The record an identity holds, or the empty record.
    pub open spec fn spec_account(self, k: AccountId) -> AccountInfo {
        get_or_empty(self.accounts_view(), k)
    }

    /// The amount a spender may move out of an owner's balance, or zero.
    pub open spec fn spec_allowance(self, owner: AccountId, spender: AccountId) -> u64 {
        allowance_or_zero(self.allowances_view(), owner, spender)
    }
}

/// Crediting `v` to `to`: the recipient's record gains the value, its nonce
/// is kept, and a record is created when absent.
pub open spec fn spec_credit(m: Map<AccountId, AccountInfo>, to: AccountId, v: u64) -> Map<
    AccountId,
    AccountInfo,
> {
    let prev = get_or_empty(m, to);
    m.insert(to, AccountInfo { balance: (prev.balance + v) as u64, nonce: prev.nonce })
}

/// Which failure, if any, a self-transfer request meets, in the order the
/// checks are made: a sender without a record, an insufficient balance, a
/// non-sequential nonce, and finally a signature that does not verify over
/// the request's canonical encoding against the sender's key.
pub open spec fn spec_transfer_check(pre: TokenState, t: Transfer) -> Option<TokenError> {
    let from = (AccountId::External { pk: t.from@ });
    if !pre.accounts_view().contains_key(from) {
        Some(TokenError::NoSuchAccount)
    } else if pre.accounts_view()[from].balance < t.value {
        Some(TokenError::InsufficientBalance)
    } else if t.nonce != pre.accounts_view()[from].nonce + 1 {
        Some(TokenError::InvalidNonce)
    } else if !bls_verifies(t.spec_signature_message(), t.from@, t.signature@) {
        Some(TokenError::InvalidSignature)
    } else {
        None
    }
}

/// The registry after a successful self-transfer: the sender is debited and
/// its nonce stepped, then the recipient is credited.
pub open spec fn spec_transfer_apply(
    m: Map<AccountId, AccountInfo>,
    from: AccountId,
    to: AccountId,
    v: u64,
) -> Map<AccountId, AccountInfo> {
    let debited = m.insert(
        from,
        AccountInfo { balance: (m[from].balance - v) as u64, nonce: (m[from].nonce + 1) as u64 },
    );
    spec_credit(debited, to, v)
}

/// Which failure, if any, a delegated-transfer request meets, in the order
/// the checks are made: the spender's nonce, the spender's signature, a
/// missing allowance entry, an allowance smaller than the value, a missing
/// owner record, and finally the owner's balance.
pub open spec fn spec_transfer_from_check(pre: TokenState, t: TransferFrom) -> Option<TokenError> {
    let spender = (AccountId::External { pk: t.spender@ });
    if t.nonce != pre.spec_account(spender).nonce + 1 {
        Some(TokenError::InvalidNonce)
    } else if !bls_verifies(t.spec_signature_message(), t.spender@, t.signature@) {
        Some(TokenError::InvalidSignature)
    } else if !pre.allowances_view().contains_key((t.owner@, spender)) {
        Some(TokenError::NoAllowance)
    } else if t.value > pre.allowances_view()[(t.owner@, spender)] {
        Some(TokenError::InsufficientAllowance)
    } else if !pre.accounts_view().contains_key(t.owner@) {
        Some(TokenError::NoSuchAccount)
    } else if pre.accounts_view()[t.owner@].balance < t.value {
        Some(TokenError::InsufficientBalance)
    } else {
        None
    }
}

/// The registry after a successful delegated transfer: the spender's record
/// is created if absent and its nonce stepped, the owner is debited, and the
/// recipient is credited.
pub open spec fn spec_transfer_from_accounts(pre: TokenState, t: TransferFrom) -> Map<
    AccountId,
    AccountInfo,
> {
    let spender = (AccountId::External { pk: t.spender@ });
    let m1 = pre.accounts_view().insert(
        spender,
        AccountInfo { balance: pre.spec_account(spender).balance, nonce: t.nonce },
    );
    let m2 = m1.insert(
        t.owner@,
        AccountInfo {
            balance: (m1[t.owner@].balance - t.value) as u64,
            nonce: m1[t.owner@].nonce,
        },
    );
    spec_credit(m2, t.to@, t.value)
}

/// The allowance table after a successful delegated transfer: the spent
/// value is taken off the (owner, spender) entry.
pub open spec fn spec_transfer_from_allowances(pre: TokenState, t: TransferFrom) -> Map<
    (AccountId, AccountId),
    u64,
> {
    let spender = (AccountId::External { pk: t.spender@ });
    let key = (t.owner@, spender);
    pre.allowances_view().insert(key, (pre.allowances_view()[key] - t.value) as u64)
}

/// Which failure, if any, an approval request meets: the owner's nonce,
/// then the owner's signature.
pub open spec fn spec_approve_check(pre: TokenState, a: Approve) -> Option<TokenError> {
    let owner = (AccountId::External { pk: a.owner@ });
    if a.nonce != pre.spec_account(owner).nonce + 1 {
        Some(TokenError::InvalidNonce)
    } else if !bls_verifies(a.spec_signature_message(), a.owner@, a.signature@) {
        Some(TokenError::InvalidSignature)
    } else {
        None
    }
}

/// The registry after a successful approval: only the owner's nonce steps;
/// a record is created for an owner never seen before.
pub open spec fn spec_approve_accounts(pre: TokenState, a: Approve) -> Map<
    AccountId,
    AccountInfo,
> {
    let owner = (AccountId::External { pk: a.owner@ });
    pre.accounts_view().insert(
        owner,
        AccountInfo { balance: pre.spec_account(owner).balance, nonce: a.nonce },
    )
}

/// The allowance table after a successful approval: the (owner, spender)
/// entry is set — not added to — overwriting any prior amount.
pub open spec fn spec_approve_allowances(pre: TokenState, a: Approve) -> Map<
    (AccountId, AccountId),
    u64,
> {
    let owner = (AccountId::External { pk: a.owner@ });
    pre.allowances_view().insert((owner, a.spender@), a.value)
}

/// Which failure, if any, a module-initiated transfer meets: a calling
/// module without a record, then its balance.
pub open spec fn spec_contract_check(
    pre: TokenState,
    caller: Seq<u8>,
    t: TransferFromContract,
) -> Option<TokenError> {
    let contract = (AccountId::Contract { id: caller });
    if !pre.accounts_view().contains_key(contract) {
        Some(TokenError::NoSuchAccount)
    } else if pre.accounts_view()[contract].balance < t.value {
        Some(TokenError::InsufficientBalance)
    } else {
        None
    }
}

/// The registry after a successful module-initiated transfer: the calling
/// module is debited — its nonce untouched — and the recipient credited.
pub open spec fn spec_contract_apply(
    m: Map<AccountId, AccountInfo>,
    contract: AccountId,
    to: AccountId,
    v: u64,
) -> Map<AccountId, AccountInfo> {
    let debited = m.insert(
        contract,
        AccountInfo { balance: (m[contract].balance - v) as u64, nonce: m[contract].nonce },
    );
    spec_credit(debited, to, v)
}

/// Whether the acceptance obligation of a transfer effect is the right one
/// for its recipient: exactly transfers into a module identity owe an
/// acceptance call, carrying that module's id, the sender and the value.
pub open spec fn spec_acceptance_ok(
    acc: Option<AcceptanceCall>,
    from: AccountId,
    to: AccountId,
    v: u64,
) -> bool {
    match to {
        AccountId::Contract { id } => acc matches Some(c) && c.contract@ == id && c.info.from@
            == from && c.info.value == v,
        AccountId::External { .. } => acc is None,
    }
}

/// Whether a transfer event carries exactly the given parties and value.
pub open spec fn spec_transfer_event(
    e: TransferEvent,
    owner: AccountId,
    spender: Option<AccountId>,
    to: AccountId,
    v: u64,
) -> bool {
    &&& e.owner@ == owner
    &&& match spender {
        Some(s) => e.spender matches Some(x) && x@ == s,
        None => e.spender is None,
    }
    &&& e.to@ == to
    &&& e.value == v
}

/// The accumulated balances after genesis has folded the list of initial
/// `(identity, balance)` pairs into a registry; a repeated identity
/// accumulates rather than overwrites.
pub open spec fn spec_genesis(m: Map<AccountId, AccountInfo>, l: Seq<(Account, u64)>) -> Map<
    AccountId,
    AccountInfo,
>
    decreases l.len(),
{
    if l.len() == 0 {
        m
    } else {
        let m1 = spec_genesis(m, l.drop_last());
        let e = l.last();
        let prev = get_or_empty(m1, e.0@);
        m1.insert(e.0@, AccountInfo { balance: (prev.balance + e.1) as u64, nonce: prev.nonce })
    }
}

/// The sum of the balances in a genesis list.
pub open spec fn sum_values(l: Seq<(Account, u64)>) -> int
    decreases l.len(),
{
    if l.len() == 0 {
        0
    } else {
        sum_values(l.drop_last()) + l.last().1
    }
}

/// A prefix of a genesis list never sums to more than the whole list.
proof fn lemma_sum_values_prefix_le(l: Seq<(Account, u64)>, n: int)
    requires
        0 <= n <= l.len(),
    ensures
        sum_values(l.subrange(0, n)) <= sum_values(l),
    decreases l.len(),
{
    if n == l.len() {
        assert(l.subrange(0, n) =~= l);
    } else {
        lemma_sum_values_prefix_le(l.drop_last(), n);
        assert(l.drop_last().subrange(0, n) =~= l.subrange(0, n));
    }
}

// ------------------------------------------------------------------
// Private table plumbing.
// ------------------------------------------------------------------

/// The index of the entry holding identity `k`, if any.
fn find_account(v: &Vec<(Account, AccountInfo)>, k: &Account) -> (r: Option<usize>)
    ensures
        r matches Some(i) ==> i < v@.len() && v@[i as int].0@ == k@,
        r is None ==> forall|i: int| 0 <= i < v@.len() ==> (#[trigger] v@[i]).0@ != k@,
{
    let mut i: usize = 0;
    while i < v.len()
        invariant
            i <= v@.len(),
            forall|j: int| 0 <= j < i ==> (#[trigger] v@[j]).0@ != k@,
        decreases v@.len() - i,
    {
        if v[i].0 == *k {
            return Some(i);
        }
        i += 1;
    }
    None
}

/// The index of the entry holding the (owner, spender) pair, if any.
fn find_allowance(v: &Vec<(Account, Account, u64)>, owner: &Account, spender: &Account) -> (r:
    Option<usize>)
    ensures
        r matches Some(i) ==> i < v@.len() && allow_key(v@[i as int]) == (owner@, spender@),
        r is None ==> forall|i: int|
            0 <= i < v@.len() ==> allow_key(#[trigger] v@[i]) != (owner@, spender@),
{
    let mut i: usize = 0;
    while i < v.len()
        invariant
            i <= v@.len(),
            forall|j: int| 0 <= j < i ==> allow_key(#[trigger] v@[j]) != (owner@, spender@),
        decreases v@.len() - i,
    {
        if v[i].0 == *owner && v[i].1 == *spender {
            return Some(i);
        }
        i += 1;
    }
    None
}

impl TokenState {
    /// The record an identity holds, or the empty record.
    fn read_account(&self, k: &Account) -> (r: AccountInfo)
        requires
            accounts_uniq(self.accounts@),
        ensures
            r == get_or_empty(self.accounts_view(), k@),
    {
        proof {
            lemma_accounts_map_contains(self.accounts@, k@);
        }
        match find_account(&self.accounts, k) {
            Some(i) => {
                proof {
                    lemma_accounts_map_index(self.accounts@, i as int);
                }
                self.accounts[i].1
            },
            None => AccountInfo::empty(),
        }
    }

    /// Sets the record an identity holds, creating the entry when absent.
    fn set_account(&mut self, k: &Account, v: AccountInfo)
        requires
            old(self).tables_wf(),
            id_wf(k@),
        ensures
            final(self).tables_wf(),
            final(self).accounts_view() == old(self).accounts_view().insert(k@, v),
            sum_balances(final(self).accounts@) == sum_balances(old(self).accounts@)
                - get_or_empty(old(self).accounts_view(), k@).balance + v.balance,
            final(self).allowances == old(self).allowances,
            final(self).supply == old(self).supply,
    {
        proof {
            lemma_accounts_map_contains(self.accounts@, k@);
        }
        let ghost s0 = self.accounts@;
        match find_account(&self.accounts, k) {
            Some(i) => {
                proof {
                    lemma_accounts_map_index(s0, i as int);
                }
                self.accounts[i].1 = v;
                proof {
                    assert(self.accounts@ =~= s0.update(i as int, (s0[i as int].0, v)));
                    lemma_accounts_map_update(s0, i as int, (s0[i as int].0, v));
                    lemma_sum_update(s0, i as int, (s0[i as int].0, v));
                    assert forall|a: int, b: int|
                        0 <= a < b < self.accounts@.len() implies (#[trigger] self.accounts@[a]).0@
                        != (#[trigger] self.accounts@[b]).0@ by {
                        assert(self.accounts@[a].0 == s0[a].0);
                        assert(self.accounts@[b].0 == s0[b].0);
                    }
                    assert forall|a: int|
                        0 <= a < self.accounts@.len() implies id_wf(
                        (#[trigger] self.accounts@[a]).0@,
                    ) by {
                        assert(self.accounts@[a].0 == s0[a].0);
                    }
                }
            },
            None => {
                self.accounts.push((k.dup(), v));
                proof {
                    lemma_accounts_map_push(s0, self.accounts@.last());
                    lemma_sum_push(s0, self.accounts@.last());
                    assert(self.accounts@.last().0@ == k@);
                    assert forall|a: int, b: int|
                        0 <= a < b < self.accounts@.len() implies (#[trigger] self.accounts@[a]).0@
                        != (#[trigger] self.accounts@[b]).0@ by {
                        if b < self.accounts@.len() - 1 {
                            assert(self.accounts@[a] == s0[a]);
                            assert(self.accounts@[b] == s0[b]);
                        } else {
                            assert(self.accounts@[a] == s0[a]);
                        }
                    }
                    assert forall|a: int|
                        0 <= a < self.accounts@.len() implies id_wf(
                        (#[trigger] self.accounts@[a]).0@,
                    ) by {
                        if a < self.accounts@.len() - 1 {
                            assert(self.accounts@[a] == s0[a]);
                        }
                    }
                }
            },
        }
    }

    /// Sets the amount a spender may move out of an owner's balance,
    /// creating the entry when absent.
    fn set_allowance(&mut self, owner: &Account, spender: &Account, value: u64)
        requires
            old(self).tables_wf(),
            id_wf(owner@),
            id_wf(spender@),
        ensures
            final(self).tables_wf(),
            final(self).allowances_view() == old(self).allowances_view().insert(
                (owner@, spender@),
                value,
            ),
            final(self).accounts == old(self).accounts,
            final(self).supply == old(self).supply,
    {
        proof {
            lemma_allowances_map_contains(self.allowances@, (owner@, spender@));
        }
        let ghost s0 = self.allowances@;
        match find_allowance(&self.allowances, owner, spender) {
            Some(i) => {
                proof {
                    lemma_allowances_map_index(s0, i as int);
                }
                self.allowances[i].2 = value;
                proof {
                    assert(self.allowances@ =~= s0.update(
                        i as int,
                        (s0[i as int].0, s0[i as int].1, value),
                    ));
                    lemma_allowances_map_update(
                        s0,
                        i as int,
                        (s0[i as int].0, s0[i as int].1, value),
                    );
                    assert forall|a: int, b: int|
                        0 <= a < b < self.allowances@.len() implies allow_key(
                        #[trigger] self.allowances@[a],
                    ) != allow_key(#[trigger] self.allowances@[b]) by {
                        assert(self.allowances@[a].0 == s0[a].0);
                        assert(self.allowances@[a].1 == s0[a].1);
                        assert(self.allowances@[b].0 == s0[b].0);
                        assert(self.allowances@[b].1 == s0[b].1);
                    }
                    assert forall|a: int|
                        0 <= a < self.allowances@.len() implies id_wf(
                        (#[trigger] self.allowances@[a]).0@,
                    ) && id_wf(self.allowances@[a].1@) by {
                        assert(self.allowances@[a].0 == s0[a].0);
                        assert(self.allowances@[a].1 == s0[a].1);
                    }
                }
            },
            None => {
                self.allowances.push((owner.dup(), spender.dup(), value));
                proof {
                    lemma_allowances_map_push(s0, self.allowances@.last());
                    assert(allow_key(self.allowances@.last()) == (owner@, spender@));
                    assert forall|a: int, b: int|
                        0 <= a < b < self.allowances@.len() implies allow_key(
                        #[trigger] self.allowances@[a],
                    ) != allow_key(#[trigger] self.allowances@[b]) by {
                        if b < self.allowances@.len() - 1 {
                            assert(self.allowances@[a] == s0[a]);
                            assert(self.allowances@[b] == s0[b]);
                        } else {
                            assert(self.allowances@[a] == s0[a]);
                        }
                    }
                    assert forall|a: int|
                        0 <= a < self.allowances@.len() implies id_wf(
                        (#[trigger] self.allowances@[a]).0@,
                    ) && id_wf(self.allowances@[a].1@) by {
                        if a < self.allowances@.len() - 1 {
                            assert(self.allowances@[a] == s0[a]);
                        }
                    }
                }
            },
        }
    }

    /// Credits `value` to `to`, creating the recipient's record when
    /// absent; the recipient's nonce is untouched.
    fn credit(&mut self, to: &Account, value: u64)
        requires
            old(self).tables_wf(),
            id_wf(to@),
            get_or_empty(old(self).accounts_view(), to@).balance + value <= u64::MAX,
        ensures
            final(self).tables_wf(),
            final(self).accounts_view() == spec_credit(old(self).accounts_view(), to@, value),
            sum_balances(final(self).accounts@) == sum_balances(old(self).accounts@) + value,
            final(self).allowances == old(self).allowances,
            final(self).supply == old(self).supply,
    {
        let prev = self.read_account(to);
        self.set_account(to, AccountInfo { balance: prev.balance + value, nonce: prev.nonce });
    }
}

// ------------------------------------------------------------------
// Construction, genesis, and the host-settlement protocol.
// ------------------------------------------------------------------

impl TokenState {
    /// An empty ledger: no accounts, no allowances, no supply.
    pub fn new() -> (r: TokenState)
        ensures
            r.wf(),
            r.accounts_view() == Map::<AccountId, AccountInfo>::empty(),
            r.allowances_view() == Map::<(AccountId, AccountId), u64>::empty(),
            r.supply == 0,
    {
        TokenState { accounts: Vec::new(), allowances: Vec::new(), supply: 0 }
    }

    /// Genesis initialization: folds a list of `(identity, balance)` pairs
    /// into the registry and the supply. A repeated identity accumulates
    /// rather than overwrites. Only valid as part of deployment; the
    /// surrounding harness must not invoke it again afterwards.
    pub fn init(&mut self, accounts: Vec<(Account, u64)>)
        requires
            old(self).wf(),
            forall|i: int| 0 <= i < accounts@.len() ==> id_wf((#[trigger] accounts@[i]).0@),
            old(self).supply + sum_values(accounts@) <= u64::MAX,
        ensures
            final(self).wf(),
            final(self).accounts_view() == spec_genesis(old(self).accounts_view(), accounts@),
            final(self).allowances == old(self).allowances,
            final(self).supply == old(self).supply + sum_values(accounts@),
    {
        let n = accounts.len();
        let mut i: usize = 0;
        while i < n
            invariant
                i <= n,
                n == accounts@.len(),
                forall|j: int| 0 <= j < accounts@.len() ==> id_wf((#[trigger] accounts@[j]).0@),
                old(self).supply + sum_values(accounts@) <= u64::MAX,
                old(self).wf(),
                self.tables_wf(),
                self.supply == sum_balances(self.accounts@),
                self.accounts_view() == spec_genesis(
                    old(self).accounts_view(),
                    accounts@.subrange(0, i as int),
                ),
                self.allowances == old(self).allowances,
                self.supply == old(self).supply + sum_values(accounts@.subrange(0, i as int)),
            decreases n - i,
        {
            let ghost prefix = accounts@.subrange(0, i as int);
            let b = accounts[i].1;
            let prev = self.read_account(&accounts[i].0);
            proof {
                assert(accounts@.subrange(0, i + 1).drop_last() =~= prefix);
                assert(accounts@.subrange(0, i + 1).last() == accounts@[i as int]);
                lemma_sum_values_prefix_le(accounts@, i + 1);
                lemma_credit_no_overflow(self.accounts@, accounts@[i as int].0@, b);
            }
            self.set_account(
                &accounts[i].0,
                AccountInfo { balance: prev.balance + b, nonce: prev.nonce },
            );
            self.supply = self.supply + b;
            i += 1;
        }
        proof {
            assert(accounts@.subrange(0, n as int) =~= accounts@);
        }
    }

    /// A snapshot of the ledger: a fresh state with the same registry,
    /// allowance table and supply, for the host to restore when a pending
    /// operation must be rolled back.
    pub fn snapshot(&self) -> (r: TokenState)
        requires
            self.wf(),
        ensures
            r.wf(),
            r.accounts_view() == self.accounts_view(),
            r.allowances_view() == self.allowances_view(),
            r.supply == self.supply,
    {
        let mut acc: Vec<(Account, AccountInfo)> = Vec::new();
        let mut i: usize = 0;
        while i < self.accounts.len()
            invariant
                i <= self.accounts@.len(),
                acc@.len() == i,
                forall|j: int|
                    0 <= j < i ==> (#[trigger] acc@[j]).0@ == self.accounts@[j].0@ && acc@[j].1
                        == self.accounts@[j].1,
            decreases self.accounts@.len() - i,
        {
            let key = self.accounts[i].0.dup();
            let info = self.accounts[i].1;
            acc.push((key, info));
            i += 1;
        }
        let mut allw: Vec<(Account, Account, u64)> = Vec::new();
        let mut j: usize = 0;
        while j < self.allowances.len()
            invariant
                j <= self.allowances@.len(),
                allw@.len() == j,
                forall|x: int|
                    0 <= x < j ==> allow_key(#[trigger] allw@[x]) == allow_key(
                        self.allowances@[x],
                    ) && allw@[x].2 == self.allowances@[x].2,
            decreases self.allowances@.len() - j,
        {
            let owner = self.allowances[j].0.dup();
            let spender = self.allowances[j].1.dup();
            let amount = self.allowances[j].2;
            allw.push((owner, spender, amount));
            j += 1;
        }
        proof {
            lemma_accounts_map_congruent(acc@, self.accounts@);
            lemma_allowances_map_congruent(allw@, self.allowances@);
            assert forall|a: int, b: int|
                0 <= a < b < acc@.len() implies (#[trigger] acc@[a]).0@ != (#[trigger] acc@[b]).0@
                by {}
            assert forall|a: int| 0 <= a < acc@.len() implies id_wf((#[trigger] acc@[a]).0@) by {}
            assert forall|a: int, b: int|
                0 <= a < b < allw@.len() implies allow_key(#[trigger] allw@[a]) != allow_key(
                #[trigger] allw@[b],
            ) by {}
            assert forall|a: int|
                0 <= a < allw@.len() implies id_wf((#[trigger] allw@[a]).0@) && id_wf(
                allw@[a].1@,
            ) by {
                assert(allow_key(allw@[a]) == allow_key(self.allowances@[a]));
            }
        }
        TokenState { accounts: acc, allowances: allw, supply: self.supply }
    }

    /// Restores a previously taken snapshot, discarding the current state.
    pub fn restore(&mut self, snapshot: TokenState)
        ensures
            *final(self) == snapshot,
    {
        *self = snapshot;
    }

    /// Settles a pending transfer whose recipient owed an acceptance call:
    /// on success the transfer stands; on failure the snapshot taken before
    /// the operation is restored, so the whole transfer — debit, credit and
    /// nonce step — is undone, and the failure is reported.
    pub fn settle_acceptance(&mut self, snapshot: TokenState, accepted: bool) -> (r: Result<
        (),
        TokenError,
    >)
        ensures
            accepted ==> r == Ok::<(), TokenError>(()) && *final(self) == *old(self),
            !accepted ==> r == Err::<(), TokenError>(TokenError::AcceptanceCallbackFailed)
                && *final(self) == snapshot,
    {
        if accepted {
            Ok(())
        } else {
            self.restore(snapshot);
            Err(TokenError::AcceptanceCallbackFailed)
        }
    }
}

// ------------------------------------------------------------------
// Queries.
// ------------------------------------------------------------------

impl TokenState {
    /// The token's display name.
    pub fn name(&self) -> (r: String)
        ensures
            r@ == "Transparent Fungible Token Sample"@,
    {
        "Transparent Fungible Token Sample".to_owned()
    }

    /// The token's ticker symbol.
    pub fn symbol(&self) -> (r: String)
        ensures
            r@ == "TFTS"@,
    {
        "TFTS".to_owned()
    }

    /// The number of decimal places a display amount carries.
    pub fn decimals(&self) -> (r: u8)
        ensures
            r == 18,
    {
        18
    }

    /// The total supply, equal to the sum of all balances.
    pub fn total_supply(&self) -> (r: u64)
        ensures
            r == self.supply,
    {
        self.supply
    }

    /// The record an identity holds, or the empty record when the identity
    /// has never held a balance.
    pub fn account(&self, account: &Account) -> (r: AccountInfo)
        requires
            self.wf(),
        ensures
            r == self.spec_account(account@),
    {
        self.read_account(account)
    }

    /// The amount the allowance's spender may move out of its owner's
    /// balance, or zero when no approval was given.
    pub fn allowance(&self, allowance: &Allowance) -> (r: u64)
        requires
            self.wf(),
        ensures
            r == self.spec_allowance(allowance.owner@, allowance.spender@),
    {
        proof {
            lemma_allowances_map_contains(
                self.allowances@,
                (allowance.owner@, allowance.spender@),
            );
        }
        match find_allowance(&self.allowances, &allowance.owner, &allowance.spender) {
            Some(i) => {
                proof {
                    lemma_allowances_map_index(self.allowances@, i as int);
                }
                self.allowances[i].2
            },
            None => 0,
        }
    }
}

// ------------------------------------------------------------------
// The balance-changing operations.
// ------------------------------------------------------------------

impl TokenState {
    /// Authenticated self-transfer. Checks, in this order: the sender has a
    /// record, its balance covers the value, the nonce is the sender's nonce
    /// plus one, and the signature verifies over the request's canonical
    /// encoding against the sender's key. A failure leaves the ledger
    /// untouched; on success the sender is debited, its nonce stepped, the
    /// recipient credited, and — when the recipient is a module identity —
    /// the returned effect names the acceptance call the host must settle.
    pub fn transfer(&mut self, transfer: &Transfer) -> (r: Result<TransferEffect, TokenError>)
        requires
            old(self).wf(),
            transfer.wf(),
        ensures
            final(self).wf(),
            match spec_transfer_check(*old(self), *transfer) {
                Some(e) => r == Err::<TransferEffect, TokenError>(e) && *final(self) == *old(self),
                None => {
                    &&& r is Ok
                    &&& final(self).accounts_view() == spec_transfer_apply(
                        old(self).accounts_view(),
                        (AccountId::External { pk: transfer.from@ }),
                        transfer.to@,
                        transfer.value,
                    )
                    &&& final(self).allowances == old(self).allowances
                    &&& final(self).supply == old(self).supply
                },
            },
            r matches Ok(eff) ==> spec_transfer_event(
                eff.event,
                (AccountId::External { pk: transfer.from@ }),
                None,
                transfer.to@,
                transfer.value,
            ) && spec_acceptance_ok(
                eff.acceptance,
                (AccountId::External { pk: transfer.from@ }),
                transfer.to@,
                transfer.value,
            ),
    {
        let from_acct = Account::External(bytes_dup(&transfer.from));
        proof {
            lemma_accounts_map_contains(self.accounts@, from_acct@);
        }
        let from_idx = match find_account(&self.accounts, &from_acct) {
            Some(i) => i,
            None => {
                return Err(TokenError::NoSuchAccount);
            },
        };
        proof {
            lemma_accounts_map_index(self.accounts@, from_idx as int);
        }
        let from_info = self.accounts[from_idx].1;
        if from_info.balance < transfer.value {
            return Err(TokenError::InsufficientBalance);
        }
        if from_info.nonce == u64::MAX || transfer.nonce != from_info.nonce + 1 {
            return Err(TokenError::InvalidNonce);
        }
        let msg = transfer.signature_message();
        if !bls_verify(&msg, &transfer.from, &transfer.signature) {
            return Err(TokenError::InvalidSignature);
        }
        let debited = AccountInfo {
            balance: from_info.balance - transfer.value,
            nonce: from_info.nonce + 1,
        };
        self.set_account(&from_acct, debited);
        proof {
            lemma_credit_no_overflow(self.accounts@, transfer.to@, transfer.value);
        }
        self.credit(&transfer.to, transfer.value);
        let acceptance: Option<AcceptanceCall> = match &transfer.to {
            Account::Contract(id) => Some(
                AcceptanceCall {
                    contract: bytes_dup(id),
                    info: TransferInfo {
                        from: Account::External(bytes_dup(&transfer.from)),
                        value: transfer.value,
                    },
                },
            ),
            Account::External(_) => None,
        };
        Ok(
            TransferEffect {
                event: TransferEvent {
                    owner: from_acct,
                    spender: None,
                    to: transfer.to.dup(),
                    value: transfer.value,
                },
                acceptance,
            },
        )
    }

    /// Delegated transfer: authenticates the spender — nonce and signature
    /// against the spender's own record and key — then checks the (owner,
    /// spender) allowance entry exists, covers the value, and the owner's
    /// record exists and covers the value. A failure leaves the ledger
    /// untouched; on success the spender's nonce steps (creating its record
    /// when absent), the allowance keeps the remainder, the owner is
    /// debited and the recipient credited, with the same acceptance
    /// obligation as a self-transfer.
    pub fn transfer_from(&mut self, transfer: &TransferFrom) -> (r: Result<
        TransferEffect,
        TokenError,
    >)
        requires
            old(self).wf(),
            transfer.wf(),
        ensures
            final(self).wf(),
            match spec_transfer_from_check(*old(self), *transfer) {
                Some(e) => r == Err::<TransferEffect, TokenError>(e) && *final(self) == *old(self),
                None => {
                    &&& r is Ok
                    &&& final(self).accounts_view() == spec_transfer_from_accounts(
                        *old(self),
                        *transfer,
                    )
                    &&& final(self).allowances_view() == spec_transfer_from_allowances(
                        *old(self),
                        *transfer,
                    )
                    &&& final(self).supply == old(self).supply
                },
            },
            r matches Ok(eff) ==> spec_transfer_event(
                eff.event,
                transfer.owner@,
                Some((AccountId::External { pk: transfer.spender@ })),
                transfer.to@,
                transfer.value,
            ) && spec_acceptance_ok(eff.acceptance, transfer.owner@, transfer.to@, transfer.value),
    {
        let spender_acct = Account::External(bytes_dup(&transfer.spender));
        let sp_prev = self.read_account(&spender_acct);
        if sp_prev.nonce == u64::MAX || transfer.nonce != sp_prev.nonce + 1 {
            return Err(TokenError::InvalidNonce);
        }
        let msg = transfer.signature_message();
        if !bls_verify(&msg, &transfer.spender, &transfer.signature) {
            return Err(TokenError::InvalidSignature);
        }
        proof {
            lemma_allowances_map_contains(self.allowances@, (transfer.owner@, spender_acct@));
        }
        let allow_idx = match find_allowance(&self.allowances, &transfer.owner, &spender_acct) {
            Some(i) => i,
            None => {
                return Err(TokenError::NoAllowance);
            },
        };
        proof {
            lemma_allowances_map_index(self.allowances@, allow_idx as int);
        }
        let allowed = self.allowances[allow_idx].2;
        if transfer.value > allowed {
            return Err(TokenError::InsufficientAllowance);
        }
        proof {
            lemma_accounts_map_contains(self.accounts@, transfer.owner@);
        }
        let owner_idx = match find_account(&self.accounts, &transfer.owner) {
            Some(i) => i,
            None => {
                return Err(TokenError::NoSuchAccount);
            },
        };
        proof {
            lemma_accounts_map_index(self.accounts@, owner_idx as int);
        }
        let owner_info = self.accounts[owner_idx].1;
        if owner_info.balance < transfer.value {
            return Err(TokenError::InsufficientBalance);
        }
        self.set_account(
            &spender_acct,
            AccountInfo { balance: sp_prev.balance, nonce: transfer.nonce },
        );
        self.set_allowance(&transfer.owner, &spender_acct, allowed - transfer.value);
        let owner_now = self.read_account(&transfer.owner);
        self.set_account(
            &transfer.owner,
            AccountInfo { balance: owner_now.balance - transfer.value, nonce: owner_now.nonce },
        );
        proof {
            lemma_credit_no_overflow(self.accounts@, transfer.to@, transfer.value);
        }
        self.credit(&transfer.to, transfer.value);
        let acceptance: Option<AcceptanceCall> = match &transfer.to {
            Account::Contract(id) => Some(
                AcceptanceCall {
                    contract: bytes_dup(id),
                    info: TransferInfo { from: transfer.owner.dup(), value: transfer.value },
                },
            ),
            Account::External(_) => None,
        };
        Ok(
            TransferEffect {
                event: TransferEvent {
                    owner: transfer.owner.dup(),
                    spender: Some(spender_acct),
                    to: transfer.to.dup(),
                    value: transfer.value,
                },
                acceptance,
            },
        )
    }

    /// Approval: authenticates the owner — nonce and signature against the
    /// owner's own record and key — then sets the (owner, spender)
    /// allowance to the given value, overwriting any prior amount,
    /// including back to zero. A failure leaves the ledger untouched.
    pub fn approve(&mut self, approve: &Approve) -> (r: Result<ApproveEvent, TokenError>)
        requires
            old(self).wf(),
            approve.wf(),
        ensures
            final(self).wf(),
            match spec_approve_check(*old(self), *approve) {
                Some(e) => r == Err::<ApproveEvent, TokenError>(e) && *final(self) == *old(self),
                None => {
                    &&& r is Ok
                    &&& final(self).accounts_view() == spec_approve_accounts(*old(self), *approve)
                    &&& final(self).allowances_view() == spec_approve_allowances(
                        *old(self),
                        *approve,
                    )
                    &&& final(self).supply == old(self).supply
                },
            },
            r matches Ok(ev) ==> ev.owner@ == (AccountId::External { pk: approve.owner@ })
                && ev.spender@ == approve.spender@ && ev.value == approve.value,
    {
        let owner_acct = Account::External(bytes_dup(&approve.owner));
        let prev = self.read_account(&owner_acct);
        if prev.nonce == u64::MAX || approve.nonce != prev.nonce + 1 {
            return Err(TokenError::InvalidNonce);
        }
        let msg = approve.signature_message();
        if !bls_verify(&msg, &approve.owner, &approve.signature) {
            return Err(TokenError::InvalidSignature);
        }
        self.set_account(&owner_acct, AccountInfo { balance: prev.balance, nonce: approve.nonce });
        self.set_allowance(&owner_acct, &approve.spender, approve.value);
        Ok(
            ApproveEvent {
                owner: owner_acct,
                spender: approve.spender.dup(),
                value: approve.value,
            },
        )
    }

    /// Module-initiated transfer. The sender is the calling module as
    /// attested by the host — never a field of the request. Checks the
    /// caller's record exists and covers the value; no nonce or signature
    /// is involved, and no nonce moves. On success the caller is debited
    /// and the recipient credited, with the same acceptance obligation as a
    /// self-transfer.
    pub fn transfer_from_contract(&mut self, caller: &Vec<u8>, transfer: &TransferFromContract) -> (r:
        Result<TransferEffect, TokenError>)
        requires
            old(self).wf(),
            caller@.len() == CONTRACT_ID_BYTES,
            id_wf(transfer.to@),
        ensures
            final(self).wf(),
            match spec_contract_check(*old(self), caller@, *transfer) {
                Some(e) => r == Err::<TransferEffect, TokenError>(e) && *final(self) == *old(self),
                None => {
                    &&& r is Ok
                    &&& final(self).accounts_view() == spec_contract_apply(
                        old(self).accounts_view(),
                        (AccountId::Contract { id: caller@ }),
                        transfer.to@,
                        transfer.value,
                    )
                    &&& final(self).allowances == old(self).allowances
                    &&& final(self).supply == old(self).supply
                },
            },
            r matches Ok(eff) ==> spec_transfer_event(
                eff.event,
                (AccountId::Contract { id: caller@ }),
                None,
                transfer.to@,
                transfer.value,
            ) && spec_acceptance_ok(
                eff.acceptance,
                (AccountId::Contract { id: caller@ }),
                transfer.to@,
                transfer.value,
            ),
    {
        let caller_acct = Account::Contract(bytes_dup(caller));
        proof {
            lemma_accounts_map_contains(self.accounts@, caller_acct@);
        }
        let idx = match find_account(&self.accounts, &caller_acct) {
            Some(i) => i,
            None => {
                return Err(TokenError::NoSuchAccount);
            },
        };
        proof {
            lemma_accounts_map_index(self.accounts@, idx as int);
        }
        let info = self.accounts[idx].1;
        if info.balance < transfer.value {
            return Err(TokenError::InsufficientBalance);
        }
        self.set_account(
            &caller_acct,
            AccountInfo { balance: info.balance - transfer.value, nonce: info.nonce },
        );
        proof {
            lemma_credit_no_overflow(self.accounts@, transfer.to@, transfer.value);
        }
        self.credit(&transfer.to, transfer.value);
        let acceptance: Option<AcceptanceCall> = match &transfer.to {
            Account::Contract(id) => Some(
                AcceptanceCall {
                    contract: bytes_dup(id),
                    info: TransferInfo { from: caller_acct.dup(), value: transfer.value },
                },
            ),
            Account::External(_) => None,
        };
        Ok(
            TransferEffect {
                event: TransferEvent {
                    owner: caller_acct,
                    spender: None,
                    to: transfer.to.dup(),
                    value: transfer.value,
                },
                acceptance,
            },
        )
    }
}

} // verus!
