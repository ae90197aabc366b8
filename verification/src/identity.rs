//! The identity model: the principal a balance or allowance is keyed by.
//!
//! An [`Account`] is either an externally owned identity (the holder of a BLS
//! signing key, carried as the key's fixed-width raw bytes) or a module
//! identity (another callable component, carried as its fixed-width id
//! bytes). Identities are totally ordered — external identities compare among
//! themselves by key bytes, module identities by id bytes, and every external
//! identity sorts before every module identity — so the two classes never
//! interleave when identities key an ordered structure.

use vstd::prelude::*;
use core::cmp::Ordering;

verus! {

/// Width in bytes of a BLS public key in its compressed encoding.
pub const PK_BYTES: usize = 96;

/// Width in bytes of a BLS signature in its compressed encoding.
pub const SIG_BYTES: usize = 48;

/// Width in bytes of a module (contract) identifier.
pub const CONTRACT_ID_BYTES: usize = 32;

/// Width in bytes of the canonical identity encoding: one tag byte followed
/// by the key or id bytes, zero-padded to a common width.
pub const ACCOUNT_BYTES: usize = 97;

/// Mathematical model of an identity: the class it belongs to together with
/// its raw bytes.
#[verifier::ext_equal]
pub enum AccountId {
    External { pk: Seq<u8> },
    Contract { id: Seq<u8> },
}

/// An identity is well formed when its raw bytes have the fixed width of its
/// class.
pub open spec fn id_wf(a: AccountId) -> bool {
    match a {
        AccountId::External { pk } => pk.len() == PK_BYTES,
        AccountId::Contract { id } => id.len() == CONTRACT_ID_BYTES,
    }
}

/// The label for an account: an externally owned identity (raw public-key
/// bytes) or a module identity (contract-id bytes).
#[derive(Debug, Clone)]
pub enum Account {
    /// An externally owned account, holding the raw bytes of its public key.
    External(Vec<u8>),
    /// A contract account, holding the bytes of its contract id.
    Contract(Vec<u8>),
}

impl View for Account {
    type V = AccountId;

    open spec fn view(&self) -> AccountId {
        match self {
            Account::External(pk) => AccountId::External { pk: pk@ },
            Account::Contract(id) => AccountId::Contract { id: id@ },
        }
    }
}

impl Account {
    /// Whether the raw bytes have the fixed width of the identity's class.
    pub open spec fn wf(&self) -> bool {
        id_wf(self@)
    }

    /// A deep copy with the same identity.
    pub fn dup(&self) -> (r: Account)
        ensures
            r@ == self@,
    {
        match self {
            Account::External(pk) => Account::External(bytes_dup(pk)),
            Account::Contract(id) => Account::Contract(bytes_dup(id)),
        }
    }
}

/// A sequence of `n` zero bytes, used to pad identity encodings to their
/// common width.
pub open spec fn zeros(n: nat) -> Seq<u8> {
    Seq::new(n, |i: int| 0u8)
}

/// The canonical fixed-width encoding of an identity: a tag byte (0 for
/// external, 1 for module identities) followed by the raw key or id bytes,
/// zero-padded to [`ACCOUNT_BYTES`].
pub open spec fn spec_account_bytes(a: AccountId) -> Seq<u8> {
    match a {
        AccountId::External { pk } => seq![0u8] + pk,
        AccountId::Contract { id } => seq![1u8] + id + zeros(
            (ACCOUNT_BYTES - 1 - CONTRACT_ID_BYTES) as nat,
        ),
    }
}

impl Account {
    /// The canonical fixed-width byte encoding of this identity, as it
    /// appears inside signature messages.
    pub fn to_bytes(&self) -> (r: Vec<u8>)
        requires
            self.wf(),
        ensures
            r@ == spec_account_bytes(self@),
            r@.len() == ACCOUNT_BYTES,
    {
        match self {
            Account::External(pk) => {
                let mut r: Vec<u8> = Vec::new();
                r.push(0u8);
                let mut i: usize = 0;
                while i < pk.len()
                    invariant
                        i <= pk.len(),
                        r@ =~= seq![0u8] + pk@.subrange(0, i as int),
                    decreases pk.len() - i,
                {
                    r.push(pk[i]);
                    i += 1;
                }
                proof {
                    assert(r@ =~= seq![0u8] + pk@);
                }
                r
            },
            Account::Contract(id) => {
                let mut r: Vec<u8> = Vec::new();
                r.push(1u8);
                let mut i: usize = 0;
                while i < id.len()
                    invariant
                        i <= id.len(),
                        r@ =~= seq![1u8] + id@.subrange(0, i as int),
                    decreases id.len() - i,
                {
                    r.push(id[i]);
                    i += 1;
                }
                let mut j: usize = 0;
                while j < ACCOUNT_BYTES - 1 - CONTRACT_ID_BYTES
                    invariant
                        j <= ACCOUNT_BYTES - 1 - CONTRACT_ID_BYTES,
                        id@.len() == CONTRACT_ID_BYTES,
                        r@ =~= seq![1u8] + id@ + zeros(j as nat),
                    decreases ACCOUNT_BYTES - 1 - CONTRACT_ID_BYTES - j,
                {
                    r.push(0u8);
                    proof {
                        assert(zeros((j + 1) as nat) =~= zeros(j as nat).push(0u8));
                    }
                    j += 1;
                }
                r
            },
        }
    }
}

impl PartialEq for Account {
    fn eq(&self, other: &Self) -> bool {
        match (self, other) {
            (Account::External(a), Account::External(b)) => bytes_eq(a, b),
            (Account::Contract(a), Account::Contract(b)) => bytes_eq(a, b),
            _ => false,
        }
    }
}

impl vstd::std_specs::cmp::PartialEqSpecImpl for Account {
    open spec fn obeys_eq_spec() -> bool {
        true
    }

    open spec fn eq_spec(&self, other: &Self) -> bool {
        self@ == other@
    }
}

impl Account {
    /// Explicit three-way comparison: class tag first — external identities
    /// sort before module identities — then the raw bytes. The order only
    /// serves to place identities in ordered structures.
    pub fn cmp(&self, other: &Account) -> (r: Ordering)
        ensures
            r == spec_account_cmp(self@, other@),
    {
        match (self, other) {
            (Account::External(a), Account::External(b)) => bytes_cmp(a, b),
            (Account::Contract(a), Account::Contract(b)) => bytes_cmp(a, b),
            (Account::External(_), Account::Contract(_)) => Ordering::Less,
            (Account::Contract(_), Account::External(_)) => Ordering::Greater,
        }
    }
}

impl PartialOrd for Account {
    fn partial_cmp(&self, other: &Self) -> Option<Ordering> {
        Some(self.cmp(other))
    }
}

impl vstd::std_specs::cmp::PartialOrdSpecImpl for Account {
    open spec fn obeys_partial_cmp_spec() -> bool {
        true
    }

    open spec fn partial_cmp_spec(&self, other: &Self) -> Option<Ordering> {
        Some(spec_account_cmp(self@, other@))
    }
}

/// Byte-wise equality of two byte vectors.
pub fn bytes_eq(a: &Vec<u8>, b: &Vec<u8>) -> (r: bool)
    ensures
        r == (a@ == b@),
{
    if a.len() != b.len() {
        return false;
    }
    let mut i: usize = 0;
    while i < a.len()
        invariant
            i <= a.len(),
            a@.len() == b@.len(),
            forall|j: int| 0 <= j < i ==> a@[j] == b@[j],
        decreases a.len() - i,
    {
        if a[i] != b[i] {
            return false;
        }
        i += 1;
    }
    proof {
        assert(a@ =~= b@);
    }
    true
}

/// A fresh byte vector with the same contents.
pub fn bytes_dup(v: &Vec<u8>) -> (r: Vec<u8>)
    ensures
        r@ == v@,
{
    let mut r: Vec<u8> = Vec::new();
    let mut i: usize = 0;
    while i < v.len()
        invariant
            i <= v.len(),
            r@ =~= v@.subrange(0, i as int),
        decreases v.len() - i,
    {
        r.push(v[i]);
        i += 1;
    }
    proof {
        assert(r@ =~= v@);
    }
    r
}

/// Lexicographic three-way comparison of byte strings: the first differing
/// byte decides, and a proper prefix sorts before its extension.
pub open spec fn spec_bytes_cmp(a: Seq<u8>, b: Seq<u8>) -> Ordering
    decreases a.len(),
{
    if a.len() == 0 && b.len() == 0 {
        Ordering::Equal
    } else if a.len() == 0 {
        Ordering::Less
    } else if b.len() == 0 {
        Ordering::Greater
    } else if a[0] < b[0] {
        Ordering::Less
    } else if a[0] > b[0] {
        Ordering::Greater
    } else {
        spec_bytes_cmp(a.skip(1), b.skip(1))
    }
}

/// The total order on identities. It has no semantic meaning beyond giving
/// identities a consistent placement in ordered structures: external
/// identities compare among themselves by raw key bytes, module identities
/// among themselves by id bytes, and every external identity sorts before
/// every module identity, so the two classes never interleave.
pub open spec fn spec_account_cmp(a: AccountId, b: AccountId) -> Ordering {
    match (a, b) {
        (AccountId::External { pk: x }, AccountId::External { pk: y }) => spec_bytes_cmp(x, y),
        (AccountId::Contract { id: x }, AccountId::Contract { id: y }) => spec_bytes_cmp(x, y),
        (AccountId::External { .. }, AccountId::Contract { .. }) => Ordering::Less,
        (AccountId::Contract { .. }, AccountId::External { .. }) => Ordering::Greater,
    }
}

/// Comparing two byte strings with a common prefix is comparing what
/// follows the prefix.
proof fn lemma_bytes_cmp_common_prefix(a: Seq<u8>, b: Seq<u8>, i: int)
    requires
        0 <= i <= a.len(),
        i <= b.len(),
        forall|j: int| 0 <= j < i ==> a[j] == b[j],
    ensures
        spec_bytes_cmp(a, b) == spec_bytes_cmp(a.skip(i), b.skip(i)),
    decreases i,
{
    if i == 0 {
        assert(a.skip(0) =~= a);
        assert(b.skip(0) =~= b);
    } else {
        assert(a[0] == b[0]);
        assert forall|j: int| 0 <= j < i - 1 implies a.skip(1)[j] == b.skip(1)[j] by {
            assert(a.skip(1)[j] == a[j + 1]);
            assert(b.skip(1)[j] == b[j + 1]);
        }
        lemma_bytes_cmp_common_prefix(a.skip(1), b.skip(1), i - 1);
        assert(a.skip(1).skip(i - 1) =~= a.skip(i));
        assert(b.skip(1).skip(i - 1) =~= b.skip(i));
    }
}

/// Lexicographic three-way comparison of two byte vectors.
pub fn bytes_cmp(a: &Vec<u8>, b: &Vec<u8>) -> (r: Ordering)
    ensures
        r == spec_bytes_cmp(a@, b@),
{
    let mut i: usize = 0;
    while i < a.len() && i < b.len()
        invariant
            i <= a@.len(),
            i <= b@.len(),
            forall|j: int| 0 <= j < i ==> a@[j] == b@[j],
        decreases a@.len() - i,
    {
        if a[i] < b[i] {
            proof {
                lemma_bytes_cmp_common_prefix(a@, b@, i as int);
                assert(a@.skip(i as int)[0] == a@[i as int]);
                assert(b@.skip(i as int)[0] == b@[i as int]);
            }
            return Ordering::Less;
        }
        if a[i] > b[i] {
            proof {
                lemma_bytes_cmp_common_prefix(a@, b@, i as int);
                assert(a@.skip(i as int)[0] == a@[i as int]);
                assert(b@.skip(i as int)[0] == b@[i as int]);
            }
            return Ordering::Greater;
        }
        i += 1;
    }
    proof {
        lemma_bytes_cmp_common_prefix(a@, b@, i as int);
    }
    if a.len() < b.len() {
        Ordering::Less
    } else if a.len() > b.len() {
        Ordering::Greater
    } else {
        Ordering::Equal
    }
}

/// Byte strings compare equal exactly when they are the same string.
pub proof fn lemma_bytes_cmp_equal(a: Seq<u8>, b: Seq<u8>)
    ensures
        (spec_bytes_cmp(a, b) == Ordering::Equal) <==> (a == b),
    decreases a.len(),
{
    if a.len() == 0 && b.len() == 0 {
        assert(a =~= b);
    } else if a.len() == 0 || b.len() == 0 {
    } else {
        lemma_bytes_cmp_equal(a.skip(1), b.skip(1));
        if a[0] == b[0] && a.skip(1) == b.skip(1) {
            assert forall|j: int| 0 <= j < a.len() implies a[j] == b[j] by {
                if j > 0 {
                    assert(a.skip(1)[j - 1] == a[j]);
                    assert(b.skip(1)[j - 1] == b[j]);
                }
            }
            assert(a =~= b);
        }
        if a == b {
            assert(a.skip(1) =~= b.skip(1));
        }
    }
}

/// Swapping the two sides of a comparison reverses its outcome.
pub proof fn lemma_bytes_cmp_flip(a: Seq<u8>, b: Seq<u8>)
    ensures
        (spec_bytes_cmp(a, b) == Ordering::Less) <==> (spec_bytes_cmp(b, a) == Ordering::Greater),
        (spec_bytes_cmp(a, b) == Ordering::Equal) <==> (spec_bytes_cmp(b, a) == Ordering::Equal),
    decreases a.len(),
{
    if a.len() > 0 && b.len() > 0 {
        lemma_bytes_cmp_flip(a.skip(1), b.skip(1));
    }
}

/// The byte-string order is transitive.
pub proof fn lemma_bytes_cmp_trans(a: Seq<u8>, b: Seq<u8>, c: Seq<u8>)
    requires
        spec_bytes_cmp(a, b) == Ordering::Less,
        spec_bytes_cmp(b, c) == Ordering::Less,
    ensures
        spec_bytes_cmp(a, c) == Ordering::Less,
    decreases a.len(),
{
    if a.len() == 0 {
        assert(b.len() > 0);
        assert(c.len() > 0);
    } else {
        assert(b.len() > 0);
        assert(c.len() > 0);
        if a[0] == b[0] && b[0] == c[0] {
            lemma_bytes_cmp_trans(a.skip(1), b.skip(1), c.skip(1));
        }
    }
}

/// Identities compare equal exactly when they are the same identity.
pub proof fn lemma_account_cmp_equal(a: AccountId, b: AccountId)
    ensures
        (spec_account_cmp(a, b) == Ordering::Equal) <==> (a == b),
{
    match (a, b) {
        (AccountId::External { pk: x }, AccountId::External { pk: y }) => {
            lemma_bytes_cmp_equal(x, y);
        },
        (AccountId::Contract { id: x }, AccountId::Contract { id: y }) => {
            lemma_bytes_cmp_equal(x, y);
        },
        _ => {},
    }
}

/// Swapping the two sides of an identity comparison reverses its outcome,
/// so the order is total and antisymmetric.
pub proof fn lemma_account_cmp_flip(a: AccountId, b: AccountId)
    ensures
        (spec_account_cmp(a, b) == Ordering::Less) <==> (spec_account_cmp(b, a)
            == Ordering::Greater),
        (spec_account_cmp(a, b) == Ordering::Equal) <==> (spec_account_cmp(b, a)
            == Ordering::Equal),
{
    match (a, b) {
        (AccountId::External { pk: x }, AccountId::External { pk: y }) => {
            lemma_bytes_cmp_flip(x, y);
        },
        (AccountId::Contract { id: x }, AccountId::Contract { id: y }) => {
            lemma_bytes_cmp_flip(x, y);
        },
        _ => {},
    }
}

/// The identity order is transitive.
pub proof fn lemma_account_cmp_trans(a: AccountId, b: AccountId, c: AccountId)
    requires
        spec_account_cmp(a, b) == Ordering::Less,
        spec_account_cmp(b, c) == Ordering::Less,
    ensures
        spec_account_cmp(a, c) == Ordering::Less,
{
    match (a, b, c) {
        (
            AccountId::External { pk: x },
            AccountId::External { pk: y },
            AccountId::External { pk: z },
        ) => {
            lemma_bytes_cmp_trans(x, y, z);
        },
        (
            AccountId::Contract { id: x },
            AccountId::Contract { id: y },
            AccountId::Contract { id: z },
        ) => {
            lemma_bytes_cmp_trans(x, y, z);
        },
        _ => {},
    }
}

/// The two classes never interleave: every external identity sorts before
/// every module identity.
pub proof fn lemma_external_before_contract(a: AccountId, b: AccountId)
    requires
        a is External,
        b is Contract,
    ensures
        spec_account_cmp(a, b) == Ordering::Less,
        spec_account_cmp(b, a) == Ordering::Greater,
{
}

/// Appends the contents of `src` to `dst`.
pub fn append_bytes(dst: &mut Vec<u8>, src: &Vec<u8>)
    ensures
        final(dst)@ == old(dst)@ + src@,
{
    let mut i: usize = 0;
    while i < src.len()
        invariant
            i <= src.len(),
            dst@ =~= old(dst)@ + src@.subrange(0, i as int),
        decreases src.len() - i,
    {
        dst.push(src[i]);
        i += 1;
    }
    proof {
        assert(dst@ =~= old(dst)@ + src@);
    }
}

/// The data an account has in the ledger.
#[derive(Debug, Clone, Copy, PartialEq, Eq, Structural)]
pub struct AccountInfo {
    /// The balance of the account.
    pub balance: u64,
    /// The current nonce of the account. An interaction authenticated by the
    /// account must carry the current value plus one.
    pub nonce: u64,
}

impl AccountInfo {
    /// An empty account: no balance, no interaction performed yet.
    pub open spec fn empty_spec() -> AccountInfo {
        AccountInfo { balance: 0, nonce: 0 }
    }

    /// An empty account: no balance, no interaction performed yet. An absent
    /// registry entry is equivalent to this record.
    #[verifier::when_used_as_spec(empty_spec)]
    pub fn empty() -> (r: AccountInfo)
        ensures
            r == AccountInfo::empty_spec(),
    {
        AccountInfo { balance: 0, nonce: 0 }
    }
}

} // verus!
