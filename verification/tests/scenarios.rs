//! End-to-end scenarios over the ledger, the failure taxonomy, the
//! canonical encodings and the identity order.

use bls12_381_bls::{PublicKey, SecretKey};
use dusk_bytes::Serializable;
use rand::rngs::StdRng;
use rand::SeedableRng;

use std::cmp::Ordering;

use ttoken::state::{TokenError, TokenState};
use ttoken::{Account, Allowance, Approve, Transfer, TransferFrom};

fn pk_bytes(sk: &SecretKey) -> Vec<u8> {
    PublicKey::from(sk).to_bytes().to_vec()
}

fn secret_key(seed: u64) -> SecretKey {
    let mut rng = StdRng::seed_from_u64(seed);
    SecretKey::random(&mut rng)
}

fn alice() -> SecretKey {
    secret_key(0xA11CE)
}

fn carol() -> SecretKey {
    secret_key(0xCA401)
}

/// Genesis {Alice: 1000}.
fn genesis_alice() -> (Vec<u8>, TokenState) {
    let alice_pk = pk_bytes(&alice());
    let mut state = TokenState::new();
    state.init(vec![(Account::External(alice_pk.clone()), 1000)]);
    (alice_pk, state)
}

fn balance_of(state: &TokenState, account: Account) -> u64 {
    state.account(&account).balance
}

fn nonce_of(state: &TokenState, account: Account) -> u64 {
    state.account(&account).nonce
}

fn allowance_of(state: &TokenState, owner: Account, spender: Account) -> u64 {
    state.allowance(&Allowance { owner, spender })
}

/// A transfer with Alice's correct signature moves the value and steps
/// Alice's nonce.
#[test]
fn scenario_transfer_with_correct_signature() {
    let (alice_pk, mut state) = genesis_alice();
    let bob_pk = pk_bytes(&secret_key(0xB0B));

    let transfer = Transfer::new(&alice(), Account::External(bob_pk.clone()), 500, 1);
    let effect = state
        .transfer(&transfer)
        .expect("a correctly signed transfer with the sequential nonce succeeds");
    assert!(effect.acceptance.is_none());

    assert_eq!(balance_of(&state, Account::External(alice_pk.clone())), 500);
    assert_eq!(balance_of(&state, Account::External(bob_pk)), 500);
    assert_eq!(nonce_of(&state, Account::External(alice_pk)), 1);
    assert_eq!(state.total_supply(), 1000);
}

/// Replaying the exact same request fails with `InvalidNonce` and changes
/// nothing.
#[test]
fn scenario_replay_fails_invalid_nonce() {
    let (alice_pk, mut state) = genesis_alice();
    let bob_pk = pk_bytes(&secret_key(0xB0B));

    let transfer = Transfer::new(&alice(), Account::External(bob_pk.clone()), 500, 1);
    state
        .transfer(&transfer)
        .expect("the first transfer succeeds");

    let replayed = state.transfer(&transfer);
    assert_eq!(replayed.unwrap_err(), TokenError::InvalidNonce);

    assert_eq!(balance_of(&state, Account::External(alice_pk.clone())), 500);
    assert_eq!(balance_of(&state, Account::External(bob_pk)), 500);
    assert_eq!(nonce_of(&state, Account::External(alice_pk)), 1);
}

/// A delegated transfer spends part of the allowance and leaves the
/// remainder.
#[test]
fn scenario_delegated_transfer_partial_spend() {
    let (alice_pk, mut state) = genesis_alice();
    let carol_pk = pk_bytes(&carol());
    let dave_pk = pk_bytes(&secret_key(0xDA7E));

    let approve = Approve::new(&alice(), Account::External(carol_pk.clone()), 300, 1);
    state.approve(&approve).expect("the approval succeeds");

    let transfer_from = TransferFrom::new(
        &carol(),
        Account::External(alice_pk.clone()),
        Account::External(dave_pk.clone()),
        200,
        1,
    );
    state
        .transfer_from(&transfer_from)
        .expect("the delegated transfer within the allowance succeeds");

    assert_eq!(balance_of(&state, Account::External(alice_pk.clone())), 800);
    assert_eq!(balance_of(&state, Account::External(dave_pk)), 200);
    assert_eq!(
        allowance_of(
            &state,
            Account::External(alice_pk),
            Account::External(carol_pk),
        ),
        100
    );
}

/// A delegated transfer over the remaining allowance fails with
/// `InsufficientAllowance` and changes nothing.
#[test]
fn scenario_delegated_transfer_over_allowance() {
    let (alice_pk, mut state) = genesis_alice();
    let carol_pk = pk_bytes(&carol());
    let dave_pk = pk_bytes(&secret_key(0xDA7E));

    let approve = Approve::new(&alice(), Account::External(carol_pk.clone()), 300, 1);
    state.approve(&approve).expect("the approval succeeds");
    let transfer_from = TransferFrom::new(
        &carol(),
        Account::External(alice_pk.clone()),
        Account::External(dave_pk.clone()),
        200,
        1,
    );
    state
        .transfer_from(&transfer_from)
        .expect("the delegated transfer within the allowance succeeds");

    let over = TransferFrom::new(
        &carol(),
        Account::External(alice_pk.clone()),
        Account::External(dave_pk.clone()),
        150,
        2,
    );
    let result = state.transfer_from(&over);
    assert_eq!(result.unwrap_err(), TokenError::InsufficientAllowance);

    assert_eq!(balance_of(&state, Account::External(alice_pk.clone())), 800);
    assert_eq!(balance_of(&state, Account::External(dave_pk)), 200);
    assert_eq!(nonce_of(&state, Account::External(carol_pk.clone())), 1);
    assert_eq!(
        allowance_of(
            &state,
            Account::External(alice_pk),
            Account::External(carol_pk),
        ),
        100
    );
}

/// A transfer to a module whose acceptance entry point fails is undone as a
/// whole: the failure is reported and balances and nonce are exactly as
/// before the call.
#[test]
fn scenario_failing_acceptance_rolls_back() {
    let (alice_pk, mut state) = genesis_alice();
    let module_id = vec![7u8; 32];

    let transfer = Transfer::new(&alice(), Account::Contract(module_id.clone()), 500, 1);
    let snapshot = state.snapshot();
    let effect = state
        .transfer(&transfer)
        .expect("the transfer itself succeeds before the acceptance call");
    let call = effect
        .acceptance
        .expect("a transfer into a module owes an acceptance call");
    assert_eq!(call.contract, module_id);
    assert_eq!(call.info.value, 500);

    // The module's acceptance entry point deterministically fails.
    let settled = state.settle_acceptance(snapshot, false);
    assert_eq!(settled.unwrap_err(), TokenError::AcceptanceCallbackFailed);

    assert_eq!(balance_of(&state, Account::External(alice_pk.clone())), 1000);
    assert_eq!(balance_of(&state, Account::Contract(module_id)), 0);
    assert_eq!(nonce_of(&state, Account::External(alice_pk)), 0);
    assert_eq!(state.total_supply(), 1000);
}

/// Approval overwrites: approving a value and reading it back gives that
/// value, and a second approval of zero sets it back to zero.
#[test]
fn approve_roundtrip_overwrites() {
    let (alice_pk, mut state) = genesis_alice();
    let carol_pk = pk_bytes(&carol());

    let approve = Approve::new(&alice(), Account::External(carol_pk.clone()), 300, 1);
    state.approve(&approve).expect("the first approval succeeds");
    assert_eq!(
        allowance_of(
            &state,
            Account::External(alice_pk.clone()),
            Account::External(carol_pk.clone()),
        ),
        300
    );

    let revoke = Approve::new(&alice(), Account::External(carol_pk.clone()), 0, 2);
    state.approve(&revoke).expect("the second approval succeeds");
    assert_eq!(
        allowance_of(
            &state,
            Account::External(alice_pk),
            Account::External(carol_pk),
        ),
        0
    );
}

/// An identity that has never held a balance cannot initiate a transfer.
#[test]
fn transfer_from_unknown_account_fails() {
    let (_alice_pk, mut state) = genesis_alice();
    let stranger = secret_key(0x57A); // never funded

    let transfer = Transfer::new(&stranger, Account::External(pk_bytes(&alice())), 1, 1);
    assert_eq!(
        state.transfer(&transfer).unwrap_err(),
        TokenError::NoSuchAccount
    );
}

/// A transfer over the sender's balance fails with `InsufficientBalance`,
/// before the nonce is even considered.
#[test]
fn transfer_over_balance_fails() {
    let (alice_pk, mut state) = genesis_alice();
    let bob_pk = pk_bytes(&secret_key(0xB0B));

    let transfer = Transfer::new(&alice(), Account::External(bob_pk), 2000, 1);
    assert_eq!(
        state.transfer(&transfer).unwrap_err(),
        TokenError::InsufficientBalance
    );
    assert_eq!(balance_of(&state, Account::External(alice_pk)), 1000);
}

/// A transfer with a gap in the nonce fails with `InvalidNonce`.
#[test]
fn transfer_with_nonce_gap_fails() {
    let (alice_pk, mut state) = genesis_alice();
    let bob_pk = pk_bytes(&secret_key(0xB0B));

    let transfer = Transfer::new(&alice(), Account::External(bob_pk), 500, 2);
    assert_eq!(
        state.transfer(&transfer).unwrap_err(),
        TokenError::InvalidNonce
    );
    assert_eq!(nonce_of(&state, Account::External(alice_pk)), 0);
}

/// A transfer whose signature was made by another key fails with
/// `InvalidSignature` and changes nothing.
#[test]
fn transfer_with_wrong_signature_fails() {
    let (alice_pk, mut state) = genesis_alice();
    let bob_pk = pk_bytes(&secret_key(0xB0B));

    // Signed by the wrong key: the request claims to come from Alice but
    // carries a signature made with another secret key.
    let forged_source = Transfer::new(&secret_key(0xBAD), Account::External(bob_pk.clone()), 500, 1);
    let forged = Transfer {
        from: alice_pk.clone(),
        to: Account::External(bob_pk.clone()),
        value: 500,
        nonce: 1,
        signature: forged_source.signature().clone(),
    };
    assert_eq!(
        state.transfer(&forged).unwrap_err(),
        TokenError::InvalidSignature
    );
    assert_eq!(balance_of(&state, Account::External(alice_pk.clone())), 1000);
    assert_eq!(nonce_of(&state, Account::External(alice_pk)), 0);
}

/// A delegated transfer without any approval fails with `NoAllowance`.
#[test]
fn transfer_from_without_allowance_fails() {
    let (alice_pk, mut state) = genesis_alice();
    let dave_pk = pk_bytes(&secret_key(0xDA7E));

    let transfer_from = TransferFrom::new(
        &carol(),
        Account::External(alice_pk),
        Account::External(dave_pk),
        1,
        1,
    );
    assert_eq!(
        state.transfer_from(&transfer_from).unwrap_err(),
        TokenError::NoAllowance
    );
}

/// A module-initiated transfer from a module without a record fails with
/// `NoSuchAccount`.
#[test]
fn contract_transfer_without_record_fails() {
    let (alice_pk, mut state) = genesis_alice();
    let module_id = vec![9u8; 32];

    let transfer = ttoken::TransferFromContract {
        to: Account::External(alice_pk),
        value: 1,
    };
    assert_eq!(
        state
            .transfer_from_contract(&module_id, &transfer)
            .unwrap_err(),
        TokenError::NoSuchAccount
    );
}

/// A transfer to the sender itself leaves the balance in place and steps
/// only the nonce.
#[test]
fn transfer_to_self_keeps_balance() {
    let (alice_pk, mut state) = genesis_alice();

    let transfer = Transfer::new(&alice(), Account::External(alice_pk.clone()), 400, 1);
    state.transfer(&transfer).expect("a self-transfer succeeds");

    assert_eq!(balance_of(&state, Account::External(alice_pk.clone())), 1000);
    assert_eq!(nonce_of(&state, Account::External(alice_pk)), 1);
    assert_eq!(state.total_supply(), 1000);
}

/// Genesis accumulates repeated identities rather than overwriting them.
#[test]
fn genesis_accumulates_duplicates() {
    let alice_pk = pk_bytes(&alice());
    let mut state = TokenState::new();
    state.init(vec![
        (Account::External(alice_pk.clone()), 10),
        (Account::External(alice_pk.clone()), 5),
    ]);

    assert_eq!(balance_of(&state, Account::External(alice_pk)), 15);
    assert_eq!(state.total_supply(), 15);
}

/// The static metadata.
#[test]
fn metadata() {
    let state = TokenState::new();
    assert_eq!(state.name(), "Transparent Fungible Token Sample");
    assert_eq!(state.symbol(), "TFTS");
    assert_eq!(state.decimals(), 18);
    assert_eq!(state.total_supply(), 0);
}

/// The canonical transfer encoding, byte for byte: sender key, then the
/// tagged recipient identity zero-padded to its fixed width, then value and
/// nonce in little-endian order.
#[test]
fn transfer_signature_message_bytes() {
    let from = vec![1u8; 96];
    let module_id = vec![2u8; 32];
    let transfer = Transfer {
        from: from.clone(),
        to: Account::Contract(module_id.clone()),
        value: 7,
        nonce: 9,
        signature: Vec::new(),
    };

    let mut expected = from;
    expected.push(1); // module identities are tagged 1
    expected.extend_from_slice(&module_id);
    expected.extend_from_slice(&[0u8; 64]); // zero padding to the common width
    expected.extend_from_slice(&7u64.to_le_bytes());
    expected.extend_from_slice(&9u64.to_le_bytes());

    assert_eq!(transfer.signature_message(), expected);
    assert_eq!(expected.len(), 96 + 97 + 8 + 8);
}

/// The canonical delegated-transfer encoding: spender key, owner identity,
/// recipient identity, value, nonce.
#[test]
fn transfer_from_signature_message_bytes() {
    let spender = vec![3u8; 96];
    let owner_pk = vec![4u8; 96];
    let to_pk = vec![5u8; 96];
    let transfer_from = TransferFrom {
        spender: spender.clone(),
        owner: Account::External(owner_pk.clone()),
        to: Account::External(to_pk.clone()),
        value: 11,
        nonce: 1,
        signature: Vec::new(),
    };

    let mut expected = spender;
    expected.push(0); // external identities are tagged 0
    expected.extend_from_slice(&owner_pk);
    expected.push(0);
    expected.extend_from_slice(&to_pk);
    expected.extend_from_slice(&11u64.to_le_bytes());
    expected.extend_from_slice(&1u64.to_le_bytes());

    assert_eq!(transfer_from.signature_message(), expected);
    assert_eq!(expected.len(), 96 + 97 + 97 + 8 + 8);
}

/// The identity order keeps the two classes apart: every external identity
/// sorts before every module identity. (The comparator follows the
/// documented intent of the identity model; it keys nothing
/// balance-relevant, so only consistency matters.)
#[test]
fn identity_order_separates_classes() {
    let external = Account::External(vec![0xFF; 96]);
    let module = Account::Contract(vec![0x00; 32]);

    assert_eq!(external.cmp(&module), Ordering::Less);
    assert_eq!(module.cmp(&external), Ordering::Greater);
    assert!(external < module);
}

/// Within a class the order is lexicographic on the raw bytes.
#[test]
fn identity_order_within_class() {
    let mut low = vec![0u8; 96];
    let mut high = vec![0u8; 96];
    low[10] = 1;
    high[10] = 2;

    let a = Account::External(low);
    let b = Account::External(high);
    assert_eq!(a.cmp(&b), Ordering::Less);
    assert_eq!(b.cmp(&a), Ordering::Greater);
    assert_eq!(a.cmp(&a), Ordering::Equal);
    assert!(a == a.dup());
    assert!(a != b);
}
