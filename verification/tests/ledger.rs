//! The ledger driven as the deployment harness drives it: a genesis with a
//! keyholder account and a module (holder) account, then the public
//! operations, with the host services simulated: signatures are real BLS
//! signatures, and acceptance callbacks into the holder module succeed.

use bls12_381_bls::{PublicKey, SecretKey};
use dusk_bytes::Serializable;
use rand::rngs::StdRng;
use rand::SeedableRng;

use ttoken::state::{TokenError, TokenState};
use ttoken::{Account, AccountInfo, Allowance, Approve, Transfer, TransferFrom, TransferFromContract};

const HOLDER_ID: [u8; 32] = [2; 32];

const INITIAL_BALANCE: u64 = 1000;
const INITIAL_HOLDER_BALANCE: u64 = 1000;

fn pk_bytes(sk: &SecretKey) -> Vec<u8> {
    PublicKey::from(sk).to_bytes().to_vec()
}

fn secret_key(seed: u64) -> SecretKey {
    let mut rng = StdRng::seed_from_u64(seed);
    SecretKey::random(&mut rng)
}

/// Deploys the token: genesis gives the deploying key and the holder module
/// their initial balances.
fn new_session() -> (SecretKey, Vec<u8>, TokenState) {
    let deploy_sk = secret_key(0xF0CACC1A);
    let deploy_pk = pk_bytes(&deploy_sk);

    let mut state = TokenState::new();
    state.init(vec![
        (Account::External(deploy_pk.clone()), INITIAL_BALANCE),
        (Account::Contract(HOLDER_ID.to_vec()), INITIAL_HOLDER_BALANCE),
    ]);

    (deploy_sk, deploy_pk, state)
}

fn account_of(state: &TokenState, account: Account) -> AccountInfo {
    state.account(&account)
}

fn allowance_of(state: &TokenState, owner: Account, spender: Account) -> u64 {
    state.allowance(&Allowance { owner, spender })
}

/// Runs a self-transfer as the host would: snapshot, operation, and — when
/// the recipient is a module — the acceptance callback, which the holder
/// module answers with success.
fn call_transfer(state: &mut TokenState, transfer: &Transfer) -> Result<(), TokenError> {
    let snapshot = state.snapshot();
    let effect = state.transfer(transfer)?;
    if effect.acceptance.is_some() {
        state.settle_acceptance(snapshot, true)?;
    }
    Ok(())
}

fn call_transfer_from(state: &mut TokenState, transfer: &TransferFrom) -> Result<(), TokenError> {
    let snapshot = state.snapshot();
    let effect = state.transfer_from(transfer)?;
    if effect.acceptance.is_some() {
        state.settle_acceptance(snapshot, true)?;
    }
    Ok(())
}

fn call_transfer_from_contract(
    state: &mut TokenState,
    caller: &Vec<u8>,
    transfer: &TransferFromContract,
) -> Result<(), TokenError> {
    let snapshot = state.snapshot();
    let effect = state.transfer_from_contract(caller, transfer)?;
    if effect.acceptance.is_some() {
        state.settle_acceptance(snapshot, true)?;
    }
    Ok(())
}

#[test]
fn deploy() {
    new_session();
}

#[test]
fn empty_account() {
    let (_deploy_sk, _deploy_pk, state) = new_session();

    let sk = secret_key(0xBEEF);
    let pk = pk_bytes(&sk);

    let account = account_of(&state, Account::External(pk));
    assert_eq!(
        account,
        AccountInfo::empty(),
        "An account never transferred to should be empty"
    );
}

#[test]
fn transfer() {
    const TRANSFERRED_AMOUNT: u64 = INITIAL_BALANCE / 2;

    let (deploy_sk, deploy_pk, mut state) = new_session();

    let sk = secret_key(0xBEEF);
    let pk = pk_bytes(&sk);

    assert_eq!(
        account_of(&state, Account::External(deploy_pk.clone())).balance,
        INITIAL_BALANCE,
        "The deployed account should have the initial balance"
    );
    assert_eq!(
        account_of(&state, Account::External(pk.clone())).balance,
        0,
        "The account to transfer to should have no balance"
    );

    let transfer = Transfer::new(
        &deploy_sk,
        Account::External(pk.clone()),
        TRANSFERRED_AMOUNT,
        1,
    );
    call_transfer(&mut state, &transfer).expect("Transferring should succeed");

    assert_eq!(
        account_of(&state, Account::External(deploy_pk)).balance,
        INITIAL_BALANCE - TRANSFERRED_AMOUNT,
        "The deployed account should have the transferred amount subtracted"
    );
    assert_eq!(
        account_of(&state, Account::External(pk)).balance,
        TRANSFERRED_AMOUNT,
        "The account transferred to should have the transferred amount"
    );
}

#[test]
fn transfer_to_contract() {
    const TRANSFERRED_AMOUNT: u64 = INITIAL_BALANCE / 2;

    let (deploy_sk, deploy_pk, mut state) = new_session();

    assert_eq!(
        account_of(&state, Account::External(deploy_pk.clone())).balance,
        INITIAL_BALANCE,
        "The deployed account should have the initial balance"
    );
    assert_eq!(
        account_of(&state, Account::Contract(HOLDER_ID.to_vec())).balance,
        INITIAL_HOLDER_BALANCE,
        "The contract to transfer to should have its initial balance"
    );

    let transfer = Transfer::new(
        &deploy_sk,
        Account::Contract(HOLDER_ID.to_vec()),
        TRANSFERRED_AMOUNT,
        1,
    );
    call_transfer(&mut state, &transfer).expect("Transferring should succeed");

    assert_eq!(
        account_of(&state, Account::External(deploy_pk)).balance,
        INITIAL_BALANCE - TRANSFERRED_AMOUNT,
        "The deployed account should have the transferred amount subtracted"
    );
    assert_eq!(
        account_of(&state, Account::Contract(HOLDER_ID.to_vec())).balance,
        INITIAL_HOLDER_BALANCE + TRANSFERRED_AMOUNT,
        "The contract transferred to should have the transferred amount added"
    );
}

#[test]
fn transfer_from_contract() {
    const TRANSFERRED_AMOUNT: u64 = INITIAL_BALANCE / 2;

    let (_deploy_sk, deploy_pk, mut state) = new_session();

    assert_eq!(
        account_of(&state, Account::External(deploy_pk.clone())).balance,
        INITIAL_BALANCE,
        "The deployed account should have the initial balance"
    );
    assert_eq!(
        account_of(&state, Account::Contract(HOLDER_ID.to_vec())).balance,
        INITIAL_HOLDER_BALANCE,
        "The contract to transfer to should have its initial balance"
    );

    let transfer = TransferFromContract {
        to: Account::External(deploy_pk.clone()),
        value: TRANSFERRED_AMOUNT,
    };
    call_transfer_from_contract(&mut state, &HOLDER_ID.to_vec(), &transfer)
        .expect("Transferring should succeed");

    assert_eq!(
        account_of(&state, Account::External(deploy_pk)).balance,
        INITIAL_BALANCE + TRANSFERRED_AMOUNT,
        "The deployed account should have the transferred amount added"
    );
    assert_eq!(
        account_of(&state, Account::Contract(HOLDER_ID.to_vec())).balance,
        INITIAL_HOLDER_BALANCE - TRANSFERRED_AMOUNT,
        "The contract transferred to should have the transferred amount subtracted"
    );
}

#[test]
fn approve() {
    const APPROVED_AMOUNT: u64 = INITIAL_BALANCE / 2;

    let (deploy_sk, deploy_pk, mut state) = new_session();

    let sk = secret_key(0xBEEF);
    let pk = pk_bytes(&sk);

    assert_eq!(
        allowance_of(
            &state,
            Account::External(deploy_pk.clone()),
            Account::External(pk.clone()),
        ),
        0,
        "The account should not be allowed to spend tokens from the deployed account"
    );

    let approve = Approve::new(&deploy_sk, Account::External(pk.clone()), APPROVED_AMOUNT, 1);
    state.approve(&approve).expect("Approving should succeed");

    assert_eq!(
        allowance_of(&state, Account::External(deploy_pk), Account::External(pk)),
        APPROVED_AMOUNT,
        "The account should be allowed to spend tokens from the deployed account"
    );
}

#[test]
fn transfer_from() {
    const APPROVED_AMOUNT: u64 = INITIAL_BALANCE / 2;
    const TRANSFERRED_AMOUNT: u64 = APPROVED_AMOUNT / 2;

    let (deploy_sk, deploy_pk, mut state) = new_session();

    let sk = secret_key(0xBEEF);
    let pk = pk_bytes(&sk);

    assert_eq!(
        account_of(&state, Account::External(deploy_pk.clone())).balance,
        INITIAL_BALANCE,
        "The deployed account should have the initial balance"
    );
    assert_eq!(
        account_of(&state, Account::External(pk.clone())).balance,
        0,
        "The account to transfer to should have no balance"
    );
    assert_eq!(
        allowance_of(
            &state,
            Account::External(deploy_pk.clone()),
            Account::External(pk.clone()),
        ),
        0,
        "The account should not be allowed to spend tokens from the deployed account"
    );

    let approve = Approve::new(&deploy_sk, Account::External(pk.clone()), APPROVED_AMOUNT, 1);
    state.approve(&approve).expect("Approving should succeed");

    assert_eq!(
        allowance_of(
            &state,
            Account::External(deploy_pk.clone()),
            Account::External(pk.clone()),
        ),
        APPROVED_AMOUNT,
        "The account should be allowed to spend tokens from the deployed account"
    );

    let transfer_from = TransferFrom::new(
        &sk,
        Account::External(deploy_pk.clone()),
        Account::External(pk.clone()),
        TRANSFERRED_AMOUNT,
        1,
    );
    call_transfer_from(&mut state, &transfer_from).expect("Transferring from should succeed");

    assert_eq!(
        account_of(&state, Account::External(deploy_pk.clone())).balance,
        INITIAL_BALANCE - TRANSFERRED_AMOUNT,
        "The deployed account should have the transferred amount subtracted"
    );
    assert_eq!(
        account_of(&state, Account::External(pk.clone())).balance,
        TRANSFERRED_AMOUNT,
        "The account transferred to should have the transferred amount"
    );
    assert_eq!(
        allowance_of(&state, Account::External(deploy_pk), Account::External(pk)),
        APPROVED_AMOUNT - TRANSFERRED_AMOUNT,
        "The account should have the transferred amount subtracted from its allowance"
    );
}
