//! The self-describing requests the ledger operations consume, and the
//! events they emit.
//!
//! Each authenticated request carries a signature over its canonical
//! fixed-width byte encoding (every field except the signature itself,
//! concatenated without delimiters, integers in little-endian order). The
//! encodings are defined here both as specification functions and as the
//! executable functions that produce them.

use vstd::prelude::*;
use vstd::bytes::{spec_u64_to_le_bytes, u64_to_le_bytes};

use crate::bls::{bls_public_key_bytes, bls_sign};
use crate::identity::{
    append_bytes, bytes_dup, id_wf, spec_account_bytes, Account, PK_BYTES, SIG_BYTES,
};

verus! {

/// Arguments to query how much of an allowance a spender has on an owner's
/// account.
#[derive(Debug, Clone)]
pub struct Allowance {
    /// The account that owns the tokens.
    pub owner: Account,
    /// The account allowed to spend the owner's tokens.
    pub spender: Account,
}

impl Allowance {
    /// Both identities carry bytes of their class's fixed width.
    pub open spec fn wf(self) -> bool {
        id_wf(self.owner@) && id_wf(self.spender@)
    }
}

/// Data used to transfer tokens from one account to another.
#[derive(Debug, Clone)]
pub struct Transfer {
    /// The public key of the account to transfer from.
    pub from: Vec<u8>,
    /// The account to transfer to.
    pub to: Account,
    /// The value to transfer.
    pub value: u64,
    /// The nonce used to sign the transfer.
    pub nonce: u64,
    /// The signature over the canonical encoding of the other fields.
    pub signature: Vec<u8>,
}

impl Transfer {
    /// The sender key and the recipient identity carry bytes of their fixed
    /// widths.
    pub open spec fn wf(self) -> bool {
        self.from@.len() == PK_BYTES && id_wf(self.to@)
    }

    /// The canonical encoding signed over: sender key, recipient identity,
    /// value and nonce, in that order.
    pub open spec fn spec_signature_message(self) -> Seq<u8> {
        self.from@ + spec_account_bytes(self.to@) + spec_u64_to_le_bytes(self.value)
            + spec_u64_to_le_bytes(self.nonce)
    }

    /// Create a new transfer, signed with the sender's key.
    pub fn new(from_sk: &bls12_381_bls::SecretKey, to: Account, value: u64, nonce: u64) -> (r:
        Transfer)
        requires
            id_wf(to@),
        ensures
            r.wf(),
            r.to@ == to@,
            r.value == value,
            r.nonce == nonce,
            r.signature@.len() == SIG_BYTES,
    {
        let from = bls_public_key_bytes(from_sk);
        let mut transfer = Transfer { from, to, value, nonce, signature: Vec::new() };
        let msg = transfer.signature_message();
        transfer.signature = bls_sign(from_sk, &msg);
        transfer
    }

    /// The public key of the account to transfer from.
    pub fn from(&self) -> (r: &Vec<u8>)
        ensures
            r@ == self.from@,
    {
        &self.from
    }

    /// The account to transfer to.
    pub fn to(&self) -> (r: &Account)
        ensures
            r@ == self.to@,
    {
        &self.to
    }

    /// The value to transfer.
    pub fn value(&self) -> (r: u64)
        ensures
            r == self.value,
    {
        self.value
    }

    /// The nonce used to sign the transfer.
    pub fn nonce(&self) -> (r: u64)
        ensures
            r == self.nonce,
    {
        self.nonce
    }

    /// The signature used for the transfer.
    pub fn signature(&self) -> (r: &Vec<u8>)
        ensures
            r@ == self.signature@,
    {
        &self.signature
    }

    /// The message to be signed over.
    pub fn signature_message(&self) -> (r: Vec<u8>)
        requires
            self.wf(),
        ensures
            r@ == self.spec_signature_message(),
    {
        let mut msg = bytes_dup(&self.from);
        let to_bytes = self.to.to_bytes();
        append_bytes(&mut msg, &to_bytes);
        let value_bytes = u64_to_le_bytes(self.value);
        append_bytes(&mut msg, &value_bytes);
        let nonce_bytes = u64_to_le_bytes(self.nonce);
        append_bytes(&mut msg, &nonce_bytes);
        proof {
            assert(msg@ =~= self.spec_signature_message());
        }
        msg
    }
}

/// Data used to transfer tokens from an owner to a recipient, by an allowed
/// spender.
#[derive(Debug, Clone)]
pub struct TransferFrom {
    /// The public key of the account spending the tokens.
    pub spender: Vec<u8>,
    /// The account that owns the tokens being transferred.
    pub owner: Account,
    /// The account to transfer to.
    pub to: Account,
    /// The value to transfer.
    pub value: u64,
    /// The nonce used to sign the transfer.
    pub nonce: u64,
    /// The signature over the canonical encoding of the other fields.
    pub signature: Vec<u8>,
}

impl TransferFrom {
    /// The spender key and both identities carry bytes of their fixed
    /// widths.
    pub open spec fn wf(self) -> bool {
        self.spender@.len() == PK_BYTES && id_wf(self.owner@) && id_wf(self.to@)
    }

    /// The canonical encoding signed over: spender key, owner identity,
    /// recipient identity, value and nonce, in that order.
    pub open spec fn spec_signature_message(self) -> Seq<u8> {
        self.spender@ + spec_account_bytes(self.owner@) + spec_account_bytes(self.to@)
            + spec_u64_to_le_bytes(self.value) + spec_u64_to_le_bytes(self.nonce)
    }

    /// Create a new delegated transfer, spending tokens from the owner,
    /// signed with the spender's key.
    pub fn new(
        spender_sk: &bls12_381_bls::SecretKey,
        owner: Account,
        to: Account,
        value: u64,
        nonce: u64,
    ) -> (r: TransferFrom)
        requires
            id_wf(owner@),
            id_wf(to@),
        ensures
            r.wf(),
            r.owner@ == owner@,
            r.to@ == to@,
            r.value == value,
            r.nonce == nonce,
            r.signature@.len() == SIG_BYTES,
    {
        let spender = bls_public_key_bytes(spender_sk);
        let mut transfer_from = TransferFrom {
            spender,
            owner,
            to,
            value,
            nonce,
            signature: Vec::new(),
        };
        let msg = transfer_from.signature_message();
        transfer_from.signature = bls_sign(spender_sk, &msg);
        transfer_from
    }

    /// The public key of the account spending the tokens.
    pub fn spender(&self) -> (r: &Vec<u8>)
        ensures
            r@ == self.spender@,
    {
        &self.spender
    }

    /// The account that owns the tokens being transferred.
    pub fn owner(&self) -> (r: &Account)
        ensures
            r@ == self.owner@,
    {
        &self.owner
    }

    /// The account to transfer to.
    pub fn to(&self) -> (r: &Account)
        ensures
            r@ == self.to@,
    {
        &self.to
    }

    /// The value to transfer.
    pub fn value(&self) -> (r: u64)
        ensures
            r == self.value,
    {
        self.value
    }

    /// The nonce used to sign the transfer.
    pub fn nonce(&self) -> (r: u64)
        ensures
            r == self.nonce,
    {
        self.nonce
    }

    /// The signature used for the transfer.
    pub fn signature(&self) -> (r: &Vec<u8>)
        ensures
            r@ == self.signature@,
    {
        &self.signature
    }

    /// The message to be signed over.
    pub fn signature_message(&self) -> (r: Vec<u8>)
        requires
            self.wf(),
        ensures
            r@ == self.spec_signature_message(),
    {
        let mut msg = bytes_dup(&self.spender);
        let owner_bytes = self.owner.to_bytes();
        append_bytes(&mut msg, &owner_bytes);
        let to_bytes = self.to.to_bytes();
        append_bytes(&mut msg, &to_bytes);
        let value_bytes = u64_to_le_bytes(self.value);
        append_bytes(&mut msg, &value_bytes);
        let nonce_bytes = u64_to_le_bytes(self.nonce);
        append_bytes(&mut msg, &nonce_bytes);
        proof {
            assert(msg@ =~= self.spec_signature_message());
        }
        msg
    }
}

/// Data used to approve spending tokens from a user's account.
#[derive(Debug, Clone)]
pub struct Approve {
    /// The public key of the account allowing the spending.
    pub owner: Vec<u8>,
    /// The account allowed to spend.
    pub spender: Account,
    /// The value approved to be spent.
    pub value: u64,
    /// The nonce used to sign the approval.
    pub nonce: u64,
    /// The signature over the canonical encoding of the other fields.
    pub signature: Vec<u8>,
}

impl Approve {
    /// The owner key and the spender identity carry bytes of their fixed
    /// widths.
    pub open spec fn wf(self) -> bool {
        self.owner@.len() == PK_BYTES && id_wf(self.spender@)
    }

    /// The canonical encoding signed over: owner key, spender identity,
    /// value and nonce, in that order.
    pub open spec fn spec_signature_message(self) -> Seq<u8> {
        self.owner@ + spec_account_bytes(self.spender@) + spec_u64_to_le_bytes(self.value)
            + spec_u64_to_le_bytes(self.nonce)
    }

    /// Create a new approval, signed with the owner's key.
    pub fn new(owner_sk: &bls12_381_bls::SecretKey, spender: Account, value: u64, nonce: u64) -> (r:
        Approve)
        requires
            id_wf(spender@),
        ensures
            r.wf(),
            r.spender@ == spender@,
            r.value == value,
            r.nonce == nonce,
            r.signature@.len() == SIG_BYTES,
    {
        let owner = bls_public_key_bytes(owner_sk);
        let mut approve = Approve { owner, spender, value, nonce, signature: Vec::new() };
        let msg = approve.signature_message();
        approve.signature = bls_sign(owner_sk, &msg);
        approve
    }

    /// The public key of the account allowing the spending.
    pub fn owner(&self) -> (r: &Vec<u8>)
        ensures
            r@ == self.owner@,
    {
        &self.owner
    }

    /// The account allowed to spend.
    pub fn spender(&self) -> (r: &Account)
        ensures
            r@ == self.spender@,
    {
        &self.spender
    }

    /// The value approved to be spent.
    pub fn value(&self) -> (r: u64)
        ensures
            r == self.value,
    {
        self.value
    }

    /// The nonce used to sign the approval.
    pub fn nonce(&self) -> (r: u64)
        ensures
            r == self.nonce,
    {
        self.nonce
    }

    /// The signature used for the approval.
    pub fn signature(&self) -> (r: &Vec<u8>)
        ensures
            r@ == self.signature@,
    {
        &self.signature
    }

    /// The message to be signed over.
    pub fn signature_message(&self) -> (r: Vec<u8>)
        requires
            self.wf(),
        ensures
            r@ == self.spec_signature_message(),
    {
        let mut msg = bytes_dup(&self.owner);
        let spender_bytes = self.spender.to_bytes();
        append_bytes(&mut msg, &spender_bytes);
        let value_bytes = u64_to_le_bytes(self.value);
        append_bytes(&mut msg, &value_bytes);
        let nonce_bytes = u64_to_le_bytes(self.nonce);
        append_bytes(&mut msg, &nonce_bytes);
        proof {
            assert(msg@ =~= self.spec_signature_message());
        }
        msg
    }
}

/// Data used to transfer tokens out of the calling module's account. The
/// sender is the caller as attested by the host, never a field of the
/// request.
#[derive(Debug, Clone)]
pub struct TransferFromContract {
    /// The account to transfer to.
    pub to: Account,
    /// The value to transfer.
    pub value: u64,
}

/// The payload handed to a recipient module's acceptance entry point.
#[derive(Debug, Clone)]
pub struct TransferInfo {
    /// The account the tokens came from.
    pub from: Account,
    /// The value transferred.
    pub value: u64,
}

/// Event emitted when tokens are transferred from one account to another.
#[derive(Debug, Clone)]
pub struct TransferEvent {
    /// The account tokens are transferred from.
    pub owner: Account,
    /// The account spending the tokens, set for delegated transfers.
    pub spender: Option<Account>,
    /// The account receiving the tokens.
    pub to: Account,
    /// The value transferred.
    pub value: u64,
}

/// Event emitted when a spender is approved on an account.
#[derive(Debug, Clone)]
pub struct ApproveEvent {
    /// The account allowing the spending.
    pub owner: Account,
    /// The allowed spender.
    pub spender: Account,
    /// The value the spender is allowed to spend.
    pub value: u64,
}

} // verus!
