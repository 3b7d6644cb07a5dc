//! Signing keys, whom they stand for and what they sign.

use vstd::prelude::*;
use ckb_crypto::secp::Privkey;
use ckb_types::H256;
use crate::cell::{same_bytes, Script, ScriptModel};
use crate::hash::Hash256;

verus! {

/// The error of `ckb_crypto::secp`, which is not looked into.
#[verifier::external_type_specification]
#[verifier::external_body]
pub struct ExSecpError(ckb_crypto::secp::Error);

/// The public key of a secret, in its compressed form; nothing for a secret
/// that is no key of the curve.
pub uninterp spec fn secp_public_key(secret: Seq<u8>) -> Option<Seq<u8>>;

/// The recoverable signature that a secret gives a message of 32 bytes;
/// nothing for a secret that is no key of the curve.
pub uninterp spec fn secp_signature(secret: Seq<u8>, message: Seq<u8>) -> Option<Seq<u8>>;

/// The first 20 bytes of the ledger's digest of `data`.
pub uninterp spec fn blake160(data: Seq<u8>) -> Seq<u8>;

/// `Privkey::pubkey` and `Pubkey::serialize` of `ckb_crypto::secp`: the
/// public key of `secret`, which depends on the secret alone.
#[verifier::external_body]
fn public_key(secret: &[u8; 32]) -> (r: Result<Vec<u8>, ckb_crypto::secp::Error>)
    ensures
        match r {
            Ok(key) => secp_public_key(secret@) == Some(key@),
            Err(_) => secp_public_key(secret@) is None,
        },
{
    match Privkey::from(H256(*secret)).pubkey() {
        Ok(key) => Ok(key.serialize()),
        Err(e) => Err(e),
    }
}

/// `Privkey::sign_recoverable` and `Signature::serialize` of
/// `ckb_crypto::secp`: the signature of `message`, which depends on the
/// secret and the message alone and is 65 bytes long. Signing fails on the
/// same secrets as `Privkey::pubkey`: those that are no key of the curve.
#[verifier::external_body]
fn signature(secret: &[u8; 32], message: &[u8; 32]) -> (r: Result<
    Vec<u8>,
    ckb_crypto::secp::Error,
>)
    ensures
        match r {
            Ok(bytes) => secp_signature(secret@, message@) == Some(bytes@) && bytes@.len() == 65,
            Err(_) => secp_signature(secret@, message@) is None,
        },
        r is Ok <==> secp_public_key(secret@) is Some,
{
    match Privkey::from(H256(*secret)).sign_recoverable(&H256(*message)) {
        Ok(signature) => Ok(signature.serialize()),
        Err(e) => Err(e),
    }
}

/// `ckb_sdk::util::blake160`: the first 20 bytes of the digest of `data`.
#[verifier::external_body]
fn digest_160(data: &Vec<u8>) -> (r: Vec<u8>)
    ensures
        r@ == blake160(data@),
        r@.len() == 20,
{
    ckb_sdk::util::blake160(data).0.to_vec()
}

/// Whom a secret stands for: the first 20 bytes of the digest of its public
/// key.
pub open spec fn key_identity(secret: Seq<u8>) -> Option<Seq<u8>> {
    match secp_public_key(secret) {
        Some(public) => Some(blake160(public)),
        None => None,
    }
}

/// What a `Key` stands for.
pub struct KeyModel {
    pub secret: Seq<u8>,
    pub identity: Seq<u8>,
}

/// Whether the identity of a key is that of its secret.
pub open spec fn genuine(key: KeyModel) -> bool {
    key_identity(key.secret) == Some(key.identity)
}

/// Whether `key` may unlock what `lock` guards: the lock's argument names
/// the key.
pub open spec fn unlocks(key: KeyModel, lock: ScriptModel) -> bool {
    lock.args == key.identity
}

/// What `key` signs `message` with.
pub open spec fn proof_of(key: KeyModel, message: Seq<u8>) -> Seq<u8> {
    match secp_signature(key.secret, message) {
        Some(bytes) => bytes,
        None => Seq::empty(),
    }
}

/// A secret of the curve, together with whom it stands for.
pub struct Key {
    secret: [u8; 32],
    identity: Vec<u8>,
}

impl View for Key {
    type V = KeyModel;

    closed spec fn view(&self) -> KeyModel {
        KeyModel { secret: self.secret@, identity: self.identity@ }
    }
}

impl Key {
    /// The identity is that of the secret.
    #[verifier::type_invariant]
    pub open spec fn identity_of_secret(self) -> bool {
        genuine(self@)
    }

    /// The key of `secret`, if it is a key of the curve.
    pub fn new(secret: [u8; 32]) -> (r: Option<Key>)
        ensures
            r is Some <==> key_identity(secret@) is Some,
            r matches Some(key) ==> key@.secret == secret@ && genuine(key@),
    {
        match public_key(&secret) {
            Err(_) => None,
            Ok(public) => Some(Key { secret, identity: digest_160(&public) }),
        }
    }

    /// Whom this key stands for, in 20 bytes.
    pub fn identity(&self) -> (identity: &Vec<u8>)
        ensures
            identity@ == self@.identity,
            genuine(self@),
    {
        proof {
            use_type_invariant(self);
        }
        &self.identity
    }

    /// Whether this key may unlock what `lock` guards.
    pub fn unlocks(&self, lock: &Script) -> (r: bool)
        ensures
            r == unlocks(self@, lock@),
    {
        same_bytes(&lock.args, &self.identity)
    }

    /// Signs `message`. The signature is 65 bytes long.
    pub fn sign(&self, message: &Hash256) -> (proof_bytes: Vec<u8>)
        ensures
            proof_bytes@ == proof_of(self@, message@),
            proof_bytes@.len() == 65,
    {
        proof {
            use_type_invariant(self);
        }
        match signature(&self.secret, &message.bytes) {
            Ok(bytes) => bytes,
            // A key of the curve never fails to sign.
            Err(_) => Vec::new(),
        }
    }

    /// A copy of this key.
    pub fn copy(&self) -> (copy: Key)
        ensures
            copy@ == self@,
    {
        proof {
            use_type_invariant(self);
        }
        Key { secret: self.secret, identity: crate::cell::copy_bytes(&self.identity) }
    }
}

} // verus!
