//! Messages signed under an EIP-712 domain.
//!
//! The typed-data encoding of a message is computed here and proved against
//! its definition. Keccak-256, the hash of the domain, signing and signer
//! recovery are calls into other crates: each stands behind one private
//! function that names what the call returns.

use vstd::prelude::*;
use vstd::bytes::{spec_u128_to_le_bytes, spec_u64_to_le_bytes, u128_to_le_bytes, u64_to_le_bytes};
use crate::address::Address;
use crate::error::Error;

verus! {

/// The Keccak-256 digest of `data`: what `alloy_primitives::keccak256`
/// returns for it.
pub uninterp spec fn keccak256_digest(data: Seq<u8>) -> Seq<u8>;

/// The EIP-712 separator of the domain with the given name, version, chain
/// and verifying contract: what `alloy_sol_types::Eip712Domain::separator`
/// returns for it.
pub uninterp spec fn eip712_domain_separator(
    name: Seq<char>,
    version: Seq<char>,
    chain_id: u64,
    verifying_contract: Seq<u8>,
) -> Seq<u8>;

/// The address whose key made the signature `(r, s, v)` over `prehash`, if
/// there is one: what `ethers_core::types::Signature::recover` returns.
pub uninterp spec fn ecdsa_recovered_address(
    prehash: Seq<u8>,
    r: Seq<u8>,
    s: Seq<u8>,
    v: u64,
) -> Option<Seq<u8>>;

/// The signature `(r, s, v)` of the key `key` over `prehash`, if the key can
/// sign: what `ethers_signers::Wallet::sign_hash` returns for the wallet of
/// that key.
pub uninterp spec fn ecdsa_signature(key: Seq<u8>, prehash: Seq<u8>) -> Option<
    (Seq<u8>, Seq<u8>, u64),
>;

/// The error of `ethers_core::types::Signature::recover`.
#[verifier::external_type_specification]
#[verifier::external_body]
pub struct ExSignatureError(ethers_core::types::SignatureError);

/// The error of `ethers_signers::Wallet::sign_hash`.
#[verifier::external_type_specification]
#[verifier::external_body]
pub struct ExWalletError(ethers_signers::WalletError);

/// An EIP-712 signing domain: it keeps signatures made for one protocol,
/// chain and contract from being replayed in another.
#[derive(Clone, Debug, PartialEq, Eq)]
pub struct Eip712Domain {
    pub name: String,
    pub version: String,
    pub chain_id: u64,
    pub verifying_contract: Address,
}

/// A secp256k1 signature in "Electrum" notation: `r` and `s` big-endian.
#[derive(Clone, Copy, Debug, PartialEq, Eq, Hash)]
pub struct Signature {
    pub r: [u8; 32],
    pub s: [u8; 32],
    pub v: u64,
}

/// A secp256k1 private key, as its big-endian scalar.
#[derive(Clone, Copy, PartialEq, Eq)]
pub struct SigningKey {
    pub bytes: [u8; 32],
}

impl View for SigningKey {
    type V = Seq<u8>;

    open spec fn view(&self) -> Seq<u8> {
        self.bytes@
    }
}

impl SigningKey {
    /// The key with the given scalar.
    pub fn new(bytes: [u8; 32]) -> (k: SigningKey)
        ensures
            k@ == bytes@,
    {
        SigningKey { bytes }
    }
}

/// Calls `alloy_primitives::keccak256` on `data`. The contract names the
/// digest and, through the result's type, says that it has 32 bytes.
#[verifier::external_body]
fn keccak256(data: &[u8]) -> (h: [u8; 32])
    ensures
        h@ == keccak256_digest(data@),
{
    alloy_primitives::keccak256(data).0
}

/// Builds the `alloy_sol_types::Eip712Domain` with the fields of `domain` and
/// no salt, and calls its `separator`. The contract names the result.
#[verifier::external_body]
fn domain_separator(domain: &Eip712Domain) -> (h: [u8; 32])
    ensures
        h@ == eip712_domain_separator(
            domain.name@,
            domain.version@,
            domain.chain_id,
            domain.verifying_contract@,
        ),
{
    alloy_sol_types::Eip712Domain::new(
        Some(std::borrow::Cow::Owned(domain.name.clone())),
        Some(std::borrow::Cow::Owned(domain.version.clone())),
        Some(alloy_primitives::U256::from(domain.chain_id)),
        Some(alloy_primitives::Address::from(domain.verifying_contract.bytes)),
        None,
    ).separator().0
}

/// Calls `ethers_core::types::Signature::recover` on `prehash` taken as a
/// hash. The contract names the recovered address, and says that the call
/// fails exactly when there is none.
#[verifier::external_body]
fn ecdsa_recover(prehash: &[u8; 32], signature: &Signature) -> (res: Result<
    Address,
    ethers_core::types::SignatureError,
>)
    ensures
        match res {
            Ok(a) => ecdsa_recovered_address(prehash@, signature.r@, signature.s@, signature.v)
                == Some(a@),
            Err(_) => ecdsa_recovered_address(prehash@, signature.r@, signature.s@, signature.v)
                is None,
        },
{
    let outside = ethers_core::types::Signature {
        r: ethers_core::types::U256::from_big_endian(&signature.r),
        s: ethers_core::types::U256::from_big_endian(&signature.s),
        v: signature.v,
    };
    match outside.recover(ethers_core::types::H256(*prehash)) {
        Ok(a) => Ok(Address { bytes: a.0 }),
        Err(e) => Err(e),
    }
}

/// Makes the `ethers_signers::LocalWallet` of `key` and calls its `sign_hash`
/// on `prehash`. Signing is deterministic (RFC 6979): the contract names the
/// signature, and says that the call fails exactly when there is none.
#[verifier::external_body]
fn ecdsa_sign(key: &SigningKey, prehash: &[u8; 32]) -> (res: Result<
    Signature,
    ethers_signers::WalletError,
>)
    ensures
        match res {
            Ok(sig) => ecdsa_signature(key@, prehash@) == Some((sig.r@, sig.s@, sig.v)),
            Err(_) => ecdsa_signature(key@, prehash@) is None,
        },
{
    let wallet = ethers_signers::LocalWallet::from_bytes(&key.bytes)?;
    let outside = wallet.sign_hash(ethers_core::types::H256(*prehash))?;
    let mut sig = Signature { r: [0u8; 32], s: [0u8; 32], v: outside.v };
    outside.r.to_big_endian(&mut sig.r);
    outside.s.to_big_endian(&mut sig.s);
    Ok(sig)
}

/// `n` zero bytes.
pub open spec fn zeros(n: nat) -> Seq<u8> {
    Seq::new(n, |i: int| 0u8)
}

/// The 32-byte big-endian word that holds `x`.
pub open spec fn word_of_u64(x: u64) -> Seq<u8> {
    zeros(24) + spec_u64_to_le_bytes(x).reverse()
}

/// The 32-byte big-endian word that holds `x`.
pub open spec fn word_of_u128(x: u128) -> Seq<u8> {
    zeros(16) + spec_u128_to_le_bytes(x).reverse()
}

/// The 32-byte word that holds an address: twelve zero bytes, then its bytes.
pub open spec fn word_of_address(a: Address) -> Seq<u8> {
    zeros(12) + a@
}

/// Appends `bytes` to `out`.
pub fn push_bytes(out: &mut Vec<u8>, bytes: &[u8])
    ensures
        final(out)@ == old(out)@ + bytes@,
{
    let mut i: usize = 0;
    while i < bytes.len()
        invariant
            0 <= i <= bytes@.len(),
            out@ == old(out)@ + bytes@.take(i as int),
        decreases bytes@.len() - i,
    {
        out.push(bytes[i]);
        i += 1;
        assert(bytes@.take(i as int) == bytes@.take(i - 1).push(bytes@[i - 1]));
    }
    assert(bytes@.take(i as int) == bytes@);
}

/// Appends `n` zero bytes to `out`.
pub fn push_zeros(out: &mut Vec<u8>, n: usize)
    ensures
        final(out)@ == old(out)@ + zeros(n as nat),
{
    let mut i: usize = 0;
    while i < n
        invariant
            0 <= i <= n,
            out@ == old(out)@ + zeros(i as nat),
        decreases n - i,
    {
        out.push(0u8);
        i += 1;
        assert(zeros(i as nat) == zeros((i - 1) as nat).push(0u8));
    }
}

/// Appends the bytes of `bytes` to `out`, last byte first.
pub fn push_reversed(out: &mut Vec<u8>, bytes: &[u8])
    ensures
        final(out)@ == old(out)@ + bytes@.reverse(),
{
    let n = bytes.len();
    let mut i: usize = 0;
    while i < n
        invariant
            0 <= i <= n,
            n == bytes@.len(),
            out@ == old(out)@ + bytes@.reverse().take(i as int),
        decreases n - i,
    {
        out.push(bytes[n - 1 - i]);
        i += 1;
        assert(bytes@.reverse().take(i as int) == bytes@.reverse().take(i - 1).push(
            bytes@[n - i],
        ));
    }
    assert(bytes@.reverse().take(i as int) == bytes@.reverse());
}

/// Appends the word of `x` to `out`.
pub fn push_word_u64(out: &mut Vec<u8>, x: u64)
    ensures
        final(out)@ == old(out)@ + word_of_u64(x),
{
    push_zeros(out, 24);
    let le = u64_to_le_bytes(x);
    push_reversed(out, le.as_slice());
    assert(out@ == old(out)@ + word_of_u64(x));
}

/// Appends the word of `x` to `out`.
pub fn push_word_u128(out: &mut Vec<u8>, x: u128)
    ensures
        final(out)@ == old(out)@ + word_of_u128(x),
{
    push_zeros(out, 16);
    let le = u128_to_le_bytes(x);
    push_reversed(out, le.as_slice());
    assert(out@ == old(out)@ + word_of_u128(x));
}

/// Appends the word of `a` to `out`.
pub fn push_word_address(out: &mut Vec<u8>, a: &Address)
    ensures
        final(out)@ == old(out)@ + word_of_address(*a),
{
    push_zeros(out, 12);
    push_bytes(out, a.bytes.as_slice());
    assert(out@ == old(out)@ + word_of_address(*a));
}

/// A struct that can be signed as EIP-712 typed data.
pub trait Eip712Message: Sized {
    /// The bytes of the struct's EIP-712 type string (`encodeType`).
    spec fn type_signature() -> Seq<u8>;

    /// The struct's fields as EIP-712 words (`encodeData`).
    spec fn encoded_data(&self) -> Seq<u8>;

    /// The bytes of the struct's EIP-712 type string.
    fn eip712_encode_type() -> (t: Vec<u8>)
        ensures
            t@ == Self::type_signature(),
    ;

    /// The struct's fields as EIP-712 words.
    fn eip712_encode_data(&self) -> (d: Vec<u8>)
        ensures
            d@ == self.encoded_data(),
    ;
}

/// The EIP-712 `hashStruct` of a message: the digest of its type hash
/// followed by its encoded fields.
pub open spec fn struct_hash<M: Eip712Message>(message: M) -> Seq<u8> {
    keccak256_digest(keccak256_digest(M::type_signature()) + message.encoded_data())
}

/// The digest that is signed for `message` under `domain`: that of the bytes
/// `0x19 0x01`, the domain's separator and the message's `hashStruct`.
pub open spec fn signing_hash<M: Eip712Message>(domain: Eip712Domain, message: M) -> Seq<u8> {
    keccak256_digest(seq![0x19u8, 0x01u8] + domain.separator_spec() + struct_hash(message))
}

impl Eip712Domain {
    /// The separator of this domain.
    pub open spec fn separator_spec(&self) -> Seq<u8> {
        eip712_domain_separator(self.name@, self.version@, self.chain_id, self.verifying_contract@)
    }

    /// The separator of this domain.
    pub fn separator(&self) -> (h: [u8; 32])
        ensures
            h@ == self.separator_spec(),
    {
        domain_separator(self)
    }
}

/// The domain of this protocol on the given chain and contract: name `TAP`,
/// version `1`.
pub fn tap_eip712_domain(chain_id: u64, verifying_contract: Address) -> (domain: Eip712Domain)
    ensures
        domain.name@ == "TAP"@,
        domain.version@ == "1"@,
        domain.chain_id == chain_id,
        domain.verifying_contract == verifying_contract,
{
    Eip712Domain {
        name: "TAP".to_owned(),
        version: "1".to_owned(),
        chain_id,
        verifying_contract,
    }
}

/// The EIP-712 `hashStruct` of `message`.
pub fn eip712_hash_struct<M: Eip712Message>(message: &M) -> (h: [u8; 32])
    ensures
        h@ == struct_hash(*message),
{
    let type_string = M::eip712_encode_type();
    let type_hash = keccak256(type_string.as_slice());
    let data = message.eip712_encode_data();
    let mut preimage: Vec<u8> = Vec::new();
    push_bytes(&mut preimage, type_hash.as_slice());
    push_bytes(&mut preimage, data.as_slice());
    assert(preimage@ == keccak256_digest(M::type_signature()) + message.encoded_data());
    keccak256(preimage.as_slice())
}

/// The digest that is signed for `message` under `domain`.
pub fn eip712_signing_hash<M: Eip712Message>(domain: &Eip712Domain, message: &M) -> (h: [u8; 32])
    ensures
        h@ == signing_hash(*domain, *message),
{
    let separator = domain.separator();
    let hashed = eip712_hash_struct(message);
    let mut preimage: Vec<u8> = Vec::new();
    preimage.push(0x19u8);
    preimage.push(0x01u8);
    push_bytes(&mut preimage, separator.as_slice());
    push_bytes(&mut preimage, hashed.as_slice());
    assert(preimage@ == seq![0x19u8, 0x01u8] + domain.separator_spec() + struct_hash(*message));
    keccak256(preimage.as_slice())
}

/// A message with a signature made for it under some domain.
///
/// The signature is carried, not trusted: who signed is only known once the
/// signer has been recovered under the domain in question.
#[derive(Clone, Copy, Debug, PartialEq, Eq)]
pub struct EIP712SignedMessage<M> {
    pub message: M,
    pub signature: Signature,
}

impl<M: Eip712Message> EIP712SignedMessage<M> {
    /// The address that signed this message under `domain`, if the signature
    /// is one of this message under that domain.
    pub open spec fn signer(&self, domain: Eip712Domain) -> Option<Address> {
        match ecdsa_recovered_address(
            signing_hash(domain, self.message),
            self.signature.r@,
            self.signature.s@,
            self.signature.v,
        ) {
            Some(bytes) => Some(Address::from_view(bytes)),
            None => None,
        }
    }

    /// Signs `message` under `domain` with `key`.
    pub fn new(domain: &Eip712Domain, message: M, key: &SigningKey) -> (res: Result<Self, Error>)
        ensures
            match ecdsa_signature(key@, signing_hash(*domain, message)) {
                Some(sig) => res matches Ok(signed) && signed.message == message
                    && signed.signature.r@ == sig.0 && signed.signature.s@ == sig.1
                    && signed.signature.v == sig.2,
                None => res == Err::<Self, Error>(Error::SigningFailed),
            },
    {
        let prehash = eip712_signing_hash(domain, &message);
        match ecdsa_sign(key, &prehash) {
            Ok(signature) => Ok(EIP712SignedMessage { message, signature }),
            Err(_) => Err(Error::SigningFailed),
        }
    }

    /// Recovers the address that signed this message under `domain`.
    pub fn recover_signer(&self, domain: &Eip712Domain) -> (res: Result<Address, Error>)
        ensures
            res == match self.signer(*domain) {
                Some(a) => Ok::<Address, Error>(a),
                None => Err::<Address, Error>(Error::InvalidSignature),
            },
    {
        let prehash = eip712_signing_hash(domain, &self.message);
        match ecdsa_recover(&prehash, &self.signature) {
            Ok(a) => {
                proof {
                    Address::lemma_from_view(a);
                }
                Ok(a)
            },
            Err(_) => Err(Error::InvalidSignature),
        }
    }

    /// Whether `expected` signed this message under `domain`.
    pub fn verify(&self, domain: &Eip712Domain, expected: &Address) -> (ok: bool)
        ensures
            ok == (self.signer(*domain) == Some(*expected)),
    {
        match self.recover_signer(domain) {
            Ok(a) => a.same_as(expected),
            Err(_) => false,
        }
    }
}

} // verus!
