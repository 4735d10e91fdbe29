use secp256k1::schnorrsig;
use secp256k1::{Message, PublicKey, SecretKey, SECP256K1};
use vstd::prelude::*;

verus! {

/// The order of the secp256k1 group.
pub open spec fn curve_order() -> nat {
    0xFFFFFFFFFFFFFFFFFFFFFFFFFFFFFFFE * 0x10000000000000000 * 0x10000000000000000
        + 0xBAAEDCE6AF48A03BBFD25E8CD0364141
}

/// The integer that a byte string denotes, most significant byte first.
pub open spec fn be_value(s: Seq<u8>) -> nat
    decreases s.len(),
{
    if s.len() == 0 {
        0
    } else {
        be_value(s.drop_last()) * 256 + s.last() as nat
    }
}

/// A secret key: 32 bytes whose big-endian value is neither zero nor at
/// least the group order.
pub open spec fn is_valid_secret(s: Seq<u8>) -> bool {
    &&& s.len() == 32
    &&& 0 < be_value(s)
    &&& be_value(s) < curve_order()
}

/// The bytes 1, 2, ..., 32.
pub open spec fn seed_seq() -> Seq<u8> {
    Seq::new(32, |i: int| (i + 1) as u8)
}

/// Returns the bytes 1, 2, ..., 32.
pub fn seed_bytes() -> (r: Vec<u8>)
    ensures
        r@ == seed_seq(),
{
    let mut r: Vec<u8> = Vec::new();
    let mut i: u8 = 0;
    while i < 32
        invariant
            i <= 32,
            r@ == seed_seq().subrange(0, i as int),
        decreases 32 - i,
    {
        r.push(i + 1);
        i = i + 1;
        assert(r@ =~= seed_seq().subrange(0, i as int));
    }
    assert(r@ =~= seed_seq());
    r
}

/// The compressed (33-byte) public key of a secret key.
pub uninterp spec fn public_key_of(secret: Seq<u8>) -> Seq<u8>;

/// The 32-byte x-only Schnorr public key of a secret key.
pub uninterp spec fn x_only_public_key_of(secret: Seq<u8>) -> Seq<u8>;

/// The compact (64-byte) ECDSA signature of a 32-byte message under a secret
/// key, with the RFC 6979 nonce.
pub uninterp spec fn ecdsa_signature_of(msg: Seq<u8>, secret: Seq<u8>) -> Seq<u8>;

/// The 64-byte BIP-340 Schnorr signature of a 32-byte message under a
/// secret key, made without auxiliary randomness.
pub uninterp spec fn schnorr_signature_of(msg: Seq<u8>, secret: Seq<u8>) -> Seq<u8>;

/// Relies on `SecretKey::from_slice`: it accepts exactly 32 bytes that
/// `secp256k1_ec_seckey_verify` holds valid (not zero, below the order).
#[verifier::external_body]
fn secret_key_valid(data: &Vec<u8>) -> (r: bool)
    ensures
        r == is_valid_secret(data@),
{
    SecretKey::from_slice(data.as_slice()).is_ok()
}

/// Relies on `PublicKey::from_secret_key` and `PublicKey::serialize`: the
/// compressed public key, for a secret that `SecretKey::from_slice` accepts.
#[verifier::external_body]
fn derive_public_key(secret: &Vec<u8>) -> (r: Option<Vec<u8>>)
    ensures
        r.is_some() == is_valid_secret(secret@),
        r matches Some(p) ==> p@ == public_key_of(secret@) && p@.len() == 33,
{
    SecretKey::from_slice(secret.as_slice()).ok().map(
        |k| PublicKey::from_secret_key(SECP256K1, &k).serialize().to_vec(),
    )
}

/// Relies on `schnorrsig::PublicKey::from_keypair` and its `serialize`: the
/// x-only public key of the key pair that `KeyPair::from_seckey_slice` builds;
/// `secp256k1_keypair_create` accepts the same secrets as
/// `secp256k1_ec_seckey_verify`.
#[verifier::external_body]
fn derive_x_only_public_key(secret: &Vec<u8>) -> (r: Option<Vec<u8>>)
    ensures
        r.is_some() == is_valid_secret(secret@),
        r matches Some(p) ==> p@ == x_only_public_key_of(secret@) && p@.len() == 32,
{
    schnorrsig::KeyPair::from_seckey_slice(SECP256K1, secret.as_slice()).ok().map(
        |kp| schnorrsig::PublicKey::from_keypair(SECP256K1, &kp).serialize().to_vec(),
    )
}

/// Relies on `Secp256k1::sign` and `Signature::serialize_compact`: a
/// deterministic (RFC 6979) ECDSA signature. `Message::from_slice` accepts
/// any 32 bytes.
#[verifier::external_body]
fn ecdsa_sign(msg: &Vec<u8>, secret: &Vec<u8>) -> (r: Option<Vec<u8>>)
    ensures
        r.is_some() == (msg@.len() == 32 && is_valid_secret(secret@)),
        r matches Some(s) ==> s@ == ecdsa_signature_of(msg@, secret@) && s@.len() == 64,
{
    match (Message::from_slice(msg.as_slice()), SecretKey::from_slice(secret.as_slice())) {
        (Ok(m), Ok(k)) => Some(SECP256K1.sign(&m, &k).serialize_compact().to_vec()),
        _ => None,
    }
}

/// Relies on `Secp256k1::schnorrsig_sign_no_aux_rand`: a BIP-340 signature
/// whose nonce depends on the message and the key alone.
#[verifier::external_body]
fn schnorr_sign(msg: &Vec<u8>, secret: &Vec<u8>) -> (r: Option<Vec<u8>>)
    ensures
        r.is_some() == (msg@.len() == 32 && is_valid_secret(secret@)),
        r matches Some(s) ==> s@ == schnorr_signature_of(msg@, secret@) && s@.len() == 64,
{
    match (
        Message::from_slice(msg.as_slice()),
        schnorrsig::KeyPair::from_seckey_slice(SECP256K1, secret.as_slice()),
    ) {
        (Ok(m), Ok(kp)) => Some(SECP256K1.schnorrsig_sign_no_aux_rand(&m, &kp).as_ref().to_vec()),
        _ => None,
    }
}

/// What a [`KeyMaterial`] holds, as byte sequences.
pub ghost struct KeyMaterialView {
    pub seckey: Seq<u8>,
    pub pubkey: Seq<u8>,
    pub schnorr_pubkey: Seq<u8>,
    pub sig: Seq<u8>,
    pub schnorr_sig: Seq<u8>,
}

/// Five values of secp256k1 key material, each in its canonical byte form:
/// a secret key, its compressed public key, its x-only Schnorr public key,
/// and an ECDSA and a Schnorr signature of one message under that key.
pub struct KeyMaterial {
    pub seckey: Vec<u8>,
    pub pubkey: Vec<u8>,
    pub schnorr_pubkey: Vec<u8>,
    pub sig: Vec<u8>,
    pub schnorr_sig: Vec<u8>,
}

impl View for KeyMaterial {
    type V = KeyMaterialView;

    open spec fn view(&self) -> KeyMaterialView {
        KeyMaterialView {
            seckey: self.seckey@,
            pubkey: self.pubkey@,
            schnorr_pubkey: self.schnorr_pubkey@,
            sig: self.sig@,
            schnorr_sig: self.schnorr_sig@,
        }
    }
}

impl KeyMaterialView {
    /// Each value has the length of its canonical form.
    pub open spec fn wf(self) -> bool {
        &&& self.seckey.len() == 32
        &&& self.pubkey.len() == 33
        &&& self.schnorr_pubkey.len() == 32
        &&& self.sig.len() == 64
        &&& self.schnorr_sig.len() == 64
    }
}

/// The key material that a secret key and a message determine.
pub open spec fn material_of(secret: Seq<u8>, msg: Seq<u8>) -> KeyMaterialView {
    KeyMaterialView {
        seckey: secret,
        pubkey: public_key_of(secret),
        schnorr_pubkey: x_only_public_key_of(secret),
        sig: ecdsa_signature_of(msg, secret),
        schnorr_sig: schnorr_signature_of(msg, secret),
    }
}

/// Returns a copy of `b`.
fn copy_bytes(b: &Vec<u8>) -> (r: Vec<u8>)
    ensures
        r@ == b@,
{
    let mut r: Vec<u8> = Vec::with_capacity(b.len());
    let mut i: usize = 0;
    while i < b.len()
        invariant
            i <= b@.len(),
            r@ == b@.subrange(0, i as int),
        decreases b@.len() - i,
    {
        r.push(b[i]);
        i = i + 1;
        assert(r@ =~= b@.subrange(0, i as int));
    }
    assert(r@ =~= b@);
    r
}

/// Whether two byte strings are equal.
pub fn bytes_equal(a: &Vec<u8>, b: &Vec<u8>) -> (r: bool)
    ensures
        r == (a@ == b@),
{
    if a.len() != b.len() {
        return false;
    }
    let mut i: usize = 0;
    while i < a.len()
        invariant
            a@.len() == b@.len(),
            i <= a@.len(),
            forall|j: int| 0 <= j < i ==> a@[j] == b@[j],
        decreases a@.len() - i,
    {
        if a[i] != b[i] {
            return false;
        }
        i = i + 1;
    }
    assert(a@ =~= b@);
    true
}

impl KeyMaterial {
    /// Derives the key material of `secret`, signing `msg` with it. Gives
    /// `None` exactly when `secret` is no valid secret key or `msg` is not
    /// 32 bytes long.
    pub fn derive(secret: &Vec<u8>, msg: &Vec<u8>) -> (r: Option<KeyMaterial>)
        ensures
            r.is_some() == (is_valid_secret(secret@) && msg@.len() == 32),
            r matches Some(m) ==> m@ == material_of(secret@, msg@) && m@.wf(),
    {
        if msg.len() != 32 || !secret_key_valid(secret) {
            return None;
        }
        let pubkey = match derive_public_key(secret) {
            Some(p) => p,
            None => return None,
        };
        let schnorr_pubkey = match derive_x_only_public_key(secret) {
            Some(p) => p,
            None => return None,
        };
        let sig = match ecdsa_sign(msg, secret) {
            Some(s) => s,
            None => return None,
        };
        let schnorr_sig = match schnorr_sign(msg, secret) {
            Some(s) => s,
            None => return None,
        };
        let seckey = copy_bytes(secret);
        Some(KeyMaterial { seckey, pubkey, schnorr_pubkey, sig, schnorr_sig })
    }
}

impl PartialEq for KeyMaterial {
    fn eq(&self, other: &KeyMaterial) -> (r: bool)
        ensures
            r == (self@ == other@),
    {
        bytes_equal(&self.seckey, &other.seckey) && bytes_equal(&self.pubkey, &other.pubkey)
            && bytes_equal(&self.schnorr_pubkey, &other.schnorr_pubkey) && bytes_equal(
            &self.sig,
            &other.sig,
        ) && bytes_equal(&self.schnorr_sig, &other.schnorr_sig)
    }
}

impl vstd::std_specs::cmp::PartialEqSpecImpl for KeyMaterial {
    open spec fn obeys_eq_spec() -> bool {
        true
    }

    open spec fn eq_spec(&self, other: &KeyMaterial) -> bool {
        self@ == other@
    }
}

/// `256` raised to `n`.
pub open spec fn pow256(n: nat) -> nat
    decreases n,
{
    if n == 0 {
        1
    } else {
        256 * pow256((n - 1) as nat)
    }
}

/// Every prefix of the seed is a positive number below twice the weight of
/// its first byte.
proof fn lemma_seed_prefix_bounds(k: nat)
    requires
        1 <= k <= 32,
    ensures
        0 < be_value(seed_seq().subrange(0, k as int)),
        be_value(seed_seq().subrange(0, k as int)) < 2 * pow256((k - 1) as nat),
    decreases k,
{
    let p = seed_seq().subrange(0, k as int);
    assert(p.last() == k as u8);
    if k == 1 {
        assert(p.drop_last() =~= Seq::<u8>::empty());
        assert(be_value(p.drop_last()) == 0);
        assert(be_value(p) == 1);
        assert(pow256(0) == 1);
    } else {
        assert(p.drop_last() =~= seed_seq().subrange(0, k - 1));
        lemma_seed_prefix_bounds((k - 1) as nat);
        let q = be_value(p.drop_last());
        assert(be_value(p) == q * 256 + k);
        assert(pow256((k - 1) as nat) == 256 * pow256((k - 2) as nat));
        assert(q * 256 + k < 2 * pow256((k - 1) as nat)) by (nonlinear_arith)
            requires
                q < 2 * pow256((k - 2) as nat),
                pow256((k - 1) as nat) == 256 * pow256((k - 2) as nat),
                k <= 32,
        ;
    }
}

/// The seed is a valid secret key.
pub proof fn lemma_seed_is_valid_secret()
    ensures
        is_valid_secret(seed_seq()),
{
    lemma_seed_prefix_bounds(32);
    assert(seed_seq().subrange(0, 32) =~= seed_seq());
    reveal_with_fuel(pow256, 32);
    assert(pow256(31) == 0x100000000000000000000000000000000 * 0x1000000000000000000000000000000);
}

/// The fixed key material: the seed serves both as the secret key and as
/// the signed message.
pub fn fixed_key_material() -> (r: KeyMaterial)
    ensures
        r@ == material_of(seed_seq(), seed_seq()),
        r@.wf(),
{
    let seed = seed_bytes();
    proof {
        lemma_seed_is_valid_secret();
    }
    match KeyMaterial::derive(&seed, &seed) {
        Some(m) => m,
        None => vstd::pervasive::unreached(),
    }
}

} // verus!
