//! Key agreement and stream-cipher state.
//!
//! Each endpoint generates a fresh secp256k1 keypair and derives a 64-byte
//! shared secret as SHA-512 over the ECDH shared point. The secret keys a
//! ChaCha20 keystream; every connection uses two independent cipher states,
//! one per direction, both starting at keystream position 0 on both peers.
use vstd::prelude::*;

use crate::Error;
use sha2::Digest;

verus! {

/// Number of bytes of the derived shared secret.
pub const SHARED_KEY_LEN: usize = 64;

/// Number of bytes of a secp256k1 secret key.
pub const SECRET_KEY_SIZE: usize = 32;

/// The compressed 33-byte SEC1 encoding of the public point belonging to a
/// secret key; what `secp256k1::PublicKey::serialize` returns for it.
pub uninterp spec fn pubkey_of(secret: Seq<u8>) -> Seq<u8>;

/// Whether `secp256k1::SecretKey::from_secret_bytes` accepts these 32 bytes
/// as a scalar on the curve.
pub uninterp spec fn valid_secret_key(secret: Seq<u8>) -> bool;

/// Whether `secp256k1::PublicKey::from_slice` accepts these bytes as the
/// encoding of a curve point.
pub uninterp spec fn valid_public_key(public: Seq<u8>) -> bool;

/// The 64-byte x||y coordinates of the ECDH shared point that
/// `secp256k1::ecdh::shared_secret_point` computes from a secret key and a
/// peer public key.
pub uninterp spec fn ecdh_point(secret: Seq<u8>, public: Seq<u8>) -> Seq<u8>;

/// The 64-byte SHA-512 digest that `sha2::Sha512` computes.
pub uninterp spec fn sha512_of(data: Seq<u8>) -> Seq<u8>;

/// Byte `i` of the ChaCha20 keystream generated from a 64-byte shared secret
/// (key bytes [0,32), IV bytes [32,48)) by openssl's cipher context.
pub uninterp spec fn keystream(key: Seq<u8>, i: int) -> u8;

/// The 64-byte shared secret two peers agree on: SHA-512 over the ECDH point.
pub open spec fn shared_of(secret: Seq<u8>, public: Seq<u8>) -> Seq<u8> {
    sha512_of(ecdh_point(secret, public))
}

/// A secp256k1 keypair held as plain bytes: the 32-byte secret scalar and the
/// 33-byte compressed SEC1 encoding of its public point.
#[derive(Clone)]
pub struct KeyPair {
    pub secret: Vec<u8>,
    pub public: Vec<u8>,
}

impl KeyPair {
    /// The two halves belong together: the public bytes are exactly the
    /// serialization of the secret scalar's public point.
    pub open spec fn wf(&self) -> bool {
        &&& self.secret@.len() == SECRET_KEY_SIZE
        &&& self.public@.len() == 33
        &&& valid_secret_key(self.secret@)
        &&& valid_public_key(self.public@)
        &&& self.public@ == pubkey_of(self.secret@)
    }
}

/// Generates a fresh random keypair.
///
/// Relies on `secp256k1::generate_keypair` and `PublicKey::serialize`:
/// whatever scalar the generator draws is valid, and the public bytes are the
/// compressed serialization of its public point.
#[verifier::external_body]
pub fn keypair() -> (r: KeyPair)
    ensures
        r.wf(),
{
    let (sk, pk) = secp256k1::generate_keypair(&mut secp256k1::rand::rng());
    KeyPair { secret: sk.to_secret_bytes().to_vec(), public: pk.serialize().to_vec() }
}

/// Relies on `secp256k1::ecdh::shared_secret_point` (with
/// `SecretKey::from_secret_bytes` and `PublicKey::from_slice` converting the
/// arguments): the 64-byte ECDH point, which is symmetric — both key owners
/// compute the same point from the other's public key.
#[verifier::external_body]
fn shared_point(secret: &Vec<u8>, public: &Vec<u8>) -> (r: Result<Vec<u8>, Error>)
    requires
        secret@.len() == SECRET_KEY_SIZE,
    ensures
        r is Ok <==> (valid_secret_key(secret@) && valid_public_key(public@)),
        r matches Ok(p) ==> {
            &&& p@ == ecdh_point(secret@, public@)
            &&& p@.len() == 64
            &&& forall|other: Seq<u8>|
                valid_secret_key(other) && public@ == #[trigger] pubkey_of(other) ==> p@
                    == ecdh_point(other, pubkey_of(secret@))
        },
        r matches Err(e) ==> e is Encryption,
{
    let mut arr = [0u8; 32];
    arr.copy_from_slice(&secret[..]);
    let sk = match secp256k1::SecretKey::from_secret_bytes(arr) {
        Ok(k) => k,
        Err(_) => return Err(Error::Encryption),
    };
    let pk = match secp256k1::PublicKey::from_slice(&public[..]) {
        Ok(k) => k,
        Err(_) => return Err(Error::Encryption),
    };
    Ok(secp256k1::ecdh::shared_secret_point(&pk, &sk).to_vec())
}

/// Relies on `sha2::Sha512`: the 64-byte digest, a function of the input
/// bytes alone.
#[verifier::external_body]
fn sha512(data: &Vec<u8>) -> (r: Vec<u8>)
    ensures
        r@ == sha512_of(data@),
        r@.len() == SHARED_KEY_LEN,
{
    sha2::Sha512::digest(data.as_slice()).to_vec()
}

/// Derives the shared secret from an own keypair and the peer's serialized
/// public key: SHA-512 over the ECDH shared point. Succeeds exactly when the
/// peer bytes encode a valid curve point, and the result only depends on the
/// pair of keypairs — whichever end computes it.
pub fn shared(kp: &KeyPair, pk: &Vec<u8>) -> (r: Result<Vec<u8>, Error>)
    requires
        kp.wf(),
    ensures
        r is Ok <==> valid_public_key(pk@),
        r matches Ok(s) ==> {
            &&& s@ == shared_of(kp.secret@, pk@)
            &&& s@.len() == SHARED_KEY_LEN
            &&& forall|other: Seq<u8>|
                valid_secret_key(other) && pk@ == #[trigger] pubkey_of(other) ==> s@ == shared_of(
                    other,
                    pubkey_of(kp.secret@),
                )
        },
        r matches Err(e) ==> e is Encryption,
{
    let point = shared_point(&kp.secret, pk)?;
    Ok(sha512(&point))
}

/// Key agreement is symmetric: for any two well-formed keypairs, the secret
/// one side derives from the other's public key equals the secret the other
/// side derives in turn.
pub fn shared_symmetric(a: &KeyPair, b: &KeyPair) -> (r: (Vec<u8>, Vec<u8>))
    requires
        a.wf(),
        b.wf(),
    ensures
        r.0@ == shared_of(a.secret@, b.public@),
        r.1@ == shared_of(b.secret@, a.public@),
        r.0@ == r.1@,
{
    let sa = match shared(a, &b.public) {
        Ok(s) => s,
        Err(_) => vstd::pervasive::unreached(),
    };
    let sb = match shared(b, &a.public) {
        Ok(s) => s,
        Err(_) => vstd::pervasive::unreached(),
    };
    (sa, sb)
}

/// An openssl cipher context, opaque to verification.
#[verifier::external_type_specification]
#[verifier::external_body]
pub struct ExCipherCtx(openssl::cipher_ctx::CipherCtx);

/// The bytes of `data` XORed with the keystream of `key` starting at
/// keystream position `pos`.
pub open spec fn xor_keystream(key: Seq<u8>, pos: nat, data: Seq<u8>) -> Seq<u8> {
    Seq::new(data.len(), |i: int| data[i] ^ keystream(key, pos + i))
}

/// A slice of an encrypted buffer is the encryption of the same slice of the
/// plaintext, at the advanced keystream position.
pub proof fn lemma_xor_keystream_subrange(key: Seq<u8>, pos: nat, data: Seq<u8>, a: int, b: int)
    requires
        0 <= a <= b <= data.len(),
    ensures
        xor_keystream(key, pos, data).subrange(a, b) =~= xor_keystream(
            key,
            (pos + a) as nat,
            data.subrange(a, b),
        ),
{
    assert forall|i: int| 0 <= i < b - a implies xor_keystream(key, pos, data).subrange(a, b)[i]
        == xor_keystream(key, (pos + a) as nat, data.subrange(a, b))[i] by {
        assert(xor_keystream(key, pos, data)[a + i] == data[a + i] ^ keystream(key, pos + a + i));
    }
}

/// XORing with the same keystream twice gives the original bytes back: what
/// one cipher state encrypts, an independent state over the same key at the
/// same position decrypts.
pub proof fn lemma_xor_keystream_involutive(key: Seq<u8>, pos: nat, data: Seq<u8>)
    ensures
        xor_keystream(key, pos, xor_keystream(key, pos, data)) =~= data,
{
    let once = xor_keystream(key, pos, data);
    assert forall|i: int| 0 <= i < data.len() implies xor_keystream(key, pos, once)[i]
        == data[i] by {
        let k = keystream(key, pos + i);
        let d = data[i];
        assert((d ^ k) ^ k == d) by (bit_vector);
    }
}

/// Relies on openssl's `CipherCtx::new` and `encrypt_init` with
/// `Cipher::chacha20`: a fresh encrypting keystream context over key bytes
/// [0,32) and IV bytes [32,48) of the 64-byte shared secret, at position 0.
#[verifier::external_body]
fn chacha_encrypt_context(key: &Vec<u8>) -> (r: Result<openssl::cipher_ctx::CipherCtx, Error>)
    requires
        key@.len() == SHARED_KEY_LEN,
    ensures
        r matches Err(e) ==> e is Encryption,
{
    let mut ctx = match openssl::cipher_ctx::CipherCtx::new() {
        Ok(c) => c,
        Err(_) => return Err(Error::Encryption),
    };
    let init = ctx.encrypt_init(
        Some(openssl::cipher::Cipher::chacha20()),
        Some(&key[..32]),
        Some(&key[32..48]),
    );
    match init {
        Ok(()) => Ok(ctx),
        Err(_) => Err(Error::Encryption),
    }
}

/// Relies on openssl's `CipherCtx::new` and `decrypt_init` with
/// `Cipher::chacha20`; for this stream cipher decryption applies the same
/// keystream XOR as encryption, so the context generates the same keystream
/// as an encrypting one over the same key.
#[verifier::external_body]
fn chacha_decrypt_context(key: &Vec<u8>) -> (r: Result<openssl::cipher_ctx::CipherCtx, Error>)
    requires
        key@.len() == SHARED_KEY_LEN,
    ensures
        r matches Err(e) ==> e is Encryption,
{
    let mut ctx = match openssl::cipher_ctx::CipherCtx::new() {
        Ok(c) => c,
        Err(_) => return Err(Error::Encryption),
    };
    let init = ctx.decrypt_init(
        Some(openssl::cipher::Cipher::chacha20()),
        Some(&key[..32]),
        Some(&key[32..48]),
    );
    match init {
        Ok(()) => Ok(ctx),
        Err(_) => Err(Error::Encryption),
    }
}

/// One direction of the symmetric channel: a ChaCha20 state at some keystream
/// position. Two independent values are used per connection, one encrypting
/// outgoing bytes and one decrypting incoming bytes.
///
/// The fields are private so that only the constructors below build one; they
/// keep the context, the recorded key and the ghost position in step.
pub struct Cipher {
    ctx: openssl::cipher_ctx::CipherCtx,
    key: Vec<u8>,
    pos: Ghost<nat>,
}

impl Cipher {
    /// The 64-byte shared secret this state was built from.
    pub closed spec fn key(&self) -> Seq<u8> {
        self.key@
    }

    /// How many keystream bytes this state has consumed.
    pub closed spec fn pos(&self) -> nat {
        self.pos@
    }

    /// A cipher state that encrypts outgoing bytes, at keystream position 0.
    pub(crate) fn encryptor(key: &Vec<u8>) -> (r: Result<Cipher, Error>)
        requires
            key@.len() == SHARED_KEY_LEN,
        ensures
            r matches Ok(c) ==> c.key() == key@ && c.pos() == 0,
            r matches Err(e) ==> e is Encryption,
    {
        let ctx = chacha_encrypt_context(key)?;
        Ok(Cipher { ctx, key: clone_bytes(key), pos: Ghost(0) })
    }

    /// A cipher state that decrypts incoming bytes, at keystream position 0.
    pub(crate) fn decryptor(key: &Vec<u8>) -> (r: Result<Cipher, Error>)
        requires
            key@.len() == SHARED_KEY_LEN,
        ensures
            r matches Ok(c) ==> c.key() == key@ && c.pos() == 0,
            r matches Err(e) ==> e is Encryption,
    {
        let ctx = chacha_decrypt_context(key)?;
        Ok(Cipher { ctx, key: clone_bytes(key), pos: Ghost(0) })
    }

    /// Relies on openssl's `CipherCtx::cipher_update_inplace` with ChaCha20:
    /// XORs the buffer in place with the next `buf.len()` keystream bytes and
    /// advances the state by exactly that count.
    #[verifier::external_body]
    pub(crate) fn apply(&mut self, buf: &mut Vec<u8>) -> (r: Result<(), Error>)
        requires
            old(buf)@.len() <= 0x7fffffff,
        ensures
            final(self).key() == old(self).key(),
            r is Ok ==> final(buf)@ == xor_keystream(old(self).key(), old(self).pos(), old(buf)@),
            r is Ok ==> final(buf)@.len() == old(buf)@.len(),
            r is Ok ==> forall|i: int|
                0 <= i < old(buf)@.len() ==> final(buf)@[i] == (old(buf)@[i] ^ keystream(
                    old(self).key(),
                    old(self).pos() + i,
                )),
            r is Ok ==> final(self).pos() == old(self).pos() + old(buf)@.len(),
            r matches Err(e) ==> e is Encryption,
    {
        let len = buf.len();
        match self.ctx.cipher_update_inplace(&mut buf[..], len) {
            Ok(_) => Ok(()),
            Err(_) => Err(Error::Encryption),
        }
    }
}

/// A byte-for-byte copy of a buffer.
fn clone_bytes(v: &Vec<u8>) -> (r: Vec<u8>)
    ensures
        r@ == v@,
{
    let mut r: Vec<u8> = Vec::new();
    let mut i: usize = 0;
    while i < v.len()
        invariant
            i <= v@.len(),
            r@ =~= v@.subrange(0, i as int),
        decreases v@.len() - i,
    {
        r.push(v[i]);
        i = i + 1;
    }
    proof {
        assert(r@ =~= v@);
    }
    r
}

} // verus!
