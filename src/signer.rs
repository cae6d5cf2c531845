use vstd::prelude::*;
use crate::wire::{
    RequestKind, padded, be_bytes, lemma_short_payload_padded, PAD_BYTE, pad_field, encode_u64_be, append_bytes,
    ACTION_PAYLOAD_LEN, TAG_LEN,
};

verus! {

/// Length of a signature, the size of a 2048-bit modulus.
pub const SIGNATURE_LEN: usize = 256;

/// Length of the signed block: timestamp and payload.
pub const SIGNED_BLOCK_LEN: usize = 52;

/// Length of the timestamp at the front of the signed block.
pub const TIMESTAMP_LEN: usize = 8;

/// Total length of a send request.
pub const ACTION_MESSAGE_LEN: usize = 311;

/// Length of a SHA-512 digest.
pub const DIGEST_LEN: usize = 64;

#[verifier::external_type_specification]
#[verifier::external_body]
pub struct ExRsaPrivateKey(rsa::RsaPrivateKey);

/// The SHA-512 digest of a byte string.
pub uninterp spec fn sha512_of(data: Seq<u8>) -> Seq<u8>;

/// The bytes are the PKCS#8 DER encoding of an RSA key that was decoded and
/// precomputed once already.
pub uninterp spec fn encoded_rsa_key(private_der: Seq<u8>) -> bool;

/// The SPKI DER encoding of the public half of a PKCS#8 RSA key, if it has one.
pub uninterp spec fn public_der_of(private_der: Seq<u8>) -> Option<Seq<u8>>;

/// The modulus size in bytes of an SPKI DER RSA public key, if it decodes.
pub uninterp spec fn modulus_size_of(public_der: Seq<u8>) -> Option<nat>;

/// The PKCS#1 v1.5 signature, for SHA-512, of `digest` under a PKCS#8 RSA key.
pub uninterp spec fn pkcs1v15_sha512_signature(private_der: Seq<u8>, digest: Seq<u8>) -> Option<Seq<u8>>;

/// `sig` is a valid PKCS#1 v1.5 signature, for SHA-512, of `digest` under an
/// SPKI RSA public key.
pub uninterp spec fn pkcs1v15_sha512_valid(public_der: Seq<u8>, digest: Seq<u8>, sig: Seq<u8>) -> bool;

/// The bytes held by an optional vector.
pub open spec fn opt_view(o: Option<Vec<u8>>) -> Option<Seq<u8>> {
    match o {
        Some(v) => Some(v@),
        None => None,
    }
}

/// The bytes held by a vector result.
pub open spec fn result_view<E>(r: Result<Vec<u8>, E>) -> Result<Seq<u8>, E> {
    match r {
        Ok(v) => Ok(v@),
        Err(e) => Err(e),
    }
}

/// Relies on `sha2::Sha512::digest`: the 64-byte SHA-512 digest of `data`.
#[verifier::external_body]
fn sha512_digest(data: &[u8]) -> (r: Vec<u8>)
    ensures
        r@ == sha512_of(data@),
        r@.len() == DIGEST_LEN,
{
    <sha2::Sha512 as sha2::Digest>::digest(data).to_vec()
}

/// Relies on `ToPrivateKey::to_pkcs8_der` for `RsaPrivateKey`: the key's
/// PKCS#8 DER form, which fails for keys of more than two primes.
#[verifier::external_body]
fn encode_private_key(secret: &rsa::RsaPrivateKey) -> (r: Option<Vec<u8>>)
    ensures
        r matches Some(d) ==> encoded_rsa_key(d@),
{
    rsa::pkcs8::ToPrivateKey::to_pkcs8_der(secret).ok().map(|d| d.as_ref().to_vec())
}

/// Relies on `From<&RsaPrivateKey> for RsaPublicKey`, between decoding the
/// PKCS#8 key and encoding the public half as SPKI DER. Decoding runs rsa's
/// precompute, which divides by zero on a prime of 1; `requires` admits only
/// encodings of keys that already went through it.
#[verifier::external_body]
fn public_key_der(private_der: &[u8]) -> (r: Option<Vec<u8>>)
    requires
        encoded_rsa_key(private_der@),
    ensures
        opt_view(r) == public_der_of(private_der@),
{
    let secret = <rsa::RsaPrivateKey as rsa::pkcs8::FromPrivateKey>::from_pkcs8_der(private_der).ok()?;
    let public = rsa::RsaPublicKey::from(&secret);
    rsa::pkcs8::ToPublicKey::to_public_key_der(&public).ok().map(|d| d.as_ref().to_vec())
}

/// Relies on `PublicKeyParts::size`, after decoding the SPKI key: the
/// modulus size in bytes.
#[verifier::external_body]
fn modulus_len(public_der: &[u8]) -> (r: Option<usize>)
    ensures
        r matches Some(n) ==> modulus_size_of(public_der@) == Some(n as nat),
        r is None ==> modulus_size_of(public_der@) is None,
{
    let public = <rsa::RsaPublicKey as rsa::pkcs8::FromPublicKey>::from_public_key_der(public_der).ok()?;
    Some(rsa::PublicKeyParts::size(&public))
}

/// Relies on `RsaPrivateKey::sign` with PKCS#1 v1.5 padding for SHA-512,
/// after decoding the PKCS#8 key. Without an rng there is no blinding, so
/// the result depends on the key and the digest alone.
#[verifier::external_body]
fn pkcs1v15_sign(private_der: &[u8], digest: &[u8]) -> (r: Option<Vec<u8>>)
    requires
        encoded_rsa_key(private_der@),
    ensures
        opt_view(r) == pkcs1v15_sha512_signature(private_der@, digest@),
{
    let secret = <rsa::RsaPrivateKey as rsa::pkcs8::FromPrivateKey>::from_pkcs8_der(private_der).ok()?;
    secret.sign(rsa::PaddingScheme::new_pkcs1v15_sign(Some(rsa::Hash::SHA2_512)), digest).ok()
}

/// Relies on `PublicKey::verify` with PKCS#1 v1.5 padding for SHA-512,
/// after decoding the SPKI key. A zero modulus would divide by zero, so
/// `requires` asks for a 2048-bit one.
#[verifier::external_body]
fn pkcs1v15_verify(public_der: &[u8], digest: &[u8], signature: &[u8]) -> (r: bool)
    requires
        modulus_size_of(public_der@) == Some(SIGNATURE_LEN as nat),
    ensures
        r == pkcs1v15_sha512_valid(public_der@, digest@, signature@),
{
    match <rsa::RsaPublicKey as rsa::pkcs8::FromPublicKey>::from_public_key_der(public_der) {
        Ok(public) => rsa::PublicKey::verify(
            &public,
            rsa::PaddingScheme::new_pkcs1v15_sign(Some(rsa::Hash::SHA2_512)),
            digest,
            signature,
        ).is_ok(),
        Err(_) => false,
    }
}

/// Why a key was not accepted.
#[derive(Clone, Copy, Debug, PartialEq, Eq, Structural)]
pub enum KeyError {
    /// The key or its public half could not be put in DER form.
    Unencodable,
    /// The modulus is not 2048 bits, so signatures would not fit the frame.
    WrongModulusSize,
}

/// Why signing a block did not give a usable signature.
#[derive(Clone, Copy, Debug, PartialEq, Eq, Structural)]
pub enum SignError {
    /// The key refused to sign.
    SigningFailed,
    /// The signature has the wrong length for the frame.
    WrongLength,
    /// The signature did not verify under the key's own public half.
    SelfCheckFailed,
}

/// Why no send request was produced.
#[derive(Clone, Copy, Debug, PartialEq, Eq, Structural)]
pub enum ActionError {
    /// The operator did not approve the request.
    Declined,
    /// The system clock reads earlier than the Unix epoch.
    ClockBeforeEpoch,
    /// Signing or its self-check failed: a local fault.
    Signing(SignError),
}

/// What signing a digest comes to: the signature, once it has the frame's
/// length and verifies under the public half.
pub open spec fn sign_outcome(private_der: Seq<u8>, public_der: Seq<u8>, digest: Seq<u8>) -> Result<
    Seq<u8>,
    SignError,
> {
    match pkcs1v15_sha512_signature(private_der, digest) {
        None => Err(SignError::SigningFailed),
        Some(s) => if s.len() != SIGNATURE_LEN {
            Err(SignError::WrongLength)
        } else if !pkcs1v15_sha512_valid(public_der, digest, s) {
            Err(SignError::SelfCheckFailed)
        } else {
            Ok(s)
        },
    }
}

/// Every signature that signing hands out has the frame's length and
/// verifies under the public half of the key.
pub proof fn lemma_signature_verifies(private_der: Seq<u8>, public_der: Seq<u8>, digest: Seq<u8>)
    ensures
        sign_outcome(private_der, public_der, digest) matches Ok(s) ==> s.len() == SIGNATURE_LEN
            && pkcs1v15_sha512_valid(public_der, digest, s),
{
}

/// A private RSA key with a 2048-bit modulus, held as PKCS#8 DER, together
/// with its public half as SPKI DER.
pub struct SigningKey {
    private_der: Vec<u8>,
    public_der: Vec<u8>,
}

impl SigningKey {
    #[verifier::type_invariant]
    spec fn inv(self) -> bool {
        &&& encoded_rsa_key(self.private_der@)
        &&& public_der_of(self.private_der@) == Some(self.public_der@)
        &&& modulus_size_of(self.public_der@) == Some(SIGNATURE_LEN as nat)
    }

    /// The private key, PKCS#8 DER.
    pub closed spec fn private_key(&self) -> Seq<u8> {
        self.private_der@
    }

    /// The public half, SPKI DER.
    pub closed spec fn public_key(&self) -> Seq<u8> {
        self.public_der@
    }

    /// Accepts a private key whose modulus is 256 bytes long.
    pub fn new(secret: rsa::RsaPrivateKey) -> (r: Result<SigningKey, KeyError>)
        ensures
            r matches Ok(k) ==> public_der_of(k.private_key()) == Some(k.public_key())
                && modulus_size_of(k.public_key()) == Some(SIGNATURE_LEN as nat),
    {
        match encode_private_key(&secret) {
            Some(der) => SigningKey::from_pkcs8_der(der.as_slice()),
            None => Err(KeyError::Unencodable),
        }
    }

    /// Accepts the PKCS#8 encoding of a loaded key when its modulus is
    /// 256 bytes long.
    pub fn from_pkcs8_der(der: &[u8]) -> (r: Result<SigningKey, KeyError>)
        requires
            encoded_rsa_key(der@),
        ensures
            public_der_of(der@) is None ==> r == Err::<SigningKey, KeyError>(KeyError::Unencodable),
            public_der_of(der@) matches Some(p) ==> (modulus_size_of(p) == Some(SIGNATURE_LEN as nat)
                <==> r is Ok),
            public_der_of(der@) matches Some(p) && modulus_size_of(p) != Some(SIGNATURE_LEN as nat)
                ==> r == Err::<SigningKey, KeyError>(KeyError::WrongModulusSize),
            r matches Ok(k) ==> k.private_key() == der@ && Some(k.public_key()) == public_der_of(der@),
    {
        let public = match public_key_der(der) {
            Some(p) => p,
            None => return Err(KeyError::Unencodable),
        };
        match modulus_len(public.as_slice()) {
            Some(n) => {
                if n != SIGNATURE_LEN {
                    return Err(KeyError::WrongModulusSize);
                }
            },
            None => return Err(KeyError::WrongModulusSize),
        }
        let mut private_der: Vec<u8> = Vec::new();
        append_bytes(&mut private_der, der);
        proof { assert(private_der@ =~= der@); }
        Ok(SigningKey { private_der, public_der: public })
    }

    /// Signs the SHA-512 digest of `block` and checks the signature against
    /// the public half before handing it out.
    pub fn sign_block(&self, block: &[u8]) -> (r: Result<Vec<u8>, SignError>)
        ensures
            result_view(r) == sign_outcome(self.private_key(), self.public_key(), sha512_of(block@)),
    {
        proof { use_type_invariant(self); }
        let digest = sha512_digest(block);
        let signature = match pkcs1v15_sign(self.private_der.as_slice(), digest.as_slice()) {
            Some(s) => s,
            None => return Err(SignError::SigningFailed),
        };
        if signature.len() != SIGNATURE_LEN {
            return Err(SignError::WrongLength);
        }
        if pkcs1v15_verify(self.public_der.as_slice(), digest.as_slice(), signature.as_slice()) {
            Ok(signature)
        } else {
            Err(SignError::SelfCheckFailed)
        }
    }

    /// Whether `signature` is a valid signature of `block` under the public half.
    pub fn verify_block(&self, block: &[u8], signature: &[u8]) -> (r: bool)
        ensures
            r == pkcs1v15_sha512_valid(self.public_key(), sha512_of(block@), signature@),
    {
        proof { use_type_invariant(self); }
        let digest = sha512_digest(block);
        pkcs1v15_verify(self.public_der.as_slice(), digest.as_slice(), signature)
    }
}

/// The signed block: the timestamp, eight bytes most significant first,
/// then the payload fitted to its field.
pub open spec fn signed_block_spec(secs: nat, payload: Seq<u8>) -> Seq<u8> {
    be_bytes(secs, TIMESTAMP_LEN as nat) + padded(payload, ACTION_PAYLOAD_LEN as nat)
}

/// Builds the signed block of a send request.
pub fn signed_block(secs: u64, payload: &[u8]) -> (r: Vec<u8>)
    ensures
        r@ == signed_block_spec(secs as nat, payload@),
        r@.len() == SIGNED_BLOCK_LEN,
{
    let mut r = encode_u64_be(secs);
    let body = pad_field(payload, ACTION_PAYLOAD_LEN);
    proof { lemma_be_bytes_len(secs as nat, 8); }
    append_bytes(&mut r, body.as_slice());
    r
}

/// `be_bytes(v, n)` has `n` bytes.
pub proof fn lemma_be_bytes_len(v: nat, n: nat)
    ensures
        be_bytes(v, n).len() == n,
    decreases n,
{
    if n > 0 {
        lemma_be_bytes_len(v / 256, (n - 1) as nat);
    }
}

/// The signed block of a payload that fits is 52 bytes: the timestamp, the
/// payload, then spaces.
pub proof fn lemma_signed_block_short_payload(secs: nat, payload: Seq<u8>)
    requires
        payload.len() <= ACTION_PAYLOAD_LEN,
    ensures
        ({
            let b = signed_block_spec(secs, payload);
            &&& b.len() == SIGNED_BLOCK_LEN
            &&& b.subrange(TIMESTAMP_LEN as int, TIMESTAMP_LEN + payload.len()) == payload
            &&& forall|j: int| TIMESTAMP_LEN + payload.len() <= j < SIGNED_BLOCK_LEN ==> #[trigger] b[j] == PAD_BYTE
        }),
{
    let b = signed_block_spec(secs, payload);
    lemma_be_bytes_len(secs, 8);
    lemma_short_payload_padded(payload, ACTION_PAYLOAD_LEN as nat);
    assert(b.subrange(8, 8 + payload.len() as int) =~= payload);
    assert forall|j: int| TIMESTAMP_LEN + payload.len() <= j < SIGNED_BLOCK_LEN implies #[trigger] b[j] == PAD_BYTE by {
        assert(b[j] == padded(payload, ACTION_PAYLOAD_LEN as nat)[j - 8]);
    }
}

/// The signed block of a payload longer than its field holds exactly the
/// first 44 bytes of the payload after the timestamp.
pub proof fn lemma_signed_block_long_payload(secs: nat, payload: Seq<u8>)
    requires
        payload.len() > ACTION_PAYLOAD_LEN,
    ensures
        signed_block_spec(secs, payload).len() == SIGNED_BLOCK_LEN,
        signed_block_spec(secs, payload).subrange(TIMESTAMP_LEN as int, SIGNED_BLOCK_LEN as int)
            == payload.take(ACTION_PAYLOAD_LEN as int),
{
    let b = signed_block_spec(secs, payload);
    lemma_be_bytes_len(secs, 8);
    assert(b.subrange(8, 52) =~= payload.take(44));
}

/// The wire form of a send request with the given block and signature.
pub open spec fn action_message_spec(block: Seq<u8>, signature: Seq<u8>) -> Seq<u8> {
    RequestKind::Send.tag_spec() + block + signature
}

/// Frames a signed block and its signature behind the send tag.
pub fn action_message(block: &[u8], signature: &[u8]) -> (r: Vec<u8>)
    requires
        block@.len() == SIGNED_BLOCK_LEN,
        signature@.len() == SIGNATURE_LEN,
    ensures
        r@ == action_message_spec(block@, signature@),
        r@.len() == ACTION_MESSAGE_LEN,
{
    let mut r = RequestKind::Send.tag();
    append_bytes(&mut r, block);
    append_bytes(&mut r, signature);
    r
}

/// What building and signing a send request comes to: the framed message,
/// or the error that signing its block gave.
pub open spec fn action_outcome(private_der: Seq<u8>, public_der: Seq<u8>, secs: nat, payload: Seq<u8>) -> Result<
    Seq<u8>,
    SignError,
> {
    let block = signed_block_spec(secs, payload);
    match sign_outcome(private_der, public_der, sha512_of(block)) {
        Ok(s) => Ok(action_message_spec(block, s)),
        Err(e) => Err(e),
    }
}

/// A signing outcome as the outcome of an approved send request.
pub open spec fn as_action_result(o: Result<Seq<u8>, SignError>) -> Result<Seq<u8>, ActionError> {
    match o {
        Ok(m) => Ok(m),
        Err(e) => Err(ActionError::Signing(e)),
    }
}

/// Builds and signs a send request stamped with `secs`.
pub fn sign_action(key: &SigningKey, secs: u64, payload: &[u8]) -> (r: Result<Vec<u8>, SignError>)
    ensures
        result_view(r) == action_outcome(key.private_key(), key.public_key(), secs as nat, payload@),
        r matches Ok(m) ==> m@.len() == ACTION_MESSAGE_LEN
            && m@.take((TAG_LEN + SIGNED_BLOCK_LEN) as int)
                == RequestKind::Send.tag_spec() + signed_block_spec(secs as nat, payload@),
{
    let block = signed_block(secs, payload);
    match key.sign_block(block.as_slice()) {
        Ok(signature) => {
            let m = action_message(block.as_slice(), signature.as_slice());
            assert(m@.take(55) =~= RequestKind::Send.tag_spec() + block@);
            Ok(m)
        },
        Err(e) => Err(e),
    }
}

/// Builds and signs a send request once the operator has answered, stamped
/// with the current time: nothing is built or signed unless `approved` holds.
pub fn user_verify_action(approved: bool, key: &SigningKey, payload: &[u8]) -> (r: Result<
    Vec<u8>,
    ActionError,
>)
    ensures
        !approved ==> r == Err::<Vec<u8>, ActionError>(ActionError::Declined),
        approved ==> r == Err::<Vec<u8>, ActionError>(ActionError::ClockBeforeEpoch)
            || exists|secs: u64| result_view(r) == as_action_result(
                #[trigger] action_outcome(key.private_key(), key.public_key(), secs as nat, payload@),
            ),
        r matches Ok(m) ==> m@.len() == ACTION_MESSAGE_LEN
            && exists|secs: u64| m@.take((TAG_LEN + SIGNED_BLOCK_LEN) as int)
                == RequestKind::Send.tag_spec() + #[trigger] signed_block_spec(secs as nat, payload@),
{
    if !approved {
        return Err(ActionError::Declined);
    }
    let secs = match crate::clock::seconds_since_epoch() {
        Some(s) => s,
        None => return Err(ActionError::ClockBeforeEpoch),
    };
    match sign_action(key, secs, payload) {
        Ok(m) => Ok(m),
        Err(e) => Err(ActionError::Signing(e)),
    }
}

} // verus!
