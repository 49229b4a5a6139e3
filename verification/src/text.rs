use vstd::prelude::*;
use ed25519_dalek::Signer;
use ed25519_dalek::Verifier;
use crate::ProcessError;
use crate::format::TextSignFormat;
use crate::genpass::all_allowed;
use crate::genpass::process_genpass;

verus! {

/// The 32-byte keyed digest that blake3::keyed_hash returns; it depends on
/// the key and message bytes alone.
pub uninterp spec fn blake3_keyed_digest(key: Seq<u8>, msg: Seq<u8>) -> Seq<u8>;

/// The 64-byte deterministic signature that the asymmetric scheme produces
/// for a message under the signing key derived from a 32-byte seed.
pub uninterp spec fn ed25519_signature_of(seed: Seq<u8>, msg: Seq<u8>) -> Seq<u8>;

/// The 32-byte public-key encoding derived from a 32-byte private seed.
pub uninterp spec fn ed25519_public_of(seed: Seq<u8>) -> Seq<u8>;

/// Whether 32 bytes are a legal public-key (curve point) encoding.
pub uninterp spec fn ed25519_pubkey_valid(key: Seq<u8>) -> bool;

/// Whether the asymmetric verification predicate accepts a 64-byte signature
/// for a message under a public key; it depends on the three byte sequences
/// alone.
pub uninterp spec fn ed25519_accepts(key: Seq<u8>, msg: Seq<u8>, sig: Seq<u8>) -> bool;

/// Whether the keyed-hash scheme accepts a signature for a message under a
/// key: the signature must be byte-identical to the keyed digest.
pub open spec fn blake3_accepts(key: Seq<u8>, msg: Seq<u8>, sig: Seq<u8>) -> bool {
    sig == blake3_keyed_digest(key, msg)
}

/// Relies on blake3::keyed_hash: the 32-byte keyed digest of the message
/// under a 32-byte key.
#[verifier::external_body]
fn blake3_keyed_hash(key: &[u8], msg: &[u8]) -> (r: Vec<u8>)
    requires
        key@.len() == 32,
    ensures
        r@ == blake3_keyed_digest(key@, msg@),
        r@.len() == 32,
{
    let k: &[u8; 32] = key.try_into().unwrap();
    blake3::keyed_hash(k, msg).as_bytes().to_vec()
}

/// Relies on ed25519_dalek's SigningKey::from_bytes and Signer::sign: the
/// 64-byte signature is a deterministic function of seed and message, and it
/// verifies under the public key derived from the same seed.
#[verifier::external_body]
fn ed25519_sign_bytes(seed: &[u8], msg: &[u8]) -> (r: Vec<u8>)
    requires
        seed@.len() == 32,
    ensures
        r@ == ed25519_signature_of(seed@, msg@),
        r@.len() == 64,
        ed25519_accepts(ed25519_public_of(seed@), msg@, r@),
{
    let s: [u8; 32] = seed.try_into().unwrap();
    let key = ed25519_dalek::SigningKey::from_bytes(&s);
    key.sign(msg).to_bytes().to_vec()
}

/// Relies on ed25519_dalek's SigningKey::from_bytes and
/// SigningKey::verifying_key: the 32-byte public key derived from the seed;
/// its encoding is a legal curve point, so it loads back as a verifying key.
#[verifier::external_body]
fn ed25519_derive_public(seed: &[u8]) -> (r: Vec<u8>)
    requires
        seed@.len() == 32,
    ensures
        r@ == ed25519_public_of(seed@),
        r@.len() == 32,
        ed25519_pubkey_valid(r@),
{
    let s: [u8; 32] = seed.try_into().unwrap();
    let key = ed25519_dalek::SigningKey::from_bytes(&s);
    key.verifying_key().to_bytes().to_vec()
}

/// Relies on ed25519_dalek's VerifyingKey::from_bytes: whether 32 bytes
/// decode to a verifying key, that is, form a legal curve point encoding.
#[verifier::external_body]
fn ed25519_check_pubkey(key: &[u8]) -> (r: bool)
    requires
        key@.len() == 32,
    ensures
        r == ed25519_pubkey_valid(key@),
{
    let k: [u8; 32] = key.try_into().unwrap();
    ed25519_dalek::VerifyingKey::from_bytes(&k).is_ok()
}

/// Relies on ed25519_dalek's VerifyingKey::from_bytes, Signature::from_bytes
/// and Verifier::verify: whether the verification predicate accepts the
/// 64-byte signature for the message under the legal public key.
#[verifier::external_body]
fn ed25519_verify_bytes(key: &[u8], msg: &[u8], sig: &[u8]) -> (r: bool)
    requires
        key@.len() == 32,
        ed25519_pubkey_valid(key@),
        sig@.len() == 64,
    ensures
        r == ed25519_accepts(key@, msg@, sig@),
{
    let k: [u8; 32] = key.try_into().unwrap();
    let vk = ed25519_dalek::VerifyingKey::from_bytes(&k).unwrap();
    let sb: [u8; 64] = sig.try_into().unwrap();
    let s = ed25519_dalek::Signature::from_bytes(&sb);
    vk.verify(msg, &s).is_ok()
}

/// Relies on rand's OsRng::try_fill_bytes: 32 bytes from the operating
/// system's secure random source, or nothing when that source fails.
#[verifier::external_body]
fn os_random_32() -> (r: Option<Vec<u8>>)
    ensures
        r matches Some(b) ==> b@.len() == 32,
{
    let mut buf = [0u8; 32];
    match rand::RngCore::try_fill_bytes(&mut rand::rngs::OsRng, &mut buf) {
        Ok(()) => Some(buf.to_vec()),
        Err(_) => None,
    }
}

/// Byte-exact comparison of two slices.
fn bytes_eq(a: &[u8], b: &[u8]) -> (r: bool)
    ensures
        r == (a@ == b@),
{
    if a.len() != b.len() {
        return false;
    }
    let mut i: usize = 0;
    while i < a.len()
        invariant
            i <= a@.len(),
            a@.len() == b@.len(),
            forall|j: int| 0 <= j < i ==> a@[j] == b@[j],
        decreases a@.len() - i,
    {
        if a[i] != b[i] {
            return false;
        }
        i = i + 1;
    }
    proof {
        assert(a@ =~= b@);
    }
    true
}

/// Takes the first 32 bytes of the supplied key material; material shorter
/// than 32 bytes is a key-format failure. Longer material is truncated, not
/// rejected.
pub fn take_key_bytes(key: &[u8]) -> (r: Result<Vec<u8>, ProcessError>)
    ensures
        key@.len() >= 32 ==> (r matches Ok(k) && k@ == key@.take(32)),
        key@.len() < 32 ==> r == Err::<Vec<u8>, ProcessError>(ProcessError::KeyFormat),
{
    if key.len() < 32 {
        return Err(ProcessError::KeyFormat);
    }
    let mut v: Vec<u8> = Vec::new();
    let mut i: usize = 0;
    while i < 32
        invariant
            key@.len() >= 32,
            i <= 32,
            v@ == key@.take(i as int),
        decreases 32 - i,
    {
        v.push(key[i]);
        i = i + 1;
        proof {
            assert(v@ =~= key@.take(i as int));
        }
    }
    Ok(v)
}

/// The uniform signing capability: drain the message and return the scheme's
/// fixed-size signature.
pub trait TextSigner {
    /// The scheme value holds legal key material.
    spec fn wf(&self) -> bool;

    /// The signature this scheme value returns for a message.
    spec fn signature_spec(&self, msg: Seq<u8>) -> Seq<u8>;

    /// Signs the full message.
    fn sign(&self, msg: &[u8]) -> (r: Result<Vec<u8>, ProcessError>)
        requires
            self.wf(),
        ensures
            r is Ok,
            r matches Ok(s) ==> s@ == self.signature_spec(msg@),
    ;
}

/// The uniform verification capability: drain the message and check the
/// supplied signature.
pub trait TextVerifier {
    /// The scheme value holds legal key material.
    spec fn wf(&self) -> bool;

    /// Which signatures this scheme value accepts for a message.
    spec fn accepts(&self, msg: Seq<u8>, sig: Seq<u8>) -> bool;

    /// Which signature shapes the call takes without error.
    spec fn sig_shape_ok(&self, sig: Seq<u8>) -> bool;

    /// Verifies the supplied signature against the full message.
    fn verify(&self, msg: &[u8], sig: &[u8]) -> (r: Result<bool, ProcessError>)
        requires
            self.wf(),
        ensures
            self.sig_shape_ok(sig@) ==> (r matches Ok(b) && b == self.accepts(msg@, sig@)),
            !self.sig_shape_ok(sig@) ==> r == Err::<bool, ProcessError>(
                ProcessError::SignatureFormat,
            ),
    ;
}

/// Scheme construction from key material: exactly 32 bytes are consumed, a
/// longer buffer is truncated to its first 32 bytes, a shorter one is a
/// key-format failure.
pub trait TextTryNew: Sized {
    /// The 32 key bytes the constructed value holds.
    spec fn key_view(&self) -> Seq<u8>;

    /// Builds the scheme value from exactly 32 key bytes.
    fn new(key: [u8; 32]) -> (r: Self)
        ensures
            r.key_view() == key@,
    ;

    /// Builds the scheme value from the first 32 bytes of the buffer.
    fn try_new(key: &[u8]) -> (r: Result<Self, ProcessError>)
        ensures
            key@.len() >= 32 ==> (r matches Ok(s) && s.key_view() == key@.take(32)),
            key@.len() < 32 ==> (r matches Err(e) && e == ProcessError::KeyFormat),
    ;
}

/// The keyed-hash scheme: a 32-byte secret key signs and verifies by a keyed
/// cryptographic hash.
pub struct Blake3 {
    key: Vec<u8>,
}

impl Blake3 {
    /// The secret key bytes.
    pub closed spec fn key_seq(&self) -> Seq<u8> {
        self.key@
    }

    /// The key invariant: exactly 32 bytes.
    pub open spec fn well_formed(&self) -> bool {
        self.key_seq().len() == 32
    }

    /// Generates fresh keyed-hash key material: one named entry holding the
    /// 32 bytes of a generated password drawn from all character classes.
    pub fn generate() -> (r: Result<Vec<(String, Vec<u8>)>, ProcessError>)
        ensures
            r is Ok,
            r matches Ok(b) ==> {
                &&& b@.len() == 1
                &&& b@[0].0@ == "auto_gen_blake3_key.txt"@
                &&& b@[0].1@.len() == 32
                &&& all_allowed(b@[0].1@, true, true, true, true)
            },
    {
        let key = match process_genpass(32, true, true, true, true) {
            Ok(k) => k,
            Err(e) => {
                return Err(e);
            },
        };
        let mut bundle: Vec<(String, Vec<u8>)> = Vec::new();
        bundle.push(("auto_gen_blake3_key.txt".to_owned(), key));
        Ok(bundle)
    }
}

impl TextTryNew for Blake3 {
    open spec fn key_view(&self) -> Seq<u8> {
        self.key_seq()
    }

    fn new(key: [u8; 32]) -> (r: Self)
        ensures
            r.key_view() == key@,
    {
        Blake3 { key: vstd::slice::slice_to_vec(key.as_slice()) }
    }

    fn try_new(key: &[u8]) -> (r: Result<Self, ProcessError>)
        ensures
            key@.len() >= 32 ==> (r matches Ok(s) && s.key_view() == key@.take(32)),
            key@.len() < 32 ==> (r matches Err(e) && e == ProcessError::KeyFormat),
    {
        match take_key_bytes(key) {
            Ok(k) => Ok(Blake3 { key: k }),
            Err(e) => Err(e),
        }
    }
}

impl TextSigner for Blake3 {
    open spec fn wf(&self) -> bool {
        self.well_formed()
    }

    open spec fn signature_spec(&self, msg: Seq<u8>) -> Seq<u8> {
        blake3_keyed_digest(self.key_seq(), msg)
    }

    fn sign(&self, msg: &[u8]) -> (r: Result<Vec<u8>, ProcessError>) {
        Ok(blake3_keyed_hash(self.key.as_slice(), msg))
    }
}

impl TextVerifier for Blake3 {
    open spec fn wf(&self) -> bool {
        self.well_formed()
    }

    open spec fn accepts(&self, msg: Seq<u8>, sig: Seq<u8>) -> bool {
        blake3_accepts(self.key_seq(), msg, sig)
    }

    /// Every signature shape is taken: a signature of the wrong size is
    /// rejected as `false`, never as an error.
    open spec fn sig_shape_ok(&self, sig: Seq<u8>) -> bool {
        true
    }

    fn verify(&self, msg: &[u8], sig: &[u8]) -> (r: Result<bool, ProcessError>) {
        let digest = blake3_keyed_hash(self.key.as_slice(), msg);
        if sig.len() != 32 {
            return Ok(false);
        }
        Ok(bytes_eq(sig, digest.as_slice()))
    }
}

/// The asymmetric signing half: a 32-byte private seed deterministically
/// derives the signing key.
pub struct Ed25519Signer {
    seed: Vec<u8>,
}

impl Ed25519Signer {
    /// The private seed bytes.
    pub closed spec fn seed_seq(&self) -> Seq<u8> {
        self.seed@
    }

    /// The seed invariant: exactly 32 bytes.
    pub open spec fn well_formed(&self) -> bool {
        self.seed_seq().len() == 32
    }

    /// Generates a fresh asymmetric key pair: a named entry with the 32-byte
    /// private seed, then a named entry with the matching 32-byte public key.
    pub fn generate() -> (r: Result<Vec<(String, Vec<u8>)>, ProcessError>)
        ensures
            r matches Ok(b) ==> {
                &&& b@.len() == 2
                &&& b@[0].0@ == "auto_gen_ed25519.sk"@
                &&& b@[1].0@ == "auto_gen_ed25519.pk"@
                &&& b@[0].1@.len() == 32
                &&& b@[1].1@ == ed25519_public_of(b@[0].1@)
                &&& ed25519_pubkey_valid(b@[1].1@)
            },
            r matches Err(e) ==> e == ProcessError::EntropySource,
    {
        let seed = match os_random_32() {
            Some(s) => s,
            None => {
                return Err(ProcessError::EntropySource);
            },
        };
        let public = ed25519_derive_public(seed.as_slice());
        let mut bundle: Vec<(String, Vec<u8>)> = Vec::new();
        bundle.push(("auto_gen_ed25519.sk".to_owned(), seed));
        bundle.push(("auto_gen_ed25519.pk".to_owned(), public));
        Ok(bundle)
    }
}

impl TextTryNew for Ed25519Signer {
    open spec fn key_view(&self) -> Seq<u8> {
        self.seed_seq()
    }

    fn new(key: [u8; 32]) -> (r: Self)
        ensures
            r.key_view() == key@,
    {
        Ed25519Signer { seed: vstd::slice::slice_to_vec(key.as_slice()) }
    }

    fn try_new(key: &[u8]) -> (r: Result<Self, ProcessError>)
        ensures
            key@.len() >= 32 ==> (r matches Ok(s) && s.key_view() == key@.take(32)),
            key@.len() < 32 ==> (r matches Err(e) && e == ProcessError::KeyFormat),
    {
        match take_key_bytes(key) {
            Ok(k) => Ok(Ed25519Signer { seed: k }),
            Err(e) => Err(e),
        }
    }
}

impl TextSigner for Ed25519Signer {
    open spec fn wf(&self) -> bool {
        self.well_formed()
    }

    open spec fn signature_spec(&self, msg: Seq<u8>) -> Seq<u8> {
        ed25519_signature_of(self.seed_seq(), msg)
    }

    fn sign(&self, msg: &[u8]) -> (r: Result<Vec<u8>, ProcessError>)
        ensures
            r matches Ok(s) ==> ed25519_accepts(ed25519_public_of(self.seed_seq()), msg@, s@),
    {
        Ok(ed25519_sign_bytes(self.seed.as_slice(), msg))
    }
}

/// The asymmetric verification half: a 32-byte public key, validated as a
/// legal curve point at construction.
pub struct Ed25519Verifier {
    key: Vec<u8>,
}

impl Ed25519Verifier {
    /// The public key bytes.
    pub closed spec fn pubkey_seq(&self) -> Seq<u8> {
        self.key@
    }

    /// The key invariant: exactly 32 bytes forming a legal point encoding.
    pub open spec fn well_formed(&self) -> bool {
        self.pubkey_seq().len() == 32 && ed25519_pubkey_valid(self.pubkey_seq())
    }

    /// Builds the verifier from the first 32 bytes of the buffer, which must
    /// form a legal public-key encoding.
    pub fn try_new(key: &[u8]) -> (r: Result<Self, ProcessError>)
        ensures
            r is Ok <==> key@.len() >= 32 && ed25519_pubkey_valid(key@.take(32)),
            r matches Ok(v) ==> v.pubkey_seq() == key@.take(32) && v.well_formed(),
            r matches Err(e) ==> e == ProcessError::KeyFormat,
    {
        let k = match take_key_bytes(key) {
            Ok(k) => k,
            Err(e) => {
                return Err(e);
            },
        };
        if !ed25519_check_pubkey(k.as_slice()) {
            return Err(ProcessError::KeyFormat);
        }
        Ok(Ed25519Verifier { key: k })
    }
}

impl TextVerifier for Ed25519Verifier {
    open spec fn wf(&self) -> bool {
        self.well_formed()
    }

    open spec fn accepts(&self, msg: Seq<u8>, sig: Seq<u8>) -> bool {
        ed25519_accepts(self.pubkey_seq(), msg, sig)
    }

    /// Only a signature of exactly 64 bytes is taken; any other length is a
    /// signature-format error.
    open spec fn sig_shape_ok(&self, sig: Seq<u8>) -> bool {
        sig.len() == 64
    }

    fn verify(&self, msg: &[u8], sig: &[u8]) -> (r: Result<bool, ProcessError>) {
        if sig.len() != 64 {
            return Err(ProcessError::SignatureFormat);
        }
        Ok(ed25519_verify_bytes(self.key.as_slice(), msg, sig))
    }
}

/// Signs the full message under the scheme the format tag selects, using the
/// first 32 bytes of the key material.
pub fn process_text_sign(msg: &[u8], key: &[u8], format: TextSignFormat) -> (r: Result<
    Vec<u8>,
    ProcessError,
>)
    ensures
        r is Ok <==> key@.len() >= 32,
        key@.len() < 32 ==> (r matches Err(e) && e == ProcessError::KeyFormat),
        r matches Ok(s) ==> s@ == match format {
            TextSignFormat::Blake3 => blake3_keyed_digest(key@.take(32), msg@),
            TextSignFormat::Ed25519 => ed25519_signature_of(key@.take(32), msg@),
        },
        r matches Ok(s) ==> (format == TextSignFormat::Ed25519 ==> ed25519_accepts(
            ed25519_public_of(key@.take(32)),
            msg@,
            s@,
        )),
{
    match format {
        TextSignFormat::Blake3 => {
            let signer = match Blake3::try_new(key) {
                Ok(s) => s,
                Err(e) => {
                    return Err(e);
                },
            };
            signer.sign(msg)
        },
        TextSignFormat::Ed25519 => {
            let signer = match Ed25519Signer::try_new(key) {
                Ok(s) => s,
                Err(e) => {
                    return Err(e);
                },
            };
            signer.sign(msg)
        },
    }
}

/// Verifies a signature over the full message under the scheme the format tag
/// selects, using the first 32 bytes of the key material. For the keyed-hash
/// scheme a signature of the wrong size is `false`; for the asymmetric scheme
/// it is a signature-format error.
pub fn process_text_verify(msg: &[u8], key: &[u8], sig: &[u8], format: TextSignFormat) -> (r:
    Result<bool, ProcessError>)
    ensures
        key@.len() < 32 ==> (r matches Err(e) && e == ProcessError::KeyFormat),
        format == TextSignFormat::Blake3 && key@.len() >= 32 ==> (r matches Ok(b) && b
            == blake3_accepts(key@.take(32), msg@, sig@)),
        format == TextSignFormat::Ed25519 && key@.len() >= 32 && !ed25519_pubkey_valid(
            key@.take(32),
        ) ==> (r matches Err(e) && e == ProcessError::KeyFormat),
        format == TextSignFormat::Ed25519 && key@.len() >= 32 && ed25519_pubkey_valid(
            key@.take(32),
        ) && sig@.len() != 64 ==> (r matches Err(e) && e == ProcessError::SignatureFormat),
        format == TextSignFormat::Ed25519 && key@.len() >= 32 && ed25519_pubkey_valid(
            key@.take(32),
        ) && sig@.len() == 64 ==> (r matches Ok(b) && b == ed25519_accepts(
            key@.take(32),
            msg@,
            sig@,
        )),
{
    match format {
        TextSignFormat::Blake3 => {
            let verifier = match Blake3::try_new(key) {
                Ok(v) => v,
                Err(e) => {
                    return Err(e);
                },
            };
            verifier.verify(msg, sig)
        },
        TextSignFormat::Ed25519 => {
            let verifier = match Ed25519Verifier::try_new(key) {
                Ok(v) => v,
                Err(e) => {
                    return Err(e);
                },
            };
            verifier.verify(msg, sig)
        },
    }
}

/// Generates ready-to-use key material for the scheme the format tag selects:
/// one named entry for the keyed-hash scheme, two (seed, then public key) for
/// the asymmetric scheme.
pub fn process_text_key_generate(format: TextSignFormat) -> (r: Result<
    Vec<(String, Vec<u8>)>,
    ProcessError,
>)
    ensures
        format == TextSignFormat::Blake3 ==> r is Ok,
        format == TextSignFormat::Blake3 ==> (r matches Ok(b) ==> {
            &&& b@.len() == 1
            &&& b@[0].0@ == "auto_gen_blake3_key.txt"@
            &&& b@[0].1@.len() == 32
        }),
        format == TextSignFormat::Ed25519 ==> (r matches Ok(b) ==> {
            &&& b@.len() == 2
            &&& b@[0].0@ == "auto_gen_ed25519.sk"@
            &&& b@[1].0@ == "auto_gen_ed25519.pk"@
            &&& b@[0].1@.len() == 32
            &&& b@[1].1@ == ed25519_public_of(b@[0].1@)
            &&& ed25519_pubkey_valid(b@[1].1@)
        }),
        format == TextSignFormat::Ed25519 ==> (r matches Err(e) ==> e
            == ProcessError::EntropySource),
{
    match format {
        TextSignFormat::Blake3 => Blake3::generate(),
        TextSignFormat::Ed25519 => Ed25519Signer::generate(),
    }
}

/// A keyed-hash signature over a message verifies under the same key: the
/// digest sign returns is exactly what verify compares against.
pub proof fn lemma_keyed_hash_round_trip(key: Seq<u8>, msg: Seq<u8>)
    ensures
        blake3_accepts(key, msg, blake3_keyed_digest(key, msg)),
{
}

/// Any signature that differs from the keyed digest — in particular one with
/// a single flipped bit — is rejected by keyed-hash verification.
pub proof fn lemma_keyed_hash_rejects_tampered(key: Seq<u8>, msg: Seq<u8>, sig: Seq<u8>)
    requires
        sig != blake3_keyed_digest(key, msg),
    ensures
        !blake3_accepts(key, msg, sig),
{
}

/// Keyed-hash signing is deterministic: any two signatures of the same
/// message under the same key are byte-identical.
pub proof fn lemma_blake3_sign_deterministic(key: Seq<u8>, msg: Seq<u8>, s1: Seq<u8>, s2: Seq<u8>)
    requires
        s1 == blake3_keyed_digest(key, msg),
        s2 == blake3_keyed_digest(key, msg),
    ensures
        s1 == s2,
{
}

/// Asymmetric signing is deterministic: any two signatures of the same
/// message under the same seed are byte-identical.
pub proof fn lemma_ed25519_sign_deterministic(seed: Seq<u8>, msg: Seq<u8>, s1: Seq<u8>, s2: Seq<u8>)
    requires
        s1 == ed25519_signature_of(seed, msg),
        s2 == ed25519_signature_of(seed, msg),
    ensures
        s1 == s2,
{
}

/// Loading exactly 32 generated key bytes back through the key-material
/// loader truncates to the same 32 bytes, so signatures made with the loaded
/// key equal signatures made with the generated one.
pub proof fn lemma_generated_key_round_trip(key: Seq<u8>, msg: Seq<u8>)
    requires
        key.len() == 32,
    ensures
        blake3_keyed_digest(key.take(32), msg) == blake3_keyed_digest(key, msg),
        ed25519_signature_of(key.take(32), msg) == ed25519_signature_of(key, msg),
{
    assert(key.take(32) =~= key);
}

} // verus!
