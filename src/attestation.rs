//! Remote attestation of a session with the chip: the recorded transcript,
//! the inputs of the session check, the check itself, and the verifier's
//! checks around the proof.
//!
//! The certificate, handshake and packet checks are placeholders that accept
//! everything and return fixed values; the contracts below say exactly which.

use vstd::prelude::*;

verus! {

/// The SHA-256 digest of a byte sequence.
pub uninterp spec fn sha256_of(data: Seq<u8>) -> Seq<u8>;

/// Relies on sha2's `Sha256::digest`: the SHA-256 digest of the bytes, which
/// depends on them alone.
#[verifier::external_body]
fn sha256(data: &[u8]) -> (r: [u8; 32])
    ensures
        r@ == sha256_of(data@),
{
    <sha2::Sha256 as sha2::Digest>::digest(data).into()
}

/// The byte sequences of a list of buffers.
pub open spec fn views(s: Seq<Vec<u8>>) -> Seq<Seq<u8>> {
    s.map_values(|v: Vec<u8>| v@)
}

/// All the sequences one after the other.
pub open spec fn concat_all(s: Seq<Seq<u8>>) -> Seq<u8>
    decreases s.len(),
{
    if s.len() == 0 {
        Seq::empty()
    } else {
        concat_all(s.drop_last()) + s.last()
    }
}

/// What the transcript hash covers: the certificate, then every handshake
/// message, then every packet, in order.
pub open spec fn transcript_bytes(cert: Seq<u8>, l2: Seq<Seq<u8>>, l3: Seq<Seq<u8>>) -> Seq<u8> {
    cert + concat_all(l2) + concat_all(l3)
}

pub open spec fn zeros(n: nat) -> Seq<u8> {
    Seq::new(n, |i: int| 0u8)
}

/// The random value that the placeholder response decryption yields.
pub open spec fn placeholder_random() -> Seq<u8> {
    Seq::new(32, |i: int| 0xAAu8)
}

/// The complete transcript of a session, as recorded on the host.
#[derive(Debug)]
pub struct SessionTranscript {
    pub chip_id: Vec<u8>,
    pub device_cert: Vec<u8>,
    pub nonce: [u8; 32],
    pub random_value: Vec<u8>,
    pub timestamp: u64,
    /// Kept from the verifier.
    pub pairing_key: [u8; 32],
    pub l2_handshake_messages: Vec<Vec<u8>>,
    pub l3_encrypted_packets: Vec<Vec<u8>>,
    pub session_encrypt_key: [u8; 32],
    pub session_decrypt_key: [u8; 32],
    pub session_iv: u64,
}

/// Collects the frames and packets of a session as they pass.
#[derive(Debug)]
pub struct SessionRecorder {
    pub l2_messages: Vec<Vec<u8>>,
    pub l3_packets: Vec<Vec<u8>>,
}

/// What the verifier of a session knows.
#[derive(Debug)]
pub struct PublicInputs {
    /// The chip identification record (128 bytes).
    pub chip_id: Vec<u8>,
    /// The verifier's challenge.
    pub nonce: [u8; 32],
    /// The value claimed to come from the chip.
    pub random_value: Vec<u8>,
    pub timestamp: u64,
    /// The device certificate, DER.
    pub device_cert: Vec<u8>,
    /// The trusted root certificate, DER.
    pub root_ca_cert: Vec<u8>,
}

/// What the prover knows and the verifier does not.
#[derive(Debug)]
pub struct PrivateWitness {
    /// The X25519 pairing key.
    pub sh0_privkey: [u8; 32],
    pub l2_handshake_messages: Vec<Vec<u8>>,
    pub l3_encrypted_packets: Vec<Vec<u8>>,
    pub session_encrypt_key: [u8; 32],
    pub session_decrypt_key: [u8; 32],
    pub session_iv: u64,
}

/// What a successful session check commits to.
#[derive(Debug)]
pub struct VerificationResult {
    pub random_value: Vec<u8>,
    pub chip_id: Vec<u8>,
    pub nonce: [u8; 32],
    pub transcript_hash: [u8; 32],
}

/// What the prover sends to the verifier.
#[derive(Debug)]
pub struct AttestationProof {
    pub chip_id: Vec<u8>,
    pub device_cert: Vec<u8>,
    pub random_value: Vec<u8>,
    pub nonce: [u8; 32],
    pub timestamp: u64,
    /// The proof itself, serialized.
    pub sp1_proof: Vec<u8>,
    /// The values that the proven program committed.
    pub public_values: Vec<u8>,
}

/// Session keys derived from the handshake.
#[derive(Debug)]
pub struct SessionKeys {
    pub encrypt: [u8; 32],
    pub decrypt: [u8; 32],
}

/// Why a session check failed.
#[derive(Debug, Clone, Copy, PartialEq, Eq, Structural)]
pub enum SessionError {
    CertificateChain,
    ChipIdExtraction,
    ChipIdMismatch,
    PubkeyExtraction,
    Handshake,
    EncryptKeyMismatch,
    DecryptKeyMismatch,
    MissingPackets,
    L3Command,
    L3Response,
    RandomValueMismatch,
}

/// Why the verifier refused a proof.
#[derive(Debug, Clone, Copy, PartialEq, Eq, Structural)]
pub enum AttestationError {
    /// The proof is older than five minutes.
    StaleTimestamp,
    MissingDeviceCert,
    MissingRootCa,
    RandomValueMismatch,
    ChipIdMismatch,
    NonceMismatch,
}

/// How old a proof may be, in seconds.
pub const MAX_PROOF_AGE_SECS: u64 = 300;

impl SessionRecorder {
    /// A recorder with nothing recorded.
    pub fn new() -> (r: SessionRecorder)
        ensures
            r.l2_messages@.len() == 0,
            r.l3_packets@.len() == 0,
    {
        SessionRecorder { l2_messages: Vec::new(), l3_packets: Vec::new() }
    }

    /// Records a copy of a handshake frame after those already recorded.
    pub fn record_l2_frame(&mut self, frame: &[u8])
        ensures
            views(final(self).l2_messages@) == views(old(self).l2_messages@).push(frame@),
            final(self).l3_packets == old(self).l3_packets,
    {
        self.l2_messages.push(vstd::slice::slice_to_vec(frame));
        assert(views(self.l2_messages@) =~= views(old(self).l2_messages@).push(frame@));
    }

    /// Records a copy of an encrypted packet after those already recorded.
    pub fn record_l3_packet(&mut self, packet: &[u8])
        ensures
            views(final(self).l3_packets@) == views(old(self).l3_packets@).push(packet@),
            final(self).l2_messages == old(self).l2_messages,
    {
        self.l3_packets.push(vstd::slice::slice_to_vec(packet));
        assert(views(self.l3_packets@) =~= views(old(self).l3_packets@).push(packet@));
    }
}

impl Default for SessionRecorder {
    fn default() -> (r: SessionRecorder)
        ensures
            r.l2_messages@.len() == 0,
            r.l3_packets@.len() == 0,
    {
        SessionRecorder::new()
    }
}

fn copy_bytes(b: &[u8]) -> (r: Vec<u8>)
    ensures
        r@ == b@,
{
    vstd::slice::slice_to_vec(b)
}

fn copy_all(s: &[Vec<u8>]) -> (r: Vec<Vec<u8>>)
    ensures
        views(r@) == views(s@),
{
    let mut out: Vec<Vec<u8>> = Vec::new();
    let mut i: usize = 0;
    while i < s.len()
        invariant
            i <= s@.len(),
            views(out@) == views(s@.subrange(0, i as int)),
        decreases s@.len() - i,
    {
        let c = copy_bytes(s[i].as_slice());
        assert(c@ == s@[i as int]@);
        let ghost prev = out@;
        out.push(c);
        assert(views(out@) =~= views(prev).push(c@));
        i = i + 1;
        assert(views(s@.subrange(0, i as int)) =~= views(s@.subrange(0, i - 1)).push(c@));
    }
    assert(s@.subrange(0, i as int) =~= s@);
    out
}

fn bytes_eq(a: &[u8], b: &[u8]) -> (r: bool)
    ensures
        r == (a@ == b@),
{
    if a.len() != b.len() {
        return false;
    }
    let mut i: usize = 0;
    while i < a.len()
        invariant
            a@.len() == b@.len(),
            i <= a@.len(),
            forall|j: int| 0 <= j < i ==> a@[j] == b@[j],
        decreases a@.len() - i,
    {
        if a[i] != b[i] {
            return false;
        }
        i = i + 1;
    }
    assert(a@ =~= b@);
    true
}

impl PublicInputs {
    /// The public inputs of a recorded session, checked against `root_ca_cert`.
    pub fn from_transcript(t: &SessionTranscript, root_ca_cert: Vec<u8>) -> (r: PublicInputs)
        ensures
            r.chip_id@ == t.chip_id@,
            r.nonce == t.nonce,
            r.random_value@ == t.random_value@,
            r.timestamp == t.timestamp,
            r.device_cert@ == t.device_cert@,
            r.root_ca_cert == root_ca_cert,
    {
        PublicInputs {
            chip_id: copy_bytes(t.chip_id.as_slice()),
            nonce: t.nonce,
            random_value: copy_bytes(t.random_value.as_slice()),
            timestamp: t.timestamp,
            device_cert: copy_bytes(t.device_cert.as_slice()),
            root_ca_cert,
        }
    }
}

impl PrivateWitness {
    /// The private witness of a recorded session.
    pub fn from_transcript(t: &SessionTranscript) -> (r: PrivateWitness)
        ensures
            r.sh0_privkey == t.pairing_key,
            views(r.l2_handshake_messages@) == views(t.l2_handshake_messages@),
            views(r.l3_encrypted_packets@) == views(t.l3_encrypted_packets@),
            r.session_encrypt_key == t.session_encrypt_key,
            r.session_decrypt_key == t.session_decrypt_key,
            r.session_iv == t.session_iv,
    {
        PrivateWitness {
            sh0_privkey: t.pairing_key,
            l2_handshake_messages: copy_all(t.l2_handshake_messages.as_slice()),
            l3_encrypted_packets: copy_all(t.l3_encrypted_packets.as_slice()),
            session_encrypt_key: t.session_encrypt_key,
            session_decrypt_key: t.session_decrypt_key,
            session_iv: t.session_iv,
        }
    }
}

impl AttestationProof {
    /// The proof of a recorded session, from the serialized proof and the
    /// values it committed.
    pub fn from_parts(t: &SessionTranscript, sp1_proof: Vec<u8>, public_values: Vec<u8>) -> (r:
        AttestationProof)
        ensures
            r.chip_id@ == t.chip_id@,
            r.device_cert@ == t.device_cert@,
            r.random_value@ == t.random_value@,
            r.nonce == t.nonce,
            r.timestamp == t.timestamp,
            r.sp1_proof == sp1_proof,
            r.public_values == public_values,
    {
        AttestationProof {
            chip_id: copy_bytes(t.chip_id.as_slice()),
            device_cert: copy_bytes(t.device_cert.as_slice()),
            random_value: copy_bytes(t.random_value.as_slice()),
            nonce: t.nonce,
            timestamp: t.timestamp,
            sp1_proof,
            public_values,
        }
    }
}

/// Checks that the device certificate chains to the root; a placeholder
/// that accepts every pair.
pub fn verify_certificate_chain(_device_cert: &[u8], _root_ca_cert: &[u8]) -> (r: Result<
    (),
    &'static str,
>)
    ensures
        r == Ok::<(), &'static str>(()),
{
    Ok(())
}

/// The chip identification record named in a certificate; a placeholder
/// that yields 128 zero bytes.
pub fn extract_chip_id_from_cert(_cert: &[u8]) -> (r: Result<Vec<u8>, &'static str>)
    ensures
        r matches Ok(v) && v@ == zeros(128),
{
    let v: Vec<u8> = vec![0u8; 128];
    assert(v@ =~= zeros(128));
    Ok(v)
}

/// The X25519 public key in a certificate; a placeholder that yields 32
/// zero bytes.
pub fn extract_x25519_pubkey(_cert: &[u8]) -> (r: Result<[u8; 32], &'static str>)
    ensures
        r matches Ok(k) && k@ == zeros(32),
{
    let k: [u8; 32] = [0u8; 32];
    assert(k@ =~= zeros(32));
    Ok(k)
}

/// Replays the handshake and derives the session keys; a placeholder that
/// yields two all-zero keys.
pub fn verify_noise_handshake(
    _sh0_privkey: &[u8; 32],
    _stpub: &[u8; 32],
    _handshake_messages: &[Vec<u8>],
) -> (r: Result<SessionKeys, &'static str>)
    ensures
        r matches Ok(k) && k.encrypt@ == zeros(32) && k.decrypt@ == zeros(32),
{
    let keys = SessionKeys { encrypt: [0u8; 32], decrypt: [0u8; 32] };
    assert(keys.encrypt@ =~= zeros(32));
    assert(keys.decrypt@ =~= zeros(32));
    Ok(keys)
}

/// Checks that the encrypted command asks for a random value bound to the
/// nonce; a placeholder that accepts every command.
pub fn verify_l3_command(
    _session_key: &[u8; 32],
    _iv: u64,
    _encrypted_cmd: &[u8],
    _nonce: &[u8; 32],
) -> (r: Result<(), &'static str>)
    ensures
        r == Ok::<(), &'static str>(()),
{
    Ok(())
}

/// Decrypts the response and takes out the random value; a placeholder that
/// yields 32 bytes of `0xAA`.
pub fn decrypt_l3_response(_session_key: &[u8; 32], _iv: u64, _encrypted_resp: &[u8]) -> (r:
    Result<Vec<u8>, &'static str>)
    ensures
        r matches Ok(v) && v@ == placeholder_random(),
{
    let v: Vec<u8> = vec![0xAAu8; 32];
    assert(v@ =~= placeholder_random());
    Ok(v)
}

fn append_all(out: &mut Vec<u8>, s: &[Vec<u8>])
    ensures
        final(out)@ == old(out)@ + concat_all(views(s@)),
{
    let ghost start = out@;
    let mut i: usize = 0;
    while i < s.len()
        invariant
            i <= s@.len(),
            out@ == start + concat_all(views(s@.subrange(0, i as int))),
        decreases s@.len() - i,
    {
        let m = &s[i];
        let mut j: usize = 0;
        let ghost before = out@;
        while j < m.len()
            invariant
                j <= m@.len(),
                out@ == before + m@.subrange(0, j as int),
            decreases m@.len() - j,
        {
            out.push(m[j]);
            j = j + 1;
            assert(out@ =~= before + m@.subrange(0, j as int));
        }
        i = i + 1;
        assert(views(s@.subrange(0, i as int)).drop_last() =~= views(s@.subrange(0, i - 1)));
        assert(m@.subrange(0, j as int) =~= m@);
        assert(out@ =~= start + concat_all(views(s@.subrange(0, i as int))));
    }
    assert(s@.subrange(0, i as int) =~= s@);
}

/// The SHA-256 digest of the certificate, every handshake message and every
/// packet, in that order.
pub fn compute_transcript_hash(device_cert: &[u8], l2_messages: &[Vec<u8>], l3_packets: &[Vec<u8>]) -> (r: [u8; 32])
    ensures
        r@ == sha256_of(transcript_bytes(device_cert@, views(l2_messages@), views(l3_packets@))),
{
    let mut all = copy_bytes(device_cert);
    append_all(&mut all, l2_messages);
    append_all(&mut all, l3_packets);
    sha256(all.as_slice())
}

/// The first check of a session that fails, if any: the chip identity in the
/// certificate, the derived keys, the number of packets, and the decrypted
/// random value, in that order.
pub open spec fn session_error(public: PublicInputs, witness: PrivateWitness) -> Option<SessionError> {
    if public.chip_id@ != zeros(128) {
        Some(SessionError::ChipIdMismatch)
    } else if witness.session_encrypt_key@ != zeros(32) {
        Some(SessionError::EncryptKeyMismatch)
    } else if witness.session_decrypt_key@ != zeros(32) {
        Some(SessionError::DecryptKeyMismatch)
    } else if witness.l3_encrypted_packets@.len() < 2 {
        Some(SessionError::MissingPackets)
    } else if public.random_value@ != placeholder_random() {
        Some(SessionError::RandomValueMismatch)
    } else {
        None
    }
}

/// Checks a session against its public inputs: certificate chain, chip
/// identity, handshake and keys, the command and its decrypted response; then
/// commits to the random value, chip identity, nonce and transcript hash.
pub fn verify_session(public: &PublicInputs, witness: &PrivateWitness) -> (r: Result<
    VerificationResult,
    SessionError,
>)
    ensures
        match r {
            Ok(v) => {
                &&& session_error(*public, *witness) is None
                &&& v.random_value@ == public.random_value@
                &&& v.chip_id@ == public.chip_id@
                &&& v.nonce == public.nonce
                &&& v.transcript_hash@ == sha256_of(
                    transcript_bytes(
                        public.device_cert@,
                        views(witness.l2_handshake_messages@),
                        views(witness.l3_encrypted_packets@),
                    ),
                )
            },
            Err(e) => session_error(*public, *witness) == Some(e),
        },
{
    if verify_certificate_chain(public.device_cert.as_slice(), public.root_ca_cert.as_slice()).is_err() {
        return Err(SessionError::CertificateChain);
    }
    let cert_chip_id = match extract_chip_id_from_cert(public.device_cert.as_slice()) {
        Ok(v) => v,
        Err(_) => return Err(SessionError::ChipIdExtraction),
    };
    if !bytes_eq(cert_chip_id.as_slice(), public.chip_id.as_slice()) {
        return Err(SessionError::ChipIdMismatch);
    }
    let stpub = match extract_x25519_pubkey(public.device_cert.as_slice()) {
        Ok(k) => k,
        Err(_) => return Err(SessionError::PubkeyExtraction),
    };
    let keys = match verify_noise_handshake(
        &witness.sh0_privkey,
        &stpub,
        witness.l2_handshake_messages.as_slice(),
    ) {
        Ok(k) => k,
        Err(_) => return Err(SessionError::Handshake),
    };
    if !bytes_eq(&keys.encrypt, &witness.session_encrypt_key) {
        return Err(SessionError::EncryptKeyMismatch);
    }
    if !bytes_eq(&keys.decrypt, &witness.session_decrypt_key) {
        return Err(SessionError::DecryptKeyMismatch);
    }
    if witness.l3_encrypted_packets.len() < 2 {
        return Err(SessionError::MissingPackets);
    }
    let encrypted_cmd = &witness.l3_encrypted_packets[0];
    let encrypted_resp = &witness.l3_encrypted_packets[1];
    if verify_l3_command(
        &witness.session_encrypt_key,
        witness.session_iv,
        encrypted_cmd.as_slice(),
        &public.nonce,
    ).is_err() {
        return Err(SessionError::L3Command);
    }
    let decrypted = match decrypt_l3_response(
        &witness.session_decrypt_key,
        witness.session_iv,
        encrypted_resp.as_slice(),
    ) {
        Ok(v) => v,
        Err(_) => return Err(SessionError::L3Response),
    };
    if !bytes_eq(decrypted.as_slice(), public.random_value.as_slice()) {
        return Err(SessionError::RandomValueMismatch);
    }
    let transcript_hash = compute_transcript_hash(
        public.device_cert.as_slice(),
        witness.l2_handshake_messages.as_slice(),
        witness.l3_encrypted_packets.as_slice(),
    );
    Ok(
        VerificationResult {
            random_value: copy_bytes(public.random_value.as_slice()),
            chip_id: copy_bytes(public.chip_id.as_slice()),
            nonce: public.nonce,
            transcript_hash,
        },
    )
}

/// Whether a proof made at `timestamp` is still fresh at `now`: at most five
/// minutes old (a timestamp in the future counts as age zero).
pub open spec fn is_fresh(now: u64, timestamp: u64) -> bool {
    now <= timestamp || now - timestamp <= MAX_PROOF_AGE_SECS
}

/// The verifier's checks before the proof itself is verified: freshness,
/// then that the device and root certificates are present.
pub fn check_proof_inputs(proof: &AttestationProof, root_ca_cert: &[u8], now: u64) -> (r: Result<
    (),
    AttestationError,
>)
    ensures
        !is_fresh(now, proof.timestamp) ==> r == Err::<(), AttestationError>(
            AttestationError::StaleTimestamp,
        ),
        is_fresh(now, proof.timestamp) && proof.device_cert@.len() == 0 ==> r == Err::<
            (),
            AttestationError,
        >(AttestationError::MissingDeviceCert),
        is_fresh(now, proof.timestamp) && proof.device_cert@.len() > 0 && root_ca_cert@.len()
            == 0 ==> r == Err::<(), AttestationError>(AttestationError::MissingRootCa),
        is_fresh(now, proof.timestamp) && proof.device_cert@.len() > 0 && root_ca_cert@.len()
            > 0 ==> r == Ok::<(), AttestationError>(()),
{
    let age = if now > proof.timestamp {
        now - proof.timestamp
    } else {
        0
    };
    if age > MAX_PROOF_AGE_SECS {
        return Err(AttestationError::StaleTimestamp);
    }
    if proof.device_cert.len() == 0 {
        return Err(AttestationError::MissingDeviceCert);
    }
    if root_ca_cert.len() == 0 {
        return Err(AttestationError::MissingRootCa);
    }
    Ok(())
}

/// The verifier's checks after the proof: the committed random value, chip
/// identity and nonce must be those the proof claims, checked in that order.
pub fn check_outputs(result: &VerificationResult, proof: &AttestationProof) -> (r: Result<
    (),
    AttestationError,
>)
    ensures
        result.random_value@ != proof.random_value@ ==> r == Err::<(), AttestationError>(
            AttestationError::RandomValueMismatch,
        ),
        result.random_value@ == proof.random_value@ && result.chip_id@ != proof.chip_id@ ==> r
            == Err::<(), AttestationError>(AttestationError::ChipIdMismatch),
        result.random_value@ == proof.random_value@ && result.chip_id@ == proof.chip_id@
            && result.nonce@ != proof.nonce@ ==> r == Err::<(), AttestationError>(
            AttestationError::NonceMismatch,
        ),
        result.random_value@ == proof.random_value@ && result.chip_id@ == proof.chip_id@
            && result.nonce@ == proof.nonce@ ==> r == Ok::<(), AttestationError>(()),
{
    if !bytes_eq(result.random_value.as_slice(), proof.random_value.as_slice()) {
        return Err(AttestationError::RandomValueMismatch);
    }
    if !bytes_eq(result.chip_id.as_slice(), proof.chip_id.as_slice()) {
        return Err(AttestationError::ChipIdMismatch);
    }
    if !bytes_eq(&result.nonce, &proof.nonce) {
        return Err(AttestationError::NonceMismatch);
    }
    Ok(())
}

} // verus!
