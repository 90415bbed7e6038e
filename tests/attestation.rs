use tropic01_hal::attestation::{
    check_outputs, check_proof_inputs, compute_transcript_hash, decrypt_l3_response,
    extract_chip_id_from_cert, AttestationError, AttestationProof, PrivateWitness, PublicInputs,
    SessionError, SessionRecorder, SessionTranscript, VerificationResult, verify_session,
};

fn transcript() -> SessionTranscript {
    let mut recorder = SessionRecorder::new();
    recorder.record_l2_frame(b"L2_HANDSHAKE_MSG_1");
    recorder.record_l2_frame(b"L2_HANDSHAKE_MSG_2");
    recorder.record_l3_packet(b"L3_CMD");
    recorder.record_l3_packet(b"L3_RESP");
    SessionTranscript {
        chip_id: vec![0u8; 128],
        device_cert: b"DEVICE_CERT".to_vec(),
        nonce: [7u8; 32],
        random_value: vec![0xAA; 32],
        timestamp: 1_000,
        pairing_key: [1u8; 32],
        l2_handshake_messages: recorder.l2_messages,
        l3_encrypted_packets: recorder.l3_packets,
        session_encrypt_key: [0u8; 32],
        session_decrypt_key: [0u8; 32],
        session_iv: 0,
    }
}

#[test]
fn recorder_keeps_order_and_copies() {
    let mut r = SessionRecorder::default();
    let frame = vec![1u8, 2, 3];
    r.record_l2_frame(&frame);
    r.record_l2_frame(&[4]);
    r.record_l3_packet(&[9, 9]);
    assert_eq!(r.l2_messages, vec![vec![1, 2, 3], vec![4]]);
    assert_eq!(r.l3_packets, vec![vec![9, 9]]);
}

#[test]
fn transcript_hash_covers_everything_in_order() {
    // SHA-256 of "abc", split over the three parts.
    let h = compute_transcript_hash(b"a", &[b"b".to_vec()], &[b"c".to_vec()]);
    assert_eq!(
        tropic01_hal::bytes_to_hex(&h),
        "ba7816bf8f01cfea414140de5dae2223b00361a396177a9cb410ff61f20015ad"
    );
    let empty = compute_transcript_hash(&[], &[], &[]);
    assert_eq!(
        tropic01_hal::bytes_to_hex(&empty),
        "e3b0c44298fc1c149afbf4c8996fb92427ae41e4649b934ca495991b7852b855"
    );
}

#[test]
fn placeholders_return_fixed_values() {
    assert_eq!(extract_chip_id_from_cert(b"x").unwrap(), vec![0u8; 128]);
    assert_eq!(decrypt_l3_response(&[0; 32], 0, b"x").unwrap(), vec![0xAA; 32]);
}

#[test]
fn session_check_succeeds_on_consistent_transcript() {
    let t = transcript();
    let public = PublicInputs::from_transcript(&t, b"ROOT".to_vec());
    let witness = PrivateWitness::from_transcript(&t);
    let v = verify_session(&public, &witness).unwrap();
    assert_eq!(v.random_value, vec![0xAA; 32]);
    assert_eq!(v.chip_id, vec![0u8; 128]);
    assert_eq!(v.nonce, [7u8; 32]);
    let expected = compute_transcript_hash(&t.device_cert, &t.l2_handshake_messages, &t.l3_encrypted_packets);
    assert_eq!(v.transcript_hash, expected);
}

#[test]
fn session_check_reports_first_failure() {
    let mut t = transcript();
    t.random_value = vec![1; 32];
    t.l3_encrypted_packets.truncate(1);
    let public = PublicInputs::from_transcript(&t, Vec::new());
    let witness = PrivateWitness::from_transcript(&t);
    assert_eq!(verify_session(&public, &witness).unwrap_err(), SessionError::MissingPackets);

    let mut t = transcript();
    t.chip_id[5] = 1;
    t.session_decrypt_key = [3; 32];
    let public = PublicInputs::from_transcript(&t, Vec::new());
    let witness = PrivateWitness::from_transcript(&t);
    assert_eq!(verify_session(&public, &witness).unwrap_err(), SessionError::ChipIdMismatch);

    let mut t = transcript();
    t.random_value = vec![0xAA; 31];
    let public = PublicInputs::from_transcript(&t, Vec::new());
    let witness = PrivateWitness::from_transcript(&t);
    assert_eq!(verify_session(&public, &witness).unwrap_err(), SessionError::RandomValueMismatch);
}

#[test]
fn proof_inputs_checks() {
    let t = transcript();
    let proof = AttestationProof::from_parts(&t, vec![1, 2], vec![3]);
    assert_eq!(proof.sp1_proof, vec![1, 2]);
    assert_eq!(check_proof_inputs(&proof, b"ROOT", 1_300), Ok(()));
    assert_eq!(check_proof_inputs(&proof, b"ROOT", 1_301), Err(AttestationError::StaleTimestamp));
    assert_eq!(check_proof_inputs(&proof, b"ROOT", 10), Ok(()));
    assert_eq!(check_proof_inputs(&proof, b"", 1_000), Err(AttestationError::MissingRootCa));
    let mut t2 = transcript();
    t2.device_cert.clear();
    let proof2 = AttestationProof::from_parts(&t2, Vec::new(), Vec::new());
    assert_eq!(check_proof_inputs(&proof2, b"", 1_000), Err(AttestationError::MissingDeviceCert));
}

#[test]
fn outputs_must_match_claims() {
    let t = transcript();
    let proof = AttestationProof::from_parts(&t, Vec::new(), Vec::new());
    let good = VerificationResult {
        random_value: t.random_value.clone(),
        chip_id: t.chip_id.clone(),
        nonce: t.nonce,
        transcript_hash: [0; 32],
    };
    assert_eq!(check_outputs(&good, &proof), Ok(()));
    let bad_nonce = VerificationResult { nonce: [0; 32], ..good };
    assert_eq!(check_outputs(&bad_nonce, &proof), Err(AttestationError::NonceMismatch));
    let bad_chip = VerificationResult { chip_id: vec![1], ..bad_nonce };
    assert_eq!(check_outputs(&bad_chip, &proof), Err(AttestationError::ChipIdMismatch));
    let bad_random = VerificationResult { random_value: vec![], ..bad_chip };
    assert_eq!(check_outputs(&bad_random, &proof), Err(AttestationError::RandomValueMismatch));
}
