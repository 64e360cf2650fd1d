use base64::Engine;
use libnoir_ffi::dispatch::{Command, Response};
use libnoir_ffi::error::{DecodeStage, DecimalError, Error};
use libnoir_ffi::response::{encode_response, ProofResponse, VerificationKey};
use libnoir_ffi::workflow::{
    get_vk_finish, get_vk_request, prove_begin, prove_finish, prove_request_proof,
    prove_request_vk, read_bytecode, read_settings, verify_finish, verify_request,
    verify_verdict,
};
use std::io::Write;

const SETTINGS: &[u8] = br#"{"ipa_accumulation":false,"oracle_hash_type":"poseidon2","disable_zk":false,"optimized_solidity_verifier":false}"#;

fn transport(bytes: &[u8]) -> String {
    let mut encoder = flate2::write::GzEncoder::new(Vec::new(), flate2::Compression::default());
    encoder.write_all(bytes).unwrap();
    base64::engine::general_purpose::STANDARD.encode(encoder.finish().unwrap())
}

fn key() -> VerificationKey {
    VerificationKey { bytes: vec![0xaa, 0xbb], fields: vec![vec![1u8; 32]], hash: vec![2u8; 32] }
}

fn proof_response() -> ProofResponse {
    ProofResponse { public_inputs: vec![vec![1u8; 32]], proof: vec![vec![9u8; 32]; 4], vk: key() }
}

fn witness_envelope_of_one() -> Vec<u8> {
    let mut expected = vec![2u8, 0x91, 0x91, 0x92, 0x00, 0x81, 0x00, 0xc4, 0x20];
    expected.extend_from_slice(&[0u8; 31]);
    expected.push(1);
    expected
}

#[test]
fn prove_walks_through_its_steps() {
    let text = transport(b"bytecode");
    let (bytecode, json) =
        prove_begin(Some(text.as_bytes()), Some(br#"{"witness": ["0x01"]}"#)).unwrap();
    assert_eq!(bytecode, b"bytecode");
    assert_eq!(json, r#"{"witness": ["0x01"]}"#);

    let (command, state) =
        prove_request_vk(bytecode, Ok(vec!["0x01".to_string()]), Some(SETTINGS)).unwrap();
    match command {
        Command::CircuitComputeVk { circuit, settings } => {
            assert_eq!(circuit.name, "circuit");
            assert_eq!(circuit.bytecode, b"bytecode");
            assert_eq!(settings.oracle_hash_type, "poseidon2");
        }
        other => panic!("asked for {:?}", other),
    }
    assert_eq!(state.bytecode, b"bytecode");
    assert_eq!(state.witness, witness_envelope_of_one());

    let command =
        prove_request_proof(state, Ok(Response::CircuitComputeVkResponse(key()))).unwrap();
    match command {
        Command::CircuitProve { circuit, witness, settings } => {
            assert_eq!(circuit.name, "circuit");
            assert_eq!(circuit.bytecode, b"bytecode");
            assert_eq!(circuit.verification_key, vec![0xaa, 0xbb]);
            assert_eq!(witness, witness_envelope_of_one());
            assert_eq!(settings.oracle_hash_type, "poseidon2");
        }
        other => panic!("asked for {:?}", other),
    }

    let envelope = prove_finish(Ok(Response::CircuitProveResponse(proof_response()))).unwrap();
    assert!(!envelope.is_empty());
    assert_eq!(envelope, encode_response(&proof_response()).unwrap());
}

#[test]
fn prove_begin_reports_the_first_fault() {
    let text = transport(b"bytecode");
    assert!(matches!(prove_begin(None, None), Err(Error::NullInput)));
    assert!(matches!(prove_begin(Some(&[0xff]), None), Err(Error::InvalidUtf8(_))));
    assert!(matches!(
        prove_begin(Some(b"!!!!"), None),
        Err(Error::Decode(DecodeStage::Base64, _))
    ));
    assert!(matches!(
        prove_begin(Some(b"AAAA"), None),
        Err(Error::Decode(DecodeStage::Gzip, _))
    ));
    assert!(matches!(prove_begin(Some(text.as_bytes()), None), Err(Error::NullInput)));
    assert!(matches!(
        prove_begin(Some(text.as_bytes()), Some(&[0xc0])),
        Err(Error::InvalidUtf8(_))
    ));
}

#[test]
fn prove_request_vk_reports_faults_in_order() {
    let bad_json = || Err::<Vec<String>, String>("expected value".to_string());
    let fault = prove_request_vk(vec![1], bad_json(), None).unwrap_err();
    assert!(matches!(&fault, Error::WitnessJson(text) if text == "expected value"));
    assert_eq!(fault.message(), "expected value");

    let bad_value = || Ok::<Vec<String>, String>(vec!["nope".to_string()]);
    assert!(matches!(prove_request_vk(vec![1], bad_value(), None), Err(Error::NullInput)));
    assert!(matches!(
        prove_request_vk(vec![1], bad_value(), Some(&[0xff])),
        Err(Error::InvalidUtf8(_))
    ));
    assert!(matches!(
        prove_request_vk(vec![1], bad_value(), Some(b"{}")),
        Err(Error::SettingsJson(_))
    ));
    assert!(matches!(
        prove_request_vk(vec![1], bad_value(), Some(SETTINGS)),
        Err(Error::FieldDecimal(DecimalError::InvalidDigit))
    ));
}

#[test]
fn prove_stops_at_a_backend_failure() {
    let (_, state) = prove_request_vk(vec![1], Ok(Vec::new()), Some(SETTINGS)).unwrap();
    let fault = prove_request_proof(state, Err(Error::Backend("down".to_string()))).unwrap_err();
    assert!(matches!(&fault, Error::Backend(text) if text == "down"));
    let fault = prove_finish(Err(Error::Backend("down".to_string()))).unwrap_err();
    assert!(matches!(&fault, Error::Backend(text) if text == "down"));
}

#[test]
fn prove_rejects_a_mismatched_response() {
    let (_, state) = prove_request_vk(vec![1], Ok(Vec::new()), Some(SETTINGS)).unwrap();
    let fault = prove_request_proof(state, Ok(Response::CircuitVerifyResponse(true))).unwrap_err();
    assert!(matches!(fault, Error::UnexpectedResponse));
    assert_eq!(fault.message(), "Unexpected response");
    assert!(matches!(
        prove_finish(Ok(Response::CircuitComputeVkResponse(key()))),
        Err(Error::UnexpectedResponse)
    ));
    assert!(matches!(
        prove_finish(Ok(Response::Other("ErrorResponse".to_string()))),
        Err(Error::UnexpectedResponse)
    ));
}

#[test]
fn get_vk_asks_for_the_key_and_returns_its_bytes() {
    let text = transport(b"circuit bytes");
    match get_vk_request(Some(text.as_bytes()), Some(SETTINGS)).unwrap() {
        Command::CircuitComputeVk { circuit, settings } => {
            assert_eq!(circuit.name, "circuit");
            assert_eq!(circuit.bytecode, b"circuit bytes");
            assert!(!settings.disable_zk);
        }
        other => panic!("asked for {:?}", other),
    }
    assert_eq!(
        get_vk_finish(Ok(Response::CircuitComputeVkResponse(key()))).unwrap(),
        vec![0xaa, 0xbb]
    );
}

#[test]
fn get_vk_reports_faults_in_order() {
    let text = transport(b"circuit bytes");
    assert!(matches!(get_vk_request(None, Some(b"{}")), Err(Error::NullInput)));
    assert!(matches!(
        get_vk_request(Some(b"!"), Some(b"{}")),
        Err(Error::Decode(DecodeStage::Base64, _))
    ));
    assert!(matches!(get_vk_request(Some(text.as_bytes()), None), Err(Error::NullInput)));
    assert!(matches!(
        get_vk_request(Some(text.as_bytes()), Some(b"{}")),
        Err(Error::SettingsJson(_))
    ));
    assert!(matches!(
        get_vk_finish(Ok(Response::CircuitVerifyResponse(true))),
        Err(Error::UnexpectedResponse)
    ));
    assert!(matches!(
        get_vk_finish(Err(Error::UnsupportedCommand)),
        Err(Error::UnsupportedCommand)
    ));
}

#[test]
fn verify_asks_with_what_the_envelope_holds() {
    let envelope = encode_response(&proof_response()).unwrap();
    match verify_request(Some(&envelope), Some(&[0xaa, 0xbb]), Some(SETTINGS)).unwrap() {
        Command::CircuitVerify { verification_key, public_inputs, proof, settings } => {
            assert_eq!(verification_key, vec![0xaa, 0xbb]);
            assert_eq!(public_inputs, proof_response().public_inputs);
            assert_eq!(proof, proof_response().proof);
            assert_eq!(settings.oracle_hash_type, "poseidon2");
        }
        other => panic!("asked for {:?}", other),
    }
}

#[test]
fn verify_reports_faults_in_order() {
    let envelope = encode_response(&proof_response()).unwrap();
    assert!(matches!(verify_request(None, Some(&[1]), Some(SETTINGS)), Err(Error::NullInput)));
    assert!(matches!(verify_request(Some(&envelope), None, Some(SETTINGS)), Err(Error::NullInput)));
    assert!(matches!(verify_request(Some(&[0xc1]), Some(&[1]), None), Err(Error::NullInput)));
    assert!(matches!(
        verify_request(Some(&[0xc1]), Some(&[1]), Some(b"{}")),
        Err(Error::SettingsJson(_))
    ));
    assert!(matches!(
        verify_request(Some(&[0xc1]), Some(&[1]), Some(SETTINGS)),
        Err(Error::ResponseDecoding(_))
    ));
}

#[test]
fn tampered_envelope_that_no_longer_decodes_is_not_verified() {
    let mut envelope = encode_response(&proof_response()).unwrap();
    envelope[0] ^= 0xff;
    let request = verify_request(Some(&envelope), Some(&[0xaa]), Some(SETTINGS));
    assert!(request.is_err());
    assert!(!verify_verdict(request.map(|_| true)));
}

#[test]
fn tampered_proof_byte_reaches_the_backend_changed() {
    let mut envelope = encode_response(&proof_response()).unwrap();
    let place = envelope.windows(32).position(|w| w == [9u8; 32]).unwrap();
    envelope[place] ^= 0x01;
    match verify_request(Some(&envelope), Some(&[0xaa]), Some(SETTINGS)).unwrap() {
        Command::CircuitVerify { public_inputs, proof, .. } => {
            assert_eq!(public_inputs, proof_response().public_inputs);
            assert_eq!(proof[0][0], 8);
            assert_eq!(&proof[0][1..], &[9u8; 31]);
            assert_eq!(&proof[1..], &proof_response().proof[1..]);
        }
        other => panic!("asked for {:?}", other),
    }
}

#[test]
fn verify_finish_takes_the_flag() {
    assert_eq!(verify_finish(Ok(Response::CircuitVerifyResponse(true))).unwrap(), true);
    assert_eq!(verify_finish(Ok(Response::CircuitVerifyResponse(false))).unwrap(), false);
    assert!(matches!(
        verify_finish(Ok(Response::CircuitProveResponse(proof_response()))),
        Err(Error::UnexpectedResponse)
    ));
    assert!(matches!(
        verify_finish(Err(Error::Backend("x".to_string()))),
        Err(Error::Backend(_))
    ));
}

#[test]
fn verdict_is_false_for_every_failure() {
    assert!(verify_verdict(Ok(true)));
    assert!(!verify_verdict(Ok(false)));
    assert!(!verify_verdict(Err(Error::NullInput)));
    assert!(!verify_verdict(Err(Error::Backend("down".to_string()))));
    assert!(!verify_verdict(Err(Error::Initialization("gone".to_string()))));
    assert!(!verify_verdict(verify_finish(Ok(Response::Other("x".to_string())))));
}

#[test]
fn arguments_are_read_as_text_first() {
    assert!(matches!(read_settings(None), Err(Error::NullInput)));
    assert!(read_settings(Some(SETTINGS)).is_ok());
    assert!(matches!(read_bytecode(None), Err(Error::NullInput)));
    assert_eq!(read_bytecode(Some(transport(b"x").as_bytes())).unwrap(), b"x");
}
