use verifier_client::addr::Address;
use verifier_client::client::VerificationClient;
use verifier_client::codec::compress_round_trip;
use verifier_client::session::{
    advance, decode_return_data, SessionEvent, SessionState, SubmissionError,
};

fn addr(b: u8) -> Address {
    Address { bytes: [b; 32] }
}

fn program_key(b: u8) -> solana_pubkey::Pubkey {
    solana_pubkey::Pubkey::new_from_array([b; 32])
}

fn sample_client() -> VerificationClient {
    VerificationClient::try_new(addr(7), addr(9), addr(11)).expect("derivation failed")
}

fn sample_report() -> Vec<u8> {
    (0u8..64).collect()
}

#[test]
fn constructor_derives_verifier_config() {
    let c = sample_client();
    let expected =
        solana_pubkey::Pubkey::find_program_address(&[b"verifier"], &program_key(7)).0;
    assert_eq!(c.verifier_client_data_account.bytes, expected.to_bytes());
    assert_ne!(c.verifier_client_data_account.bytes, [7u8; 32]);
    assert_eq!(c.program_id.bytes, [7u8; 32]);
    assert_eq!(c.access_controller_data_account.bytes, [9u8; 32]);
    assert_eq!(c.payer.bytes, [11u8; 32]);
}

#[test]
fn begin_verify_builds_one_instruction_with_five_addresses() {
    let c = sample_client();
    let report = sample_report();
    let st = c.begin_verify(&report).expect("derivation failed");
    match st {
        SessionState::AwaitingBlockhash { instruction } => {
            assert_eq!(instruction.program_id.bytes, c.program_id.bytes);
            assert_eq!(
                instruction.verifier_account.bytes,
                c.verifier_client_data_account.bytes
            );
            assert_eq!(
                instruction.access_controller.bytes,
                c.access_controller_data_account.bytes
            );
            assert_eq!(instruction.payer.bytes, c.payer.bytes);
            let expected_config =
                solana_pubkey::Pubkey::find_program_address(&[&report[..32]], &program_key(7)).0;
            assert_eq!(instruction.config_account.bytes, expected_config.to_bytes());
            let expected_compressed =
                snap::raw::Encoder::new().compress_vec(&report).expect("compress");
            assert_eq!(instruction.compressed_report, expected_compressed);
            assert_ne!(instruction.compressed_report, report);
        }
        _ => panic!("expected a session awaiting the blockhash"),
    }
}

#[test]
fn config_address_is_deterministic() {
    let c = sample_client();
    let report = sample_report();
    let a1 = c.config_address(&report).expect("derivation failed");
    let a2 = c.config_address(&report).expect("derivation failed");
    assert_eq!(a1.bytes, a2.bytes);
    assert_ne!(a1.bytes, c.program_id.bytes);
}

#[test]
fn short_report_uses_whole_report_as_seed() {
    let c = sample_client();
    let report = vec![1u8, 2, 3];
    let a = c.config_address(&report).expect("derivation failed");
    let expected =
        solana_pubkey::Pubkey::find_program_address(&[&report[..]], &program_key(7)).0;
    assert_eq!(a.bytes, expected.to_bytes());
}

#[test]
fn compression_round_trip() {
    let report = vec![0u8; 100];
    assert_eq!(compress_round_trip(&report), report);
    let compressed = snap::raw::Encoder::new().compress_vec(&report).expect("compress");
    assert!(compressed.len() < report.len());

    let empty: Vec<u8> = Vec::new();
    assert_eq!(compress_round_trip(&empty), empty);
}

#[test]
fn full_session_with_return_data() {
    let c = sample_client();
    let st = c.begin_verify(&sample_report()).expect("derivation failed");
    let st = advance(st, SessionEvent::BlockhashFetched(Ok(vec![5u8; 32])));
    assert!(matches!(st, SessionState::AwaitingSubmission { .. }));
    let st = advance(st, SessionEvent::TransactionSubmitted(Ok(vec![6u8; 64])));
    assert!(matches!(st, SessionState::AwaitingTransaction { .. }));
    let st = advance(
        st,
        SessionEvent::TransactionFetched(Ok(Some(String::from("AQID")))),
    );
    match st {
        SessionState::Complete { outcome: Ok(v) } => {
            assert_eq!(v.signature, vec![6u8; 64]);
            assert_eq!(v.return_data, Some(vec![1u8, 2, 3]));
        }
        _ => panic!("expected a completed session with a decoded payload"),
    }
}

#[test]
fn absent_return_data_is_success_without_payload() {
    let st = SessionState::AwaitingTransaction { signature: vec![6u8; 64] };
    let st = advance(st, SessionEvent::TransactionFetched(Ok(None)));
    match st {
        SessionState::Complete { outcome: Ok(v) } => {
            assert_eq!(v.signature, vec![6u8; 64]);
            assert!(v.return_data.is_none());
        }
        _ => panic!("an absent return-data field must not be an error"),
    }
}

#[test]
fn valid_base64_decodes_to_bytes() {
    match decode_return_data(Some(String::from("AQID"))) {
        Ok(Some(bytes)) => assert_eq!(bytes, vec![1u8, 2, 3]),
        _ => panic!("valid base64 must decode"),
    }
}

#[test]
fn invalid_base64_is_a_decode_error() {
    match decode_return_data(Some(String::from("!!!"))) {
        Err(SubmissionError::Decode(_)) => {}
        _ => panic!("invalid base64 must fail with a decode error"),
    }
}

#[test]
fn invalid_return_data_fails_session_with_decode() {
    let st = SessionState::AwaitingTransaction { signature: vec![6u8; 64] };
    let st = advance(
        st,
        SessionEvent::TransactionFetched(Ok(Some(String::from("!!!")))),
    );
    match st {
        SessionState::Complete { outcome: Err(SubmissionError::Decode(_)) } => {}
        _ => panic!("invalid base64 must not silently become an empty payload"),
    }
}

#[test]
fn blockhash_failure_is_rpc_error_before_submission() {
    let c = sample_client();
    let st = c.begin_verify(&sample_report()).expect("derivation failed");
    let st = advance(
        st,
        SessionEvent::BlockhashFetched(Err(String::from("endpoint down"))),
    );
    match st {
        SessionState::Complete { outcome: Err(SubmissionError::Rpc(detail)) } => {
            assert_eq!(detail, "endpoint down");
        }
        _ => panic!("a failed blockhash fetch must end the session with an Rpc error"),
    }
}

#[test]
fn submit_failure_is_rpc_error() {
    let st = SessionState::AwaitingSubmission {
        instruction: sample_instruction(),
        blockhash: vec![5u8; 32],
    };
    let st = advance(
        st,
        SessionEvent::TransactionSubmitted(Err(String::from("rejected"))),
    );
    assert!(matches!(
        st,
        SessionState::Complete { outcome: Err(SubmissionError::Rpc(_)) }
    ));
}

#[test]
fn fetch_failure_is_rpc_error() {
    let st = SessionState::AwaitingTransaction { signature: vec![6u8; 64] };
    let st = advance(
        st,
        SessionEvent::TransactionFetched(Err(String::from("not found"))),
    );
    assert!(matches!(
        st,
        SessionState::Complete { outcome: Err(SubmissionError::Rpc(_)) }
    ));
}

#[test]
fn unexpected_event_leaves_state_unchanged() {
    let st = SessionState::AwaitingTransaction { signature: vec![1u8, 2] };
    let st = advance(st, SessionEvent::BlockhashFetched(Ok(vec![0u8; 32])));
    match st {
        SessionState::AwaitingTransaction { signature } => assert_eq!(signature, vec![1u8, 2]),
        _ => panic!("an unexpected event must leave the session where it stands"),
    }
}

fn sample_instruction() -> verifier_client::client::VerifierInstruction {
    let c = sample_client();
    match c.begin_verify(&sample_report()).expect("derivation failed") {
        SessionState::AwaitingBlockhash { instruction } => instruction,
        _ => panic!("expected a session awaiting the blockhash"),
    }
}
