use vstd::prelude::*;
use crate::client::VerifierInstruction;
use crate::codec::{base64_standard_decoded, base64_decode};

verus! {

/// Why a verification call failed.
pub enum SubmissionError {
    /// A failure reported by the ledger endpoint: connection failure, a
    /// rejected transaction, a confirmation timeout, or a transaction that
    /// could not be fetched back.  Carries the endpoint's error detail.
    Rpc(String),
    /// The confirmed transaction carried a return-data field that is not
    /// valid base64.  Carries the decoder's error detail.
    Decode(String),
}

/// The outcome of a confirmed verification: the transaction signature, and the
/// decoded return payload when the program attached one.
pub struct VerificationResult {
    pub signature: Vec<u8>,
    pub return_data: Option<Vec<u8>>,
}

/// One observation the surrounding application hands back to the session: the
/// outcome of the ledger round trip the session asked for last.  An `Err`
/// carries the endpoint's error detail.
pub enum SessionEvent {
    /// The latest network blockhash, 32 bytes.
    BlockhashFetched(Result<Vec<u8>, String>),
    /// The signature of the submitted and confirmed transaction, 64 bytes.
    TransactionSubmitted(Result<Vec<u8>, String>),
    /// The confirmed transaction's return-data field: its base64 text, or
    /// `None` when the metadata carries no return data.
    TransactionFetched(Result<Option<String>, String>),
}

/// Where a verification session stands.  The session is strictly linear: each
/// state names the one ledger round trip the application must perform next,
/// until it is `Complete`.
pub enum SessionState {
    /// Fetch the latest network blockhash.
    AwaitingBlockhash { instruction: VerifierInstruction },
    /// Sign the instruction's transaction against `blockhash`, with the payer
    /// as the only signer, and submit it, blocking until confirmation.
    AwaitingSubmission { instruction: VerifierInstruction, blockhash: Vec<u8> },
    /// Fetch the confirmed transaction under `signature` and read its
    /// return-data field.
    AwaitingTransaction { signature: Vec<u8> },
    /// The session is over.
    Complete { outcome: Result<VerificationResult, SubmissionError> },
}

/// Whether an event answers the round trip the state asked for.
pub open spec fn step_expected(state: SessionState, event: SessionEvent) -> bool {
    match (state, event) {
        (SessionState::AwaitingBlockhash { .. }, SessionEvent::BlockhashFetched(_)) => true,
        (SessionState::AwaitingSubmission { .. }, SessionEvent::TransactionSubmitted(_)) => true,
        (SessionState::AwaitingTransaction { .. }, SessionEvent::TransactionFetched(_)) => true,
        _ => false,
    }
}

/// Decodes a confirmed transaction's return-data field: an absent field is a
/// success with no payload, a valid base64 field is the decoded bytes, and an
/// invalid one is a `Decode` error.
pub fn decode_return_data(field: Option<String>) -> (r: Result<Option<Vec<u8>>, SubmissionError>)
    ensures
        field is None ==> (r matches Ok(p) && p is None),
        field matches Some(text) ==> base64_standard_decoded(text@) matches Some(d) ==> (
            r matches Ok(p) && (p matches Some(bytes) && bytes@ == d)
        ),
        field matches Some(text) ==> base64_standard_decoded(text@) is None ==> (
            r matches Err(SubmissionError::Decode(_))
        ),
{
    match field {
        None => Ok(None),
        Some(text) => match base64_decode(&text) {
            Ok(bytes) => Ok(Some(bytes)),
            Err(detail) => Err(SubmissionError::Decode(detail)),
        },
    }
}

/// Steps a verification session on one observed event.
///
/// The session is linear and fails fast: any endpoint failure ends it at once
/// with an `Rpc` error, so a failed blockhash fetch ends the session before
/// any signing or submission step is ever asked for.  An event that does not
/// answer the round trip the state asked for leaves the state unchanged.
pub fn advance(state: SessionState, event: SessionEvent) -> (r: SessionState)
    ensures
        state matches SessionState::AwaitingBlockhash { instruction }
            ==> event matches SessionEvent::BlockhashFetched(Ok(h))
            ==> r == (SessionState::AwaitingSubmission { instruction, blockhash: h }),
        state matches SessionState::AwaitingBlockhash { .. }
            ==> event matches SessionEvent::BlockhashFetched(Err(e))
            ==> r == (SessionState::Complete { outcome: Err(SubmissionError::Rpc(e)) }),
        state matches SessionState::AwaitingSubmission { .. }
            ==> event matches SessionEvent::TransactionSubmitted(Ok(sig))
            ==> r == (SessionState::AwaitingTransaction { signature: sig }),
        state matches SessionState::AwaitingSubmission { .. }
            ==> event matches SessionEvent::TransactionSubmitted(Err(e))
            ==> r == (SessionState::Complete { outcome: Err(SubmissionError::Rpc(e)) }),
        state matches SessionState::AwaitingTransaction { signature }
            ==> event matches SessionEvent::TransactionFetched(Ok(field))
            ==> {
            &&& field is None ==> r == (SessionState::Complete {
                outcome: Ok(VerificationResult { signature, return_data: None }),
            })
            &&& field matches Some(text) ==> base64_standard_decoded(text@) matches Some(d) ==> (
                r matches SessionState::Complete { outcome } && (
                outcome matches Ok(v) && (
                v.signature == signature && (
                v.return_data matches Some(bytes) && bytes@ == d)))
            )
            &&& field matches Some(text) ==> base64_standard_decoded(text@) is None ==> (
                r matches SessionState::Complete { outcome } && (
                outcome matches Err(SubmissionError::Decode(_)))
            )
        },
        state matches SessionState::AwaitingTransaction { .. }
            ==> event matches SessionEvent::TransactionFetched(Err(e))
            ==> r == (SessionState::Complete { outcome: Err(SubmissionError::Rpc(e)) }),
        !step_expected(state, event) ==> r == state,
{
    match (state, event) {
        (
            SessionState::AwaitingBlockhash { instruction },
            SessionEvent::BlockhashFetched(Ok(h)),
        ) => SessionState::AwaitingSubmission { instruction, blockhash: h },
        (
            SessionState::AwaitingBlockhash { .. },
            SessionEvent::BlockhashFetched(Err(e)),
        ) => SessionState::Complete { outcome: Err(SubmissionError::Rpc(e)) },
        (
            SessionState::AwaitingSubmission { .. },
            SessionEvent::TransactionSubmitted(Ok(sig)),
        ) => SessionState::AwaitingTransaction { signature: sig },
        (
            SessionState::AwaitingSubmission { .. },
            SessionEvent::TransactionSubmitted(Err(e)),
        ) => SessionState::Complete { outcome: Err(SubmissionError::Rpc(e)) },
        (
            SessionState::AwaitingTransaction { signature },
            SessionEvent::TransactionFetched(Ok(field)),
        ) => match decode_return_data(field) {
            Ok(return_data) => SessionState::Complete {
                outcome: Ok(VerificationResult { signature, return_data }),
            },
            Err(e) => SessionState::Complete { outcome: Err(e) },
        },
        (
            SessionState::AwaitingTransaction { .. },
            SessionEvent::TransactionFetched(Err(e)),
        ) => SessionState::Complete { outcome: Err(SubmissionError::Rpc(e)) },
        (other, _) => other,
    }
}

} // verus!
