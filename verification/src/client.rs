use vstd::prelude::*;
use crate::addr::{
    Address, pda_of, verifier_seed, report_seed, find_pda, verifier_seed_bytes, report_seed_bytes,
};
use crate::codec::{snappy_of, compressible, snappy_compress};
use crate::session::SessionState;

verus! {

/// The single instruction a verification submits: the five account addresses
/// the verifier program reads, and the compressed report payload.  Encoding
/// this description into the ledger's wire format is the surrounding
/// application's task.
pub struct VerifierInstruction {
    pub program_id: Address,
    pub verifier_account: Address,
    pub access_controller: Address,
    pub payer: Address,
    pub config_account: Address,
    pub compressed_report: Vec<u8>,
}

/// A client for one verifier program: the program address, the
/// verifier-configuration account derived from it at construction, the
/// access-controller account, and the fee payer's address.  All four are
/// immutable after construction; every call is independent.
pub struct VerificationClient {
    pub program_id: Address,
    pub verifier_client_data_account: Address,
    pub access_controller_data_account: Address,
    pub payer: Address,
}

impl VerificationClient {
    /// The verifier-configuration account is the one derived from the program
    /// address under the fixed verifier seed.
    pub open spec fn wf(self) -> bool {
        pda_of(verifier_seed(), self.program_id@) == Some(self.verifier_client_data_account@)
    }

    /// Builds a client, deriving the verifier-configuration account from the
    /// program address.  The precondition only rules out the statistically
    /// improbable inputs on which the address search finds no bump seed;
    /// `try_new` tests for them instead.
    pub fn new(
        program_id: Address,
        access_controller_data_account: Address,
        payer: Address,
    ) -> (r: Self)
        requires
            pda_of(verifier_seed(), program_id@) is Some,
        ensures
            r.wf(),
            r.program_id == program_id,
            r.access_controller_data_account == access_controller_data_account,
            r.payer == payer,
    {
        let seed = verifier_seed_bytes();
        match find_pda(&seed, &program_id) {
            Some(verifier_client_data_account) => Self {
                program_id,
                verifier_client_data_account,
                access_controller_data_account,
                payer,
            },
            None => vstd::pervasive::unreached(),
        }
    }

    /// Builds a client, returning `None` exactly when the verifier
    /// configuration address cannot be derived from the program address.
    pub fn try_new(
        program_id: Address,
        access_controller_data_account: Address,
        payer: Address,
    ) -> (r: Option<Self>)
        ensures
            r is Some <==> pda_of(verifier_seed(), program_id@) is Some,
            r matches Some(c) ==> (
                c.wf()
                    && c.program_id == program_id
                    && c.access_controller_data_account == access_controller_data_account
                    && c.payer == payer
            ),
    {
        let seed = verifier_seed_bytes();
        match find_pda(&seed, &program_id) {
            Some(_) => Some(Self::new(program_id, access_controller_data_account, payer)),
            None => None,
        }
    }

    /// Derives the per-report configuration account from the report and the
    /// program address: a pure, deterministic derivation, `None` exactly when
    /// the address search finds no bump seed.
    pub fn config_address(&self, signed_report: &Vec<u8>) -> (r: Option<Address>)
        ensures
            r is Some <==> pda_of(report_seed(signed_report@), self.program_id@) is Some,
            r matches Some(a) ==> pda_of(report_seed(signed_report@), self.program_id@) == Some(
                a@,
            ),
    {
        let seed = report_seed_bytes(signed_report);
        find_pda(&seed, &self.program_id)
    }

    /// Starts a verification of one signed report: derives the per-report
    /// configuration address, compresses the report, and assembles the single
    /// instruction the session will submit.  Returns `None` exactly when the
    /// per-report address cannot be derived.
    ///
    /// The instruction carries the five account addresses — the program, the
    /// verifier configuration derived once at construction, the access
    /// controller, the payer, and the per-report configuration derived fresh
    /// from the report — and the compressed form of exactly the input report.
    pub fn begin_verify(&self, signed_report: &Vec<u8>) -> (r: Option<SessionState>)
        requires
            compressible(signed_report@),
        ensures
            r is Some <==> pda_of(report_seed(signed_report@), self.program_id@) is Some,
            r matches Some(s) ==> (s matches SessionState::AwaitingBlockhash { instruction } && {
                &&& instruction.program_id == self.program_id
                &&& instruction.verifier_account == self.verifier_client_data_account
                &&& instruction.access_controller == self.access_controller_data_account
                &&& instruction.payer == self.payer
                &&& pda_of(report_seed(signed_report@), self.program_id@) == Some(
                    instruction.config_account@,
                )
                &&& instruction.compressed_report@ == snappy_of(signed_report@)
                &&& self.wf() ==> pda_of(verifier_seed(), self.program_id@) == Some(
                    instruction.verifier_account@,
                )
            }),
    {
        match self.config_address(signed_report) {
            Some(config_account) => {
                let compressed_report = snappy_compress(signed_report);
                Some(
                    SessionState::AwaitingBlockhash {
                        instruction: VerifierInstruction {
                            program_id: self.program_id,
                            verifier_account: self.verifier_client_data_account,
                            access_controller: self.access_controller_data_account,
                            payer: self.payer,
                            config_account,
                            compressed_report,
                        },
                    },
                )
            },
            None => None,
        }
    }
}

/// Deriving a per-report configuration address is pure: the same report and
/// the same program address always yield the same derived address, however
/// often the derivation is repeated.
pub proof fn lemma_config_address_deterministic(
    report1: Seq<u8>,
    report2: Seq<u8>,
    program1: Seq<u8>,
    program2: Seq<u8>,
)
    requires
        report1 == report2,
        program1 == program2,
    ensures
        pda_of(report_seed(report1), program1) == pda_of(report_seed(report2), program2),
{
}

} // verus!
