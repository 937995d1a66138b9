use vstd::prelude::*;

verus! {

/// A fixed-length on-chain account address, held as its canonical 32 raw
/// bytes.
#[derive(Clone, Copy, Debug, PartialEq, Eq)]
pub struct Address {
    pub bytes: [u8; 32],
}

impl View for Address {
    type V = Seq<u8>;

    open spec fn view(&self) -> Seq<u8> {
        self.bytes@
    }
}

/// What the ledger's program-derived-address search returns for one seed and a
/// program address.  The search is deterministic; it yields `None` only in the
/// statistically improbable event that no bump seed gives a valid address.
pub uninterp spec fn pda_of(seed: Seq<u8>, program: Seq<u8>) -> Option<Seq<u8>>;

/// The fixed seed (the ASCII bytes of `verifier`) under which the verifier
/// program keeps its configuration account.
pub open spec fn verifier_seed() -> Seq<u8> {
    seq![118u8, 101u8, 114u8, 105u8, 102u8, 105u8, 101u8, 114u8]
}

/// The seed of a report's per-report configuration account: the report's
/// leading 32 bytes (its stream identifier), or the whole report when it is
/// shorter than that.
pub open spec fn report_seed(report: Seq<u8>) -> Seq<u8> {
    if report.len() <= 32 {
        report
    } else {
        report.take(32)
    }
}

/// Relies on `solana_pubkey::Pubkey::try_find_program_address`: the search is
/// a deterministic, pure function of the seeds and the program address, and
/// returns `None` only when no bump seed yields an off-curve address.
#[verifier::external_body]
pub(crate) fn find_pda(seed: &Vec<u8>, program: &Address) -> (r: Option<Address>)
    ensures
        r is Some <==> pda_of(seed@, program@) is Some,
        r matches Some(a) ==> pda_of(seed@, program@) == Some(a@),
{
    let program_key = solana_pubkey::Pubkey::new_from_array(program.bytes);
    solana_pubkey::Pubkey::try_find_program_address(&[seed.as_slice()], &program_key)
        .map(|(key, _bump)| Address { bytes: key.to_bytes() })
}

/// Builds the fixed verifier-configuration seed.
pub(crate) fn verifier_seed_bytes() -> (r: Vec<u8>)
    ensures
        r@ == verifier_seed(),
{
    let mut s: Vec<u8> = Vec::new();
    s.push(118u8);
    s.push(101u8);
    s.push(114u8);
    s.push(105u8);
    s.push(102u8);
    s.push(105u8);
    s.push(101u8);
    s.push(114u8);
    proof {
        assert(s@ =~= verifier_seed());
    }
    s
}

/// Copies the per-report configuration seed out of a report.
pub(crate) fn report_seed_bytes(report: &Vec<u8>) -> (r: Vec<u8>)
    ensures
        r@ == report_seed(report@),
{
    let n: usize = if report.len() < 32 {
        report.len()
    } else {
        32
    };
    let mut s: Vec<u8> = Vec::new();
    let mut i: usize = 0;
    while i < n
        invariant
            i <= n,
            n <= report@.len(),
            n == if report@.len() < 32 { report@.len() as int } else { 32int },
            s@ == report@.take(i as int),
        decreases n - i,
    {
        s.push(report[i]);
        proof {
            assert(report@.take(i as int + 1) =~= report@.take(i as int).push(report@[i as int]));
        }
        i += 1;
    }
    proof {
        if report@.len() <= 32 {
            assert(report@.take(n as int) =~= report@);
        }
    }
    s
}

} // verus!
