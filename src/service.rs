use vstd::prelude::*;

use crate::model::{ProofRequest, ProofResponse, VerifyResponse, MOCK_ZK_PROOF, STATUS_VERIFIED};

verus! {

/// Seconds that the answer to a request for a proof is held back, to stand
/// for the time a real prover would take.
pub const GENERATE_DELAY_SECS: u64 = 2;

/// The two endpoints of the service; both take `POST`.
#[derive(Clone, Copy, Debug, PartialEq, Eq, Structural)]
pub enum Endpoint {
    Generate,
    Verify,
}

/// The path under which an endpoint is served.
pub open spec fn endpoint_path(e: Endpoint) -> Seq<char> {
    match e {
        Endpoint::Generate => "/generate"@,
        Endpoint::Verify => "/verify"@,
    }
}

/// The seconds an endpoint waits before it answers.
pub open spec fn endpoint_delay(e: Endpoint) -> u64 {
    match e {
        Endpoint::Generate => GENERATE_DELAY_SECS,
        Endpoint::Verify => 0,
    }
}

impl Endpoint {
    pub fn path(&self) -> (r: &'static str)
        ensures
            r@ == endpoint_path(*self),
    {
        match self {
            Endpoint::Generate => "/generate",
            Endpoint::Verify => "/verify",
        }
    }

    pub fn delay_secs(&self) -> (r: u64)
        ensures
            r == endpoint_delay(*self),
    {
        match self {
            Endpoint::Generate => GENERATE_DELAY_SECS,
            Endpoint::Verify => 0,
        }
    }
}

/// The answer to a request for a proof: the request's id and hash, with the
/// fixed proof and status.
pub fn generate_proof(req: ProofRequest) -> (r: ProofResponse)
    ensures
        r.answers(req),
{
    ProofResponse {
        proof_id: req.proof_id,
        pdf_hash: req.pdf_hash,
        zk_proof: MOCK_ZK_PROOF.to_owned(),
        status: STATUS_VERIFIED.to_owned(),
    }
}

/// The answer to a request for verification, whatever it held: always valid.
pub fn verify_proof() -> (r: VerifyResponse)
    ensures
        r.valid,
{
    VerifyResponse { valid: true }
}

/// Answers to separate requests do not mix: each answer echoes its own
/// request's id, requests with distinct ids get answers with distinct ids,
/// and two answers to equal requests are equal.
pub proof fn lemma_answers_matched(
    a: ProofRequest,
    b: ProofRequest,
    ra: ProofResponse,
    rb: ProofResponse,
)
    requires
        ra.answers(a),
        rb.answers(b),
    ensures
        ra.proof_id == a.proof_id,
        rb.proof_id == b.proof_id,
        a.proof_id != b.proof_id ==> ra.proof_id != rb.proof_id,
        (a.proof_id == b.proof_id && a.pdf_hash@ == b.pdf_hash@) ==> {
            &&& ra.proof_id == rb.proof_id
            &&& ra.pdf_hash@ == rb.pdf_hash@
            &&& ra.zk_proof@ == rb.zk_proof@
            &&& ra.status@ == rb.status@
        },
{
}

} // verus!
