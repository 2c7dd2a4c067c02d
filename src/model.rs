use vstd::prelude::*;

verus! {

/// The proof string that every generated response carries.
pub const MOCK_ZK_PROOF: &'static str = "mock_zk_proof_data_xyz123";

/// The status that every generated response carries.
pub const STATUS_VERIFIED: &'static str = "VERIFIED";

/// Body of a request for a proof.
#[derive(Clone, Debug)]
pub struct ProofRequest {
    pub proof_id: u32,
    pub pdf_hash: String,
}

/// Body of the answer to a request for a proof.
#[derive(Clone, Debug)]
pub struct ProofResponse {
    pub proof_id: u32,
    pub pdf_hash: String,
    pub zk_proof: String,
    pub status: String,
}

/// Body of the answer to a request for verification.
#[derive(Clone, Debug)]
pub struct VerifyResponse {
    pub valid: bool,
}

impl ProofRequest {
    pub fn new(proof_id: u32, pdf_hash: String) -> (r: ProofRequest)
        ensures
            r.proof_id == proof_id,
            r.pdf_hash@ == pdf_hash@,
    {
        ProofRequest { proof_id, pdf_hash }
    }
}

impl ProofResponse {
    /// The response is the canned answer to `req`: it echoes the request's
    /// id and hash and carries the fixed proof and status.
    pub open spec fn answers(&self, req: ProofRequest) -> bool {
        &&& self.proof_id == req.proof_id
        &&& self.pdf_hash@ == req.pdf_hash@
        &&& self.zk_proof@ == MOCK_ZK_PROOF@
        &&& self.status@ == STATUS_VERIFIED@
    }
}

} // verus!
