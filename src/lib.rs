//! A stand-in for a zero-knowledge-proof service: request and response
//! shapes of its two endpoints, the answers it gives, and its timing rules.

mod model;
mod service;

pub use model::{ProofRequest, ProofResponse, VerifyResponse, MOCK_ZK_PROOF, STATUS_VERIFIED};
pub use service::{
    endpoint_delay, endpoint_path, generate_proof, lemma_answers_matched, verify_proof, Endpoint,
    GENERATE_DELAY_SECS,
};
