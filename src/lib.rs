//! Releases a secret to a confidential workload only after its attestation
//! evidence has been parsed, verified and bound to the local platform.
//!
//! The stages of a request are verified functions whose contracts are stated
//! over spec functions of the same names; `process_quotes` runs them in order
//! and stops at the first failure.

mod crypto;
mod error;
mod pipeline;
mod quote;

pub use crate::crypto::{
    derive_key, derived_key_spec, encrypt_key, extract_public_key, init_sodium,
    lemma_derive_key_deterministic, public_key_spec, sha256_of, PublicKey, PUBLIC_KEY_BYTES,
    SEAL_BYTES,
};
pub use crate::error::ProviderError;
pub use crate::pipeline::{
    bind_spec, evidence_stage_spec, lemma_bound_quotes_release_key, lemma_identity_mismatch_fails,
    lemma_truncated_quote_fails, lemma_wrong_report_fails_before_secret, prepare_release,
    process_quotes, release_key, release_spec, response_spec, Mode, Provider,
};
pub use crate::quote::{
    evidence_spec, evidence_verdict, extract_measurements, get_report_data, identity_check, lemma_identity_binding,
    lemma_measurements_variant_agnostic, lemma_short_quote_rejected, measurement_spec,
    parse_quote, parse_spec, ppid, quote_decoding, report_data_spec, td_measurements,
    verify_ppid_match, verify_quote, Collateral, QuoteData, Report, TdReport10, TdReport15, IDENTITY_BYTES,
    QUOTE_HEADER_BYTES,
};
