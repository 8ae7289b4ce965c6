use crate::crypto::{
    derive_key, derived_key_spec, encrypt_key, extract_public_key, public_key_spec, PublicKey,
    SEAL_BYTES,
};
use crate::error::ProviderError;
use crate::quote::{
    evidence_spec, extract_measurements, get_report_data, identity_check, lemma_identity_binding,
    measurement_spec, parse_quote, parse_spec, ppid, report_data_spec, verify_ppid_match,
    verify_quote, Collateral, QuoteData, Report, IDENTITY_BYTES, QUOTE_HEADER_BYTES,
};
use vstd::prelude::*;

verus! {

/// How much of the evidence is checked.
#[derive(Debug, Clone, Copy, PartialEq, Eq, Structural)]
pub enum Mode {
    /// The evidence is verified and bound to the local platform.
    Production,
    /// Reduced trust: verification and platform binding are skipped.
    Development,
}

/// The provider, with its mode fixed when the process builds it; no request
/// can change it.
pub struct Provider {
    mode: Mode,
}

impl Provider {
    /// Whether this provider verifies evidence and binds it to the platform.
    pub closed spec fn enforces(&self) -> bool {
        self.mode == Mode::Production
    }

    /// Builds the provider for a mode chosen at build or deploy time.
    pub fn new(mode: Mode) -> (p: Provider)
        ensures
            p.enforces() == (mode == Mode::Production),
    {
        Provider { mode }
    }

    /// The mode this provider was built with, so that a reduced-trust
    /// provider can be reported.
    pub fn mode(&self) -> (m: Mode)
        ensures
            (m == Mode::Production) == self.enforces(),
    {
        self.mode
    }

    /// First stage: verifies the requester's quote against its collateral at
    /// Unix time `now`. A reduced-trust provider skips it.
    pub fn verify_evidence(&self, quote_data: &[u8], collateral: &Option<Collateral>, now: u64) -> (r:
        Result<(), ProviderError>)
        ensures
            r == evidence_stage_spec(self.enforces(), quote_data@, *collateral, now),
    {
        if self.mode == Mode::Production {
            verify_quote(quote_data, collateral, now)
        } else {
            Ok(())
        }
    }

    /// Binds the parsed requester quote to the local quote and extracts its
    /// measurements. Asked for only after the requester's quote verified and
    /// parsed; the sealing secret is wanted only once this succeeds.
    pub fn bind_quotes(&self, requester: &QuoteData, local_quote: &Result<Vec<u8>, ProviderError>) -> (r:
        Result<Vec<u8>, ProviderError>)
        ensures
            match bind_spec(self.enforces(), *requester, *local_quote) {
                Ok(m) => r is Ok && r->Ok_0@ == m,
                Err(e) => r == Err::<Vec<u8>, ProviderError>(e),
            },
    {
        let sgx_quote_data = match local_quote {
            Ok(q) => q,
            Err(e) => return Err(*e),
        };
        let sgx_quote = match parse_quote(sgx_quote_data.as_slice()) {
            Ok(q) => q,
            Err(e) => return Err(e),
        };
        match verify_ppid_match(self.mode == Mode::Production, &sgx_quote, requester) {
            Ok(_) => {},
            Err(e) => return Err(e),
        }
        extract_measurements(requester)
    }
}

/// The outcome of the evidence stage.
pub open spec fn evidence_stage_spec(
    enforce: bool,
    quote: Seq<u8>,
    collateral: Option<Collateral>,
    now: u64,
) -> Result<(), ProviderError> {
    if enforce {
        evidence_spec(quote, collateral, now)
    } else {
        Ok(())
    }
}

/// The measurements of a requester's quote once it is bound to the local
/// quote, or the first failure.
pub open spec fn bind_spec(
    enforce: bool,
    requester: QuoteData,
    local_quote: Result<Vec<u8>, ProviderError>,
) -> Result<Seq<u8>, ProviderError> {
    match local_quote {
        Err(e) => Err(e),
        Ok(lq) => match parse_spec(lq@) {
            Err(e) => Err(e),
            Ok(loc) => match identity_check(enforce, loc, requester) {
                Err(e) => Err(e),
                Ok(_) => match measurement_spec(requester.report) {
                    None => Err(ProviderError::QuoteParseError),
                    Some(m) => Ok(m),
                },
            },
        },
    }
}

/// The key to release and the public key to seal it to, or the first failure,
/// once the measurements are known.
pub open spec fn release_spec(
    requester: QuoteData,
    measurements: Seq<u8>,
    sealing_key: Result<Vec<u8>, ProviderError>,
) -> Result<(Seq<u8>, Seq<u8>), ProviderError> {
    match sealing_key {
        Err(e) => Err(e),
        Ok(s) => match report_data_spec(requester.report) {
            None => Err(ProviderError::QuoteParseError),
            Some(d) => match public_key_spec(d) {
                Err(e) => Err(e),
                Ok(k) => Ok((derived_key_spec(s@, measurements), k)),
            },
        },
    }
}

/// Derives the key from the sealing secret and the measurements, and reads the
/// requester's public key from its report data.
pub fn prepare_release(
    requester: &QuoteData,
    measurements: &[u8],
    sealing_key: &Result<Vec<u8>, ProviderError>,
) -> (r: Result<(Vec<u8>, PublicKey), ProviderError>)
    ensures
        match release_spec(*requester, measurements@, *sealing_key) {
            Ok((k, pk)) => r is Ok && r->Ok_0.0@ == k && r->Ok_0.1.bytes@ == pk,
            Err(e) => r == Err::<(Vec<u8>, PublicKey), ProviderError>(e),
        },
        r is Ok ==> r->Ok_0.0@.len() == 32,
{
    let sealing = match sealing_key {
        Ok(s) => s,
        Err(e) => return Err(*e),
    };
    let derived_key = derive_key(sealing.as_slice(), measurements);
    let report_data = match get_report_data(requester) {
        Ok(d) => d,
        Err(e) => return Err(e),
    };
    let public_key = match extract_public_key(report_data) {
        Ok(k) => k,
        Err(e) => return Err(e),
    };
    Ok((derived_key, public_key))
}

/// Last stage: derives the key and seals it to the requester's public key.
pub fn release_key(
    requester: &QuoteData,
    measurements: &[u8],
    sealing_key: &Result<Vec<u8>, ProviderError>,
) -> (r: Result<Vec<u8>, ProviderError>)
    ensures
        match release_spec(*requester, measurements@, *sealing_key) {
            Ok((k, _)) => r is Ok && r->Ok_0@.len() == k.len() + SEAL_BYTES,
            Err(e) => r == Err::<Vec<u8>, ProviderError>(e),
        },
{
    let (derived_key, public_key) = match prepare_release(requester, measurements, sealing_key) {
        Ok(p) => p,
        Err(e) => return Err(e),
    };
    encrypt_key(derived_key.as_slice(), &public_key)
}

/// The key and public key that a request releases, or its first failure, once
/// the evidence stage has passed.
pub open spec fn response_spec(
    enforce: bool,
    quote: Seq<u8>,
    local_quote: Result<Vec<u8>, ProviderError>,
    sealing_key: Result<Vec<u8>, ProviderError>,
) -> Result<(Seq<u8>, Seq<u8>), ProviderError> {
    match parse_spec(quote) {
        Err(e) => Err(e),
        Ok(ext) => match bind_spec(enforce, ext, local_quote) {
            Err(e) => Err(e),
            Ok(m) => release_spec(ext, m, sealing_key),
        },
    }
}

/// Runs every stage in order on inputs already at hand and stops at the first
/// failure: verification, parsing, binding, extraction, derivation, sealing.
/// A caller that obtains the local quote and the sealing secret only when a
/// stage asks for them calls the stages in turn instead.
pub fn process_quotes(
    provider: &Provider,
    tdx_quote_data: &[u8],
    collateral: &Option<Collateral>,
    now: u64,
    local_quote: &Result<Vec<u8>, ProviderError>,
    sealing_key: &Result<Vec<u8>, ProviderError>,
) -> (r: Result<Vec<u8>, ProviderError>)
    ensures
        match evidence_stage_spec(provider.enforces(), tdx_quote_data@, *collateral, now) {
            Err(e) => r == Err::<Vec<u8>, ProviderError>(e),
            Ok(_) => match response_spec(
                provider.enforces(),
                tdx_quote_data@,
                *local_quote,
                *sealing_key,
            ) {
                Ok((k, _)) => r is Ok && r->Ok_0@.len() == k.len() + SEAL_BYTES,
                Err(e) => r == Err::<Vec<u8>, ProviderError>(e),
            },
        },
{
    match provider.verify_evidence(tdx_quote_data, collateral, now) {
        Ok(_) => {},
        Err(e) => return Err(e),
    }
    let tdx_quote = match parse_quote(tdx_quote_data) {
        Ok(q) => q,
        Err(e) => return Err(e),
    };
    let measurements = match provider.bind_quotes(&tdx_quote, local_quote) {
        Ok(m) => m,
        Err(e) => return Err(e),
    };
    release_key(&tdx_quote, measurements.as_slice(), sealing_key)
}

/// A requester quote shorter than the quote header fails the request with a
/// parse error once the evidence stage has passed, whatever the other inputs.
pub proof fn lemma_truncated_quote_fails(
    enforce: bool,
    quote: Seq<u8>,
    local_quote: Result<Vec<u8>, ProviderError>,
    sealing_key: Result<Vec<u8>, ProviderError>,
)
    requires
        quote.len() < QUOTE_HEADER_BYTES,
    ensures
        response_spec(enforce, quote, local_quote, sealing_key) == Err::<
            (Seq<u8>, Seq<u8>),
            ProviderError,
        >(ProviderError::QuoteParseError),
{
}

/// With binding enforced, a local quote whose identity slice differs from the
/// requester's in one byte fails the request with an identity mismatch, and the
/// sealing secret is never consulted.
pub proof fn lemma_identity_mismatch_fails(
    quote: Seq<u8>,
    local_quote: Vec<u8>,
    sealing_key: Result<Vec<u8>, ProviderError>,
    i: int,
)
    requires
        parse_spec(quote) is Ok,
        parse_spec(local_quote@) is Ok,
        0 <= i < IDENTITY_BYTES,
        parse_spec(local_quote@)->Ok_0.user_data@[i] != parse_spec(quote)->Ok_0.user_data@[i],
    ensures
        bind_spec(true, parse_spec(quote)->Ok_0, Ok(local_quote)) == Err::<Seq<u8>, ProviderError>(
            ProviderError::PPIDMismatch,
        ),
        response_spec(true, quote, Ok(local_quote), sealing_key) == Err::<
            (Seq<u8>, Seq<u8>),
            ProviderError,
        >(ProviderError::PPIDMismatch),
{
    lemma_identity_binding(parse_spec(local_quote@)->Ok_0, parse_spec(quote)->Ok_0, i);
}

/// Two quotes that parse and carry the same identity slice, the requester's
/// with a TD report, release the digest of the sealing secret followed by the
/// requester's measurements, sealed to the first bytes of its report data.
pub proof fn lemma_bound_quotes_release_key(
    enforce: bool,
    quote: Seq<u8>,
    local_quote: Vec<u8>,
    sealing_key: Vec<u8>,
)
    requires
        parse_spec(quote) is Ok,
        parse_spec(local_quote@) is Ok,
        ppid(parse_spec(local_quote@)->Ok_0) == ppid(parse_spec(quote)->Ok_0),
        measurement_spec(parse_spec(quote)->Ok_0.report) is Some,
    ensures
        response_spec(enforce, quote, Ok(local_quote), Ok(sealing_key)) == Ok::<
            (Seq<u8>, Seq<u8>),
            ProviderError,
        >(
            (
                derived_key_spec(
                    sealing_key@,
                    measurement_spec(parse_spec(quote)->Ok_0.report)->Some_0,
                ),
                report_data_spec(parse_spec(quote)->Ok_0.report)->Some_0.subrange(0, 32),
            ),
        ),
{
    let ext = parse_spec(quote)->Ok_0;
    match ext.report {
        Report::TD10(t) => {
            assert(t.report_data@.len() == 64);
        },
        Report::TD15(t) => {
            assert(t.base.report_data@.len() == 64);
        },
        Report::SgxEnclave => {},
    }
}

/// A requester quote without a TD report fails with a parse error before the
/// sealing secret is consulted, whatever the secret is.
pub proof fn lemma_wrong_report_fails_before_secret(
    enforce: bool,
    requester: QuoteData,
    local_quote: Result<Vec<u8>, ProviderError>,
)
    requires
        requester.report is SgxEnclave,
        local_quote is Ok,
        parse_spec(local_quote->Ok_0@) is Ok,
        identity_check(enforce, parse_spec(local_quote->Ok_0@)->Ok_0, requester) is Ok,
    ensures
        bind_spec(enforce, requester, local_quote) == Err::<Seq<u8>, ProviderError>(
            ProviderError::QuoteParseError,
        ),
{
}

} // verus!
