use crate::error::ProviderError;
use dcap_qvl::quote::{Quote, Report as R, TDReport10 as T};
use dcap_qvl::QuoteCollateralV3;
use vstd::prelude::*;

verus! {

/// Size of the fixed quote header; no shorter buffer can hold a quote.
pub const QUOTE_HEADER_BYTES: usize = 48;

/// Width of the identity slice at the start of the header's user data.
pub const IDENTITY_BYTES: usize = 16;

/// The identity-bearing registers of a TD report, and its report data.
pub struct TdReport10 {
    pub mr_td: [u8; 48],
    pub rt_mr0: [u8; 48],
    pub rt_mr1: [u8; 48],
    pub rt_mr2: [u8; 48],
    pub rt_mr3: [u8; 48],
    pub report_data: [u8; 64],
}

/// The later TD report format: the same registers, one level deeper.
pub struct TdReport15 {
    pub base: TdReport10,
}

/// The body of a quote, by report format.
pub enum Report {
    /// An enclave report, as the local platform produces.
    SgxEnclave,
    TD10(TdReport10),
    TD15(TdReport15),
}

/// The parts of a decoded quote that the provider reads.
pub struct QuoteData {
    pub user_data: [u8; 20],
    pub report: Report,
}

/// What the quote decoder makes of a byte buffer, if anything.
pub uninterp spec fn quote_decoding(data: Seq<u8>) -> Option<QuoteData>;

/// Relies on dcap_qvl::quote::Quote::parse: the decoded header user data and
/// report registers depend on the bytes alone.
#[verifier::external_body]
fn decode_quote(data: &[u8]) -> (r: Option<QuoteData>)
    ensures
        r == quote_decoding(data@),
        data@.len() < QUOTE_HEADER_BYTES ==> r is None,
{
    let td = |t: &T| TdReport10 { mr_td: t.mr_td, rt_mr0: t.rt_mr0, rt_mr1: t.rt_mr1,
        rt_mr2: t.rt_mr2, rt_mr3: t.rt_mr3, report_data: t.report_data };
    let q = Quote::parse(data).ok()?;
    let report = match &q.report {
        R::SgxEnclave(_) => Report::SgxEnclave,
        R::TD10(t) => Report::TD10(td(t)),
        R::TD15(t) => Report::TD15(TdReport15 { base: td(&t.base) }),
    };
    Some(QuoteData { user_data: q.header.user_data, report })
}

/// The outcome of parsing a quote.
pub open spec fn parse_spec(data: Seq<u8>) -> Result<QuoteData, ProviderError> {
    if data.len() < QUOTE_HEADER_BYTES {
        Err(ProviderError::QuoteParseError)
    } else {
        match quote_decoding(data) {
            Some(q) => Ok(q),
            None => Err(ProviderError::QuoteParseError),
        }
    }
}

/// Decodes a quote; a buffer shorter than the header is refused up front.
pub fn parse_quote(data: &[u8]) -> (r: Result<QuoteData, ProviderError>)
    ensures
        r == parse_spec(data@),
        data@.len() < QUOTE_HEADER_BYTES ==> r == Err::<QuoteData, ProviderError>(
            ProviderError::QuoteParseError,
        ),
{
    if data.len() < QUOTE_HEADER_BYTES {
        return Err(ProviderError::QuoteParseError);
    }
    match decode_quote(data) {
        Some(q) => Ok(q),
        None => Err(ProviderError::QuoteParseError),
    }
}

/// A buffer shorter than the quote header never parses.
pub proof fn lemma_short_quote_rejected(data: Seq<u8>)
    requires
        data.len() < QUOTE_HEADER_BYTES,
    ensures
        parse_spec(data) == Err::<QuoteData, ProviderError>(ProviderError::QuoteParseError),
{
}

/// The identity slice of a quote: the first bytes of its header user data.
pub open spec fn ppid(q: QuoteData) -> Seq<u8> {
    q.user_data@.subrange(0, IDENTITY_BYTES as int)
}

/// The outcome of binding a requester's quote to the local quote.
pub open spec fn identity_check(mode_checks: bool, local: QuoteData, requester: QuoteData) -> Result<
    (),
    ProviderError,
> {
    if !mode_checks || ppid(local) == ppid(requester) {
        Ok(())
    } else {
        Err(ProviderError::PPIDMismatch)
    }
}

/// Checks that both quotes carry the same identity slice. With `enforce`
/// false the check is skipped, as in the reduced-trust mode.
pub fn verify_ppid_match(enforce: bool, sgx_quote: &QuoteData, tdx_quote: &QuoteData) -> (r: Result<
    (),
    ProviderError,
>)
    ensures
        r == identity_check(enforce, *sgx_quote, *tdx_quote),
{
    if !enforce {
        return Ok(());
    }
    let mut i: usize = 0;
    while i < IDENTITY_BYTES
        invariant
            enforce,
            i <= IDENTITY_BYTES,
            forall|j: int| 0 <= j < i ==> sgx_quote.user_data@[j] == tdx_quote.user_data@[j],
        decreases IDENTITY_BYTES - i,
    {
        if sgx_quote.user_data[i] != tdx_quote.user_data[i] {
            assert(sgx_quote.user_data@.len() == 20 && tdx_quote.user_data@.len() == 20);
            assert(ppid(*sgx_quote)[i as int] == sgx_quote.user_data@[i as int]);
            assert(ppid(*tdx_quote)[i as int] == tdx_quote.user_data@[i as int]);
            assert(ppid(*sgx_quote) != ppid(*tdx_quote));
            return Err(ProviderError::PPIDMismatch);
        }
        i = i + 1;
    }
    assert(ppid(*sgx_quote) =~= ppid(*tdx_quote));
    Ok(())
}

/// Equal identity slices bind; one differing byte inside the slice refuses.
pub proof fn lemma_identity_binding(local: QuoteData, requester: QuoteData, i: int)
    requires
        0 <= i < IDENTITY_BYTES,
    ensures
        ppid(local) == ppid(requester) ==> identity_check(true, local, requester) is Ok,
        local.user_data@[i] != requester.user_data@[i] ==> identity_check(true, local, requester)
            == Err::<(), ProviderError>(ProviderError::PPIDMismatch),
{
    if local.user_data@[i] != requester.user_data@[i] {
        assert(local.user_data@.len() == 20 && requester.user_data@.len() == 20);
        assert(ppid(local)[i] == local.user_data@[i]);
        assert(ppid(requester)[i] == requester.user_data@[i]);
        assert(ppid(local) != ppid(requester));
    }
}

/// The measurement registers of a TD report, in their fixed order.
pub open spec fn td_measurements(t: TdReport10) -> Seq<u8> {
    t.mr_td@ + t.rt_mr0@ + t.rt_mr1@ + t.rt_mr2@ + t.rt_mr3@
}

/// The measurement set of a report, for the two TD formats only.
pub open spec fn measurement_spec(r: Report) -> Option<Seq<u8>> {
    match r {
        Report::TD10(t) => Some(td_measurements(t)),
        Report::TD15(t) => Some(td_measurements(t.base)),
        Report::SgxEnclave => None,
    }
}

fn append_bytes(out: &mut Vec<u8>, bytes: &[u8])
    ensures
        final(out)@ == old(out)@ + bytes@,
{
    out.extend_from_slice(bytes);
}

fn td_register_bytes(t: &TdReport10) -> (r: Vec<u8>)
    ensures
        r@ == td_measurements(*t),
{
    let mut m: Vec<u8> = Vec::new();
    append_bytes(&mut m, &t.mr_td);
    append_bytes(&mut m, &t.rt_mr0);
    append_bytes(&mut m, &t.rt_mr1);
    append_bytes(&mut m, &t.rt_mr2);
    append_bytes(&mut m, &t.rt_mr3);
    assert(m@ =~= td_measurements(*t));
    m
}

/// Concatenates the identity register and the four runtime registers of a TD
/// report; any other report is refused.
pub fn extract_measurements(quote: &QuoteData) -> (r: Result<Vec<u8>, ProviderError>)
    ensures
        match measurement_spec(quote.report) {
            Some(m) => r is Ok && r->Ok_0@ == m,
            None => r == Err::<Vec<u8>, ProviderError>(ProviderError::QuoteParseError),
        },
{
    match &quote.report {
        Report::TD10(t) => Ok(td_register_bytes(t)),
        Report::TD15(t) => Ok(td_register_bytes(&t.base)),
        Report::SgxEnclave => Err(ProviderError::QuoteParseError),
    }
}

/// Both TD formats give the same measurement set for the same registers.
pub proof fn lemma_measurements_variant_agnostic(t10: TdReport10, t15: TdReport15)
    requires
        t15.base == t10,
    ensures
        measurement_spec(Report::TD10(t10)) == measurement_spec(Report::TD15(t15)),
        measurement_spec(Report::TD10(t10)) is Some,
        measurement_spec(Report::TD10(t10))->Some_0.len() == 5 * 48,
{
}

/// The report data of a report, for the two TD formats only.
pub open spec fn report_data_spec(r: Report) -> Option<Seq<u8>> {
    match r {
        Report::TD10(t) => Some(t.report_data@),
        Report::TD15(t) => Some(t.base.report_data@),
        Report::SgxEnclave => None,
    }
}

/// The report data that the requester embedded in a TD report.
pub fn get_report_data(quote: &QuoteData) -> (r: Result<&[u8], ProviderError>)
    ensures
        match report_data_spec(quote.report) {
            Some(d) => r is Ok && r->Ok_0@ == d,
            None => r == Err::<&[u8], ProviderError>(ProviderError::QuoteParseError),
        },
{
    match &quote.report {
        Report::TD10(t) => Ok(t.report_data.as_slice()),
        Report::TD15(t) => Ok(t.base.report_data.as_slice()),
        Report::SgxEnclave => Err(ProviderError::QuoteParseError),
    }
}

/// The trust material that a quote is verified against: issuer chains,
/// revocation lists, TCB information and QE identity, as the trust authority
/// serves them.
pub struct Collateral {
    pub pck_crl_issuer_chain: String,
    pub root_ca_crl: Vec<u8>,
    pub pck_crl: Vec<u8>,
    pub tcb_info_issuer_chain: String,
    pub tcb_info: String,
    pub tcb_info_signature: Vec<u8>,
    pub qe_identity_issuer_chain: String,
    pub qe_identity: String,
    pub qe_identity_signature: Vec<u8>,
    pub pck_certificate_chain: Option<String>,
}

/// Whether the quote verifier accepts a quote against collateral at a Unix time.
pub uninterp spec fn evidence_verdict(quote: Seq<u8>, collateral: Collateral, now: u64) -> bool;

/// Relies on dcap_qvl::verify::verify: whether the quote's signature chain
/// holds against the collateral at the given Unix time, which depends on these
/// arguments and the built-in root certificate alone.
#[verifier::external_body]
fn evidence_holds(quote_data: &[u8], collateral: &Collateral, now: u64) -> (r: bool)
    ensures
        r == evidence_verdict(quote_data@, *collateral, now),
{
    let c = collateral;
    let qc = QuoteCollateralV3 {
        pck_crl_issuer_chain: c.pck_crl_issuer_chain.clone(), root_ca_crl: c.root_ca_crl.clone(),
        pck_crl: c.pck_crl.clone(), tcb_info_issuer_chain: c.tcb_info_issuer_chain.clone(),
        tcb_info: c.tcb_info.clone(), tcb_info_signature: c.tcb_info_signature.clone(),
        qe_identity_issuer_chain: c.qe_identity_issuer_chain.clone(),
        qe_identity: c.qe_identity.clone(), qe_identity_signature: c.qe_identity_signature.clone(),
        pck_certificate_chain: c.pck_certificate_chain.clone(),
    };
    dcap_qvl::verify::verify(quote_data, &qc, now).is_ok()
}

/// The outcome of verifying a quote: missing collateral and a refused check
/// give the same opaque error.
pub open spec fn evidence_spec(quote: Seq<u8>, collateral: Option<Collateral>, now: u64) -> Result<
    (),
    ProviderError,
> {
    match collateral {
        None => Err(ProviderError::QuoteVerificationError),
        Some(c) => if evidence_verdict(quote, c, now) {
            Ok(())
        } else {
            Err(ProviderError::QuoteVerificationError)
        },
    }
}

/// Verifies a quote against collateral fetched for it, if any could be.
pub fn verify_quote(quote_data: &[u8], collateral: &Option<Collateral>, now: u64) -> (r: Result<
    (),
    ProviderError,
>)
    ensures
        r == evidence_spec(quote_data@, *collateral, now),
{
    match collateral {
        Some(c) => {
            if evidence_holds(quote_data, c, now) {
                Ok(())
            } else {
                Err(ProviderError::QuoteVerificationError)
            }
        },
        None => Err(ProviderError::QuoteVerificationError),
    }
}

} // verus!
