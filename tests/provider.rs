use key_provider::{
    derive_key, encrypt_key, extract_measurements, extract_public_key, get_report_data,
    init_sodium, parse_quote, prepare_release, process_quotes, release_key, verify_ppid_match,
    verify_quote, Mode, Provider, ProviderError, Report, QUOTE_HEADER_BYTES, SEAL_BYTES,
};
use sha2::{Digest, Sha256};
use sodiumoxide::crypto::box_;
use sodiumoxide::crypto::sealedbox;

struct Registers {
    mr_td: [u8; 48],
    rt_mr: [[u8; 48]; 4],
    report_data: [u8; 64],
}

fn registers(seed: u8, report_data: [u8; 64]) -> Registers {
    Registers {
        mr_td: [seed; 48],
        rt_mr: [[seed + 1; 48], [seed + 2; 48], [seed + 3; 48], [seed + 4; 48]],
        report_data,
    }
}

fn header(version: u16, tee_type: u32, user_data: [u8; 20]) -> Vec<u8> {
    let mut h = Vec::new();
    h.extend_from_slice(&version.to_le_bytes());
    h.extend_from_slice(&2u16.to_le_bytes());
    h.extend_from_slice(&tee_type.to_le_bytes());
    h.extend_from_slice(&0u16.to_le_bytes());
    h.extend_from_slice(&0u16.to_le_bytes());
    h.extend_from_slice(&[0u8; 16]);
    h.extend_from_slice(&user_data);
    assert_eq!(h.len(), 48);
    h
}

fn auth_data() -> Vec<u8> {
    let mut qe = vec![0u8; 384 + 64];
    qe.extend_from_slice(&0u16.to_le_bytes());
    qe.extend_from_slice(&5u16.to_le_bytes());
    qe.extend_from_slice(&0u32.to_le_bytes());
    let mut auth = vec![0u8; 64 + 64];
    auth.extend_from_slice(&6u16.to_le_bytes());
    auth.extend_from_slice(&(qe.len() as u32).to_le_bytes());
    auth.extend_from_slice(&qe);
    let mut out = (auth.len() as u32).to_le_bytes().to_vec();
    out.extend_from_slice(&auth);
    out
}

fn td_report(r: &Registers) -> Vec<u8> {
    let mut b = vec![0u8; 16 + 48 + 48 + 8 + 8 + 8];
    b.extend_from_slice(&r.mr_td);
    b.extend_from_slice(&[0u8; 48 * 3]);
    for m in r.rt_mr.iter() {
        b.extend_from_slice(m);
    }
    b.extend_from_slice(&r.report_data);
    assert_eq!(b.len(), 584);
    b
}

fn td10_quote(user_data: [u8; 20], r: &Registers) -> Vec<u8> {
    let mut q = header(4, 0x81, user_data);
    q.extend_from_slice(&td_report(r));
    q.extend_from_slice(&auth_data());
    q
}

fn td15_quote(user_data: [u8; 20], r: &Registers) -> Vec<u8> {
    let mut q = header(5, 0x81, user_data);
    q.extend_from_slice(&3u16.to_le_bytes());
    q.extend_from_slice(&648u32.to_le_bytes());
    q.extend_from_slice(&td_report(r));
    q.extend_from_slice(&[7u8; 16 + 48]);
    q.extend_from_slice(&auth_data());
    q
}

fn sgx_quote(user_data: [u8; 20]) -> Vec<u8> {
    let mut q = header(4, 0, user_data);
    q.extend_from_slice(&[0u8; 384]);
    q.extend_from_slice(&auth_data());
    q
}

fn ppid_bytes() -> [u8; 20] {
    let mut u = [0u8; 20];
    for (i, b) in u.iter_mut().enumerate() {
        *b = 0x40 + i as u8;
    }
    u
}

fn expected_measurements(r: &Registers) -> Vec<u8> {
    let mut m = r.mr_td.to_vec();
    for x in r.rt_mr.iter() {
        m.extend_from_slice(x);
    }
    m
}

fn report_data_with_key(pk: &box_::PublicKey) -> [u8; 64] {
    let mut d = [0x99u8; 64];
    d[..32].copy_from_slice(pk.as_ref());
    d
}

#[test]
fn short_buffers_never_parse() {
    for len in 0..QUOTE_HEADER_BYTES {
        let data = vec![0xabu8; len];
        assert_eq!(parse_quote(&data).err(), Some(ProviderError::QuoteParseError));
    }
    let full = td10_quote(ppid_bytes(), &registers(1, [0u8; 64]));
    for len in [0usize, 1, 10, 47] {
        assert_eq!(parse_quote(&full[..len]).err(), Some(ProviderError::QuoteParseError));
    }
}

#[test]
fn unsupported_or_truncated_quotes_do_not_parse() {
    let mut bad_version = td10_quote(ppid_bytes(), &registers(1, [0u8; 64]));
    bad_version[0] = 9;
    assert_eq!(parse_quote(&bad_version).err(), Some(ProviderError::QuoteParseError));
    let full = td10_quote(ppid_bytes(), &registers(1, [0u8; 64]));
    assert_eq!(parse_quote(&full[..300]).err(), Some(ProviderError::QuoteParseError));
}

#[test]
fn td10_quote_parses_with_its_fields() {
    let regs = registers(3, [5u8; 64]);
    let q = parse_quote(&td10_quote(ppid_bytes(), &regs)).unwrap();
    assert_eq!(q.user_data, ppid_bytes());
    assert!(matches!(q.report, Report::TD10(_)));
    assert_eq!(extract_measurements(&q).unwrap(), expected_measurements(&regs));
    assert_eq!(get_report_data(&q).unwrap(), &[5u8; 64][..]);
}

#[test]
fn measurements_agree_across_report_formats() {
    let regs = registers(10, [1u8; 64]);
    let q10 = parse_quote(&td10_quote(ppid_bytes(), &regs)).unwrap();
    let q15 = parse_quote(&td15_quote(ppid_bytes(), &regs)).unwrap();
    assert!(matches!(q15.report, Report::TD15(_)));
    let m10 = extract_measurements(&q10).unwrap();
    let m15 = extract_measurements(&q15).unwrap();
    assert_eq!(m10, m15);
    assert_eq!(m10.len(), 5 * 48);
    assert_eq!(get_report_data(&q15).unwrap(), &[1u8; 64][..]);
}

#[test]
fn enclave_report_has_no_measurements() {
    let q = parse_quote(&sgx_quote(ppid_bytes())).unwrap();
    assert!(matches!(q.report, Report::SgxEnclave));
    assert_eq!(extract_measurements(&q).err(), Some(ProviderError::QuoteParseError));
    assert_eq!(get_report_data(&q).err(), Some(ProviderError::QuoteParseError));
}

#[test]
fn derive_key_is_sha256_of_concatenation() {
    let expected =
        hex::decode("ba7816bf8f01cfea414140de5dae2223b00361a396177a9cb410ff61f20015ad").unwrap();
    assert_eq!(derive_key(b"ab", b"c"), expected);
    assert_eq!(derive_key(b"", b"abc"), expected);
    assert_eq!(derive_key(b"secret", b"measurements"), Sha256::digest(b"secretmeasurements").to_vec());
}

#[test]
fn derive_key_is_deterministic_and_input_sensitive() {
    let s = [7u8; 32];
    let m = [9u8; 240];
    let k1 = derive_key(&s, &m);
    let k2 = derive_key(&s, &m);
    assert_eq!(k1, k2);
    assert_eq!(k1.len(), 32);
    for i in 0..s.len() {
        let mut s2 = s;
        s2[i] ^= 1;
        assert_ne!(derive_key(&s2, &m), k1);
    }
    for i in (0..m.len()).step_by(7) {
        let mut m2 = m;
        m2[i] ^= 0x80;
        assert_ne!(derive_key(&s, &m2), k1);
    }
}

#[test]
fn identity_binding_compares_sixteen_bytes() {
    let regs = registers(1, [0u8; 64]);
    let local = parse_quote(&sgx_quote(ppid_bytes())).unwrap();
    let requester = parse_quote(&td10_quote(ppid_bytes(), &regs)).unwrap();
    assert_eq!(verify_ppid_match(true, &local, &requester), Ok(()));
    for i in 0..20 {
        let mut u = ppid_bytes();
        u[i] ^= 0xff;
        let other = parse_quote(&sgx_quote(u)).unwrap();
        let r = verify_ppid_match(true, &other, &requester);
        if i < 16 {
            assert_eq!(r, Err(ProviderError::PPIDMismatch));
        } else {
            assert_eq!(r, Ok(()));
        }
        assert_eq!(verify_ppid_match(false, &other, &requester), Ok(()));
    }
}

#[test]
fn public_key_needs_thirty_two_bytes() {
    assert_eq!(extract_public_key(&[]).err(), Some(ProviderError::PublicKeyError));
    assert_eq!(extract_public_key(&[1u8; 31]).err(), Some(ProviderError::PublicKeyError));
    let mut data = [0u8; 64];
    for (i, b) in data.iter_mut().enumerate() {
        *b = i as u8;
    }
    let pk = extract_public_key(&data).unwrap();
    assert_eq!(pk.bytes.to_vec(), data[..32].to_vec());
    assert_eq!(extract_public_key(&data[..32]).unwrap().bytes.to_vec(), data[..32].to_vec());
}

#[test]
fn sealed_key_opens_with_private_key() {
    init_sodium().unwrap();
    let (pk, sk) = box_::gen_keypair();
    let key = extract_public_key(&report_data_with_key(&pk)).unwrap();
    let message = derive_key(b"seal", b"meas");
    let sealed = encrypt_key(&message, &key).unwrap();
    assert_eq!(sealed.len(), message.len() + SEAL_BYTES);
    assert_ne!(&sealed[..message.len()], &message[..]);
    assert_eq!(sealedbox::open(&sealed, &pk, &sk).unwrap(), message);
}

#[test]
fn end_to_end_releases_sealed_key() {
    init_sodium().unwrap();
    let (pk, sk) = box_::gen_keypair();
    let regs = registers(20, report_data_with_key(&pk));
    let quote = td10_quote(ppid_bytes(), &regs);
    let local = Ok(sgx_quote(ppid_bytes()));
    let secret: Vec<u8> = (0u8..32).collect();
    let dev = Provider::new(Mode::Development);
    let sealed = process_quotes(&dev, &quote, &None, 0, &local, &Ok(secret.clone())).unwrap();
    let opened = sealedbox::open(&sealed, &pk, &sk).unwrap();
    let mut input = secret.clone();
    input.extend_from_slice(&expected_measurements(&regs));
    assert_eq!(opened, Sha256::digest(&input).to_vec());

    let prod = Provider::new(Mode::Production);
    let requester = parse_quote(&quote).unwrap();
    let measurements = prod.bind_quotes(&requester, &local).unwrap();
    assert_eq!(measurements, expected_measurements(&regs));
    let (key, public) = prepare_release(&requester, &measurements, &Ok(secret.clone())).unwrap();
    assert_eq!(key, Sha256::digest(&input).to_vec());
    assert_eq!(public.bytes.to_vec(), pk.as_ref().to_vec());
    let sealed = release_key(&requester, &measurements, &Ok(secret)).unwrap();
    assert_eq!(sealedbox::open(&sealed, &pk, &sk).unwrap(), Sha256::digest(&input).to_vec());
}

#[test]
fn end_to_end_identity_mismatch_fails() {
    init_sodium().unwrap();
    let (pk, _) = box_::gen_keypair();
    let regs = registers(20, report_data_with_key(&pk));
    let quote = td10_quote(ppid_bytes(), &regs);
    let mut other = ppid_bytes();
    other[5] ^= 1;
    let local = Ok(sgx_quote(other));
    let requester = parse_quote(&quote).unwrap();
    let prod = Provider::new(Mode::Production);
    assert_eq!(prod.bind_quotes(&requester, &local), Err(ProviderError::PPIDMismatch));
    let dev = Provider::new(Mode::Development);
    assert!(dev.bind_quotes(&requester, &local).is_ok());
}

#[test]
fn end_to_end_truncated_quote_fails() {
    init_sodium().unwrap();
    let (pk, _) = box_::gen_keypair();
    let quote = td10_quote(ppid_bytes(), &registers(20, report_data_with_key(&pk)));
    let local = Ok(sgx_quote(ppid_bytes()));
    let dev = Provider::new(Mode::Development);
    let r = process_quotes(&dev, &quote[..10], &None, 0, &local, &Ok(vec![1u8; 32]));
    assert_eq!(r, Err(ProviderError::QuoteParseError));
    assert_eq!(parse_quote(&quote[..10]).err(), Some(ProviderError::QuoteParseError));
}

#[test]
fn production_without_collateral_fails_verification() {
    init_sodium().unwrap();
    let (pk, _) = box_::gen_keypair();
    let quote = td10_quote(ppid_bytes(), &registers(20, report_data_with_key(&pk)));
    let local = Ok(sgx_quote(ppid_bytes()));
    let prod = Provider::new(Mode::Production);
    assert_eq!(prod.mode(), Mode::Production);
    let r = process_quotes(&prod, &quote, &None, 0, &local, &Ok(vec![1u8; 32]));
    assert_eq!(r, Err(ProviderError::QuoteVerificationError));
    assert_eq!(verify_quote(&quote, &None, 0), Err(ProviderError::QuoteVerificationError));
    assert_eq!(prod.verify_evidence(&quote, &None, 0), Err(ProviderError::QuoteVerificationError));
    let dev = Provider::new(Mode::Development);
    assert_eq!(dev.mode(), Mode::Development);
    assert_eq!(dev.verify_evidence(&quote, &None, 0), Ok(()));
}

#[test]
fn platform_failures_surface_unchanged() {
    init_sodium().unwrap();
    let (pk, _) = box_::gen_keypair();
    let quote = td10_quote(ppid_bytes(), &registers(20, report_data_with_key(&pk)));
    let requester = parse_quote(&quote).unwrap();
    let prod = Provider::new(Mode::Production);
    let r = prod.bind_quotes(&requester, &Err(ProviderError::PlatformError));
    assert_eq!(r, Err(ProviderError::PlatformError));
    let m = prod.bind_quotes(&requester, &Ok(sgx_quote(ppid_bytes()))).unwrap();
    let r = release_key(&requester, &m, &Err(ProviderError::PlatformError));
    assert_eq!(r, Err(ProviderError::PlatformError));
    let r = prod.bind_quotes(&requester, &Ok(vec![0u8; 5]));
    assert_eq!(r, Err(ProviderError::QuoteParseError));
}

#[test]
fn requester_enclave_quote_is_refused_before_the_secret() {
    let requester = parse_quote(&sgx_quote(ppid_bytes())).unwrap();
    let prod = Provider::new(Mode::Production);
    let r = prod.bind_quotes(&requester, &Ok(sgx_quote(ppid_bytes())));
    assert_eq!(r, Err(ProviderError::QuoteParseError));
    let dev = Provider::new(Mode::Development);
    let r = process_quotes(
        &dev,
        &sgx_quote(ppid_bytes()),
        &None,
        0,
        &Ok(sgx_quote(ppid_bytes())),
        &Err(ProviderError::PlatformError),
    );
    assert_eq!(r, Err(ProviderError::QuoteParseError));
}
