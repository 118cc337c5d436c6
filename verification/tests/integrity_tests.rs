use buildj::errors::ResolveError;
use buildj::integrity::{calc_sha256, digest_hex, parse_integrity_tag, verify_integrity, DigestAlgorithm};

const ABC_MD5: &str = "900150983cd24fb0d6963f7d28e17f72";
const ABC_SHA1: &str = "a9993e364706816aba3e25717850c26c9cd0d89d";
const ABC_SHA256: &str = "ba7816bf8f01cfea414140de5dae2223b00361a396177a9cb410ff61f20015ad";
const ABC_SHA512: &str = "ddaf35a193617abacc417349ae20413112e6fa4e89a97ea20a9eeee64b55d39a2192992a274fc1a836ba3c23a3feebbd454d4423643ce80e2a9ac94fa54ca49f";

#[test]
fn verify_md5_matches() {
    let tag = format!("md5:hex-{}", ABC_MD5);
    assert_eq!(verify_integrity(&tag, b"abc"), Ok(true));
}

#[test]
fn verify_sha1_matches() {
    let tag = format!("sha1:hex-{}", ABC_SHA1);
    assert_eq!(verify_integrity(&tag, b"abc"), Ok(true));
}

#[test]
fn verify_sha256_matches() {
    let tag = format!("sha256:hex-{}", ABC_SHA256);
    assert_eq!(verify_integrity(&tag, b"abc"), Ok(true));
}

#[test]
fn verify_sha512_matches() {
    let tag = format!("sha512:hex-{}", ABC_SHA512);
    assert_eq!(verify_integrity(&tag, b"abc"), Ok(true));
}

#[test]
fn verify_mismatch_is_false_not_error() {
    let tag = format!("sha256:hex-{}", ABC_SHA256);
    assert_eq!(verify_integrity(&tag, b"abd"), Ok(false));
}

#[test]
fn verify_is_case_sensitive() {
    let tag = format!("sha256:hex-{}", ABC_SHA256.to_uppercase());
    assert_eq!(verify_integrity(&tag, b"abc"), Ok(false));
}

#[test]
fn unsupported_algorithm_is_rejected() {
    assert_eq!(
        verify_integrity("crc32:hex-abcd", b"abc"),
        Err(ResolveError::UnsupportedAlgorithm)
    );
}

#[test]
fn tag_without_dash_is_rejected() {
    assert_eq!(
        verify_integrity("sha256:hex", b"abc"),
        Err(ResolveError::UnsupportedAlgorithm)
    );
    assert_eq!(
        parse_integrity_tag("md5"),
        Err(ResolveError::UnsupportedAlgorithm)
    );
}

#[test]
fn tag_splits_at_first_dash() {
    let (alg, hex) = parse_integrity_tag("sha256:hex-ab-cd").unwrap();
    assert_eq!(alg, DigestAlgorithm::Sha256);
    assert_eq!(hex, "ab-cd");
}

#[test]
fn tag_algorithms_parse() {
    assert_eq!(parse_integrity_tag("md5:hex-00").unwrap().0, DigestAlgorithm::Md5);
    assert_eq!(parse_integrity_tag("sha1:hex-00").unwrap().0, DigestAlgorithm::Sha1);
    assert_eq!(parse_integrity_tag("sha256:hex-00").unwrap().0, DigestAlgorithm::Sha256);
    assert_eq!(parse_integrity_tag("sha512:hex-00").unwrap().0, DigestAlgorithm::Sha512);
}

#[test]
fn calc_sha256_known_value() {
    assert_eq!(calc_sha256(b"abc"), ABC_SHA256);
}

#[test]
fn digest_hex_empty_input() {
    assert_eq!(
        digest_hex(DigestAlgorithm::Md5, b""),
        "d41d8cd98f00b204e9800998ecf8427e"
    );
    assert_eq!(
        digest_hex(DigestAlgorithm::Sha256, b""),
        "e3b0c44298fc1c149afbf4c8996fb92427ae41e4649b934ca495991b7852b855"
    );
}
