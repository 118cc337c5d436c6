//! Digest verification against tagged integrity strings.
//!
//! An integrity tag has the form `<algorithm>:hex-<digest>` where the
//! algorithm token is one of `md5`, `sha1`, `sha256` and `sha512`. The tag is
//! split at its first `-`; an unrecognized algorithm token is a hard error and
//! no digest is computed for it. The digest comparison is a case-sensitive
//! hex string comparison.

use vstd::prelude::*;
use vstd::string::*;
use crate::errors::ResolveError;
use crate::strutil::{eq_str, find_char, substr};
use crypto::digest::Digest;

verus! {

/// The digest algorithms the engine supports.
#[derive(Clone, Copy, Debug, PartialEq, Eq, Structural)]
pub enum DigestAlgorithm {
    Md5,
    Sha1,
    Sha256,
    Sha512,
}

/// The lowercase hex MD5 digest of the given bytes.
pub uninterp spec fn md5_hex_of(data: Seq<u8>) -> Seq<char>;

/// The lowercase hex SHA-1 digest of the given bytes.
pub uninterp spec fn sha1_hex_of(data: Seq<u8>) -> Seq<char>;

/// The lowercase hex SHA-256 digest of the given bytes.
pub uninterp spec fn sha256_hex_of(data: Seq<u8>) -> Seq<char>;

/// The lowercase hex SHA-512 digest of the given bytes.
pub uninterp spec fn sha512_hex_of(data: Seq<u8>) -> Seq<char>;

/// Relies on crypto::md5::Md5 (Digest::input, Digest::result_str): the hex
/// digest is a function of the input bytes alone.
#[verifier::external_body]
fn md5_hex(data: &[u8]) -> (r: String)
    ensures
        r@ == md5_hex_of(data@),
{
    let mut d = crypto::md5::Md5::new();
    d.input(data);
    d.result_str()
}

/// Relies on crypto::sha1::Sha1 (Digest::input, Digest::result_str): the hex
/// digest is a function of the input bytes alone.
#[verifier::external_body]
fn sha1_hex(data: &[u8]) -> (r: String)
    ensures
        r@ == sha1_hex_of(data@),
{
    let mut d = crypto::sha1::Sha1::new();
    d.input(data);
    d.result_str()
}

/// Relies on crypto::sha2::Sha256 (Digest::input, Digest::result_str): the
/// hex digest is a function of the input bytes alone.
#[verifier::external_body]
pub fn calc_sha256(d: &[u8]) -> (r: String)
    ensures
        r@ == sha256_hex_of(d@),
{
    let mut sha256 = crypto::sha2::Sha256::new();
    sha256.input(d);
    sha256.result_str()
}

/// Relies on crypto::sha2::Sha512 (Digest::input, Digest::result_str): the
/// hex digest is a function of the input bytes alone.
#[verifier::external_body]
fn sha512_hex(data: &[u8]) -> (r: String)
    ensures
        r@ == sha512_hex_of(data@),
{
    let mut d = crypto::sha2::Sha512::new();
    d.input(data);
    d.result_str()
}

/// The hex digest of `data` under `alg`.
pub open spec fn spec_digest_hex(alg: DigestAlgorithm, data: Seq<u8>) -> Seq<char> {
    match alg {
        DigestAlgorithm::Md5 => md5_hex_of(data),
        DigestAlgorithm::Sha1 => sha1_hex_of(data),
        DigestAlgorithm::Sha256 => sha256_hex_of(data),
        DigestAlgorithm::Sha512 => sha512_hex_of(data),
    }
}

/// Computes the hex digest of `data` under `alg`.
pub fn digest_hex(alg: DigestAlgorithm, data: &[u8]) -> (r: String)
    ensures
        r@ == spec_digest_hex(alg, data@),
{
    match alg {
        DigestAlgorithm::Md5 => md5_hex(data),
        DigestAlgorithm::Sha1 => sha1_hex(data),
        DigestAlgorithm::Sha256 => calc_sha256(data),
        DigestAlgorithm::Sha512 => sha512_hex(data),
    }
}

/// The algorithm a tag's leading token (everything before the first `-`)
/// names, if any.
pub open spec fn spec_algorithm_of(token: Seq<char>) -> Option<DigestAlgorithm> {
    if token == "md5:hex"@ {
        Some(DigestAlgorithm::Md5)
    } else if token == "sha1:hex"@ {
        Some(DigestAlgorithm::Sha1)
    } else if token == "sha256:hex"@ {
        Some(DigestAlgorithm::Sha256)
    } else if token == "sha512:hex"@ {
        Some(DigestAlgorithm::Sha512)
    } else {
        None
    }
}

/// How an integrity tag splits: at its first `-`, into an algorithm token and
/// the expected hex digest. A tag without a `-`, or whose token is not a
/// supported algorithm, is rejected.
pub open spec fn spec_parse_integrity(tag: Seq<char>) -> Result<
    (DigestAlgorithm, Seq<char>),
    ResolveError,
> {
    match tag.index_of_first('-') {
        None => Err(ResolveError::UnsupportedAlgorithm),
        Some(i) => match spec_algorithm_of(tag.subrange(0, i)) {
            None => Err(ResolveError::UnsupportedAlgorithm),
            Some(a) => Ok((a, tag.subrange(i + 1, tag.len() as int))),
        },
    }
}

/// Splits an integrity tag into its algorithm and expected hex digest.
pub fn parse_integrity_tag(tag: &str) -> (r: Result<(DigestAlgorithm, String), ResolveError>)
    ensures
        match spec_parse_integrity(tag@) {
            Ok((a, h)) => r matches Ok(p) && p.0 == a && p.1@ == h,
            Err(e) => r matches Err(e2) && e2 == e,
        },
{
    proof {
        tag@.index_of_first_ensures('-');
    }
    match find_char(tag, '-') {
        None => Err(ResolveError::UnsupportedAlgorithm),
        Some(i) => {
            proof {
                let found = tag@.index_of_first('-');
                assert(found matches Some(k) && k == i as int) by {
                    if let Some(k) = found {
                        assert(!(k < i as int));
                        assert(!((i as int) < k));
                    }
                }
            }
            let token = substr(tag, 0, i);
            let alg_opt = if eq_str(token, "md5:hex") {
                Some(DigestAlgorithm::Md5)
            } else if eq_str(token, "sha1:hex") {
                Some(DigestAlgorithm::Sha1)
            } else if eq_str(token, "sha256:hex") {
                Some(DigestAlgorithm::Sha256)
            } else if eq_str(token, "sha512:hex") {
                Some(DigestAlgorithm::Sha512)
            } else {
                None
            };
            match alg_opt {
                None => Err(ResolveError::UnsupportedAlgorithm),
                Some(a) => {
                    let len = tag.unicode_len();
                    let hex = substr(tag, i + 1, len);
                    Ok((a, String::from_str(hex)))
                },
            }
        },
    }
}

/// What verification of `data` against `tag` returns: whether the computed
/// digest equals the expected one, or the parse error for a bad tag.
pub open spec fn spec_verify_integrity(tag: Seq<char>, data: Seq<u8>) -> Result<
    bool,
    ResolveError,
> {
    match spec_parse_integrity(tag) {
        Err(e) => Err(e),
        Ok((a, h)) => Ok(spec_digest_hex(a, data) == h),
    }
}

/// Verifies `data` against an integrity tag: true iff the digest of `data`
/// under the tag's algorithm equals the tag's hex value. A tag naming an
/// unsupported algorithm fails without any digest being computed.
pub fn verify_integrity(tag: &str, data: &[u8]) -> (r: Result<bool, ResolveError>)
    ensures
        r == spec_verify_integrity(tag@, data@),
{
    match parse_integrity_tag(tag) {
        Err(e) => Err(e),
        Ok((alg, expected_hex)) => {
            let actual_hex = digest_hex(alg, data);
            Ok(eq_str(expected_hex.as_str(), actual_hex.as_str()))
        },
    }
}

} // verus!
