//! Remote package registry client: query URL assembly and interpretation of
//! the registry's JSON response.
//!
//! A query goes to one of two endpoints depending on whether an auth token is
//! supplied, with the token, tool name and version percent-encoded as query
//! parameters. The response payload is trusted only when its status is 200
//! and its data carries a name, a download URL and an integrity tag; under
//! strict matching the canonical version must equal the requested one.

use vstd::prelude::*;
use vstd::string::*;
use crate::errors::ResolveError;
use crate::strutil::{concat2, concat3, concat5, spec_opt_str};

verus! {

/// What percent-encoding a string yields; the result depends on the input
/// characters alone.
pub uninterp spec fn url_encoded(s: Seq<char>) -> Seq<char>;

/// Relies on urlencoding::encode: percent-encodes every byte except
/// alphanumerics and `-`, `_`, `.`, `~`; a pure function of its input.
#[verifier::external_body]
fn url_encode(s: &str) -> (r: String)
    ensures
        r@ == url_encoded(s@),
{
    urlencoding::encode(s).into_owned()
}

/// The registry query URL for a tool name and version: the authenticated
/// endpoint carries the encoded token, the anonymous endpoint none.
pub open spec fn spec_query_url(auth: Option<Seq<char>>, name: Seq<char>, ver: Seq<char>) -> Seq<
    char,
> {
    let head = match auth {
        Some(t) => "https://hatter.ink/tool/query_tool_by_name_version.json"@
            + "?__auth_token="@ + url_encoded(t),
        None => "https://hatter.ink/tool/query_tool_by_name_version_without_auth.json"@ + "?"@,
    };
    head + "&name="@ + url_encoded(name) + "&ver="@ + url_encoded(ver)
}

/// Assembles the registry query URL for a tool name and version.
pub fn build_query_url(auth: &Option<String>, name: &str, version: &str) -> (r: String)
    ensures
        r@ == spec_query_url(spec_opt_str(auth), name@, version@),
{
    let head = match auth {
        Some(t) => {
            let et = url_encode(t.as_str());
            concat3(
                "https://hatter.ink/tool/query_tool_by_name_version.json",
                "?__auth_token=",
                et.as_str(),
            )
        },
        None => concat2(
            "https://hatter.ink/tool/query_tool_by_name_version_without_auth.json",
            "?",
        ),
    };
    let en = url_encode(name);
    let ev = url_encode(version);
    concat5(head.as_str(), "&name=", en.as_str(), "&ver=", ev.as_str())
}

/// The fields the engine reads from a registry response: the HTTP-level
/// status, the download name, URL and integrity tag (absent when the JSON
/// holds null there), and the canonical tool name and version.
#[derive(Debug, PartialEq, Eq)]
pub struct RegistryRaw {
    pub status: Option<i64>,
    pub name: Option<String>,
    pub url: Option<String>,
    pub integrity: Option<String>,
    pub n: String,
    pub v: String,
}

/// The mathematical model of a parsed registry response.
pub ghost struct RegistryDoc {
    pub status: Option<i64>,
    pub name: Option<Seq<char>>,
    pub url: Option<Seq<char>>,
    pub integrity: Option<Seq<char>>,
    pub n: Seq<char>,
    pub v: Seq<char>,
}

impl View for RegistryRaw {
    type V = RegistryDoc;

    open spec fn view(&self) -> RegistryDoc {
        RegistryDoc {
            status: self.status,
            name: spec_opt_str(&self.name),
            url: spec_opt_str(&self.url),
            integrity: spec_opt_str(&self.integrity),
            n: self.n@,
            v: self.v@,
        }
    }
}

/// What parsing a registry response body yields: the fields above, or
/// nothing when the body is not well-formed JSON.
pub uninterp spec fn registry_doc_of(s: Seq<char>) -> Option<RegistryDoc>;

/// Relies on json::parse and the JsonValue accessors is_null, as_i64 and the
/// Display form of string nodes: the parsed fields are a function of the body
/// alone. Missing object members index as null.
#[verifier::external_body]
pub fn parse_registry_doc(body: &str) -> (r: Option<RegistryRaw>)
    ensures
        r matches Some(raw) ==> registry_doc_of(body@) == Some(raw@),
        r is None ==> registry_doc_of(body@) is None,
{
    let v = match json::parse(body) {
        Ok(v) => v,
        Err(_) => return None,
    };
    let d = &v["data"];
    Some(RegistryRaw {
        status: v["status"].as_i64(),
        name: if d["name"].is_null() { None } else { Some(d["name"].to_string()) },
        url: if d["url"].is_null() { None } else { Some(d["url"].to_string()) },
        integrity: if d["integrity"].is_null() { None } else { Some(d["integrity"].to_string()) },
        n: d["n"].to_string(),
        v: d["v"].to_string(),
    })
}

/// A package the registry offers: where to download it, its integrity tag,
/// the archive file name, and the canonical tool name and version.
#[derive(Debug, PartialEq, Eq)]
pub struct PackageMeta {
    pub url: String,
    pub integrity: String,
    pub file_name: String,
    pub n: String,
    pub v: String,
}

/// The mathematical model of an offered package.
#[verifier::ext_equal]
pub ghost struct PackageMetaModel {
    pub url: Seq<char>,
    pub integrity: Seq<char>,
    pub file_name: Seq<char>,
    pub n: Seq<char>,
    pub v: Seq<char>,
}

impl View for PackageMeta {
    type V = PackageMetaModel;

    open spec fn view(&self) -> PackageMetaModel {
        PackageMetaModel {
            url: self.url@,
            integrity: self.integrity@,
            file_name: self.file_name@,
            n: self.n@,
            v: self.v@,
        }
    }
}

/// How a parsed response is judged. A missing document (malformed JSON), a
/// status other than 200 or a null name, URL or integrity field is a registry
/// error; under strict matching a canonical version differing from the
/// requested one is a version mismatch; otherwise the offered package is
/// accepted.
pub open spec fn spec_interpret_registry(
    doc: Option<RegistryDoc>,
    version: Seq<char>,
    strict: bool,
) -> Result<PackageMetaModel, ResolveError> {
    match doc {
        None => Err(ResolveError::RegistryError),
        Some(d) => {
            if d.status != Some(200i64) {
                Err(ResolveError::RegistryError)
            } else if d.integrity is None || d.url is None || d.name is None {
                Err(ResolveError::RegistryError)
            } else if strict && d.v != version {
                Err(ResolveError::VersionMismatch)
            } else {
                Ok(
                    PackageMetaModel {
                        url: d.url->0,
                        integrity: d.integrity->0,
                        file_name: d.name->0,
                        n: d.n,
                        v: d.v,
                    },
                )
            }
        },
    }
}

/// Judges a parsed registry record against the requested version.
pub fn interpret_registry_record(raw: &RegistryRaw, version: &str, strict: bool) -> (r: Result<
    PackageMeta,
    ResolveError,
>)
    ensures
        match spec_interpret_registry(Some(raw@), version@, strict) {
            Ok(m) => r matches Ok(p) && p@ == m,
            Err(e) => r matches Err(e2) && e2 == e,
        },
{
    let status_ok = match raw.status {
        Some(s) => s == 200i64,
        None => false,
    };
    if !status_ok {
        return Err(ResolveError::RegistryError);
    }
    let (name, url, integrity) = match (&raw.name, &raw.url, &raw.integrity) {
        (Some(name), Some(url), Some(integrity)) => (name, url, integrity),
        _ => {
            return Err(ResolveError::RegistryError);
        },
    };
    if strict && !crate::strutil::eq_str(version, raw.v.as_str()) {
        return Err(ResolveError::VersionMismatch);
    }
    Ok(
        PackageMeta {
            url: url.clone(),
            integrity: integrity.clone(),
            file_name: name.clone(),
            n: raw.n.clone(),
            v: raw.v.clone(),
        },
    )
}

/// Parses and judges a registry response body in one step.
pub fn evaluate_registry_response(body: &str, version: &str, strict: bool) -> (r: Result<
    PackageMeta,
    ResolveError,
>)
    ensures
        match spec_interpret_registry(registry_doc_of(body@), version@, strict) {
            Ok(m) => r matches Ok(p) && p@ == m,
            Err(e) => r matches Err(e2) && e2 == e,
        },
{
    match parse_registry_doc(body) {
        None => Err(ResolveError::RegistryError),
        Some(raw) => interpret_registry_record(&raw, version, strict),
    }
}

} // verus!
