use buildj::errors::ResolveError;
use buildj::registry::{build_query_url, evaluate_registry_response, interpret_registry_record, parse_registry_doc};

const OK_BODY: &str = r#"{"status":200,"data":{"name":"maven.tar.gz","url":"http://x/maven.tar.gz","integrity":"sha256:hex-d0","n":"maven","v":"3.5.2"}}"#;

#[test]
fn query_url_without_auth() {
    let url = build_query_url(&None, "maven", "3.5.2");
    assert_eq!(
        url,
        "https://hatter.ink/tool/query_tool_by_name_version_without_auth.json?&name=maven&ver=3.5.2"
    );
}

#[test]
fn query_url_with_auth() {
    let url = build_query_url(&Some("s3cr3t".to_string()), "maven", "3.5.2");
    assert_eq!(
        url,
        "https://hatter.ink/tool/query_tool_by_name_version.json?__auth_token=s3cr3t&name=maven&ver=3.5.2"
    );
}

#[test]
fn query_url_percent_encodes() {
    let url = build_query_url(&Some("a b/c".to_string()), "my tool", "1+2");
    assert_eq!(
        url,
        "https://hatter.ink/tool/query_tool_by_name_version.json?__auth_token=a%20b%2Fc&name=my%20tool&ver=1%2B2"
    );
}

#[test]
fn well_formed_response_is_accepted() {
    let meta = evaluate_registry_response(OK_BODY, "3.5.2", true).unwrap();
    assert_eq!(meta.url, "http://x/maven.tar.gz");
    assert_eq!(meta.integrity, "sha256:hex-d0");
    assert_eq!(meta.file_name, "maven.tar.gz");
    assert_eq!(meta.n, "maven");
    assert_eq!(meta.v, "3.5.2");
}

#[test]
fn strict_mismatch_is_version_mismatch() {
    let body = OK_BODY.replace("3.5.2", "3.6.0");
    assert_eq!(
        evaluate_registry_response(&body, "3.5.2", true),
        Err(ResolveError::VersionMismatch)
    );
}

#[test]
fn non_strict_tolerates_mismatch() {
    let body = OK_BODY.replace("3.5.2", "3.6.0");
    let meta = evaluate_registry_response(&body, "3.5.2", false).unwrap();
    assert_eq!(meta.v, "3.6.0");
}

#[test]
fn non_200_status_is_registry_error() {
    let body = r#"{"status":500,"message":"boom"}"#;
    assert_eq!(
        evaluate_registry_response(body, "3.5.2", true),
        Err(ResolveError::RegistryError)
    );
}

#[test]
fn missing_fields_are_registry_error() {
    let no_url = r#"{"status":200,"data":{"name":"x","integrity":"sha256:hex-d0","n":"x","v":"1"}}"#;
    assert_eq!(
        evaluate_registry_response(no_url, "1", true),
        Err(ResolveError::RegistryError)
    );
    let no_integrity = r#"{"status":200,"data":{"name":"x","url":"http://x","n":"x","v":"1"}}"#;
    assert_eq!(
        evaluate_registry_response(no_integrity, "1", true),
        Err(ResolveError::RegistryError)
    );
    let no_name = r#"{"status":200,"data":{"url":"http://x","integrity":"sha256:hex-d0","n":"x","v":"1"}}"#;
    assert_eq!(
        evaluate_registry_response(no_name, "1", true),
        Err(ResolveError::RegistryError)
    );
}

#[test]
fn malformed_json_is_registry_error() {
    assert_eq!(
        evaluate_registry_response("{not json", "1", true),
        Err(ResolveError::RegistryError)
    );
}

#[test]
fn parsed_fields_mirror_the_json() {
    let raw = parse_registry_doc(OK_BODY).unwrap();
    assert_eq!(raw.status, Some(200));
    assert_eq!(raw.name.as_deref(), Some("maven.tar.gz"));
    assert_eq!(raw.url.as_deref(), Some("http://x/maven.tar.gz"));
    assert_eq!(raw.integrity.as_deref(), Some("sha256:hex-d0"));
    assert_eq!(raw.n, "maven");
    assert_eq!(raw.v, "3.5.2");
    assert_eq!(parse_registry_doc("]["), None);
}

#[test]
fn missing_canonical_fields_read_as_null_text() {
    let body = r#"{"status":200,"data":{"name":"x.zip","url":"http://x","integrity":"md5:hex-d0"}}"#;
    let raw = parse_registry_doc(body).unwrap();
    assert_eq!(raw.n, "null");
    assert_eq!(raw.v, "null");
    let judged = interpret_registry_record(&raw, "null", true);
    assert!(judged.is_ok());
}
