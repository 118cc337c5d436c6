use buildj::cache::ArchiveKind;
use buildj::errors::ResolveError;
use buildj::jdkmatch::OsKind;
use buildj::resolver::{
    acquire_step, jdk_step, resolve_step, AcquireState, Action, Event, JdkState,
    ResolveRequest, ResolveState, JdkRequest, AcquireRequest,
};
use buildj::tool::BuilderName;

const ABC_SHA256: &str = "ba7816bf8f01cfea414140de5dae2223b00361a396177a9cb410ff61f20015ad";

fn maven_request() -> ResolveRequest {
    ResolveRequest {
        base_dir: "/cache/builder".to_string(),
        builder: "maven".to_string(),
        version: "3.5.2".to_string(),
        auth: None,
    }
}

fn maven_body(version: &str) -> String {
    format!(
        r#"{{"status":200,"data":{{"name":"maven.tar.gz","url":"http://x/maven.tar.gz","integrity":"sha256:hex-{}","n":"maven","v":"{}"}}}}"#,
        ABC_SHA256, version
    )
}

#[test]
fn resolve_miss_downloads_verifies_extracts_and_locates_home() {
    let req = maven_request();
    let (s, a) = resolve_step(&req, ResolveState::Ready, Event::Begin);
    assert_eq!(a, Action::CheckPath("/cache/builder/maven-3.5.2".to_string()));

    let (s, a) = resolve_step(&req, s, Event::PathChecked(false));
    assert_eq!(
        a,
        Action::Fetch(
            "https://hatter.ink/tool/query_tool_by_name_version_without_auth.json?&name=maven&ver=3.5.2"
                .to_string()
        )
    );

    let (s, a) = resolve_step(&req, s, Event::RegistryBody(Some(maven_body("3.5.2"))));
    assert_eq!(a, Action::EnsureDir("/cache/builder/maven-3.5.2".to_string()));

    let (s, a) = resolve_step(&req, s, Event::DirReady(true));
    assert_eq!(
        a,
        Action::Download(
            "http://x/maven.tar.gz".to_string(),
            "/cache/builder/maven-3.5.2/maven.tar.gz".to_string()
        )
    );

    let (s, a) = resolve_step(&req, s, Event::DownloadDone(true));
    assert_eq!(
        a,
        Action::ReadFile("/cache/builder/maven-3.5.2/maven.tar.gz".to_string())
    );

    let (s, a) = resolve_step(&req, s, Event::FileLoaded(Some(b"abc".to_vec())));
    assert_eq!(
        a,
        Action::Extract(
            "/cache/builder/maven-3.5.2".to_string(),
            "maven.tar.gz".to_string(),
            ArchiveKind::TarGz
        )
    );

    let (s, a) = resolve_step(&req, s, Event::ExtractDone(true));
    assert_eq!(a, Action::ListDir("/cache/builder/maven-3.5.2".to_string()));

    let listing = vec![
        ("/cache/builder/maven-3.5.2/maven.tar.gz".to_string(), false),
        ("/cache/builder/maven-3.5.2/apache-maven-3.5.2".to_string(), true),
    ];
    let (s, a) = resolve_step(&req, s, Event::DirListing(Some(listing)));
    assert_eq!(a, Action::Idle);
    match s {
        ResolveState::Done(desc) => {
            assert_eq!(desc.home, "/cache/builder/maven-3.5.2/apache-maven-3.5.2");
            assert_eq!(desc.name, BuilderName::Maven);
            assert_eq!(desc.bin, None);
            assert_eq!(
                desc.get_builder_bin(),
                "/cache/builder/maven-3.5.2/apache-maven-3.5.2/bin/mvn"
            );
        },
        other => panic!("expected Done, got {:?}", other),
    }
}

#[test]
fn resolve_hit_skips_network_and_yields_same_home() {
    let req = maven_request();
    let (s, a) = resolve_step(&req, ResolveState::CheckingLocal, Event::PathChecked(true));
    assert_eq!(a, Action::ListDir("/cache/builder/maven-3.5.2".to_string()));
    assert!(!matches!(a, Action::Fetch(_)));

    let listing = vec![
        ("/cache/builder/maven-3.5.2/maven.tar.gz".to_string(), false),
        ("/cache/builder/maven-3.5.2/apache-maven-3.5.2".to_string(), true),
    ];
    let (s, a) = resolve_step(&req, s, Event::DirListing(Some(listing)));
    assert_eq!(a, Action::Idle);
    match s {
        ResolveState::Done(desc) => {
            assert_eq!(desc.home, "/cache/builder/maven-3.5.2/apache-maven-3.5.2");
        },
        other => panic!("expected Done, got {:?}", other),
    }
}

#[test]
fn strict_mismatch_fails_resolution_and_never_extracts() {
    let req = maven_request();
    let (s, _) = resolve_step(&req, ResolveState::Ready, Event::Begin);
    let (s, _) = resolve_step(&req, s, Event::PathChecked(false));
    let (s, a) = resolve_step(&req, s, Event::RegistryBody(Some(maven_body("3.6.0"))));
    assert_eq!(a, Action::Idle);
    assert_eq!(s, ResolveState::Failed(ResolveError::VersionMismatch));

    let (s, a) = resolve_step(&req, s, Event::ExtractDone(true));
    assert_eq!(a, Action::Idle);
    assert_eq!(s, ResolveState::Failed(ResolveError::VersionMismatch));
}

#[test]
fn unknown_builder_fails_at_once() {
    let req = ResolveRequest {
        base_dir: "/cache/builder".to_string(),
        builder: "ant".to_string(),
        version: "1.10".to_string(),
        auth: None,
    };
    let (s, a) = resolve_step(&req, ResolveState::Ready, Event::Begin);
    assert_eq!(s, ResolveState::Failed(ResolveError::ToolNotFound));
    assert_eq!(a, Action::Idle);
}

#[test]
fn failed_download_is_registry_error() {
    let req = maven_request();
    let (s, _) = resolve_step(&req, ResolveState::Ready, Event::Begin);
    let (s, _) = resolve_step(&req, s, Event::PathChecked(false));
    let (s, _) = resolve_step(&req, s, Event::RegistryBody(Some(maven_body("3.5.2"))));
    let (s, _) = resolve_step(&req, s, Event::DirReady(true));
    let (s, a) = resolve_step(&req, s, Event::DownloadDone(false));
    assert_eq!(s, ResolveState::Failed(ResolveError::RegistryError));
    assert_eq!(a, Action::Idle);
}

#[test]
fn corrupted_download_is_verification_error() {
    let req = maven_request();
    let (s, _) = resolve_step(&req, ResolveState::Ready, Event::Begin);
    let (s, _) = resolve_step(&req, s, Event::PathChecked(false));
    let (s, _) = resolve_step(&req, s, Event::RegistryBody(Some(maven_body("3.5.2"))));
    let (s, _) = resolve_step(&req, s, Event::DirReady(true));
    let (s, _) = resolve_step(&req, s, Event::DownloadDone(true));
    let (s, a) = resolve_step(&req, s, Event::FileLoaded(Some(b"tampered".to_vec())));
    assert_eq!(s, ResolveState::Failed(ResolveError::VerificationError));
    assert_eq!(a, Action::Idle);
}

#[test]
fn unsupported_tag_fails_acquisition() {
    let req = AcquireRequest {
        base_dir: "/cache".to_string(),
        dir_with_name: true,
        name: "maven".to_string(),
        version: "1".to_string(),
        strict: false,
        auth: None,
    };
    let body = r#"{"status":200,"data":{"name":"maven.zip","url":"http://x/maven.zip","integrity":"crc32:hex-abcd","n":"maven","v":"1"}}"#;
    let (s, _) = acquire_step(&req, AcquireState::Ready, Event::Begin);
    let (s, _) = acquire_step(&req, s, Event::RegistryBody(Some(body.to_string())));
    let (s, _) = acquire_step(&req, s, Event::DirReady(true));
    let (s, _) = acquire_step(&req, s, Event::DownloadDone(true));
    let (s, a) = acquire_step(&req, s, Event::FileLoaded(Some(b"abc".to_vec())));
    assert_eq!(s, AcquireState::Failed(ResolveError::UnsupportedAlgorithm));
    assert_eq!(a, Action::Idle);
}

#[test]
fn failed_extraction_is_extraction_error() {
    let req = maven_request();
    let (s, _) = resolve_step(&req, ResolveState::Ready, Event::Begin);
    let (s, _) = resolve_step(&req, s, Event::PathChecked(false));
    let (s, _) = resolve_step(&req, s, Event::RegistryBody(Some(maven_body("3.5.2"))));
    let (s, _) = resolve_step(&req, s, Event::DirReady(true));
    let (s, _) = resolve_step(&req, s, Event::DownloadDone(true));
    let (s, _) = resolve_step(&req, s, Event::FileLoaded(Some(b"abc".to_vec())));
    let (s, a) = resolve_step(&req, s, Event::ExtractDone(false));
    assert_eq!(s, ResolveState::Failed(ResolveError::ExtractionError));
    assert_eq!(a, Action::Idle);
}

#[test]
fn failed_dir_creation_is_cache_io_error() {
    let req = maven_request();
    let (s, _) = resolve_step(&req, ResolveState::Ready, Event::Begin);
    let (s, _) = resolve_step(&req, s, Event::PathChecked(false));
    let (s, _) = resolve_step(&req, s, Event::RegistryBody(Some(maven_body("3.5.2"))));
    let (s, a) = resolve_step(&req, s, Event::DirReady(false));
    assert_eq!(s, ResolveState::Failed(ResolveError::CacheIOError));
    assert_eq!(a, Action::Idle);
}

#[test]
fn empty_cache_dir_is_tool_not_found() {
    let req = maven_request();
    let (s, _) = resolve_step(&req, ResolveState::CheckingLocal, Event::PathChecked(true));
    let (s, a) = resolve_step(&req, s, Event::DirListing(Some(Vec::new())));
    assert_eq!(s, ResolveState::Failed(ResolveError::ToolNotFound));
    assert_eq!(a, Action::Idle);
}

fn jdk_request(os: OsKind) -> JdkRequest {
    JdkRequest {
        base_dir: "/jdks".to_string(),
        version: "11".to_string(),
        auth: None,
        os,
        name_override: None,
    }
}

#[test]
fn jdk_lookup_prefers_platform_discovery() {
    let req = jdk_request(OsKind::MacOs);
    let (s, a) = jdk_step(&req, JdkState::Ready, Event::Begin);
    assert_eq!(a, Action::ProbeOsJavaHome);
    let (s, a) = jdk_step(&req, s, Event::OsJavaHome(Some("/Library/JVM/Home".to_string())));
    assert_eq!(s, JdkState::Done("/Library/JVM/Home".to_string()));
    assert_eq!(a, Action::Idle);
}

#[test]
fn jdk_lookup_scans_cache_by_version_prefix() {
    let req = jdk_request(OsKind::Linux);
    let (s, _) = jdk_step(&req, JdkState::Ready, Event::Begin);
    let (s, a) = jdk_step(&req, s, Event::OsJavaHome(None));
    assert_eq!(a, Action::ListDir("/jdks".to_string()));
    let listing = vec![
        ("/jdks/jdk-2.11.0".to_string(), true),
        ("/jdks/jdk-11.0.2".to_string(), true),
    ];
    let (s, a) = jdk_step(&req, s, Event::DirListing(Some(listing)));
    assert_eq!(a, Action::CheckPath("/jdks/jdk-11.0.2/Contents/Home".to_string()));
    let (s, a) = jdk_step(&req, s, Event::PathChecked(false));
    assert_eq!(s, JdkState::Done("/jdks/jdk-11.0.2".to_string()));
    assert_eq!(a, Action::Idle);
}

#[test]
fn jdk_lookup_bundle_home_on_macos_layout() {
    let req = jdk_request(OsKind::MacOs);
    let (s, _) = jdk_step(&req, JdkState::Ready, Event::Begin);
    let (s, _) = jdk_step(&req, s, Event::OsJavaHome(None));
    let listing = vec![("/jdks/jdk-11.0.2".to_string(), true)];
    let (s, _) = jdk_step(&req, s, Event::DirListing(Some(listing)));
    let (s, _) = jdk_step(&req, s, Event::PathChecked(true));
    assert_eq!(s, JdkState::Done("/jdks/jdk-11.0.2/Contents/Home".to_string()));
}

#[test]
fn jdk_lookup_tries_cloud_names_in_order_then_fails() {
    let req = jdk_request(OsKind::Linux);
    let (s, _) = jdk_step(&req, JdkState::Ready, Event::Begin);
    let (s, _) = jdk_step(&req, s, Event::OsJavaHome(None));
    let (s, a) = jdk_step(&req, s, Event::DirListing(Some(Vec::new())));
    assert_eq!(
        a,
        Action::Fetch(
            "https://hatter.ink/tool/query_tool_by_name_version_without_auth.json?&name=jdk-linux&ver=11"
                .to_string()
        )
    );
    let (s, a) = jdk_step(&req, s, Event::RegistryBody(None));
    assert_eq!(
        a,
        Action::Fetch(
            "https://hatter.ink/tool/query_tool_by_name_version_without_auth.json?&name=openjdk-linux&ver=11"
                .to_string()
        )
    );
    let (s, a) = jdk_step(&req, s, Event::RegistryBody(None));
    assert_eq!(s, JdkState::Failed(ResolveError::ToolNotFound));
    assert_eq!(a, Action::Idle);
}

#[test]
fn jdk_cloud_fetch_extracts_under_base_and_rescans() {
    let req = jdk_request(OsKind::Linux);
    let (s, _) = jdk_step(&req, JdkState::Ready, Event::Begin);
    let (s, _) = jdk_step(&req, s, Event::OsJavaHome(None));
    let (s, _) = jdk_step(&req, s, Event::DirListing(Some(Vec::new())));
    let body = format!(
        r#"{{"status":200,"data":{{"name":"jdk.tar.gz","url":"http://x/jdk.tar.gz","integrity":"sha256:hex-{}","n":"jdk-linux","v":"11.0.2"}}}}"#,
        ABC_SHA256
    );
    let (s, a) = jdk_step(&req, s, Event::RegistryBody(Some(body)));
    assert_eq!(a, Action::EnsureDir("/jdks".to_string()));
    let (s, a) = jdk_step(&req, s, Event::DirReady(true));
    assert_eq!(
        a,
        Action::Download("http://x/jdk.tar.gz".to_string(), "/jdks/jdk.tar.gz".to_string())
    );
    let (s, _) = jdk_step(&req, s, Event::DownloadDone(true));
    let (s, a) = jdk_step(&req, s, Event::FileLoaded(Some(b"abc".to_vec())));
    assert_eq!(
        a,
        Action::Extract("/jdks".to_string(), "jdk.tar.gz".to_string(), ArchiveKind::TarGz)
    );
    let (s, a) = jdk_step(&req, s, Event::ExtractDone(true));
    assert_eq!(a, Action::ListDir("/jdks".to_string()));
    let listing = vec![("/jdks/jdk-11.0.2".to_string(), true)];
    let (s, _) = jdk_step(&req, s, Event::DirListing(Some(listing)));
    let (s, _) = jdk_step(&req, s, Event::PathChecked(false));
    assert_eq!(s, JdkState::Done("/jdks/jdk-11.0.2".to_string()));
}

#[test]
fn jdk_cloud_is_skipped_on_other_platforms() {
    let req = jdk_request(OsKind::Other);
    let (s, _) = jdk_step(&req, JdkState::Ready, Event::Begin);
    let (s, _) = jdk_step(&req, s, Event::OsJavaHome(None));
    let (s, a) = jdk_step(&req, s, Event::DirListing(Some(Vec::new())));
    assert_eq!(s, JdkState::Failed(ResolveError::ToolNotFound));
    assert_eq!(a, Action::Idle);
}
