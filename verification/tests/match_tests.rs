use buildj::cache::{archive_kind, cache_dir_path, first_dir_entry, ArchiveKind};
use buildj::download::parse_content_length;
use buildj::jdkmatch::{
    cloud_java_names, find_jdk_match, java_home_within, jdk_dir_matches, last_path_segment,
    OsKind,
};
use buildj::misc::{
    get_full_git_hash, get_short_git_hash, is_buildin_args, parse_builder_env,
    parse_create_args,
};
use buildj::tool::{builder_of, BuilderDesc, BuilderName};

fn strings(v: &[&str]) -> Vec<String> {
    v.iter().map(|s| s.to_string()).collect()
}

#[test]
fn version_prefix_follows_jdk_marker() {
    assert!(jdk_dir_matches("jdk-11.0.2", "11"));
    assert!(!jdk_dir_matches("jdk-2.11.0", "11"));
}

#[test]
fn version_prefix_both_markers() {
    assert!(jdk_dir_matches("jdk1.8.0_202", "1.8"));
    assert!(jdk_dir_matches("jdk-1.8.0_202", "1.8"));
    assert!(!jdk_dir_matches("openjdk-11", "11"));
    assert!(!jdk_dir_matches("jdk-1.8.0_202", "11"));
}

#[test]
fn last_path_segment_strips_dirs_and_trailing_slash() {
    assert_eq!(last_path_segment("/home/u/.jssp/jdks/jdk-11.0.2"), "jdk-11.0.2");
    assert_eq!(last_path_segment("/home/u/.jssp/jdks/jdk-11.0.2/"), "jdk-11.0.2");
    assert_eq!(last_path_segment("jdk-11.0.2"), "jdk-11.0.2");
}

#[test]
fn find_jdk_match_takes_first_in_listing_order() {
    let entries: Vec<(String, bool)> = vec![
        ("/jdks/notes.txt".to_string(), false),
        ("/jdks/jdk-2.11.0".to_string(), true),
        ("/jdks/jdk-11.0.2".to_string(), true),
        ("/jdks/jdk-11.0.9".to_string(), true),
    ];
    assert_eq!(find_jdk_match(&entries, "11").unwrap(), "/jdks/jdk-11.0.2");
    assert_eq!(find_jdk_match(&entries, "9"), None);
}

#[test]
fn java_home_prefers_bundle_contents() {
    assert_eq!(java_home_within("/jdks/jdk-11", true), "/jdks/jdk-11/Contents/Home");
    assert_eq!(java_home_within("/jdks/jdk-11", false), "/jdks/jdk-11");
}

#[test]
fn cloud_java_names_by_platform() {
    assert_eq!(cloud_java_names(OsKind::MacOs, &None), strings(&["openjdk-osx"]));
    assert_eq!(
        cloud_java_names(OsKind::Linux, &None),
        strings(&["jdk-linux", "openjdk-linux"])
    );
    assert_eq!(cloud_java_names(OsKind::Other, &None), Vec::<String>::new());
    assert_eq!(
        cloud_java_names(OsKind::Linux, &Some("myjdk".to_string())),
        strings(&["myjdk"])
    );
}

#[test]
fn archive_kind_by_suffix() {
    assert_eq!(archive_kind("maven.zip"), Some(ArchiveKind::Zip));
    assert_eq!(archive_kind("maven.tar.gz"), Some(ArchiveKind::TarGz));
    assert_eq!(archive_kind("maven.tar.bz2"), None);
    assert_eq!(archive_kind("maven.gz"), None);
}

#[test]
fn cache_dir_is_deterministic() {
    assert_eq!(cache_dir_path("/c", "maven", "3.5.2"), "/c/maven-3.5.2");
}

#[test]
fn first_dir_entry_skips_files() {
    let entries: Vec<(String, bool)> = vec![
        ("/c/maven-3.5.2/maven.tar.gz".to_string(), false),
        ("/c/maven-3.5.2/apache-maven-3.5.2".to_string(), true),
        ("/c/maven-3.5.2/other".to_string(), true),
    ];
    assert_eq!(first_dir_entry(&entries).unwrap(), "/c/maven-3.5.2/apache-maven-3.5.2");
    let none: Vec<(String, bool)> = vec![("/c/x".to_string(), false)];
    assert_eq!(first_dir_entry(&none), None);
    assert_eq!(first_dir_entry(&Vec::new()), None);
}

#[test]
fn buildin_args_prefixes() {
    assert!(is_buildin_args(&strings(&["buildj", ":::version"])));
    assert!(is_buildin_args(&strings(&["buildj", "...task"])));
    assert!(!is_buildin_args(&strings(&["buildj", "clean"])));
    assert!(!is_buildin_args(&strings(&["buildj"])));
}

#[test]
fn git_hash_helpers() {
    assert_eq!(get_full_git_hash(""), None);
    assert_eq!(get_full_git_hash("0123456789abcdef"), Some("0123456789abcdef"));
    assert_eq!(get_short_git_hash(""), None);
    assert_eq!(get_short_git_hash("0123456789abcdef").unwrap(), "0123456");
}

#[test]
fn builder_names_parse() {
    assert_eq!(builder_of("maven"), Some(BuilderName::Maven));
    assert_eq!(builder_of("gradle"), Some(BuilderName::Gradle));
    assert_eq!(builder_of("ant"), None);
}

#[test]
fn builder_bin_and_home_names() {
    let maven = BuilderDesc {
        name: BuilderName::Maven,
        home: "/m".to_string(),
        bin: None,
    };
    assert_eq!(maven.get_builder_bin(), "/m/bin/mvn");
    assert_eq!(maven.get_builder_home_name(), strings(&["M2_HOME", "MAVEN_HOME"]));
    let gradle = BuilderDesc {
        name: BuilderName::Gradle,
        home: "/g".to_string(),
        bin: Some("/custom/gradle".to_string()),
    };
    assert_eq!(gradle.get_builder_bin(), "/custom/gradle");
    assert_eq!(gradle.get_builder_home_name(), strings(&["GRADLE_HOME"]));
}

#[test]
fn create_args_scan() {
    let args = strings(&["buildj", ":::create", "--java1.8", "--maven3.5.2"]);
    let (java, builder, bv) = parse_create_args(&args).unwrap();
    assert_eq!(java, "1.8");
    assert_eq!(builder, "maven");
    assert_eq!(bv, "3.5.2");

    let gradle_args = strings(&["buildj", ":::create", "--gradle4.4", "--java11"]);
    let (java2, builder2, bv2) = parse_create_args(&gradle_args).unwrap();
    assert_eq!(java2, "11");
    assert_eq!(builder2, "gradle");
    assert_eq!(bv2, "4.4");

    assert_eq!(parse_create_args(&strings(&["buildj", "--java1.8"])), None);
    assert_eq!(parse_create_args(&strings(&["buildj", "--maven3.5.2"])), None);
    assert_eq!(parse_create_args(&strings(&["buildj", "--java", "--maven3.5.2"])), None);
}

#[test]
fn builder_env_overrides_parse() {
    assert_eq!(
        parse_builder_env("gradle4.4"),
        Some(("gradle".to_string(), "4.4".to_string()))
    );
    assert_eq!(
        parse_builder_env("maven3.5.2"),
        Some(("maven".to_string(), "3.5.2".to_string()))
    );
    assert_eq!(parse_builder_env("ant1.10"), None);
}

#[test]
fn content_length_parses_or_degrades() {
    assert_eq!(parse_content_length(Some("1024")), 1024);
    assert_eq!(parse_content_length(Some("0")), 0);
    assert_eq!(parse_content_length(Some("+77")), 77);
    assert_eq!(parse_content_length(Some("-5")), -5);
    assert_eq!(parse_content_length(Some("9223372036854775807")), 9223372036854775807);
    assert_eq!(parse_content_length(Some("-9223372036854775808")), -9223372036854775808);
    assert_eq!(parse_content_length(Some("9223372036854775808")), -1);
    assert_eq!(parse_content_length(Some("99999999999999999999999")), -1);
    assert_eq!(parse_content_length(Some("12a4")), -1);
    assert_eq!(parse_content_length(Some("")), -1);
    assert_eq!(parse_content_length(Some("-")), -1);
    assert_eq!(parse_content_length(None), -1);
}
