use zuraffa::freshness::{is_fresh, EntryKind, FileStatus, DEFAULT_MAX_AGE_SECS};
use zuraffa::layout::{artifact_location, download_url, is_superseded, scope_name, scopes_to_remove};
use zuraffa::platform::{file_name, marker_name, resolve, Arch, ArchTag, Os, OsTag, Platform, Role, UnsupportedPlatform};
use zuraffa::update::{marker_location, version_to_record, SETTLE_DELAY_SECS};

fn tags(os: OsTag, arch: ArchTag) -> Platform {
    Platform { os_tag: os, arch_tag: arch }
}

#[test]
fn supported_platforms_resolve_to_their_tags() {
    assert_eq!(resolve(Os::Mac, Arch::Aarch64), Ok(tags(OsTag::Macos, ArchTag::Arm64)));
    assert_eq!(resolve(Os::Mac, Arch::X8664), Ok(tags(OsTag::Macos, ArchTag::X64)));
    assert_eq!(resolve(Os::Linux, Arch::X8664), Ok(tags(OsTag::Linux, ArchTag::X64)));
    assert_eq!(resolve(Os::Windows, Arch::X8664), Ok(tags(OsTag::Windows, ArchTag::X64)));
}

#[test]
fn unsupported_platforms_fail_with_their_pair() {
    for (os, arch) in [
        (Os::Linux, Arch::Aarch64),
        (Os::Windows, Arch::Aarch64),
        (Os::Mac, Arch::X86),
        (Os::Linux, Arch::X86),
        (Os::Windows, Arch::X86),
    ] {
        assert_eq!(resolve(os, arch), Err(UnsupportedPlatform { os, arch }));
    }
}

#[test]
fn file_names_follow_the_convention() {
    assert_eq!(file_name(Role::Server, tags(OsTag::Macos, ArchTag::Arm64)), "zuraffa_mcp_server-macos-arm64");
    assert_eq!(file_name(Role::Server, tags(OsTag::Windows, ArchTag::X64)), "zuraffa_mcp_server-windows-x64.exe");
    assert_eq!(file_name(Role::CompanionCli, tags(OsTag::Linux, ArchTag::X64)), "zuraffa_cli-linux-x64");
    assert_ne!(
        file_name(Role::Server, tags(OsTag::Linux, ArchTag::X64)),
        file_name(Role::CompanionCli, tags(OsTag::Linux, ArchTag::X64))
    );
}

#[test]
fn marker_replaces_the_extension() {
    assert_eq!(marker_name(Role::Server, tags(OsTag::Windows, ArchTag::X64)), "zuraffa_mcp_server-windows-x64.version");
    assert_eq!(
        marker_location("1.2.0", tags(OsTag::Linux, ArchTag::X64)),
        "zuraffa-1.2.0/zuraffa_mcp_server-linux-x64.version"
    );
}

#[test]
fn scope_paths_and_urls() {
    assert_eq!(scope_name("1.1.0"), "zuraffa-1.1.0");
    assert_eq!(artifact_location("1.1.0", "a"), "zuraffa-1.1.0/a");
    assert_eq!(download_url("x"), "https://github.com/arrrrny/zuraffa/releases/latest/download/x");
}

#[test]
fn freshness_rejects_missing_directories_and_old_files() {
    let now = 1_000_000;
    let max = DEFAULT_MAX_AGE_SECS;
    assert_eq!(max, 7 * 24 * 3600);
    assert!(!is_fresh(&FileStatus { kind: EntryKind::Missing, modified: None }, now, max));
    assert!(!is_fresh(&FileStatus { kind: EntryKind::Directory, modified: Some(now) }, now, max));
    assert!(!is_fresh(&FileStatus { kind: EntryKind::Other, modified: Some(now) }, now, max));
    assert!(!is_fresh(&FileStatus { kind: EntryKind::File, modified: None }, now, max));
    assert!(!is_fresh(&FileStatus { kind: EntryKind::File, modified: Some(now - max) }, now, max));
    assert!(is_fresh(&FileStatus { kind: EntryKind::File, modified: Some(now - max + 1) }, now, max));
    assert!(is_fresh(&FileStatus { kind: EntryKind::File, modified: Some(now) }, now, max));
    assert!(is_fresh(&FileStatus { kind: EntryKind::File, modified: Some(now + 50) }, now, max));
    assert!(!is_fresh(&FileStatus { kind: EntryKind::File, modified: Some(now) }, now, 0));
}

#[test]
fn cleanup_keeps_current_scope_and_other_entries() {
    let entries: Vec<String> = ["zuraffa-0.9.0", "src", "zuraffa-1.1.0", "zuraffa-1.0.0", "zuraffa", "other-1.0.0"]
        .iter()
        .map(|s| s.to_string())
        .collect();
    assert_eq!(
        scopes_to_remove(&entries, "1.1.0"),
        vec!["zuraffa-0.9.0".to_string(), "zuraffa-1.0.0".to_string()]
    );
    assert!(scopes_to_remove(&Vec::new(), "1.1.0").is_empty());
    assert!(!is_superseded("zuraffa-1.1.0", "1.1.0"));
    assert!(is_superseded("zuraffa-1.1.0", "1.2.0"));
    assert!(!is_superseded("zuraff", "1.2.0"));
}

#[test]
fn update_check_decision() {
    assert_eq!(SETTLE_DELAY_SECS, 5);
    assert_eq!(version_to_record("", Some("latest".to_string())), Some("latest".to_string()));
    assert_eq!(version_to_record("latest", Some("latest".to_string())), None);
    assert_eq!(version_to_record("1.0.0", None), None);
}
