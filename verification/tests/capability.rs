use pincher_core::capability::{path_matches_pattern, CapabilityManifest, Permission};
use uuid::Uuid;

#[test]
fn test_path_matching_exact() {
    assert!(path_matches_pattern("/tmp", "/tmp"));
    assert!(!path_matches_pattern("/tmp", "/var"));
}

#[test]
fn test_path_matching_wildcard() {
    assert!(path_matches_pattern("/*", "/anything"));
    assert!(path_matches_pattern("/tmp/*", "/tmp/foo"));
}

#[test]
fn test_permission_covers() {
    let p = Permission::FsWrite { path: "/tmp/*".into() };
    assert!(p.covers_fs_write("/tmp/test.txt"));
    assert!(!p.covers_fs_write("/etc/shadow"));
}

#[test]
fn literal_pattern_is_a_prefix_match() {
    // Without a star the pattern also covers everything below it.
    assert!(path_matches_pattern("/tmp", "/tmp/nested/file"));
    assert!(path_matches_pattern("/tmp", "/tmpfile"));
    assert!(!path_matches_pattern("/tmp/a", "/tmp"));
}

#[test]
fn universal_patterns_cover_everything() {
    assert!(path_matches_pattern("*", ""));
    assert!(path_matches_pattern("*", "relative/path"));
    assert!(path_matches_pattern("/*", ""));
}

#[test]
fn glob_parts_must_appear_in_order() {
    assert!(path_matches_pattern("/home/*/docs/*.txt", "/home/ann/docs/notes.txt"));
    assert!(!path_matches_pattern("/home/*/docs/*.txt", "/home/ann/notes.txt"));
    assert!(!path_matches_pattern("/home/*.txt", "/var/home/a.txt"));
    // A leading star lets the first part start anywhere.
    assert!(path_matches_pattern("*.log", "/var/log/sys.log"));
    // Parts may not overlap.
    assert!(!path_matches_pattern("ab*ba", "aba"));
    assert!(path_matches_pattern("ab*ba", "abba"));
}

#[test]
fn fs_write_implies_fs_read() {
    let w = Permission::FsWrite { path: "/data/*".into() };
    assert!(w.covers_fs_read("/data/x"));
    assert!(w.covers_fs_write("/data/x"));
    let r = Permission::FsRead { path: "/data/*".into() };
    assert!(r.covers_fs_read("/data/x"));
    assert!(!r.covers_fs_write("/data/x"));
}

#[test]
fn execute_and_network_permissions() {
    let e = Permission::Execute { binary: "ls".into() };
    assert!(e.covers_execute("ls"));
    assert!(!e.covers_execute("lsblk"));
    assert!(!e.allows_network());
    let n = Permission::NetConnect { host: "example.org".into(), port: 443 };
    assert!(n.allows_network());
    assert!(!n.covers_execute("ls"));
    assert!(!n.covers_fs_read("/"));
    assert!(!Permission::NetNone.allows_network());
}

#[test]
fn manifest_grants_only_what_is_listed() {
    let id = Uuid::nil();
    let empty = CapabilityManifest::empty(id);
    assert!(!empty.has_fs_read("/tmp/x"));
    assert!(!empty.has_fs_write("/tmp/x"));
    assert!(!empty.has_execute("ls"));
    assert!(!empty.allows_network());

    let mut m = CapabilityManifest::empty(id);
    m.permissions.push(Permission::FsRead { path: "/etc/*".into() });
    m.permissions.push(Permission::Execute { binary: "cat".into() });
    assert!(m.has_fs_read("/etc/hosts"));
    assert!(!m.has_fs_write("/etc/hosts"));
    assert!(m.has_execute("cat"));
    assert!(!m.allows_network());
    assert_eq!(m.reflex_id, id);
    m.permissions.push(Permission::NetConnect { host: "h".into(), port: 1 });
    assert!(m.allows_network());
}

#[test]
fn covering_pattern_covers_extensions() {
    for (pattern, path) in [("/tmp", "/tmp"), ("/tmp/*", "/tmp/x"), ("/home/*/docs", "/home/u/docs"), ("*", "")] {
        assert!(path_matches_pattern(pattern, path));
        for suffix in ["", "/a", "/a/b", "x"] {
            let longer = format!("{path}{suffix}");
            assert!(path_matches_pattern(pattern, &longer), "{pattern} should cover {longer}");
        }
    }
}
