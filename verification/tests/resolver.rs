use plugin_core::error::Error;
use plugin_core::remote::{
    is_owner_repo, resolution_from_parse, target_of, vfox_to_url, PluginIdentity, RemoteUrl,
};
use plugin_core::text::{join_path, same_text, starts_with, trim_git_suffix};

#[test]
fn shorthand_resolves_to_hosted_url() {
    let url = vfox_to_url("nodejs/node").unwrap();
    assert_eq!(url.text, "https://github.com/nodejs/node");
    assert_eq!(url.host.as_deref(), Some("github.com"));
    assert_eq!(url.path, "/nodejs/node");
}

#[test]
fn full_url_resolves_to_itself() {
    let url = vfox_to_url("https://example.com/plugins/tool.git").unwrap();
    assert_eq!(url.text, "https://example.com/plugins/tool.git");
    assert_eq!(url.host.as_deref(), Some("example.com"));
    assert_eq!(url.path, "/plugins/tool.git");
}

#[test]
fn parser_normalizes_what_it_reads() {
    let url = vfox_to_url("HTTPS://Example.COM").unwrap();
    assert_eq!(url.text, "https://example.com/");
    assert_eq!(url.host.as_deref(), Some("example.com"));
    assert_eq!(url.path, "/");
}

#[test]
fn unparseable_identifier_is_invalid() {
    match vfox_to_url("python") {
        Err(Error::InvalidIdentifier { identifier, reason }) => {
            assert_eq!(identifier, "python");
            assert_eq!(reason, "relative URL without a base");
        }
        other => panic!("unexpected: {:?}", other),
    }
}

#[test]
fn three_segments_are_no_shorthand() {
    assert!(matches!(
        vfox_to_url("a/b/c"),
        Err(Error::InvalidIdentifier { .. })
    ));
}

#[test]
fn invalid_identifier_message() {
    let e = vfox_to_url("python").unwrap_err();
    assert_eq!(
        e.message(),
        "Invalid version: python: relative URL without a base"
    );
}

#[test]
fn owner_repo_grammar() {
    assert!(is_owner_repo("a/b"));
    assert!(is_owner_repo("nodejs/node"));
    assert!(is_owner_repo("ow ner/re\npo"));
    assert!(is_owner_repo("ü/é"));
    assert!(!is_owner_repo(""));
    assert!(!is_owner_repo("/"));
    assert!(!is_owner_repo("ab"));
    assert!(!is_owner_repo("/b"));
    assert!(!is_owner_repo("a/"));
    assert!(!is_owner_repo("a//b"));
    assert!(!is_owner_repo("a/b/c"));
    assert!(!is_owner_repo("a/b/"));
    assert!(!is_owner_repo("https://github.com/a/b"));
}

#[test]
fn target_of_shorthand_and_other() {
    assert_eq!(target_of("nodejs/node"), "https://github.com/nodejs/node");
    assert_eq!(target_of("https://x.test/a"), "https://x.test/a");
    assert_eq!(target_of("python"), "python");
}

#[test]
fn resolution_from_parse_keeps_url_and_wraps_error() {
    let url = RemoteUrl {
        text: "https://x.test/a".to_string(),
        host: Some("x.test".to_string()),
        path: "/a".to_string(),
    };
    let ok = resolution_from_parse("x", Ok(url)).unwrap();
    assert_eq!(ok.text, "https://x.test/a");
    match resolution_from_parse("x", Err("empty host".to_string())) {
        Err(Error::InvalidIdentifier { identifier, reason }) => {
            assert_eq!(identifier, "x");
            assert_eq!(reason, "empty host");
        }
        other => panic!("unexpected: {:?}", other),
    }
}

#[test]
fn git_suffix_is_trimmed_repeatedly() {
    assert_eq!(trim_git_suffix("/a/b.git"), "/a/b");
    assert_eq!(trim_git_suffix("/a/b.git.git"), "/a/b");
    assert_eq!(trim_git_suffix("/a/b"), "/a/b");
    assert_eq!(trim_git_suffix(".git"), "");
    assert_eq!(trim_git_suffix("git"), "git");
    assert_eq!(trim_git_suffix("/a/.gitx"), "/a/.gitx");
    assert_eq!(trim_git_suffix("/ü.git"), "/ü");
    assert_eq!(trim_git_suffix(""), "");
}

#[test]
fn paths_are_joined_with_one_separator() {
    assert_eq!(join_path("/tmp", "mise-vfox"), "/tmp/mise-vfox");
    assert_eq!(join_path("/tmp/", "mise-vfox"), "/tmp/mise-vfox");
    assert_eq!(join_path("", "mise-vfox"), "mise-vfox");
}

#[test]
fn prefix_and_equality() {
    assert!(starts_with("github.com/mise-plugins/x", "github.com/mise-plugins/"));
    assert!(!starts_with("github.com/mise-plugin", "github.com/mise-plugins/"));
    assert!(starts_with("abc", ""));
    assert!(!starts_with("abd", "abc"));
    assert!(same_text("é", "é"));
    assert!(!same_text("a", "b"));
    assert!(!same_text("a", "ab"));
}

#[test]
fn identity_resolves_name_or_override() {
    let a = PluginIdentity::resolve("nodejs/node", None).unwrap();
    assert_eq!(a.name, "nodejs/node");
    assert_eq!(a.resolved_remote.text, "https://github.com/nodejs/node");
    let b = PluginIdentity::resolve("python", Some("https://x.test/py.git")).unwrap();
    assert_eq!(b.name, "python");
    assert_eq!(b.resolved_remote.text, "https://x.test/py.git");
    let c = PluginIdentity::resolve("python", Some("owner/repo")).unwrap();
    assert_eq!(c.resolved_remote.text, "https://github.com/owner/repo");
    match PluginIdentity::resolve("python", None) {
        Err(Error::InvalidIdentifier { identifier, .. }) => assert_eq!(identifier, "python"),
        other => panic!("unexpected: {:?}", other),
    }
}
