use plugin_core::error::Error;
use plugin_core::registry::{NameSet, ShorthandRegistry};
use plugin_core::remote::RemoteUrl;
use plugin_core::trust::{
    decide_trust, evaluate_trust, is_trusted_plugin, normalization_from_parse, normalize_remote,
    normalize_url,
};

fn registry() -> ShorthandRegistry {
    let mut r = ShorthandRegistry::new();
    r.insert(
        "python".to_string(),
        "https://github.com/mise-plugins/rtx-python".to_string(),
    );
    r.insert(
        "elixir".to_string(),
        "https://github.com/asdf-vm/asdf-elixir.git".to_string(),
    );
    r
}

#[test]
fn normalize_takes_host_and_path() {
    assert_eq!(
        normalize_remote("https://github.com/mise-plugins/rtx-python").unwrap(),
        "github.com/mise-plugins/rtx-python"
    );
    assert_eq!(
        normalize_remote("https://user@GitHub.com:443/a/b?x=1#frag").unwrap(),
        "github.com/a/b"
    );
}

#[test]
fn normalize_ignores_git_suffix() {
    let plain = normalize_remote("https://github.com/asdf-vm/asdf-elixir").unwrap();
    let with = normalize_remote("https://github.com/asdf-vm/asdf-elixir.git").unwrap();
    let twice = normalize_remote("https://github.com/asdf-vm/asdf-elixir.git.git").unwrap();
    assert_eq!(plain, "github.com/asdf-vm/asdf-elixir");
    assert_eq!(with, plain);
    assert_eq!(twice, plain);
}

#[test]
fn normalize_keeps_trailing_slash() {
    assert_eq!(
        normalize_remote("https://github.com/a/b/").unwrap(),
        "github.com/a/b/"
    );
    assert_eq!(normalize_remote("https://github.com").unwrap(), "github.com/");
    assert_eq!(normalize_remote("https://github.com/").unwrap(), "github.com/");
}

#[test]
fn normalize_rejects_what_is_no_url() {
    match normalize_remote("python") {
        Err(Error::InvalidRemote { remote, reason }) => {
            assert_eq!(remote, "python");
            assert_eq!(reason, "relative URL without a base");
        }
        other => panic!("unexpected: {:?}", other),
    }
    assert!(normalize_remote("").is_err());
}

#[test]
fn normalize_rejects_url_without_host() {
    match normalize_remote("unix:/run/foo.socket") {
        Err(Error::InvalidRemote { remote, reason }) => {
            assert_eq!(remote, "unix:/run/foo.socket");
            assert_eq!(reason, "URL has no host");
        }
        other => panic!("unexpected: {:?}", other),
    }
    let e = normalize_remote("unix:/run/foo.socket").unwrap_err();
    assert_eq!(
        e.message(),
        "Invalid remote: unix:/run/foo.socket: URL has no host"
    );
}

#[test]
fn normalize_url_of_parts() {
    let u = RemoteUrl {
        text: "https://h.test/p.git".to_string(),
        host: Some("h.test".to_string()),
        path: "/p.git".to_string(),
    };
    assert_eq!(normalize_url(&u), Some("h.test/p".to_string()));
    let v = RemoteUrl {
        text: "data:x".to_string(),
        host: None,
        path: "x".to_string(),
    };
    assert_eq!(normalize_url(&v), None);
    assert!(matches!(
        normalization_from_parse("data:x", Ok(v)),
        Err(Error::InvalidRemote { .. })
    ));
    assert_eq!(normalization_from_parse("r", Ok(u)).unwrap(), "h.test/p");
}

#[test]
fn registry_lookup() {
    let mut r = registry();
    assert_eq!(
        r.get("python").map(|s| s.as_str()),
        Some("https://github.com/mise-plugins/rtx-python")
    );
    assert!(r.get("nodejs/node").is_none());
    assert!(ShorthandRegistry::new().get("python").is_none());
    r.insert("python".to_string(), "https://example.com/py".to_string());
    assert_eq!(r.get("python").map(|s| s.as_str()), Some("https://example.com/py"));
    assert_eq!(
        r.get("elixir").map(|s| s.as_str()),
        Some("https://github.com/asdf-vm/asdf-elixir.git")
    );
}

#[test]
fn name_set_membership() {
    let mut s = NameSet::new();
    assert!(!s.contains("a"));
    s.insert("a".to_string());
    s.insert("b".to_string());
    assert!(s.contains("a"));
    assert!(s.contains("b"));
    assert!(!s.contains("c"));
    assert!(!s.contains(""));
}

#[test]
fn unregistered_name_is_trusted() {
    let r = registry();
    let t = NameSet::new();
    assert!(is_trusted_plugin("nodejs/node", "https://github.com/nodejs/node", &r, &t));
    assert!(is_trusted_plugin("nodejs/node", "https://github.com/attacker/x", &r, &t));
    assert!(is_trusted_plugin("nodejs/node", "not a url", &r, &t));
    assert!(is_trusted_plugin("nodejs/node", "", &r, &t));
}

#[test]
fn registered_first_party_remote_is_trusted() {
    let r = registry();
    let t = NameSet::new();
    assert!(is_trusted_plugin(
        "python",
        "https://github.com/mise-plugins/rtx-python",
        &r,
        &t
    ));
    assert!(is_trusted_plugin(
        "python",
        "https://github.com/mise-plugins/rtx-python.git",
        &r,
        &t
    ));
}

#[test]
fn registered_community_remote_is_not_trusted() {
    let r = registry();
    let t = NameSet::new();
    assert!(!is_trusted_plugin(
        "elixir",
        "https://github.com/asdf-vm/asdf-elixir.git",
        &r,
        &t
    ));
    assert!(!is_trusted_plugin(
        "elixir",
        "https://github.com/asdf-vm/asdf-elixir",
        &r,
        &t
    ));
}

#[test]
fn whitelisted_name_is_trusted() {
    let r = registry();
    let mut t = NameSet::new();
    t.insert("elixir".to_string());
    assert!(is_trusted_plugin(
        "elixir",
        "https://github.com/asdf-vm/asdf-elixir.git",
        &r,
        &t
    ));
}

#[test]
fn remote_that_differs_from_canonical_claims_no_shorthand() {
    let r = registry();
    let t = NameSet::new();
    assert!(is_trusted_plugin("python", "https://github.com/attacker/python", &r, &t));
    assert!(is_trusted_plugin("elixir", "https://github.com/asdf-vm/asdf-elixir/", &r, &t));
    assert!(is_trusted_plugin("elixir", "::", &r, &t));
}

#[test]
fn invalid_canonical_matches_nothing() {
    let mut r = ShorthandRegistry::new();
    r.insert("odd".to_string(), "no url".to_string());
    let t = NameSet::new();
    assert!(is_trusted_plugin("odd", "no url", &r, &t));
    assert!(is_trusted_plugin("odd", "also none", &r, &t));
}

#[test]
fn decision_carries_normal_form() {
    let r = registry();
    let t = NameSet::new();
    let d = evaluate_trust("elixir", "https://github.com/asdf-vm/asdf-elixir.git", &r, &t);
    assert!(!d.is_trusted);
    assert_eq!(d.normalized_remote.as_deref(), Some("github.com/asdf-vm/asdf-elixir"));
    let e = evaluate_trust("elixir", "nothing", &r, &t);
    assert!(e.is_trusted);
    assert_eq!(e.normalized_remote, None);
}

#[test]
fn decide_trust_applies_the_rule() {
    let a = Some("github.com/x/y".to_string());
    assert!(!decide_trust(a.clone(), &a, false).is_trusted);
    assert!(decide_trust(a.clone(), &a, true).is_trusted);
    assert!(decide_trust(a.clone(), &None, false).is_trusted);
    assert!(decide_trust(a.clone(), &Some("github.com/x/z".to_string()), false).is_trusted);
    assert!(decide_trust(None, &None, false).is_trusted);
    let m = Some("github.com/mise-plugins/y".to_string());
    assert!(decide_trust(m.clone(), &m, false).is_trusted);
    let near = Some("github.com/mise-plugins".to_string());
    assert!(!decide_trust(near.clone(), &near, false).is_trusted);
}
