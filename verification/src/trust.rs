//! The trust rule: whether a plugin may be installed without asking.
//!
//! A name that the shorthand registry does not know is the user's own choice of source and
//! is trusted. A remote that matches the registry's entry for its name is trusted only where
//! it lies in the first-party namespace or the name is in the set of trusted names.

use crate::error::Error;
use crate::registry::{ShorthandRegistry, NameSet};
use crate::remote::{parse_url, url_parse, RemoteUrl, RemoteUrlView};
use crate::text::{
    git_suffix, lemma_strip_absorbs_suffix, same_text, starts_with, strip_git_suffix,
    trim_git_suffix,
};
use vstd::prelude::*;
use vstd::string::*;

verus! {

/// The namespace of first-party plugins, in normalized form.
pub open spec fn org_prefix() -> Seq<char> {
    "github.com/mise-plugins/"@
}

/// The mathematical value of an optional string.
pub open spec fn text_of(s: Option<String>) -> Option<Seq<char>> {
    match s {
        Some(t) => Some(t@),
        None => None,
    }
}

/// The normal form of a parsed URL: host, then path without trailing `.git`. A URL without a
/// host has none.
pub open spec fn normalized_url(u: RemoteUrlView) -> Option<Seq<char>> {
    match u.host {
        Some(host) => Some(host + strip_git_suffix(u.path)),
        None => None,
    }
}

/// The normal form of a remote, where it parses as a URL with a host.
pub open spec fn normalized(remote: Seq<char>) -> Option<Seq<char>> {
    match url_parse(remote) {
        Ok(u) => normalized_url(u),
        Err(_) => None,
    }
}

/// Why `remote` has no normal form.
pub open spec fn normalize_failure(remote: Seq<char>) -> Seq<char> {
    match url_parse(remote) {
        Ok(_) => "URL has no host"@,
        Err(reason) => reason,
    }
}

/// The candidate has a normal form, and it is that of the canonical URL.
pub open spec fn is_shorthand_match(
    candidate: Option<Seq<char>>,
    canonical: Option<Seq<char>>,
) -> bool {
    candidate is Some && candidate == canonical
}

/// The candidate lies in the first-party namespace.
pub open spec fn is_org_owned(candidate: Option<Seq<char>>) -> bool {
    candidate matches Some(c) && org_prefix().is_prefix_of(c)
}

/// The trust rule, over the normal form of the candidate remote, the normal form of
/// the registry's URL for the name (`None` where the registry lacks the name or its URL has
/// no normal form), and whether the name is explicitly trusted.
pub open spec fn trust_rule(
    candidate: Option<Seq<char>>,
    canonical: Option<Seq<char>>,
    whitelisted: bool,
) -> bool {
    !is_shorthand_match(candidate, canonical) || is_org_owned(candidate) || whitelisted
}

/// The normal form of the registry's URL for `name`.
pub open spec fn canonical_of(registry: &ShorthandRegistry, name: Seq<char>) -> Option<Seq<char>> {
    match registry.spec_get(name) {
        Some(url) => normalized(url),
        None => None,
    }
}

/// Whether the rule trusts `name` when it resolves to `remote`.
pub open spec fn trusted(
    name: Seq<char>,
    remote: Seq<char>,
    registry: &ShorthandRegistry,
    trusted_names: &NameSet,
) -> bool {
    trust_rule(normalized(remote), canonical_of(registry, name), trusted_names.spec_contains(name))
}

/// The outcome of one evaluation of the trust rule.
#[derive(Debug, Clone)]
pub struct TrustDecision {
    pub is_trusted: bool,
    /// The normal form of the candidate remote; `None` where it has none.
    pub normalized_remote: Option<String>,
}

/// The normal form of a parsed URL.
pub fn normalize_url(u: &RemoteUrl) -> (r: Option<String>)
    ensures
        text_of(r) == normalized_url(u@),
{
    match &u.host {
        Some(host) => {
            let mut out = host.clone();
            out.append(trim_git_suffix(u.path.as_str()));
            Some(out)
        },
        None => None,
    }
}

/// Turns the outcome of parsing `remote` into its normal form, or into `InvalidRemote` with
/// the remote and the reason: the parser's words, or that the URL has no host.
pub fn normalization_from_parse(remote: &str, parsed: Result<RemoteUrl, String>) -> (r: Result<
    String,
    Error,
>)
    ensures
        match parsed {
            Ok(u) => match normalized_url(u@) {
                Some(n) => r matches Ok(s) && s@ == n,
                None => r matches Err(Error::InvalidRemote { remote: m, reason }) && m@ == remote@
                    && reason@ == "URL has no host"@,
            },
            Err(e) => r matches Err(Error::InvalidRemote { remote: m, reason }) && m@ == remote@
                && reason == e,
        },
{
    match parsed {
        Ok(u) => match normalize_url(&u) {
            Some(n) => Ok(n),
            None => Err(
                Error::InvalidRemote {
                    remote: String::from_str(remote),
                    reason: String::from_str("URL has no host"),
                },
            ),
        },
        Err(reason) => Err(Error::InvalidRemote { remote: String::from_str(remote), reason }),
    }
}

/// The normal form of a remote: the host and the path of its URL, without trailing `.git`.
/// Fails with `InvalidRemote` exactly where the remote does not parse as a URL or has no
/// host.
pub fn normalize_remote(remote: &str) -> (r: Result<String, Error>)
    ensures
        match normalized(remote@) {
            Some(n) => r matches Ok(s) && s@ == n,
            None => r matches Err(Error::InvalidRemote { remote: m, reason }) && m@ == remote@
                && reason@ == normalize_failure(remote@),
        },
{
    normalization_from_parse(remote, parse_url(remote))
}

/// Whether two optional normal forms are present and equal.
fn same_normal_form(candidate: &Option<String>, canonical: &Option<String>) -> (b: bool)
    ensures
        b == is_shorthand_match(text_of(*candidate), text_of(*canonical)),
{
    match (candidate, canonical) {
        (Some(a), Some(b)) => same_text(a.as_str(), b.as_str()),
        _ => false,
    }
}

/// Applies the trust rule to normal forms that were computed before.
pub fn decide_trust(
    candidate: Option<String>,
    canonical: &Option<String>,
    whitelisted: bool,
) -> (d: TrustDecision)
    ensures
        d.is_trusted == trust_rule(text_of(candidate), text_of(*canonical), whitelisted),
        d.normalized_remote == candidate,
{
    let is_shorthand = same_normal_form(&candidate, canonical);
    let is_org_owned = match &candidate {
        Some(c) => starts_with(c.as_str(), "github.com/mise-plugins/"),
        None => false,
    };
    TrustDecision {
        is_trusted: !is_shorthand || is_org_owned || whitelisted,
        normalized_remote: candidate,
    }
}

/// The normal form of a remote, or `None` where it has none.
fn normal_form(remote: &str) -> (r: Option<String>)
    ensures
        text_of(r) == normalized(remote@),
{
    match normalize_remote(remote) {
        Ok(n) => Some(n),
        Err(_) => None,
    }
}

/// Evaluates the trust rule for `name` resolving to `remote`, afresh from the two tables.
pub fn evaluate_trust(
    name: &str,
    remote: &str,
    registry: &ShorthandRegistry,
    trusted_names: &NameSet,
) -> (d: TrustDecision)
    ensures
        d.is_trusted == trusted(name@, remote@, registry, trusted_names),
        text_of(d.normalized_remote) == normalized(remote@),
{
    let candidate = normal_form(remote);
    let canonical = match registry.get(name) {
        Some(url) => normal_form(url.as_str()),
        None => None,
    };
    decide_trust(candidate, &canonical, trusted_names.contains(name))
}

/// Whether `name`, resolving to `remote`, may be installed without asking.
pub fn is_trusted_plugin(
    name: &str,
    remote: &str,
    registry: &ShorthandRegistry,
    trusted_names: &NameSet,
) -> (b: bool)
    ensures
        b == trusted(name@, remote@, registry, trusted_names),
{
    evaluate_trust(name, remote, registry, trusted_names).is_trusted
}

/// A name that the shorthand registry does not hold is trusted with any remote.
pub proof fn lemma_unregistered_name_is_trusted(
    name: Seq<char>,
    remote: Seq<char>,
    registry: &ShorthandRegistry,
    trusted_names: &NameSet,
)
    requires
        registry.spec_get(name) is None,
    ensures
        trusted(name, remote, registry, trusted_names),
{
}

/// A remote with the normal form of the registry's URL for its name is not trusted, unless
/// it lies in the first-party namespace or the name is explicitly trusted.
pub proof fn lemma_registered_match_needs_first_party(
    name: Seq<char>,
    canonical: Seq<char>,
    remote: Seq<char>,
    registry: &ShorthandRegistry,
    trusted_names: &NameSet,
)
    requires
        registry.spec_get(name) == Some(canonical),
        normalized(remote) is Some,
        normalized(remote) == normalized(canonical),
    ensures
        trusted(name, remote, registry, trusted_names) == (is_org_owned(normalized(remote))
            || trusted_names.spec_contains(name)),
{
}

/// A remote whose normal form differs from that of the registry's URL for its name does not
/// claim the shorthand, and is trusted.
pub proof fn lemma_other_remote_is_trusted(
    name: Seq<char>,
    remote: Seq<char>,
    registry: &ShorthandRegistry,
    trusted_names: &NameSet,
)
    requires
        normalized(remote) != canonical_of(registry, name),
    ensures
        trusted(name, remote, registry, trusted_names),
{
}

/// A remote without a normal form matches no shorthand, and is trusted.
pub proof fn lemma_invalid_remote_matches_nothing(
    name: Seq<char>,
    remote: Seq<char>,
    registry: &ShorthandRegistry,
    trusted_names: &NameSet,
)
    requires
        normalized(remote) is None,
    ensures
        trusted(name, remote, registry, trusted_names),
{
}

/// Two parsed URLs with one host, whose paths differ by a trailing `.git`, have one normal
/// form.
pub proof fn lemma_normal_form_ignores_git_suffix(u: RemoteUrlView, v: RemoteUrlView)
    requires
        u.host == v.host,
        v.path == u.path + git_suffix(),
    ensures
        normalized_url(u) == normalized_url(v),
{
    lemma_strip_absorbs_suffix(u.path);
}

} // verus!
