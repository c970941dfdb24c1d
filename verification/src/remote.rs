//! Remote identity: from a plugin identifier to the URL of its source.

use crate::error::Error;
use vstd::prelude::*;
use vstd::string::*;

verus! {

/// A parsed URL, as far as the library reads one: its full text, its host and its path.
#[derive(Debug, Clone)]
pub struct RemoteUrl {
    pub text: String,
    pub host: Option<String>,
    pub path: String,
}

/// The mathematical value of a `RemoteUrl`.
pub ghost struct RemoteUrlView {
    pub text: Seq<char>,
    pub host: Option<Seq<char>>,
    pub path: Seq<char>,
}

impl View for RemoteUrl {
    type V = RemoteUrlView;

    open spec fn view(&self) -> RemoteUrlView {
        RemoteUrlView {
            text: self.text@,
            host: match self.host {
                Some(h) => Some(h@),
                None => None,
            },
            path: self.path@,
        }
    }
}

/// What `url::Url::parse` makes of `input`: the parsed URL's serialization, host and path, or
/// the text of the parse error.
pub uninterp spec fn url_parse(input: Seq<char>) -> Result<RemoteUrlView, Seq<char>>;

/// The mathematical value of a parse outcome.
pub open spec fn parse_view(r: Result<RemoteUrl, String>) -> Result<RemoteUrlView, Seq<char>> {
    match r {
        Ok(u) => Ok(u@),
        Err(e) => Err(e@),
    }
}

/// Calls `url::Url::parse` and reads the result through `Url::as_str`, `Url::host_str` and
/// `Url::path`; an error is handed back as the text that its `Display` gives. Nothing is
/// claimed of the outcome but that it is the one `url_parse` names for this input.
#[verifier::external_body]
pub(crate) fn parse_url(input: &str) -> (r: Result<RemoteUrl, String>)
    ensures
        parse_view(r) == url_parse(input@),
{
    match url::Url::parse(input) {
        Ok(u) => Ok(
            RemoteUrl {
                text: u.as_str().to_string(),
                host: u.host_str().map(str::to_string),
                path: u.path().to_string(),
            },
        ),
        Err(e) => Err(e.to_string()),
    }
}

/// No character of `s` is a slash.
pub open spec fn no_slash(s: Seq<char>) -> bool {
    forall|i: int| 0 <= i < s.len() ==> s[i] != '/'
}

/// `s` is a non-empty segment, a slash at `at`, and another non-empty segment.
pub open spec fn splits_at(s: Seq<char>, at: int) -> bool {
    &&& 0 < at < s.len() - 1
    &&& s[at] == '/'
    &&& no_slash(s.subrange(0, at))
    &&& no_slash(s.subrange(at + 1, s.len() as int))
}

/// `s` has the shorthand form `owner/repo`: two non-empty segments without a slash, with one
/// slash between them.
pub open spec fn owner_repo_form(s: Seq<char>) -> bool {
    exists|at: int| splits_at(s, at)
}

/// Where the sources of shorthand identifiers are hosted.
pub open spec fn hosting_prefix() -> Seq<char> {
    "https://github.com/"@
}

/// The text that is parsed for `identifier`.
pub open spec fn resolution_target(identifier: Seq<char>) -> Seq<char> {
    if owner_repo_form(identifier) {
        hosting_prefix() + identifier
    } else {
        identifier
    }
}

/// What resolution returns for `identifier` when parsing its target gave `parsed`.
pub open spec fn resolution_of(
    identifier: Seq<char>,
    parsed: Result<RemoteUrlView, Seq<char>>,
    r: Result<RemoteUrl, Error>,
) -> bool {
    match parsed {
        Ok(u) => r matches Ok(v) && v@ == u,
        Err(reason) => r matches Err(Error::InvalidIdentifier { identifier: i, reason: t })
            && i@ == identifier && t@ == reason,
    }
}

/// The position of the first slash of `s` at or after `from`, or the length of `s`.
fn next_slash(s: &str, from: usize) -> (at: usize)
    requires
        from <= s@.len(),
    ensures
        from <= at <= s@.len(),
        at < s@.len() ==> s@[at as int] == '/',
        forall|k: int| from <= k < at ==> s@[k] != '/',
{
    let n: usize = s.unicode_len();
    let mut i: usize = from;
    while i < n
        invariant
            from <= i <= n,
            n == s@.len(),
            forall|k: int| from <= k < i ==> s@[k] != '/',
        decreases n - i,
    {
        if s.get_char(i) == '/' {
            return i;
        }
        i = i + 1;
    }
    n
}

/// Whether `identifier` has the shorthand form `owner/repo`.
pub fn is_owner_repo(identifier: &str) -> (b: bool)
    ensures
        b == owner_repo_form(identifier@),
{
    let n: usize = identifier.unicode_len();
    let first: usize = next_slash(identifier, 0);
    if first == 0 || first >= n - 1 {
        proof {
            let s = identifier@;
            assert forall|at: int| !splits_at(s, at) by {
                if splits_at(s, at) {
                    if first == 0 {
                        assert(s.subrange(0, at)[0] == '/');
                    }
                }
            }
        }
        return false;
    }
    let second: usize = next_slash(identifier, first + 1);
    proof {
        let s = identifier@;
        if second == n {
            let tail = s.subrange(first + 1, n as int);
            assert forall|i: int| 0 <= i < tail.len() implies #[trigger] tail[i] != '/' by {
                assert(tail[i] == s[first + 1 + i]);
            }
            assert(splits_at(s, first as int));
        } else {
            assert forall|at: int| !splits_at(s, at) by {
                if splits_at(s, at) {
                    if at > first {
                        assert(s.subrange(0, at)[first as int] == '/');
                    } else if at == first {
                        assert(s.subrange(at + 1, n as int)[second - at - 1] == '/');
                    }
                }
            }
        }
    }
    second == n
}

/// The text that `vfox_to_url` parses for `identifier`: the hosted URL of a shorthand, and
/// any other identifier as it stands.
pub fn target_of(identifier: &str) -> (target: String)
    ensures
        target@ == resolution_target(identifier@),
{
    if is_owner_repo(identifier) {
        let mut target = String::from_str("https://github.com/");
        target.append(identifier);
        target
    } else {
        String::from_str(identifier)
    }
}

/// Turns the outcome of parsing the target of `identifier` into the outcome of resolution:
/// the URL as parsed, or `InvalidIdentifier` with the identifier and the parser's words.
pub fn resolution_from_parse(identifier: &str, parsed: Result<RemoteUrl, String>) -> (r: Result<
    RemoteUrl,
    Error,
>)
    ensures
        parsed matches Ok(u) ==> r matches Ok(v) && v == u,
        parsed matches Err(e) ==> r matches Err(Error::InvalidIdentifier { identifier: i, reason })
            && i@ == identifier@ && reason == e,
{
    match parsed {
        Ok(u) => Ok(u),
        Err(reason) => Err(
            Error::InvalidIdentifier { identifier: String::from_str(identifier), reason },
        ),
    }
}

/// Resolves a plugin identifier to the URL of its source. An identifier of the form
/// `owner/repo` stands for `https://github.com/owner/repo`; any other is parsed as a URL
/// itself. Where the parser refuses the text, the error carries the identifier and the
/// parser's reason.
pub fn vfox_to_url(identifier: &str) -> (r: Result<RemoteUrl, Error>)
    ensures
        resolution_of(identifier@, url_parse(resolution_target(identifier@)), r),
{
    let target = target_of(identifier);
    let parsed = parse_url(target.as_str());
    resolution_from_parse(identifier, parsed)
}

/// A plugin by its name and the URL that it resolves to.
#[derive(Debug, Clone)]
pub struct PluginIdentity {
    pub name: String,
    pub resolved_remote: RemoteUrl,
}

/// What is resolved for a plugin: the remote that was given for it explicitly, and without
/// one its name.
pub open spec fn identity_source(name: Seq<char>, remote_override: Option<&str>) -> Seq<char> {
    match remote_override {
        Some(remote) => remote@,
        None => name,
    }
}

impl PluginIdentity {
    /// The identity of the plugin `name`: its name and the URL that `remote_override`, or
    /// without one the name, resolves to. Nothing is kept between calls: each call resolves
    /// anew.
    pub fn resolve(name: &str, remote_override: Option<&str>) -> (r: Result<PluginIdentity, Error>)
        ensures
            match url_parse(resolution_target(identity_source(name@, remote_override))) {
                Ok(u) => r matches Ok(identity) && identity.name@ == name@
                    && identity.resolved_remote@ == u,
                Err(reason) => r matches Err(Error::InvalidIdentifier { identifier, reason: t })
                    && identifier@ == identity_source(name@, remote_override) && t@ == reason,
            },
    {
        let source = match remote_override {
            Some(remote) => remote,
            None => name,
        };
        match vfox_to_url(source) {
            Ok(resolved_remote) => Ok(
                PluginIdentity { name: String::from_str(name), resolved_remote },
            ),
            Err(e) => Err(e),
        }
    }
}

} // verus!
