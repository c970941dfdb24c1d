//! The backend whose plugins are scripts run by an embedded engine. The engine itself is the
//! caller's: this module says what is asked of it, and makes of its answers what the rest of
//! the tool reads.

use crate::asdf_plugin::PluginType;
use crate::error::Error;
use crate::remote::{resolution_of, resolution_target, url_parse, vfox_to_url, RemoteUrl};
use crate::settings::Settings;
use crate::text::{join_path, joined, same_text};
use vstd::prelude::*;
use vstd::string::*;

verus! {

/// The directories that the tool keeps its data in.
#[derive(Debug, Clone)]
pub struct Dirs {
    pub plugins: String,
    pub cache: String,
    pub downloads: String,
    pub installs: String,
    /// The system's directory for temporary files.
    pub temp: String,
}

/// A plugin that the script engine runs.
#[derive(Debug, Clone)]
pub struct VfoxForge {
    pub name: String,
    pub plugin_dir: String,
    pub cache_dir: String,
    pub download_dir: String,
    pub install_dir: String,
    pub temp_dir: String,
    /// The path of the cache of remote versions, with `{KEY}` where the cache key goes.
    pub remote_version_cache: String,
}

/// A version as the engine lists it.
#[derive(Debug, Clone)]
pub struct AvailableVersion {
    pub version: String,
}

/// A variable that a plugin exports.
#[derive(Debug, Clone)]
pub struct EnvKey {
    pub key: String,
    pub value: String,
}

/// What is asked of the engine to install one version of a tool.
#[derive(Debug, Clone)]
pub struct EngineInstall {
    /// Where the plugin's definition comes from.
    pub url: RemoteUrl,
    pub version: String,
    /// Where the version is installed.
    pub install_path: String,
}

/// The environment that `exports` describes: each key with the value of its last export.
pub open spec fn env_of(exports: Seq<EnvKey>) -> Map<Seq<char>, Seq<char>>
    decreases exports.len(),
{
    if exports.len() == 0 {
        Map::empty()
    } else {
        env_of(exports.drop_last()).insert(exports.last().key@, exports.last().value@)
    }
}

/// An environment: variables and their values. Where a variable was exported more than once,
/// its last value counts.
#[derive(Debug, Clone)]
pub struct Environment {
    pub exports: Vec<EnvKey>,
}

impl View for Environment {
    type V = Map<Seq<char>, Seq<char>>;

    open spec fn view(&self) -> Map<Seq<char>, Seq<char>> {
        env_of(self.exports@)
    }
}

impl Environment {
    /// The value of the variable `key`, if the environment holds one.
    pub fn get(&self, key: &str) -> (value: Option<&String>)
        ensures
            match value {
                Some(v) => self@.contains_key(key@) && self@[key@] == v@,
                None => !self@.contains_key(key@),
            },
    {
        let mut i: usize = self.exports.len();
        assert(self.exports@.take(i as int) =~= self.exports@);
        while i > 0
            invariant
                i <= self.exports@.len(),
                self@.contains_key(key@) == env_of(self.exports@.take(i as int)).contains_key(
                    key@,
                ),
                self@.contains_key(key@) ==> self@[key@] == env_of(self.exports@.take(i as int))[key@],
            decreases i,
        {
            i = i - 1;
            assert(self.exports@.take(i + 1).drop_last() =~= self.exports@.take(i as int));
            if same_text(self.exports[i].key.as_str(), key) {
                return Some(&self.exports[i].value);
            }
        }
        None
    }

    /// The variables of the environment, each once.
    pub fn keys(&self) -> (keys: Vec<String>)
        ensures
            forall|k: Seq<char>|
                self@.contains_key(k) <==> exists|i: int|
                    0 <= i < keys@.len() && (#[trigger] keys@[i])@ == k,
            forall|i: int, j: int| 0 <= i < j < keys@.len() ==> keys@[i]@ != keys@[j]@,
    {
        let mut keys: Vec<String> = Vec::new();
        let n: usize = self.exports.len();
        let mut i: usize = 0;
        while i < n
            invariant
                i <= n,
                n == self.exports@.len(),
                forall|k: Seq<char>| #[trigger]
                    env_of(self.exports@.take(i as int)).contains_key(k) <==> exists|j: int|
                        0 <= j < keys@.len() && (#[trigger] keys@[j])@ == k,
                forall|a: int, b: int| 0 <= a < b < keys@.len() ==> keys@[a]@ != keys@[b]@,
            decreases n - i,
        {
            let ghost before = keys@;
            let ghost key = self.exports@[i as int].key@;
            assert(self.exports@.take(i + 1).drop_last() =~= self.exports@.take(i as int));
            let mut seen = false;
            let mut j: usize = 0;
            while j < keys.len()
                invariant
                    j <= keys@.len(),
                    i < n,
                    n == self.exports@.len(),
                    key == self.exports@[i as int].key@,
                    keys@ == before,
                    !seen ==> forall|m: int| 0 <= m < j ==> (#[trigger] keys@[m])@ != key,
                    seen ==> exists|m: int| 0 <= m < keys@.len() && (#[trigger] keys@[m])@ == key,
                decreases keys@.len() - j,
            {
                if same_text(keys[j].as_str(), self.exports[i].key.as_str()) {
                    seen = true;
                }
                j = j + 1;
            }
            if !seen {
                keys.push(self.exports[i].key.clone());
                proof {
                    let after = keys@;
                    assert(after[after.len() - 1]@ == key);
                    assert forall|k: Seq<char>| #[trigger]
                        env_of(self.exports@.take(i + 1)).contains_key(k) <==> exists|j: int|
                            0 <= j < after.len() && (#[trigger] after[j])@ == k by {
                        if k != key {
                            if env_of(self.exports@.take(i as int)).contains_key(k) {
                                let m = choose|m: int|
                                    0 <= m < before.len() && (#[trigger] before[m])@ == k;
                                assert(after[m]@ == k);
                            }
                            if exists|j: int| 0 <= j < after.len() && (#[trigger] after[j])@ == k {
                                let m = choose|m: int|
                                    0 <= m < after.len() && (#[trigger] after[m])@ == k;
                                assert(before[m]@ == k);
                            }
                        }
                    }
                    assert forall|a: int, b: int| 0 <= a < b < after.len() implies after[a]@
                        != after[b]@ by {
                        if b == after.len() - 1 {
                            assert(before[a]@ != key);
                        } else {
                            assert(before[a]@ != before[b]@);
                        }
                    }
                }
            } else {
                assert forall|k: Seq<char>| #[trigger]
                    env_of(self.exports@.take(i + 1)).contains_key(k) <==> exists|j: int|
                        0 <= j < keys@.len() && (#[trigger] keys@[j])@ == k by {
                    assert(env_of(self.exports@.take(i + 1)).contains_key(k) <==> (k == key
                        || env_of(self.exports@.take(i as int)).contains_key(k)));
                }
            }
            i = i + 1;
        }
        assert(self.exports@.take(n as int) =~= self.exports@);
        keys
    }
}

impl VfoxForge {
    /// The plugin `name`, with its directories under `dirs` and its caches under
    /// `cache_path`.
    pub fn new(name: String, dirs: &Dirs, cache_path: &str) -> (forge: Self)
        ensures
            forge.name == name,
            forge.plugin_dir == dirs.plugins,
            forge.cache_dir == dirs.cache,
            forge.download_dir == dirs.downloads,
            forge.install_dir == dirs.installs,
            forge.temp_dir@ == joined(dirs.temp@, "mise-vfox"@),
            forge.remote_version_cache@ == joined(cache_path@, "remote_versions-{KEY}.msgpack.z"@),
    {
        VfoxForge {
            name,
            plugin_dir: dirs.plugins.clone(),
            cache_dir: dirs.cache.clone(),
            download_dir: dirs.downloads.clone(),
            install_dir: dirs.installs.clone(),
            temp_dir: join_path(dirs.temp.as_str(), "mise-vfox"),
            remote_version_cache: join_path(cache_path, "remote_versions-{KEY}.msgpack.z"),
        }
    }

    /// The plugin's name.
    pub fn name(&self) -> (name: &str)
        ensures
            name@ == self.name@,
    {
        self.name.as_str()
    }

    /// The kind of this backend.
    pub fn get_type(&self) -> (kind: PluginType)
        ensures
            kind == PluginType::Vfox,
    {
        PluginType::Vfox
    }

    /// The URL that the plugin's definition comes from: what its name resolves to.
    pub fn get_url(&self) -> (r: Result<RemoteUrl, Error>)
        ensures
            resolution_of(self.name@, url_parse(resolution_target(self.name@)), r),
    {
        vfox_to_url(self.name.as_str())
    }

    /// The versions that the engine listed as `available`, oldest first, as they are shown:
    /// newest first.
    pub fn _list_remote_versions(&self, available: &Vec<AvailableVersion>) -> (versions: Vec<
        String,
    >)
        ensures
            versions@.len() == available@.len(),
            forall|i: int|
                0 <= i < versions@.len() ==> (#[trigger] versions@[i])@ == available@[available@.len()
                    - 1 - i].version@,
    {
        let n: usize = available.len();
        let mut versions: Vec<String> = Vec::new();
        let mut i: usize = n;
        while i > 0
            invariant
                i <= n,
                n == available@.len(),
                versions@.len() == n - i,
                forall|k: int|
                    0 <= k < versions@.len() ==> (#[trigger] versions@[k])@ == available@[n - 1
                        - k].version@,
            decreases i,
        {
            i = i - 1;
            versions.push(available[i].version.clone());
        }
        versions
    }

    /// What is asked of the engine to install `version` into `install_path`, once the
    /// plugin's name was resolved to `resolved`. The backend is experimental: with the
    /// experimental setting off nothing is asked, whatever the name resolved to.
    pub fn install_request(
        &self,
        settings: &Settings,
        resolved: Result<RemoteUrl, Error>,
        version: &str,
        install_path: &str,
    ) -> (r: Result<EngineInstall, Error>)
        ensures
            match r {
                Ok(request) => {
                    &&& settings.experimental
                    &&& resolved matches Ok(url)
                    &&& request.url == url
                    &&& request.version@ == version@
                    &&& request.install_path@ == install_path@
                },
                Err(e) => if settings.experimental {
                    resolved matches Err(cause) && e == cause
                } else {
                    e matches Error::ExperimentalRequired { feature } && feature@
                        == "vfox backend"@
                },
            },
    {
        if !settings.experimental {
            return Err(Error::ExperimentalRequired { feature: String::from_str("vfox backend") });
        }
        match resolved {
            Ok(url) => Ok(
                EngineInstall {
                    url,
                    version: String::from_str(version),
                    install_path: String::from_str(install_path),
                },
            ),
            Err(e) => Err(e),
        }
    }

    /// What is asked of the engine to install `version` of the plugin's tool into
    /// `install_path`. Fails with `ExperimentalRequired` where the experimental setting is
    /// off, and otherwise with `InvalidIdentifier` where the plugin's name resolves to no
    /// URL.
    pub fn install_version_impl(&self, settings: &Settings, version: &str, install_path: &str) -> (r:
        Result<EngineInstall, Error>)
        ensures
            match r {
                Ok(request) => {
                    &&& settings.experimental
                    &&& url_parse(resolution_target(self.name@)) matches Ok(u)
                    &&& request.url@ == u
                    &&& request.version@ == version@
                    &&& request.install_path@ == install_path@
                },
                Err(e) => if settings.experimental {
                    &&& url_parse(resolution_target(self.name@)) matches Err(reason)
                    &&& e matches Error::InvalidIdentifier { identifier, reason: t }
                    &&& identifier@ == self.name@
                    &&& t@ == reason
                } else {
                    e matches Error::ExperimentalRequired { feature } && feature@
                        == "vfox backend"@
                },
            },
    {
        if !settings.experimental {
            return Err(Error::ExperimentalRequired { feature: String::from_str("vfox backend") });
        }
        self.install_request(settings, self.get_url(), version, install_path)
    }

    /// The environment that the plugin exports, from the variables that the engine read.
    pub fn exec_env(&self, exports: Vec<EnvKey>) -> (env: Environment)
        ensures
            env@ == env_of(exports@),
            env.exports == exports,
    {
        Environment { exports }
    }
}

} // verus!
