//! The backend that keeps a plugin as a git repository, and what it decides when the plugin
//! is installed, updated or removed. The decisions are made here; the caller clones, asks
//! and removes, and reports back what it found.

use crate::error::Error;
use crate::lifecycle::{settled_state, spec_next_state, Event, PluginState};
use crate::registry::{NameSet, ShorthandRegistry};
use crate::settings::Settings;
use crate::text::{strip_git_suffix, trim_git_suffix};
use crate::trust::{is_trusted_plugin, trusted};
use vstd::prelude::*;
use vstd::string::*;

verus! {

/// The kinds of backend.
#[derive(Debug, Clone, Copy, PartialEq, Eq, Structural)]
pub enum PluginType {
    Asdf,
    Vfox,
}

/// A plugin kept as a git repository in a directory of its own.
#[derive(Debug, Clone)]
pub struct AsdfPlugin {
    pub name: String,
    /// The directory of the plugin's repository.
    pub repo_dir: String,
    /// The remote that was given for the plugin explicitly, if one was.
    pub repo_url: Option<String>,
}

/// A directory found under the plugins directory.
#[derive(Debug, Clone)]
pub struct PluginDir {
    pub name: String,
    pub path: String,
}

/// What is shown of a plugin that the trust rule does not trust.
#[derive(Debug, Clone)]
pub struct TrustWarning {
    pub name: String,
    /// The plugin's remote, without trailing `.git`.
    pub url: String,
}

/// The user's answer to a question.
#[derive(Debug, Clone, Copy, PartialEq, Eq, Structural)]
pub enum Answer {
    Yes,
    No,
    /// Yes, to this question and to every later one of the run.
    All,
}

/// What is to be done next to have a plugin installed.
#[derive(Debug, Clone)]
pub enum InstallStep {
    /// The plugin is installed: nothing is to be done.
    AlreadyInstalled,
    /// The plugin is not trusted: show the warning, ask the question, and hand the answer to
    /// `AsdfPlugin::confirmed`.
    Confirm { warning: TrustWarning, question: String },
    /// Take the lock of the directory `dir`, clone into it, and release the lock however
    /// that ends.
    Install { dir: String },
}

/// What is to be done next to have a plugin removed.
#[derive(Debug, Clone)]
pub enum UninstallStep {
    /// The plugin is not installed: nothing is to be done.
    Nothing,
    /// Run the hook `hook`, then remove the directory `dir` and all that is in it.
    Remove { hook: String, dir: String },
}

/// What is to be done next to have a plugin updated.
#[derive(Debug, Clone)]
pub enum UpdateStep {
    /// The plugin is not updated; `warning` says why. The update counts as done.
    Skip { warning: String },
    /// Find out whether `dir` holds a git repository, and hand the answer to
    /// `AsdfPlugin::update_repository`.
    Probe { dir: String },
    /// Show `message`, update the repository in `dir`, and run the hook that follows an
    /// update with the revisions before and after.
    Fetch { dir: String, message: String },
}

/// The filter that keeps the directories of tools that are not switched off.
pub open spec fn enabled(disabled: &NameSet) -> spec_fn(PluginDir) -> bool {
    |entry: PluginDir| !disabled.spec_contains(entry.name@)
}

/// The directories that are listed: those of `entries` whose tool is not switched off, in
/// their order.
pub open spec fn listed(entries: Seq<PluginDir>, disabled: &NameSet) -> Seq<PluginDir> {
    entries.filter(enabled(disabled))
}

impl AsdfPlugin {
    /// The question that is put before an untrusted plugin is installed.
    pub open spec fn spec_question(&self) -> Seq<char> {
        "Would you like to install "@ + self.name@ + "?"@
    }

    /// Whether the user has to be asked (or, in paranoid mode, refused) before the plugin is
    /// installed: installation is not forced, nothing is installed, questions are not
    /// confirmed by a setting, no remote was given explicitly, and the trust rule does not trust
    /// the plugin.
    pub open spec fn must_ask(
        &self,
        force: bool,
        installed: bool,
        settings: &Settings,
        is_trusted: bool,
    ) -> bool {
        !force && !installed && !settings.yes && self.repo_url is None && !is_trusted
    }

    /// The plugin `name` with its repository in `repo_dir`, and no explicit remote.
    pub fn new(name: String, repo_dir: String) -> (plugin: Self)
        ensures
            plugin.name == name,
            plugin.repo_dir == repo_dir,
            plugin.repo_url is None,
    {
        AsdfPlugin { name, repo_dir, repo_url: None }
    }

    /// The plugins of the directories `entries`, without those that `settings` switches off:
    /// one plugin for each directory that is left, in the order of `entries`.
    pub fn list(entries: &Vec<PluginDir>, settings: &Settings) -> (plugins: Vec<AsdfPlugin>)
        ensures
            plugins@.len() == listed(entries@, &settings.disable_tools).len(),
            forall|i: int|
                0 <= i < plugins@.len() ==> {
                    let entry = listed(entries@, &settings.disable_tools)[i];
                    &&& (#[trigger] plugins@[i]).name@ == entry.name@
                    &&& plugins@[i].repo_dir@ == entry.path@
                    &&& plugins@[i].repo_url is None
                },
    {
        let ghost keep = enabled(&settings.disable_tools);
        let mut plugins: Vec<AsdfPlugin> = Vec::new();
        let n: usize = entries.len();
        let mut i: usize = 0;
        proof {
            reveal(Seq::filter);
        }
        while i < n
            invariant
                i <= n,
                n == entries@.len(),
                keep == enabled(&settings.disable_tools),
                plugins@.len() == entries@.take(i as int).filter(keep).len(),
                forall|k: int|
                    0 <= k < plugins@.len() ==> {
                        let entry = entries@.take(i as int).filter(keep)[k];
                        &&& (#[trigger] plugins@[k]).name@ == entry.name@
                        &&& plugins@[k].repo_dir@ == entry.path@
                        &&& plugins@[k].repo_url is None
                    },
            decreases n - i,
        {
            let entry = &entries[i];
            proof {
                reveal(Seq::filter);
                assert(entries@.take(i + 1).drop_last() =~= entries@.take(i as int));
                assert(entries@.take(i + 1).last() == entries@[i as int]);
            }
            if !settings.disable_tools.contains(entry.name.as_str()) {
                plugins.push(AsdfPlugin::new(entry.name.clone(), entry.path.clone()));
            }
            i = i + 1;
        }
        assert(entries@.take(n as int) =~= entries@);
        plugins
    }

    /// The plugin's name.
    pub fn name(&self) -> (name: &str)
        ensures
            name@ == self.name@,
    {
        self.name.as_str()
    }

    /// The kind of this backend.
    pub fn get_plugin_type(&self) -> (kind: PluginType)
        ensures
            kind == PluginType::Asdf,
    {
        PluginType::Asdf
    }

    /// The plugin's remote: the one that its repository names, `repository_remote`, and
    /// where it names none, the one that was given explicitly.
    pub fn get_remote_url(&self, repository_remote: Option<String>) -> (url: Option<String>)
        ensures
            url == if repository_remote is Some {
                repository_remote
            } else {
                self.repo_url
            },
    {
        match repository_remote {
            Some(url) => Some(url),
            None => self.repo_url.clone(),
        }
    }

    /// Decides what is to be done to have the plugin installed, once it is known whether the
    /// trust rule trusts it. `installed` says whether its repository exists, and `remote` is
    /// the remote that the plugin's name resolves to.
    ///
    /// Without `force`, an installed plugin is left as it is. Where the user has to be
    /// asked, paranoid mode refuses the plugin instead. In every other case the plugin is
    /// to be installed.
    pub fn install_step(
        &self,
        force: bool,
        installed: bool,
        settings: &Settings,
        remote: &str,
        is_trusted: bool,
    ) -> (r: Result<InstallStep, Error>)
        ensures
            r matches Ok(InstallStep::AlreadyInstalled) <==> spec_next_state(
                settled_state(installed),
                Event::EnsureInstalled { force },
            ) == Some(PluginState::Installed),
            match r {
                Ok(InstallStep::AlreadyInstalled) => !force && installed,
                Ok(InstallStep::Confirm { warning, question }) => {
                    &&& self.must_ask(force, installed, settings, is_trusted)
                    &&& !settings.paranoid
                    &&& warning.name@ == self.name@
                    &&& warning.url@ == strip_git_suffix(remote@)
                    &&& question@ == self.spec_question()
                },
                Ok(InstallStep::Install { dir }) => {
                    &&& force || !installed
                    &&& !self.must_ask(force, installed, settings, is_trusted)
                    &&& dir@ == self.repo_dir@
                },
                Err(e) => {
                    &&& self.must_ask(force, installed, settings, is_trusted)
                    &&& settings.paranoid
                    &&& e matches Error::RefusedUntrustedPlugin { name, url }
                    &&& name@ == self.name@
                    &&& url@ == strip_git_suffix(remote@)
                },
            },
    {
        if !force {
            if installed {
                return Ok(InstallStep::AlreadyInstalled);
            }
            if !settings.yes && self.repo_url.is_none() && !is_trusted {
                let url = String::from_str(trim_git_suffix(remote));
                if settings.paranoid {
                    return Err(Error::RefusedUntrustedPlugin { name: self.name.clone(), url });
                }
                let mut question = String::from_str("Would you like to install ");
                question.append(self.name.as_str());
                question.append("?");
                let warning = TrustWarning { name: self.name.clone(), url };
                return Ok(InstallStep::Confirm { warning, question });
            }
        }
        Ok(InstallStep::Install { dir: self.repo_dir.clone() })
    }

    /// Decides what is to be done to have the plugin installed: `install_step`, with the
    /// trust rule evaluated for the plugin's name and `remote` from the two tables. The rule
    /// is evaluated only where its answer counts.
    pub fn ensure_installed(
        &self,
        force: bool,
        installed: bool,
        settings: &Settings,
        remote: &str,
        registry: &ShorthandRegistry,
        trusted_names: &NameSet,
    ) -> (r: Result<InstallStep, Error>)
        ensures
            r matches Ok(InstallStep::AlreadyInstalled) <==> spec_next_state(
                settled_state(installed),
                Event::EnsureInstalled { force },
            ) == Some(PluginState::Installed),
            match r {
                Ok(InstallStep::AlreadyInstalled) => !force && installed,
                Ok(InstallStep::Confirm { warning, question }) => {
                    &&& self.must_ask(
                        force,
                        installed,
                        settings,
                        trusted(self.name@, remote@, registry, trusted_names),
                    )
                    &&& !settings.paranoid
                    &&& warning.name@ == self.name@
                    &&& warning.url@ == strip_git_suffix(remote@)
                    &&& question@ == self.spec_question()
                },
                Ok(InstallStep::Install { dir }) => {
                    &&& force || !installed
                    &&& !self.must_ask(
                        force,
                        installed,
                        settings,
                        trusted(self.name@, remote@, registry, trusted_names),
                    )
                    &&& dir@ == self.repo_dir@
                },
                Err(e) => {
                    &&& self.must_ask(
                        force,
                        installed,
                        settings,
                        trusted(self.name@, remote@, registry, trusted_names),
                    )
                    &&& settings.paranoid
                    &&& e matches Error::RefusedUntrustedPlugin { name, url }
                    &&& name@ == self.name@
                    &&& url@ == strip_git_suffix(remote@)
                },
            },
    {
        let is_trusted = force || installed || settings.yes || self.repo_url.is_some()
            || is_trusted_plugin(self.name.as_str(), remote, registry, trusted_names);
        self.install_step(force, installed, settings, remote, is_trusted)
    }

    /// Decides what follows the user's answer to the question of `InstallStep::Confirm`: the
    /// plugin is installed unless the answer is no, and then the installation fails with
    /// `PluginNotInstalled`. The answer `All` also switches on `yes` in `settings`, so that
    /// nothing more is asked in this run.
    pub fn confirmed(&self, answer: Answer, settings: &mut Settings) -> (r: Result<
        InstallStep,
        Error,
    >)
        ensures
            match r {
                Ok(InstallStep::Install { dir }) => answer != Answer::No && dir@ == self.repo_dir@,
                Ok(_) => false,
                Err(Error::PluginNotInstalled { name }) => answer == Answer::No && name@
                    == self.name@,
                Err(_) => false,
            },
            final(settings).yes == (old(settings).yes || answer == Answer::All),
            final(settings).paranoid == old(settings).paranoid,
            final(settings).experimental == old(settings).experimental,
            final(settings).disable_tools == old(settings).disable_tools,
    {
        match answer {
            Answer::No => Err(Error::PluginNotInstalled { name: self.name.clone() }),
            Answer::Yes => Ok(InstallStep::Install { dir: self.repo_dir.clone() }),
            Answer::All => {
                settings.yes = true;
                Ok(InstallStep::Install { dir: self.repo_dir.clone() })
            },
        }
    }

    /// Decides what is to be done to have the plugin removed. A plugin that is not installed
    /// is left alone; for one that is, the hook runs before its directory goes.
    pub fn uninstall(&self, installed: bool) -> (step: UninstallStep)
        ensures
            !installed <==> step is Nothing,
            step is Nothing <==> spec_next_state(settled_state(installed), Event::Uninstall)
                == Some(PluginState::Uninstalled),
            match step {
                UninstallStep::Nothing => !installed,
                UninstallStep::Remove { hook, dir } => installed && hook@ == "pre-plugin-remove"@
                    && dir@ == self.repo_dir@,
            },
    {
        if !installed {
            return UninstallStep::Nothing;
        }
        UninstallStep::Remove {
            hook: String::from_str("pre-plugin-remove"),
            dir: self.repo_dir.clone(),
        }
    }

    /// The warning for a plugin that is not updated because of `reason`.
    pub open spec fn spec_skip_warning(&self, reason: Seq<char>) -> Seq<char> {
        "plugin:"@ + self.name@ + reason
    }

    fn skip_warning(&self, reason: &str) -> (warning: String)
        ensures
            warning@ == self.spec_skip_warning(reason@),
    {
        let mut warning = String::from_str("plugin:");
        warning.append(self.name.as_str());
        warning.append(reason);
        warning
    }

    /// Begins an update. A plugin whose directory is a symbolic link is not updated, and
    /// nothing is asked of git; for any other the repository is probed next.
    pub fn update(&self, is_symlink: bool) -> (step: UpdateStep)
        ensures
            is_symlink <==> step is Skip,
            match step {
                UpdateStep::Skip { warning } => is_symlink && warning@ == self.spec_skip_warning(
                    " is a symlink, not updating"@,
                ),
                UpdateStep::Probe { dir } => !is_symlink && dir@ == self.repo_dir@,
                UpdateStep::Fetch { dir, message } => false,
            },
    {
        if is_symlink {
            return UpdateStep::Skip { warning: self.skip_warning(" is a symlink, not updating") };
        }
        UpdateStep::Probe { dir: self.repo_dir.clone() }
    }

    /// Goes on with an update once the directory was probed. A directory that holds no git
    /// repository is not updated; a repository is fetched.
    pub fn update_repository(&self, is_repo: bool) -> (step: UpdateStep)
        ensures
            is_repo <==> step is Fetch,
            match step {
                UpdateStep::Skip { warning } => !is_repo && warning@ == self.spec_skip_warning(
                    " is not a git repository, not updating"@,
                ),
                UpdateStep::Probe { dir } => false,
                UpdateStep::Fetch { dir, message } => is_repo && dir@ == self.repo_dir@ && message@
                    == "updating git repo"@,
            },
    {
        if !is_repo {
            return UpdateStep::Skip {
                warning: self.skip_warning(" is not a git repository, not updating"),
            };
        }
        UpdateStep::Fetch {
            dir: self.repo_dir.clone(),
            message: String::from_str("updating git repo"),
        }
    }
}

/// The line that ends an update: the remote, `#`, and the short revision. A plugin without
/// a remote shows none.
pub open spec fn update_summary(remote: Option<String>, sha: Seq<char>) -> Seq<char> {
    match remote {
        Some(url) => url@ + "#"@ + sha,
        None => "#"@ + sha,
    }
}

/// The line that ends an update of a plugin with the remote `remote`, now at revision `sha`.
pub fn finish_update(remote: &Option<String>, sha: &str) -> (line: String)
    ensures
        line@ == update_summary(*remote, sha@),
{
    let mut line = match remote {
        Some(url) => url.clone(),
        None => String::new(),
    };
    proof {
        assert(Seq::<char>::empty() + "#"@ =~= "#"@);
    }
    line.append("#");
    line.append(sha);
    line
}

} // verus!
