//! Plugin installation: the registry of installations, and the plan for
//! putting a plugin's files into the versioned cache.
//!
//! Cloning, copying and saving the registry are left to the caller.
use vstd::prelude::*;

use super::loader::{strip_dot_slash, strip_leading_dot_slash, PluginIdentifier};
use super::marketplace::{github_url, spec_git_ref, spec_git_url, MarketplacePlugin, MarketplaceSource, PluginSourceRef};
use crate::keyed::{find_key, key_value, lemma_key_remove, lemma_key_update, set_key, unique_keys};
use crate::paths::{join_path, joined_path};
use crate::plan::opt_view;
use crate::text::push_str;

verus! {

/// Where an installation is enabled.
#[derive(Debug, Clone, Copy, PartialEq, Eq, Structural)]
pub enum InstallScope {
    User,
    Project,
}

/// One installation of a plugin, at one scope.
#[derive(Debug, Clone)]
pub struct InstallRecord {
    pub scope: InstallScope,
    pub install_path: String,
    pub version: String,
    pub installed_at: String,
    pub project_path: Option<String>,
}

/// The installations of each plugin, keyed by `name@marketplace`. No two
/// entries share a key.
#[derive(Debug, Clone)]
pub struct InstalledPluginsRegistry {
    pub version: u32,
    pub plugins: Vec<(String, Vec<InstallRecord>)>,
}

/// The records of `rs` at a scope other than `scope`, in order.
pub open spec fn other_scopes(rs: Seq<InstallRecord>, scope: InstallScope) -> Seq<InstallRecord>
    decreases rs.len(),
{
    if rs.len() == 0 {
        seq![]
    } else if rs.last().scope == scope {
        other_scopes(rs.drop_last(), scope)
    } else {
        other_scopes(rs.drop_last(), scope).push(rs.last())
    }
}

/// The records of a plugin, as a sequence.
pub open spec fn records_of(plugins: Seq<(String, Vec<InstallRecord>)>, id: Seq<char>) -> Option<Seq<InstallRecord>> {
    match key_value(plugins, id) {
        Some(v) => Some(v@),
        None => None,
    }
}

fn retain_other_scopes(rs: Vec<InstallRecord>, scope: InstallScope) -> (r: Vec<InstallRecord>)
    ensures
        r@ == other_scopes(rs@, scope),
{
    let mut out: Vec<InstallRecord> = Vec::new();
    let mut rs = rs;
    let ghost s = rs@;
    let n = rs.len();
    let mut i: usize = 0;
    while i < n
        invariant
            n == s.len(),
            i <= n,
            rs@ == s.skip(i as int),
            out@ == other_scopes(s.take(i as int), scope),
        decreases n - i,
    {
        let r = rs.remove(0);
        assert(r == s[i as int]);
        assert(rs@ =~= s.skip(i + 1));
        assert(s.take(i + 1).drop_last() == s.take(i as int));
        if r.scope != scope {
            out.push(r);
        }
        i = i + 1;
    }
    assert(s.take(n as int) == s);
    out
}

impl InstallRecord {
    /// A copy equal to this record.
    pub fn duplicate(&self) -> (r: Self)
        ensures
            r == *self,
    {
        InstallRecord {
            scope: self.scope,
            install_path: self.install_path.clone(),
            version: self.version.clone(),
            installed_at: self.installed_at.clone(),
            project_path: match &self.project_path {
                Some(p) => Some(p.clone()),
                None => None,
            },
        }
    }
}

fn copy_records(rs: &Vec<InstallRecord>) -> (r: Vec<InstallRecord>)
    ensures
        r@ == rs@,
{
    let mut out: Vec<InstallRecord> = Vec::new();
    let mut i: usize = 0;
    while i < rs.len()
        invariant
            i <= rs@.len(),
            out@ == rs@.take(i as int),
        decreases rs.len() - i,
    {
        out.push(rs[i].duplicate());
        assert(rs@.take(i + 1) == rs@.take(i as int).push(rs@[i as int]));
        i = i + 1;
    }
    assert(rs@.take(rs@.len() as int) == rs@);
    out
}

impl InstalledPluginsRegistry {
    pub open spec fn wf(&self) -> bool {
        unique_keys(self.plugins@)
    }

    /// An empty registry of the current format.
    pub fn new() -> (r: Self)
        ensures
            r.version == 2,
            r.plugins@.len() == 0,
            r.wf(),
    {
        InstalledPluginsRegistry { version: 2, plugins: Vec::new() }
    }

    /// Add an installation record, replacing the plugin's record at the
    /// same scope.
    pub fn add(&mut self, id: &str, record: InstallRecord)
        requires
            old(self).wf(),
        ensures
            final(self).wf(),
            final(self).version == old(self).version,
            records_of(final(self).plugins@, id@) == Some(other_scopes(
                match records_of(old(self).plugins@, id@) { Some(rs) => rs, None => seq![] },
                record.scope,
            ).push(record)),
            forall|k: Seq<char>| k != id@ ==> #[trigger] records_of(final(self).plugins@, k) == records_of(old(self).plugins@, k),
    {
        let existing: Vec<InstallRecord> = match find_key(&self.plugins, id) {
            Some(i) => copy_records(&self.plugins[i].1),
            None => Vec::new(),
        };
        let scope = record.scope;
        let mut kept = retain_other_scopes(existing, scope);
        kept.push(record);
        let ghost old_plugins = self.plugins@;
        set_key(&mut self.plugins, id, kept);
        assert forall|k: Seq<char>| k != id@ implies #[trigger] records_of(self.plugins@, k) == records_of(old_plugins, k) by {
            assert(key_value(self.plugins@, k) == key_value(old_plugins, k));
        }
    }

    /// Remove a plugin's records at a scope. Returns `true`, dropping the
    /// plugin, when none remain; an unknown plugin gives `false`.
    pub fn remove(&mut self, id: &str, scope: &InstallScope) -> (gone: bool)
        requires
            old(self).wf(),
        ensures
            final(self).wf(),
            final(self).version == old(self).version,
            match records_of(old(self).plugins@, id@) {
                None => !gone && final(self).plugins@ == old(self).plugins@,
                Some(rs) => {
                    &&& gone == (other_scopes(rs, *scope).len() == 0)
                    &&& gone ==> records_of(final(self).plugins@, id@) is None
                    &&& !gone ==> records_of(final(self).plugins@, id@) == Some(other_scopes(rs, *scope))
                },
            },
            forall|k: Seq<char>| k != id@ ==> #[trigger] records_of(final(self).plugins@, k) == records_of(old(self).plugins@, k),
    {
        match find_key(&self.plugins, id) {
            None => false,
            Some(i) => {
                let kept = retain_other_scopes(copy_records(&self.plugins[i].1), *scope);
                let ghost old_plugins = self.plugins@;
                if kept.len() == 0 {
                    proof {
                        lemma_key_remove(old_plugins, i as int);
                    }
                    self.plugins.remove(i);
                    assert forall|k: Seq<char>| k != id@ implies #[trigger] records_of(self.plugins@, k) == records_of(old_plugins, k) by {
                        assert(key_value(self.plugins@, k) == key_value(old_plugins, k));
                    }
                    true
                } else {
                    let name = self.plugins[i].0.clone();
                    let ghost e = (name, kept);
                    proof {
                        lemma_key_update(old_plugins, i as int, e);
                    }
                    self.plugins.set(i, (name, kept));
                    assert forall|k: Seq<char>| k != id@ implies #[trigger] records_of(self.plugins@, k) == records_of(old_plugins, k) by {
                        assert(key_value(self.plugins@, k) == key_value(old_plugins, k));
                    }
                    false
                }
            },
        }
    }

    /// The records of a plugin.
    pub fn get(&self, id: &str) -> (r: Option<&Vec<InstallRecord>>)
        requires
            self.wf(),
        ensures
            match key_value(self.plugins@, id@) {
                Some(v) => r == Some(&v),
                None => r is None,
            },
    {
        match find_key(&self.plugins, id) {
            Some(i) => Some(&self.plugins[i].1),
            None => None,
        }
    }
}

/// How a plugin's files get into the cache.
#[derive(Debug, Clone)]
pub enum ClonePlan {
    /// Copy a directory of the marketplace's clone.
    CopyFromMarketplace { source_dir: String },
    /// Clone a repository (shallow, on `git_ref` when given) and copy it,
    /// or only its subdirectory `subdir`.
    GitClone { url: String, git_ref: Option<String>, subdir: Option<String> },
}

/// The plan for fetching a plugin: its relative path inside the
/// marketplace's clone; its own repository; or else the marketplace's
/// repository.
pub open spec fn spec_clone_plan(plugin: MarketplacePlugin, market: MarketplaceSource, market_dir: Option<Seq<char>>)
    -> Result<(bool, Seq<char>, Option<Seq<char>>, Option<Seq<char>>), Seq<char>>
{
    match plugin.source {
        Some(PluginSourceRef::RelativePath(rel)) => match market_dir {
            None => Err("plugin source is a relative path but no marketplace directory available"@),
            Some(d) => Ok((true, joined_path(d, strip_dot_slash(rel@)), None, None)),
        },
        Some(PluginSourceRef::GitHub { repo, git_ref, path, .. }) => Ok((false, github_url(repo@), opt_view(git_ref), opt_view(path))),
        Some(PluginSourceRef::Git { url, git_ref, path, .. }) => Ok((false, url@, opt_view(git_ref), opt_view(path))),
        None => match spec_git_url(market) {
            None => Err("no git URL available for plugin source"@),
            Some(u) => Ok((false, u, spec_git_ref(market), None)),
        },
    }
}

fn dup_opt_string(o: &Option<String>) -> (r: Option<String>)
    ensures
        opt_view(r) == opt_view(*o),
{
    match o {
        Some(s) => Some(s.clone()),
        None => None,
    }
}

/// Decide how to fetch a plugin's files into the cache.
pub fn clone_plan(plugin: &MarketplacePlugin, market_source: &MarketplaceSource, marketplace_dir: Option<&str>) -> (r: Result<ClonePlan, String>)
    ensures
        match spec_clone_plan(*plugin, *market_source, match marketplace_dir { Some(d) => Some(d@), None => None }) {
            Err(e) => r matches Err(m) && m@ == e,
            Ok((true, dir, _, _)) => r matches Ok(ClonePlan::CopyFromMarketplace { source_dir }) && source_dir@ == dir,
            Ok((false, url, g, sub)) => r matches Ok(ClonePlan::GitClone { url: u, git_ref, subdir })
                && u@ == url && opt_view(git_ref) == g && opt_view(subdir) == sub,
        },
{
    match &plugin.source {
        Some(PluginSourceRef::RelativePath(rel)) => match marketplace_dir {
            None => Err("plugin source is a relative path but no marketplace directory available".to_string()),
            Some(d) => {
                let stripped = strip_leading_dot_slash(rel.as_str());
                Ok(ClonePlan::CopyFromMarketplace { source_dir: join_path(d, stripped.as_str()) })
            },
        },
        Some(PluginSourceRef::GitHub { repo, git_ref, path, .. }) => {
            let url = match (MarketplaceSource::GitHub { repo: repo.clone(), git_ref: None }).git_url() {
                Some(u) => u,
                None => String::new(),
            };
            Ok(ClonePlan::GitClone { url, git_ref: dup_opt_string(git_ref), subdir: dup_opt_string(path) })
        },
        Some(PluginSourceRef::Git { url, git_ref, path, .. }) => Ok(ClonePlan::GitClone {
            url: url.clone(),
            git_ref: dup_opt_string(git_ref),
            subdir: dup_opt_string(path),
        }),
        None => match market_source.git_url() {
            None => Err("no git URL available for plugin source".to_string()),
            Some(u) => {
                let git_ref = match market_source.git_ref() {
                    Some(g) => Some(g.to_string()),
                    None => None,
                };
                Ok(ClonePlan::GitClone { url: u, git_ref, subdir: None })
            },
        },
    }
}

/// The version a plugin is installed under: its declared one, or `latest`.
pub fn install_version(plugin: &MarketplacePlugin) -> (r: String)
    ensures
        r@ == match plugin.version { Some(v) => v@, None => "latest"@ },
{
    match &plugin.version {
        Some(v) => v.clone(),
        None => "latest".to_string(),
    }
}

/// The cache directory of a plugin version:
/// `plugins_root/cache/marketplace/name/version`.
pub open spec fn spec_cache_path(root: Seq<char>, id: PluginIdentifier, version: Seq<char>) -> Seq<char> {
    joined_path(joined_path(joined_path(joined_path(root, "cache"@), id.marketplace@), id.name@), version)
}

/// The cache directory of a plugin version.
pub fn cache_path(plugins_root: &str, id: &PluginIdentifier, version: &str) -> (r: String)
    ensures
        r@ == spec_cache_path(plugins_root@, *id, version@),
{
    let a = join_path(plugins_root, "cache");
    let b = join_path(a.as_str(), id.marketplace.as_str());
    let c = join_path(b.as_str(), id.name.as_str());
    join_path(c.as_str(), version)
}

/// The message for an unknown marketplace.
pub fn marketplace_not_found(marketplace: &str) -> (r: String)
    ensures
        r@ == "marketplace '"@ + marketplace@ + "' not found. Add it first with `arawn plugin marketplace add`"@,
{
    let mut r = "marketplace '".to_string();
    push_str(&mut r, marketplace);
    push_str(&mut r, "' not found. Add it first with `arawn plugin marketplace add`");
    r
}

/// The message for a plugin that a marketplace does not list.
pub fn plugin_not_found(id: &PluginIdentifier) -> (r: String)
    ensures
        r@ == "plugin '"@ + id.name@ + "' not found in marketplace '"@ + id.marketplace@ + "'"@,
{
    let mut r = "plugin '".to_string();
    push_str(&mut r, id.name.as_str());
    push_str(&mut r, "' not found in marketplace '");
    push_str(&mut r, id.marketplace.as_str());
    push_str(&mut r, "'");
    r
}

} // verus!
