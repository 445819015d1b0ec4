//! Marketplaces: where plugins are listed, and how their repositories and
//! plugins are fetched.
//!
//! Running git and reading manifests from disk is left to the caller; this
//! module decides what to fetch and how.
use vstd::prelude::*;

use crate::keyed::{find_key, key_names, key_value, names_of, set_key, unique_keys};
use crate::paths::{join_path, joined_path};
use crate::plan::opt_view;
use crate::text::{push_str, str_eq};

verus! {

/// Source of a marketplace.
#[derive(Debug, Clone)]
pub enum MarketplaceSource {
    /// A GitHub repository, `owner/repo`.
    GitHub { repo: String, git_ref: Option<String> },
    /// Any git URL.
    Git { url: String, git_ref: Option<String> },
    /// A local directory.
    Directory { path: String },
}

/// The clone URL of a GitHub repository.
pub open spec fn github_url(repo: Seq<char>) -> Seq<char> {
    "https://github.com/"@ + repo + ".git"@
}

/// The clone URL of a source, if it is a repository.
pub open spec fn spec_git_url(s: MarketplaceSource) -> Option<Seq<char>> {
    match s {
        MarketplaceSource::GitHub { repo, .. } => Some(github_url(repo@)),
        MarketplaceSource::Git { url, .. } => Some(url@),
        MarketplaceSource::Directory { .. } => None,
    }
}

/// The branch or tag to check out, if any.
pub open spec fn spec_git_ref(s: MarketplaceSource) -> Option<Seq<char>> {
    match s {
        MarketplaceSource::GitHub { git_ref, .. } => opt_view(git_ref),
        MarketplaceSource::Git { git_ref, .. } => opt_view(git_ref),
        MarketplaceSource::Directory { .. } => None,
    }
}

fn github_clone_url(repo: &str) -> (r: String)
    ensures
        r@ == github_url(repo@),
{
    let mut r = "https://github.com/".to_string();
    push_str(&mut r, repo);
    push_str(&mut r, ".git");
    r
}

impl MarketplaceSource {
    /// The git clone URL of this source.
    pub fn git_url(&self) -> (r: Option<String>)
        ensures
            opt_view(r) == spec_git_url(*self),
    {
        match self {
            MarketplaceSource::GitHub { repo, .. } => Some(github_clone_url(repo.as_str())),
            MarketplaceSource::Git { url, .. } => Some(url.clone()),
            MarketplaceSource::Directory { .. } => None,
        }
    }

    /// The git ref (branch or tag) to check out.
    pub fn git_ref(&self) -> (r: Option<&str>)
        ensures
            match r {
                Some(s) => spec_git_ref(*self) == Some(s@),
                None => spec_git_ref(*self) is None,
            },
    {
        match self {
            MarketplaceSource::GitHub { git_ref, .. } => match git_ref {
                Some(g) => Some(g.as_str()),
                None => None,
            },
            MarketplaceSource::Git { git_ref, .. } => match git_ref {
                Some(g) => Some(g.as_str()),
                None => None,
            },
            MarketplaceSource::Directory { .. } => None,
        }
    }
}

/// A marketplace manifest: the plugins it offers.
#[derive(Debug, Clone)]
pub struct MarketplaceManifest {
    pub name: String,
    pub plugins: Vec<MarketplacePlugin>,
    pub metadata: Option<MarketplaceMetadata>,
}

/// A plugin entry of a marketplace manifest.
#[derive(Debug, Clone)]
pub struct MarketplacePlugin {
    pub name: String,
    pub version: Option<String>,
    pub description: Option<String>,
    /// Where the plugin's files come from.
    pub source: Option<PluginSourceRef>,
}

/// Where a plugin's files come from.
#[derive(Debug, Clone)]
pub enum PluginSourceRef {
    /// A path inside the marketplace repository, e.g. `./plugins/metis`.
    RelativePath(String),
    /// A GitHub repository, with an optional subdirectory.
    GitHub { source_type: GithubSourceTag, repo: String, git_ref: Option<String>, path: Option<String> },
    /// A git URL, with an optional subdirectory.
    Git { source_type: GitSourceTag, url: String, git_ref: Option<String>, path: Option<String> },
}

/// The tag `github` of a GitHub plugin source.
#[derive(Debug, Clone, Copy, PartialEq, Eq, Structural)]
pub enum GithubSourceTag {
    Github,
}

/// The tag `git` of a git plugin source.
#[derive(Debug, Clone, Copy, PartialEq, Eq, Structural)]
pub enum GitSourceTag {
    Git,
}

impl PluginSourceRef {
    /// The path inside the marketplace repository, for such a source.
    pub fn relative_path(&self) -> (r: Option<&str>)
        ensures
            match *self {
                PluginSourceRef::RelativePath(p) => r matches Some(s) && s@ == p@,
                _ => r is None,
            },
    {
        match self {
            PluginSourceRef::RelativePath(p) => Some(p.as_str()),
            _ => None,
        }
    }
}

/// Marketplace metadata.
#[derive(Debug, Clone)]
pub struct MarketplaceMetadata {
    pub version: Option<String>,
    pub description: Option<String>,
}

/// An entry of the known marketplaces.
#[derive(Debug, Clone)]
pub struct MarketplaceEntry {
    pub source: MarketplaceSource,
    pub install_location: Option<String>,
    pub last_updated: Option<String>,
}

/// The known marketplaces, by name. No two entries share a name.
#[derive(Debug, Clone, Default)]
pub struct KnownMarketplaces {
    pub entries: Vec<(String, MarketplaceEntry)>,
}

impl KnownMarketplaces {
    pub open spec fn wf(&self) -> bool {
        unique_keys(self.entries@)
    }

    /// Add or replace a marketplace entry.
    pub fn add(&mut self, name: String, entry: MarketplaceEntry)
        requires
            old(self).wf(),
        ensures
            final(self).wf(),
            forall|k: Seq<char>| #![trigger key_value(final(self).entries@, k)]
                key_value(final(self).entries@, k) == if k == name@ { Some(entry) } else { key_value(old(self).entries@, k) },
    {
        set_key(&mut self.entries, name.as_str(), entry);
    }

    /// The entry of a marketplace.
    pub fn get(&self, name: &str) -> (r: Option<&MarketplaceEntry>)
        requires
            self.wf(),
        ensures
            match key_value(self.entries@, name@) {
                Some(e) => r == Some(&e),
                None => r is None,
            },
    {
        match find_key(&self.entries, name) {
            Some(i) => Some(&self.entries[i].1),
            None => None,
        }
    }

    /// The names of all known marketplaces.
    pub fn names(&self) -> (r: Vec<String>)
        ensures
            r@.map_values(|s: String| s@) == key_names(self.entries@),
    {
        names_of(&self.entries)
    }
}

/// The position of the first plugin named `name`.
pub open spec fn first_plugin_named(ps: Seq<MarketplacePlugin>, name: Seq<char>) -> Option<int>
    decreases ps.len(),
{
    if ps.len() == 0 {
        None
    } else {
        match first_plugin_named(ps.drop_last(), name) {
            Some(i) => Some(i),
            None => if ps.last().name@ == name { Some(ps.len() - 1) } else { None },
        }
    }
}

/// Find a plugin entry of a manifest by name (the first of that name).
pub fn resolve_plugin<'a>(manifest: &'a MarketplaceManifest, plugin_name: &str) -> (r: Option<&'a MarketplacePlugin>)
    ensures
        match first_plugin_named(manifest.plugins@, plugin_name@) {
            Some(i) => r == Some(&manifest.plugins@[i]),
            None => r is None,
        },
{
    let mut i: usize = 0;
    while i < manifest.plugins.len()
        invariant
            i <= manifest.plugins@.len(),
            first_plugin_named(manifest.plugins@.take(i as int), plugin_name@) is None,
        decreases manifest.plugins.len() - i,
    {
        assert(manifest.plugins@.take(i + 1).drop_last() == manifest.plugins@.take(i as int));
        if str_eq(manifest.plugins[i].name.as_str(), plugin_name) {
            proof {
                lemma_first_plugin_prefix(manifest.plugins@, plugin_name@, i + 1);
            }
            return Some(&manifest.plugins[i]);
        }
        i = i + 1;
    }
    assert(manifest.plugins@.take(manifest.plugins@.len() as int) == manifest.plugins@);
    None
}

proof fn lemma_first_plugin_prefix(ps: Seq<MarketplacePlugin>, name: Seq<char>, n: int)
    requires
        0 <= n <= ps.len(),
        first_plugin_named(ps.take(n), name) is Some,
    ensures
        first_plugin_named(ps, name) == first_plugin_named(ps.take(n), name),
    decreases ps.len() - n,
{
    if n < ps.len() {
        assert(ps.take(n + 1).drop_last() == ps.take(n));
        lemma_first_plugin_prefix(ps, name, n + 1);
    } else {
        assert(ps.take(n) == ps);
    }
}

/// How to get a marketplace's manifest.
#[derive(Debug, Clone)]
pub enum FetchPlan {
    /// Read the manifest in a local directory.
    ReadDirectory { dir: String },
    /// Update an existing clone, checking out the ref first if there is
    /// one, then read its manifest.
    Pull { dir: String, git_ref: Option<String> },
    /// Clone the repository, then read its manifest.
    Clone { url: String, dir: String, git_ref: Option<String> },
}

/// Decide how to fetch a marketplace named `name`, whose clone would live
/// in `marketplaces_dir/name` (`clone_exists` says whether it does).
pub fn fetch_plan(source: &MarketplaceSource, name: &str, marketplaces_dir: &str, clone_exists: bool) -> (r: FetchPlan)
    ensures
        match *source {
            MarketplaceSource::Directory { path } => r matches FetchPlan::ReadDirectory { dir } && dir@ == path@,
            _ => clone_exists ==> (r matches FetchPlan::Pull { dir, git_ref } && dir@ == joined_path(marketplaces_dir@, name@)
                    && opt_view(git_ref) == spec_git_ref(*source)),
        },
        !(source is Directory) && !clone_exists ==> (r matches FetchPlan::Clone { url, dir, git_ref }
            && Some(url@) == spec_git_url(*source) && dir@ == joined_path(marketplaces_dir@, name@)
            && opt_view(git_ref) == spec_git_ref(*source)),
{
    match source {
        MarketplaceSource::Directory { path } => FetchPlan::ReadDirectory { dir: path.clone() },
        _ => {
            let dir = join_path(marketplaces_dir, name);
            let git_ref = match source.git_ref() {
                Some(g) => Some(g.to_string()),
                None => None,
            };
            if clone_exists {
                FetchPlan::Pull { dir, git_ref }
            } else {
                let url = match source.git_url() {
                    Some(u) => u,
                    None => String::new(),
                };
                FetchPlan::Clone { url, dir, git_ref }
            }
        },
    }
}

/// The arguments of `git` for a shallow clone of `url` into `target`,
/// on branch `git_ref` when given.
pub open spec fn spec_clone_args(url: Seq<char>, target: Seq<char>, git_ref: Option<Seq<char>>) -> Seq<Seq<char>> {
    match git_ref {
        Some(r) => seq!["clone"@, "--depth"@, "1"@, "--branch"@, r, url, target],
        None => seq!["clone"@, "--depth"@, "1"@, url, target],
    }
}

/// The arguments of a shallow `git clone`.
pub fn git_clone_args(url: &str, target: &str, git_ref: Option<&str>) -> (r: Vec<String>)
    ensures
        r@.map_values(|s: String| s@) == spec_clone_args(url@, target@, match git_ref {
            Some(g) => Some(g@),
            None => None,
        }),
{
    let mut args: Vec<String> = Vec::new();
    args.push("clone".to_string());
    args.push("--depth".to_string());
    args.push("1".to_string());
    match git_ref {
        Some(g) => {
            args.push("--branch".to_string());
            args.push(g.to_string());
        },
        None => {},
    }
    args.push(url.to_string());
    args.push(target.to_string());
    let ghost g = match git_ref {
        Some(g) => Some(g@),
        None => None,
    };
    assert(args@.map_values(|s: String| s@) =~= spec_clone_args(url@, target@, g));
    args
}

} // verus!
