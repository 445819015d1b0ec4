//! The execution context given to tools: the workstream they work in, the
//! paths they may reach outside it, the files read so far, and how deep in
//! sub-agents they run.
//!
//! Resolving paths on disk (`canonicalize`) is left to the caller, which
//! hands in what it found.
use vstd::prelude::*;

use crate::paths::{path_starts_with, path_view, same_path, spec_path_starts_with};
use crate::plan::opt_view;
use crate::text::push_str;

verus! {

/// Maximum sub-agent nesting depth.
pub const MAX_AGENT_DEPTH: u8 = 3;

/// The context of tool executions in a session.
#[derive(Debug, Clone)]
pub struct ToolContext {
    pub session_id: String,
    pub working_dir: String,
    pub workstream_name: String,
    /// Paths outside the workstream that file tools may reach.
    pub allowed_paths: Vec<String>,
    pub model: Option<String>,
    pub data_dir: Option<String>,
    pub agent_depth: u8,
    /// Files read in this session.
    pub read_files: Vec<String>,
}

/// Some entry of `paths` is `path`, compared as paths.
pub open spec fn has_path(paths: Seq<String>, path: Seq<char>) -> bool {
    exists|i: int| 0 <= i < paths.len() && path_view(paths[i]@) == path_view(path)
}

fn contains_path(paths: &Vec<String>, path: &str) -> (b: bool)
    ensures
        b == has_path(paths@, path@),
{
    let mut i: usize = 0;
    while i < paths.len()
        invariant
            i <= paths@.len(),
            forall|k: int| 0 <= k < i ==> path_view(paths@[k]@) != path_view(path@),
        decreases paths.len() - i,
    {
        if same_path(paths[i].as_str(), path) {
            return true;
        }
        i = i + 1;
    }
    false
}

impl ToolContext {
    /// A context for a session in a workstream.
    pub fn new(workstream_name: &str, root_dir: &str, session_id: &str) -> (r: Self)
        ensures
            r.session_id@ == session_id@,
            r.working_dir@ == root_dir@,
            r.spec_workstream_name() == workstream_name@,
            r.allowed_paths@.len() == 0,
            r.spec_agent_depth() == 0,
            r.spec_read_files().len() == 0,
    {
        ToolContext {
            session_id: session_id.to_string(),
            working_dir: root_dir.to_string(),
            workstream_name: workstream_name.to_string(),
            allowed_paths: Vec::new(),
            model: None,
            data_dir: None,
            agent_depth: 0,
            read_files: Vec::new(),
        }
    }

    pub open spec fn spec_workstream_name(&self) -> Seq<char> {
        self.workstream_name@
    }

    pub open spec fn spec_agent_depth(&self) -> u8 {
        self.agent_depth
    }

    pub open spec fn spec_model(&self) -> Option<Seq<char>> {
        opt_view(self.model)
    }

    pub open spec fn spec_data_dir(&self) -> Option<Seq<char>> {
        opt_view(self.data_dir)
    }

    pub open spec fn spec_read_files(&self) -> Seq<String> {
        self.read_files@
    }

    /// Set the paths file tools may reach outside the workstream.
    pub fn with_allowed_paths(self, paths: Vec<String>) -> (r: Self)
        ensures
            r.allowed_paths == paths,
            r.session_id == self.session_id && r.working_dir == self.working_dir,
            r.spec_workstream_name() == self.spec_workstream_name(),
            r.spec_agent_depth() == self.spec_agent_depth(),
            r.spec_model() == self.spec_model() && r.spec_data_dir() == self.spec_data_dir(),
            r.spec_read_files() == self.spec_read_files(),
    {
        let mut s = self;
        s.allowed_paths = paths;
        s
    }

    /// Set the model of sub-queries.
    pub fn with_model(self, model: String) -> (r: Self)
        ensures
            r.spec_model() == Some(model@),
            r.allowed_paths == self.allowed_paths,
            r.session_id == self.session_id && r.working_dir == self.working_dir,
            r.spec_workstream_name() == self.spec_workstream_name(),
            r.spec_agent_depth() == self.spec_agent_depth(),
            r.spec_data_dir() == self.spec_data_dir(),
            r.spec_read_files() == self.spec_read_files(),
    {
        let mut s = self;
        s.model = Some(model);
        s
    }

    /// Set the directory where large tool results are kept.
    pub fn with_data_dir(self, dir: String) -> (r: Self)
        ensures
            r.spec_data_dir() == Some(dir@),
            r.allowed_paths == self.allowed_paths,
            r.session_id == self.session_id && r.working_dir == self.working_dir,
            r.spec_workstream_name() == self.spec_workstream_name(),
            r.spec_agent_depth() == self.spec_agent_depth(),
            r.spec_model() == self.spec_model(),
            r.spec_read_files() == self.spec_read_files(),
    {
        let mut s = self;
        s.data_dir = Some(dir);
        s
    }

    pub fn workstream_name(&self) -> (r: &str)
        ensures
            r@ == self.spec_workstream_name(),
    {
        self.workstream_name.as_str()
    }

    pub fn model(&self) -> (r: Option<&str>)
        ensures
            match r { Some(m) => self.spec_model() == Some(m@), None => self.spec_model() is None },
    {
        match &self.model {
            Some(m) => Some(m.as_str()),
            None => None,
        }
    }

    pub fn data_dir(&self) -> (r: Option<&str>)
        ensures
            match r { Some(d) => self.spec_data_dir() == Some(d@), None => self.spec_data_dir() is None },
    {
        match &self.data_dir {
            Some(d) => Some(d.as_str()),
            None => None,
        }
    }

    /// The current sub-agent depth (0 at the top).
    pub fn agent_depth(&self) -> (d: u8)
        ensures
            d == self.spec_agent_depth(),
    {
        self.agent_depth
    }

    /// Whether another sub-agent may be started at this depth.
    pub fn can_spawn_agent(&self) -> (b: bool)
        ensures
            b == (self.spec_agent_depth() < MAX_AGENT_DEPTH),
    {
        self.agent_depth < MAX_AGENT_DEPTH
    }

    /// The context of a sub-agent: one level deeper, with no files read.
    pub fn for_sub_agent(&self) -> (r: Self)
        ensures
            r.spec_agent_depth() == if self.spec_agent_depth() < 255 { (self.spec_agent_depth() + 1) as u8 } else { 255 },
            r.spec_read_files().len() == 0,
            r.session_id@ == self.session_id@ && r.working_dir@ == self.working_dir@,
            r.spec_workstream_name() == self.spec_workstream_name(),
            r.allowed_paths@.len() == self.allowed_paths@.len(),
            r.spec_model() == self.spec_model() && r.spec_data_dir() == self.spec_data_dir(),
    {
        ToolContext {
            session_id: self.session_id.clone(),
            working_dir: self.working_dir.clone(),
            workstream_name: self.workstream_name.clone(),
            allowed_paths: self.allowed_paths.clone(),
            model: match &self.model {
                Some(m) => Some(m.clone()),
                None => None,
            },
            data_dir: match &self.data_dir {
                Some(d) => Some(d.clone()),
                None => None,
            },
            agent_depth: self.agent_depth.saturating_add(1),
            read_files: Vec::new(),
        }
    }

    /// Record that a file was read.
    pub fn mark_file_read(&mut self, path: String)
        ensures
            has_path(final(self).spec_read_files(), path@),
            forall|p: Seq<char>| has_path(old(self).spec_read_files(), p) ==> has_path(final(self).spec_read_files(), p),
            forall|p: Seq<char>| has_path(final(self).spec_read_files(), p) ==> has_path(old(self).spec_read_files(), p)
                || path_view(p) == path_view(path@),
            final(self).spec_agent_depth() == old(self).spec_agent_depth(),
            final(self).spec_workstream_name() == old(self).spec_workstream_name(),
    {
        let ghost before = self.read_files@;
        self.read_files.push(path);
        assert(self.read_files@[before.len() as int] == path);
        assert forall|p: Seq<char>| has_path(before, p) implies has_path(self.read_files@, p) by {
            let i = choose|i: int| 0 <= i < before.len() && path_view(before[i]@) == path_view(p);
            assert(self.read_files@[i] == before[i]);
        }
        assert forall|p: Seq<char>| has_path(self.read_files@, p) implies has_path(before, p) || path_view(p) == path_view(path@) by {
            let i = choose|i: int| 0 <= i < self.read_files@.len() && path_view(self.read_files@[i]@) == path_view(p);
            if i < before.len() {
                assert(self.read_files@[i] == before[i]);
            }
        }
    }

    /// Whether a file was read in this session.
    pub fn has_read_file(&self, path: &str) -> (b: bool)
        ensures
            b == has_path(self.spec_read_files(), path@),
    {
        contains_path(&self.read_files, path)
    }

    /// Whether a path that does not exist is one of the allowed paths
    /// (compared as written).
    pub fn is_listed_path(&self, path: &str) -> (b: bool)
        ensures
            b == has_path(self.allowed_paths@, path@),
    {
        contains_path(&self.allowed_paths, path)
    }
}

/// The outcome of checking a resolved path: it stays within the
/// workstream root or is allowed, else an error naming the path as given.
pub open spec fn spec_validate(path_str: Seq<char>, resolved: Seq<char>, root: Seq<char>, allowed: bool) -> Result<Seq<char>, Seq<char>> {
    if spec_path_starts_with(resolved, root) || allowed {
        Ok(resolved)
    } else {
        Err("path '"@ + path_str + "' escapes workstream root"@)
    }
}

/// Check a resolved path (canonical, or normalized when it does not exist
/// yet) against the canonical workstream root; `allowed` says whether it
/// is one of the allowed paths.
pub fn validate_resolved(path_str: &str, resolved: String, canonical_root: &str, allowed: bool) -> (r: Result<String, String>)
    ensures
        match spec_validate(path_str@, resolved@, canonical_root@, allowed) {
            Ok(p) => r matches Ok(s) && s@ == p,
            Err(m) => r matches Err(e) && e@ == m,
        },
{
    if path_starts_with(resolved.as_str(), canonical_root) || allowed {
        Ok(resolved)
    } else {
        let mut m = "path '".to_string();
        push_str(&mut m, path_str);
        push_str(&mut m, "' escapes workstream root");
        Err(m)
    }
}

} // verus!
