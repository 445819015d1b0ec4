//! Session-scoped allowlist for the approval system, keyed by
//! `(tool_name, ArgShape)`. Everything here lives in memory.
use vstd::prelude::*;

use crate::text::{chars_of, push_str, starts_with, str_eq, str_is_empty, str_starts_with, sub_string, trim, trim_string};

verus! {

/// Normalised shape derived from a tool's arguments. Two calls with the
/// same `(tool_name, ArgShape)` are treated as the "same operation" for
/// approval purposes.
#[derive(Debug, Clone, PartialEq, Eq, Hash)]
pub struct ArgShape(pub String);

/// A name for what parsing `raw` as JSON and reading the string field
/// `key` gives: `None` when `raw` is not JSON, `Some(None)` when the value
/// has no such string field, else the field's text.
pub uninterp spec fn json_string_field(raw: Seq<char>, key: Seq<char>) -> Option<Option<Seq<char>>>;

/// Parses `raw` with `serde_json::from_str` and reads `key` with
/// `Value::get` and `Value::as_str`. The result depends on the arguments
/// alone; nothing more of it is stated.
#[verifier::external_body]
fn json_field(raw: &str, key: &str) -> (r: Option<Option<String>>)
    ensures
        match r {
            None => json_string_field(raw@, key@) is None,
            Some(None) => json_string_field(raw@, key@) == Some(Option::<Seq<char>>::None),
            Some(Some(s)) => json_string_field(raw@, key@) == Some(Some(s@)),
        },
{
    match serde_json::from_str::<serde_json::Value>(raw) {
        Err(_) => None,
        Ok(v) => Some(v.get(key).and_then(|f| f.as_str()).map(|f| f.to_string())),
    }
}

/// A name for what `Path::parent` gives for `path`, displayed as text.
pub uninterp spec fn path_parent(path: Seq<char>) -> Option<Seq<char>>;

/// Calls `Path::new(path).parent()` and displays the result. The result
/// depends on the argument alone; nothing more of it is stated.
#[verifier::external_body]
fn parent_of(path: &str) -> (r: Option<String>)
    ensures
        match r {
            None => path_parent(path@) is None,
            Some(p) => path_parent(path@) == Some(p@),
        },
{
    std::path::Path::new(path).parent().map(|p| p.display().to_string())
}

/// Calls `dirs::home_dir` and displays the result. It depends on the
/// environment, so nothing is stated of it.
#[verifier::external_body]
fn home_dir_text() -> (r: Option<String>)
{
    dirs::home_dir().map(|h| h.display().to_string())
}

/// `path` with a leading `home` replaced by `~`.
pub open spec fn folded_home(path: Seq<char>, home: Option<Seq<char>>) -> Seq<char> {
    match home {
        Some(h) => if h.len() > 0 && starts_with(path, h) { seq!['~'] + path.skip(h.len() as int) } else { path },
        None => path,
    }
}

/// The shape of a call with JSON arguments `raw`, with `home` the user's
/// home directory: the trimmed command for shell calls, the directory
/// (home folded to `~`) for file writes and edits, the variable name for
/// environment reads, and any input for other tools or unparsable
/// arguments.
pub open spec fn spec_shape(tool: Seq<char>, raw: Seq<char>, home: Option<Seq<char>>) -> Seq<char> {
    let shell = tool == "shell"@ || tool == "Bash"@;
    let file = tool == "file_write"@ || tool == "file_edit"@ || tool == "FileWrite"@ || tool == "FileEdit"@;
    if (shell || file || tool == "safe_env"@) && json_string_field(raw, "command"@) is Some {
        if shell {
            "shell:"@ + trim(match json_string_field(raw, "command"@)->0 { Some(c) => c, None => seq![] })
        } else if file {
            let path = match json_string_field(raw, "path"@) {
                Some(Some(p)) => p,
                _ => match json_string_field(raw, "file_path"@) { Some(Some(p)) => p, _ => seq![] },
            };
            let parent = match path_parent(path) { Some(p) => p, None => seq![] };
            "file:"@ + folded_home(parent, home)
        } else {
            "env:"@ + match json_string_field(raw, "name"@) { Some(Some(n)) => n, _ => seq![] }
        }
    } else {
        tool + ":*"@
    }
}

fn fold_home(path: &str, home: Option<&str>) -> (r: String)
    ensures
        r@ == folded_home(path@, match home { Some(h) => Some(h@), None => None }),
{
    match home {
        Some(h) => {
            if !str_is_empty(h) && str_starts_with(path, h) {
                let v = chars_of(path);
                let hn = chars_of(h).len();
                let n = v.len();
                let rest = sub_string(v.as_slice(), hn, n);
                let mut r = "~".to_string();
                push_str(&mut r, rest.as_str());
                proof {
                    reveal_strlit("~");
                    assert(v@.subrange(hn as int, n as int) == v@.skip(hn as int));
                }
                r
            } else {
                path.to_string()
            }
        },
        None => path.to_string(),
    }
}

impl ArgShape {
    /// The shape of a call, with the home directory given.
    pub fn for_tool_with_home(tool_name: &str, raw_input: &str, home: Option<&str>) -> (r: Self)
        ensures
            r.0@ == spec_shape(tool_name@, raw_input@, match home { Some(h) => Some(h@), None => None }),
    {
        let shell = str_eq(tool_name, "shell") || str_eq(tool_name, "Bash");
        let file = str_eq(tool_name, "file_write") || str_eq(tool_name, "file_edit") || str_eq(tool_name, "FileWrite")
            || str_eq(tool_name, "FileEdit");
        let env = str_eq(tool_name, "safe_env");
        let probe = if shell || file || env { json_field(raw_input, "command") } else { None };
        match probe {
            Some(command) => {
                if shell {
                    let c = match command {
                        Some(c) => c,
                        None => String::new(),
                    };
                    let mut s = "shell:".to_string();
                    let t = trim_string(c.as_str());
                    push_str(&mut s, t.as_str());
                    ArgShape(s)
                } else if file {
                    let path = match json_field(raw_input, "path") {
                        Some(Some(p)) => p,
                        _ => match json_field(raw_input, "file_path") {
                            Some(Some(p)) => p,
                            _ => String::new(),
                        },
                    };
                    let parent = match parent_of(path.as_str()) {
                        Some(p) => p,
                        None => String::new(),
                    };
                    let mut s = "file:".to_string();
                    let f = fold_home(parent.as_str(), home);
                    push_str(&mut s, f.as_str());
                    ArgShape(s)
                } else {
                    let name = match json_field(raw_input, "name") {
                        Some(Some(n)) => n,
                        _ => String::new(),
                    };
                    let mut s = "env:".to_string();
                    push_str(&mut s, name.as_str());
                    ArgShape(s)
                }
            },
            None => {
                let mut s = tool_name.to_string();
                push_str(&mut s, ":*");
                ArgShape(s)
            },
        }
    }

    /// The shape of a call, with the home directory of this process.
    pub fn for_tool(tool_name: &str, raw_input: &str) -> (r: Self)
        ensures
            exists|home: Option<Seq<char>>| r.0@ == spec_shape(tool_name@, raw_input@, home),
    {
        let home = home_dir_text();
        match home {
            Some(h) => Self::for_tool_with_home(tool_name, raw_input, Some(h.as_str())),
            None => Self::for_tool_with_home(tool_name, raw_input, None),
        }
    }

    pub fn as_str(&self) -> (s: &str)
        ensures
            s@ == self.0@,
    {
        self.0.as_str()
    }

    /// A copy with the same text.
    pub fn duplicate(&self) -> (r: Self)
        ensures
            r.0@ == self.0@,
    {
        ArgShape(self.0.clone())
    }
}

/// Per-session list of `(tool_name, ArgShape)` grants, without repeats.
/// "Allow for session" populates this; `is_granted` consults it.
#[derive(Debug, Default)]
pub struct SessionAllowlist {
    entries: Vec<(String, ArgShape)>,
}

/// The key of one grant: tool name and shape text.
pub open spec fn grant_key(e: (String, ArgShape)) -> (Seq<char>, Seq<char>) {
    (e.0@, e.1.0@)
}

impl View for SessionAllowlist {
    type V = Seq<(Seq<char>, Seq<char>)>;

    closed spec fn view(&self) -> Seq<(Seq<char>, Seq<char>)> {
        self.entries@.map_values(|e: (String, ArgShape)| grant_key(e))
    }
}

impl SessionAllowlist {
    /// No grant appears twice.
    pub open spec fn wf(&self) -> bool {
        forall|i: int, j: int|
            0 <= i < j < self@.len() ==> #[trigger] self@[i] != #[trigger] self@[j]
    }

    pub fn new() -> (r: Self)
        ensures
            r@ == Seq::<(Seq<char>, Seq<char>)>::empty(),
            r.wf(),
    {
        let r = SessionAllowlist { entries: Vec::new() };
        assert(r@ =~= Seq::<(Seq<char>, Seq<char>)>::empty());
        r
    }

    /// Test whether a tool call is on the allowlist. The match is exact on
    /// `(tool_name, ArgShape)`.
    pub fn is_granted(&self, tool_name: &str, shape: &ArgShape) -> (b: bool)
        ensures
            b == self@.contains((tool_name@, shape.0@)),
    {
        let mut i: usize = 0;
        while i < self.entries.len()
            invariant
                i <= self.entries@.len(),
                forall|k: int| 0 <= k < i ==> self@[k] != (tool_name@, shape.0@),
            decreases self.entries.len() - i,
        {
            let e = &self.entries[i];
            if str_eq(e.0.as_str(), tool_name) && str_eq(e.1.0.as_str(), shape.0.as_str()) {
                assert(self@[i as int] == (tool_name@, shape.0@));
                return true;
            }
            i = i + 1;
        }
        false
    }

    /// Add a `(tool, shape)` to the allowlist. Idempotent.
    pub fn grant(&mut self, tool_name: String, shape: ArgShape)
        requires
            old(self).wf(),
        ensures
            final(self).wf(),
            old(self)@.contains((tool_name@, shape.0@)) ==> final(self)@ == old(self)@,
            !old(self)@.contains((tool_name@, shape.0@)) ==> final(self)@ == old(self)@.push(
                (tool_name@, shape.0@),
            ),
    {
        if self.is_granted(tool_name.as_str(), &shape) {
            return;
        }
        let ghost key = (tool_name@, shape.0@);
        self.entries.push((tool_name, shape));
        assert(self@ =~= old(self)@.push(key));
    }

    /// Drop every entry.
    pub fn clear(&mut self)
        ensures
            final(self)@ == Seq::<(Seq<char>, Seq<char>)>::empty(),
            final(self).wf(),
    {
        self.entries.clear();
        assert(self@ =~= Seq::<(Seq<char>, Seq<char>)>::empty());
    }

    pub fn len(&self) -> (n: usize)
        ensures
            n == self@.len(),
    {
        self.entries.len()
    }

    pub fn is_empty(&self) -> (b: bool)
        ensures
            b == (self@.len() == 0),
    {
        self.entries.len() == 0
    }

    /// The entries, in the order they were granted.
    pub fn entries(&self) -> (r: &[(String, ArgShape)])
        ensures
            r@.map_values(|e: (String, ArgShape)| grant_key(e)) == self@,
    {
        self.entries.as_slice()
    }
}

} // verus!
