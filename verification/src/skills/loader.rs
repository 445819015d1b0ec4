//! The skill registry and the skill listing shown in the system prompt.
use vstd::prelude::*;

use super::definition::{parse_skill_markdown, same_skill, spec_parse_skill_ok, SkillDefinition, SkillSource};
use crate::frontmatter::{spec_extract_field, spec_split_frontmatter};
use crate::text::{
    byte_len, bytes_prefix, char_width, is_char_boundary, lemma_utf8_len_concat, prefix_bytes, push_str, str_eq, to_lowercase,
    unicode_lower, utf8_len,
};

verus! {

/// Registry of loaded skills, queryable by name. Names are unique.
pub struct SkillRegistry {
    skills: Vec<SkillDefinition>,
}

/// Index of the skill named exactly `name`.
pub open spec fn index_named(v: Seq<SkillDefinition>, name: Seq<char>) -> Option<int> {
    if exists|i: int| 0 <= i < v.len() && v[i].name@ == name {
        Some(choose|i: int| 0 <= i < v.len() && v[i].name@ == name)
    } else {
        None
    }
}

/// Index of the first skill whose lower-cased name is `lowered`.
pub open spec fn first_lowered(v: Seq<SkillDefinition>, lowered: Seq<char>) -> Option<int>
    decreases v.len(),
{
    if v.len() == 0 {
        None
    } else {
        match first_lowered(v.drop_last(), lowered) {
            Some(i) => Some(i),
            None => if unicode_lower(v.last().name@) == lowered {
                Some(v.len() - 1)
            } else {
                None
            },
        }
    }
}

/// The skill that a lookup of `name` finds: the one of that exact name,
/// else the first whose name is the same after lower-casing.
pub open spec fn spec_lookup(v: Seq<SkillDefinition>, name: Seq<char>) -> Option<int> {
    match index_named(v, name) {
        Some(i) => Some(i),
        None => first_lowered(v, unicode_lower(name)),
    }
}

/// `r` holds, in order, the user-invocable skills of `v[..n]`.
pub open spec fn invocable_of(v: Seq<SkillDefinition>, n: int) -> Seq<SkillDefinition>
    decreases n,
{
    if n <= 0 {
        seq![]
    } else if v[n - 1].user_invocable {
        invocable_of(v, n - 1).push(v[n - 1])
    } else {
        invocable_of(v, n - 1)
    }
}

/// Two lists hold skills with the same contents, in the same order.
pub open spec fn same_skills(a: Seq<SkillDefinition>, b: Seq<SkillDefinition>) -> bool {
    a.len() == b.len() && forall|i: int| 0 <= i < a.len() ==> same_skill(#[trigger] a[i], b[i])
}

/// The registry after registering `s`: it replaces the skill of the same
/// name, or comes last.
pub open spec fn registered(v: Seq<SkillDefinition>, s: SkillDefinition) -> Seq<SkillDefinition> {
    match index_named(v, s.name@) {
        Some(i) => v.update(i, s),
        None => v.push(s),
    }
}

proof fn lemma_index_named_unique(v: Seq<SkillDefinition>, name: Seq<char>, k: int)
    requires
        forall|i: int, j: int| 0 <= i < j < v.len() ==> v[i].name@ != v[j].name@,
        0 <= k < v.len(),
        v[k].name@ == name,
    ensures
        index_named(v, name) == Some(k),
{
}

/// Whether markdown content parses as a skill: it has frontmatter with a
/// description.
pub open spec fn parses_as_skill(content: Seq<char>) -> bool {
    spec_split_frontmatter(content) matches Some((fm, _)) && spec_extract_field(fm, "description"@) is Some
}

/// `parsed` holds, in order, the skills parsed from the first `n` built-in
/// `(default name, content)` pairs that parse, each with the built-in source.
pub open spec fn parsed_builtins(builtins: Seq<(String, String)>, n: int, parsed: Seq<SkillDefinition>) -> bool
    decreases n,
{
    if n <= 0 {
        parsed.len() == 0
    } else if parses_as_skill(builtins[n - 1].1@) {
        &&& parsed.len() > 0
        &&& parsed_builtins(builtins, n - 1, parsed.drop_last())
        &&& parsed.last().source == SkillSource::BuiltIn
        &&& spec_parse_skill_ok(
            builtins[n - 1].1@,
            builtins[n - 1].0@,
            Ok(SkillDefinition { source: SkillSource::Project, ..parsed.last() }),
        )
    } else {
        parsed_builtins(builtins, n - 1, parsed)
    }
}

impl View for SkillRegistry {
    type V = Seq<SkillDefinition>;

    closed spec fn view(&self) -> Seq<SkillDefinition> {
        self.skills@
    }
}

impl SkillRegistry {
    /// No two skills share a name.
    pub open spec fn wf(&self) -> bool {
        forall|i: int, j: int| 0 <= i < j < self@.len() ==> self@[i].name@ != self@[j].name@
    }

    /// An empty registry.
    pub fn new() -> (r: Self)
        ensures
            r@ == Seq::<SkillDefinition>::empty(),
            r.wf(),
    {
        SkillRegistry { skills: Vec::new() }
    }

    fn position(&self, name: &str) -> (r: Option<usize>)
        requires
            self.wf(),
        ensures
            r matches Some(i) ==> index_named(self@, name@) == Some(i as int),
            r is None ==> index_named(self@, name@) is None,
    {
        let mut i: usize = 0;
        while i < self.skills.len()
            invariant
                self.wf(),
                i <= self.skills@.len(),
                forall|j: int| 0 <= j < i ==> self.skills@[j].name@ != name@,
            decreases self.skills.len() - i,
        {
            if str_eq(self.skills[i].name.as_str(), name) {
                proof {
                    lemma_index_named_unique(self@, name@, i as int);
                }
                return Some(i);
            }
            i = i + 1;
        }
        None
    }

    /// Register a skill. If a skill with the same name exists, it's replaced.
    pub fn register(&mut self, skill: SkillDefinition)
        requires
            old(self).wf(),
        ensures
            final(self).wf(),
            final(self)@ == registered(old(self)@, skill),
    {
        match self.position(skill.name.as_str()) {
            Some(i) => {
                self.skills.set(i, skill);
            },
            None => {
                self.skills.push(skill);
            },
        }
    }

    /// Register built-in skills from `(default name, markdown content)`
    /// pairs, in order; the ones that parse are registered with the
    /// built-in source, the others are skipped.
    pub fn register_builtins(&mut self, builtins: &Vec<(String, String)>)
        requires
            old(self).wf(),
        ensures
            final(self).wf(),
            exists|parsed: Seq<SkillDefinition>|
                parsed_builtins(builtins@, builtins@.len() as int, parsed) && final(self)@ == register_all(
                    old(self)@,
                    parsed,
                    parsed.len() as int,
                ),
    {
        let ghost parsed: Seq<SkillDefinition> = seq![];
        let ghost start = self@;
        let mut i: usize = 0;
        while i < builtins.len()
            invariant
                i <= builtins@.len(),
                self.wf(),
                parsed_builtins(builtins@, i as int, parsed),
                self@ == register_all(start, parsed, parsed.len() as int),
            decreases builtins.len() - i,
        {
            let (default_name, content) = &builtins[i];
            match parse_skill_markdown(content.as_str(), default_name.as_str()) {
                Ok(skill) => {
                    let mut skill = skill;
                    let ghost parsed_skill = skill;
                    skill.source = SkillSource::BuiltIn;
                    assert(SkillDefinition { source: SkillSource::Project, ..skill } == parsed_skill);
                    let ghost next = parsed.push(skill);
                    assert(next.drop_last() == parsed);
                    proof {
                        lemma_register_all_prefix(start, parsed, next, parsed.len() as int);
                    }
                    self.register(skill);
                    proof {
                        parsed = next;
                    }
                },
                Err(_) => {},
            }
            i = i + 1;
        }
        assert(parsed_builtins(builtins@, builtins@.len() as int, parsed));
    }

    /// Look up a skill by name: an exact match, else the first skill whose
    /// name matches after Unicode lower-casing.
    pub fn get(&self, name: &str) -> (r: Option<SkillDefinition>)
        requires
            self.wf(),
        ensures
            spec_lookup(self@, name@) matches Some(i) ==> r matches Some(s) && same_skill(s, self@[i]),
            spec_lookup(self@, name@) is None ==> r is None,
    {
        match self.position(name) {
            Some(i) => return Some(self.skills[i].duplicate()),
            None => {},
        }
        let lowered = to_lowercase(name);
        let mut names: Vec<String> = Vec::new();
        let mut k: usize = 0;
        while k < self.skills.len()
            invariant
                k <= self.skills@.len(),
                names@.len() == k,
                forall|j: int| 0 <= j < k ==> #[trigger] names@[j]@ == unicode_lower(self.skills@[j].name@),
            decreases self.skills.len() - k,
        {
            names.push(to_lowercase(self.skills[k].name.as_str()));
            k = k + 1;
        }
        let found = find_lowered(&names, lowered.as_str());
        proof {
            let n = self@.len() as int;
            lemma_first_lowered_eq(self@, names@, lowered@, n);
            assert(self@.take(n) == self@);
            assert(names@.take(n) == names@);
            lemma_first_equal(names@.map_values(|s: String| s@), lowered@);
        }
        match found {
            Some(i) => Some(self.skills[i].duplicate()),
            None => None,
        }
    }

    /// Get all registered skills, in registration order.
    pub fn all(&self) -> (r: Vec<SkillDefinition>)
        ensures
            same_skills(r@, self@),
    {
        let mut out: Vec<SkillDefinition> = Vec::new();
        let mut i: usize = 0;
        while i < self.skills.len()
            invariant
                i <= self.skills@.len(),
                same_skills(out@, self@.take(i as int)),
            decreases self.skills.len() - i,
        {
            out.push(self.skills[i].duplicate());
            i = i + 1;
        }
        assert(self@.take(self@.len() as int) == self@);
        out
    }

    /// Get only user-invocable skills, in registration order.
    pub fn user_invocable(&self) -> (r: Vec<SkillDefinition>)
        ensures
            same_skills(r@, invocable_of(self@, self@.len() as int)),
    {
        let mut out: Vec<SkillDefinition> = Vec::new();
        let mut i: usize = 0;
        while i < self.skills.len()
            invariant
                i <= self.skills@.len(),
                same_skills(out@, invocable_of(self@, i as int)),
            decreases self.skills.len() - i,
        {
            if self.skills[i].user_invocable {
                out.push(self.skills[i].duplicate());
            }
            i = i + 1;
        }
        out
    }

    /// Number of registered skills.
    pub fn len(&self) -> (n: usize)
        ensures
            n == self@.len(),
    {
        self.skills.len()
    }

    pub fn is_empty(&self) -> (b: bool)
        ensures
            b == (self@.len() == 0),
    {
        self.skills.len() == 0
    }
}

/// Index of the first of `lowered_names` equal to `lowered`.
pub open spec fn first_equal(names: Seq<Seq<char>>, lowered: Seq<char>) -> Option<int>
    decreases names.len(),
{
    if names.len() == 0 {
        None
    } else {
        match first_equal(names.drop_last(), lowered) {
            Some(i) => Some(i),
            None => if names.last() == lowered {
                Some(names.len() - 1)
            } else {
                None
            },
        }
    }
}

proof fn lemma_first_equal(names: Seq<Seq<char>>, lowered: Seq<char>)
    ensures
        first_equal(names, lowered) matches Some(i) ==> 0 <= i < names.len() && names[i] == lowered
            && forall|j: int| 0 <= j < i ==> names[j] != lowered,
        first_equal(names, lowered) is None ==> forall|j: int| 0 <= j < names.len() ==> names[j] != lowered,
    decreases names.len(),
{
    if names.len() > 0 {
        let w = names.drop_last();
        lemma_first_equal(w, lowered);
        assert(forall|j: int| 0 <= j < w.len() ==> #[trigger] names[j] == w[j]);
    }
}

proof fn lemma_first_lowered_eq(v: Seq<SkillDefinition>, names: Seq<String>, lowered: Seq<char>, n: int)
    requires
        0 <= n <= v.len(),
        names.len() == v.len(),
        forall|j: int| 0 <= j < v.len() ==> #[trigger] names[j]@ == unicode_lower(v[j].name@),
    ensures
        first_lowered(v.take(n), lowered) == first_equal(
            names.take(n).map_values(|s: String| s@),
            lowered,
        ),
    decreases n,
{
    if n > 0 {
        lemma_first_lowered_eq(v, names, lowered, n - 1);
        assert(v.take(n).drop_last() == v.take(n - 1));
        assert(names.take(n).map_values(|s: String| s@).drop_last() == names.take(n - 1).map_values(
            |s: String| s@,
        ));
    }
}

/// Position of the first of `lowered_names` equal to `lowered`.
pub fn find_lowered(lowered_names: &Vec<String>, lowered: &str) -> (r: Option<usize>)
    ensures
        r matches Some(i) ==> first_equal(lowered_names@.map_values(|s: String| s@), lowered@)
            == Some(i as int),
        r is None ==> first_equal(lowered_names@.map_values(|s: String| s@), lowered@) is None,
{
    let ghost ns = lowered_names@.map_values(|s: String| s@);
    let mut i: usize = 0;
    while i < lowered_names.len()
        invariant
            i <= lowered_names@.len(),
            ns == lowered_names@.map_values(|s: String| s@),
            forall|j: int| 0 <= j < i ==> ns[j] != lowered@,
        decreases lowered_names.len() - i,
    {
        if str_eq(lowered_names[i].as_str(), lowered) {
            proof {
                lemma_first_equal(ns, lowered@);
                if first_equal(ns, lowered@) is None {
                    assert(ns[i as int] == lowered@);
                } else {
                    let k = first_equal(ns, lowered@)->0;
                    if k < i {
                        assert(ns[k] != lowered@);
                    } else if k > i {
                        assert(ns[i as int] == lowered@);
                    }
                }
            }
            return Some(i);
        }
        i = i + 1;
    }
    proof {
        lemma_first_equal(ns, lowered@);
        if first_equal(ns, lowered@) is Some {
            let k = first_equal(ns, lowered@)->0;
            assert(ns[k] != lowered@);
        }
    }
    None
}

/// Build a registry from the built-in, user-level and project-level skills:
/// the built-in skills first (from `(default name, markdown)` pairs, as
/// [`SkillRegistry::register_builtins`] takes them), then the user skills,
/// then the project skills; a later skill replaces an earlier one of the
/// same name, so project skills win over user skills, which win over
/// built-in ones.
pub fn load_merged_skills(
    project_skills: Option<Vec<SkillDefinition>>,
    user_skills: Option<Vec<SkillDefinition>>,
    builtins: &Vec<(String, String)>,
) -> (r: SkillRegistry)
    ensures
        r.wf(),
        exists|parsed: Seq<SkillDefinition>|
            parsed_builtins(builtins@, builtins@.len() as int, parsed) && ({
                let b = register_all(Seq::empty(), parsed, parsed.len() as int);
                let u = match user_skills { Some(v) => v@, None => seq![] };
                let p = match project_skills { Some(v) => v@, None => seq![] };
                r@ == register_all(register_all(b, u, u.len() as int), p, p.len() as int)
            }),
{
    let mut registry = SkillRegistry::new();
    registry.register_builtins(builtins);
    match user_skills {
        Some(v) => register_each(&mut registry, v),
        None => {},
    }
    match project_skills {
        Some(v) => register_each(&mut registry, v),
        None => {},
    }
    registry
}

/// The registry after registering `skills[..n]` in order.
pub open spec fn register_all(start: Seq<SkillDefinition>, skills: Seq<SkillDefinition>, n: int) -> Seq<SkillDefinition>
    decreases n,
{
    if n <= 0 {
        start
    } else {
        registered(register_all(start, skills, n - 1), skills[n - 1])
    }
}

proof fn lemma_register_all_prefix(start: Seq<SkillDefinition>, a: Seq<SkillDefinition>, b: Seq<SkillDefinition>, n: int)
    requires
        0 <= n <= a.len(),
        n <= b.len(),
        forall|k: int| 0 <= k < n ==> a[k] == b[k],
    ensures
        register_all(start, a, n) == register_all(start, b, n),
    decreases n,
{
    if n > 0 {
        lemma_register_all_prefix(start, a, b, n - 1);
    }
}

pub fn register_each(registry: &mut SkillRegistry, skills: Vec<SkillDefinition>)
    requires
        old(registry).wf(),
    ensures
        final(registry).wf(),
        final(registry)@ == register_all(old(registry)@, skills@, skills@.len() as int),
{
    let mut skills = skills;
    let ghost s = skills@;
    let n = skills.len();
    let mut i: usize = 0;
    while i < n
        invariant
            i <= n,
            n == s.len(),
            skills@ == s.skip(i as int),
            registry.wf(),
            registry@ == register_all(old(registry)@, s, i as int),
        decreases n - i,
    {
        let skill = skills.remove(0);
        assert(skill == s[i as int]);
        assert(skills@ =~= s.skip(i + 1));
        registry.register(skill);
        i = i + 1;
    }
}

/// The first line of a skill listing.
pub open spec fn listing_header() -> Seq<char> {
    "The following skills are available for use with the Skill tool:\n"@
}

/// A description as listed: cut to `max - 3` bytes and marked with `...`
/// when it is longer than `max` bytes.
pub open spec fn shown_description(d: Seq<char>, max: int) -> Seq<char> {
    if utf8_len(d) > max {
        bytes_prefix(d, max - 3) + "..."@
    } else {
        d
    }
}

/// A description can be shown: it is short enough, or its cut falls on a
/// character boundary.
pub open spec fn description_cut_ok(d: Seq<char>, max: int) -> bool {
    utf8_len(d) > max ==> max >= 3 && is_char_boundary(d, max - 3)
}

/// The listing line of one skill.
pub open spec fn skill_line(s: SkillDefinition, max: int) -> Seq<char> {
    let desc = shown_description(s.description@, max);
    match s.argument_hint {
        Some(h) => "- "@ + s.name@ + " "@ + h@ + ": "@ + desc,
        None => "- "@ + s.name@ + ": "@ + desc,
    }
}

/// How many of `skills` are listed when `total` bytes are already used:
/// lines are taken in order while each, with its newline, fits the budget.
pub open spec fn listed_count(skills: Seq<SkillDefinition>, max: int, budget: int, total: int) -> nat
    decreases skills.len(),
{
    if skills.len() == 0 {
        0
    } else {
        let l = utf8_len(skill_line(skills[0], max));
        if total + l + 1 > budget {
            0
        } else {
            1 + listed_count(skills.drop_first(), max, budget, total + l + 1)
        }
    }
}

/// Every description that the listing reads can be shown.
pub open spec fn listing_defined(skills: Seq<SkillDefinition>, max: int, budget: int, total: int) -> bool
    decreases skills.len(),
{
    if skills.len() == 0 {
        true
    } else {
        let l = utf8_len(skill_line(skills[0], max));
        &&& description_cut_ok(skills[0].description@, max)
        &&& (total + l + 1 <= budget ==> listing_defined(skills.drop_first(), max, budget, total + l + 1))
    }
}

/// The lines of the first `n` skills, joined by newlines.
pub open spec fn joined_lines(skills: Seq<SkillDefinition>, max: int, n: int) -> Seq<char>
    decreases n,
{
    if n <= 0 {
        seq![]
    } else if n == 1 {
        skill_line(skills[0], max)
    } else {
        joined_lines(skills, max, n - 1) + "\n"@ + skill_line(skills[n - 1], max)
    }
}

/// The listing of `skills`: the header and the lines that fit, or nothing
/// when no line fits.
pub open spec fn spec_skill_listing(skills: Seq<SkillDefinition>, budget: int, max: int) -> Seq<char> {
    let n = listed_count(skills, max, budget, utf8_len(listing_header()) as int);
    if n == 0 {
        seq![]
    } else {
        listing_header() + joined_lines(skills, max, n as int)
    }
}

fn skill_line_of(skill: &SkillDefinition, max_desc_chars: usize) -> (r: String)
    requires
        description_cut_ok(skill.description@, max_desc_chars as int),
    ensures
        r@ == skill_line(*skill, max_desc_chars as int),
{
    let d = skill.description.as_str();
    let desc = if byte_len(d) > max_desc_chars {
        let mut cut = prefix_bytes(d, max_desc_chars - 3);
        push_str(&mut cut, "...");
        cut
    } else {
        d.to_string()
    };
    let mut line = "- ".to_string();
    push_str(&mut line, skill.name.as_str());
    match &skill.argument_hint {
        Some(hint) => {
            push_str(&mut line, " ");
            push_str(&mut line, hint.as_str());
        },
        None => {},
    }
    push_str(&mut line, ": ");
    push_str(&mut line, desc.as_str());
    line
}

/// Format the skill listing for the system prompt within a byte budget.
///
/// Each skill is listed as `- name: description` (with its argument hint
/// after the name when it has one), descriptions longer than
/// `max_desc_chars` bytes cut to `max_desc_chars - 3` bytes plus `...`.
/// Lines are taken in order while the header, the lines and a newline per
/// line fit in `budget_chars`.
pub fn format_skill_listing(skills: &[SkillDefinition], budget_chars: usize, max_desc_chars: usize) -> (r: String)
    requires
        listing_defined(skills@, max_desc_chars as int, budget_chars as int, utf8_len(listing_header()) as int),
    ensures
        r@ == spec_skill_listing(skills@, budget_chars as int, max_desc_chars as int),
{
    let header = "The following skills are available for use with the Skill tool:\n";
    proof {
        reveal_strlit("The following skills are available for use with the Skill tool:\n");
    }
    let ghost s = skills@;
    let ghost max = max_desc_chars as int;
    let ghost budget = budget_chars as int;
    let ghost h = utf8_len(listing_header()) as int;
    let mut body = String::new();
    let mut total: usize = byte_len(header);
    let mut i: usize = 0;
    let mut done = false;
    proof {
        assert(s.skip(0) == s);
        assert(header@ == listing_header());
    }
    while i < skills.len() && !done
        invariant
            s == skills@,
            max == max_desc_chars as int,
            budget == budget_chars as int,
            h == utf8_len(listing_header()),
            i <= s.len(),
            h <= total,
            listing_defined(s.skip(i as int), max, budget, total as int),
            !done ==> listed_count(s, max, budget, h) == i + listed_count(s.skip(i as int), max, budget, total as int),
            done ==> listed_count(s, max, budget, h) == i,
            body@ == joined_lines(s, max, i as int),
        decreases s.len() - i + (if done { 0int } else { 1int }),
    {
        let ghost rest = s.skip(i as int);
        proof {
            assert(rest[0] == s[i as int]);
            assert(rest.drop_first() == s.skip(i + 1));
        }
        let line = skill_line_of(&skills[i], max_desc_chars);
        let l = byte_len(line.as_str());
        if total > budget_chars || l >= budget_chars - total {
            done = true;
        } else {
            if i > 0 {
                push_str(&mut body, "\n");
            }
            push_str(&mut body, line.as_str());
            total = total + l + 1;
            i = i + 1;
        }
    }
    proof {
        if !done {
            assert(s.skip(i as int).len() == 0);
        }
    }
    if i == 0 {
        return String::new();
    }
    let mut out = header.to_string();
    push_str(&mut out, body.as_str());
    out
}

/// After registering a skill, looking up its name finds that skill; the
/// skills of other names stay where they were.
pub proof fn law_register_then_lookup(v: Seq<SkillDefinition>, s: SkillDefinition)
    requires
        forall|i: int, j: int| 0 <= i < j < v.len() ==> v[i].name@ != v[j].name@,
    ensures
        spec_lookup(registered(v, s), s.name@) matches Some(k) && registered(v, s)[k] == s,
        forall|i: int| 0 <= i < v.len() && v[i].name@ != s.name@ ==> registered(v, s)[i] == v[i],
{
    let r = registered(v, s);
    match index_named(v, s.name@) {
        Some(i) => {
            assert(r[i].name@ == s.name@);
            assert forall|a: int, b: int| 0 <= a < b < r.len() implies r[a].name@ != r[b].name@ by {
                assert(v[a].name@ != v[b].name@);
            }
            lemma_index_named_unique(r, s.name@, i);
        },
        None => {
            let n = v.len() as int;
            assert(r[n] == s);
            assert forall|a: int, b: int| 0 <= a < b < r.len() implies r[a].name@ != r[b].name@ by {
                if b == n {
                    assert(!(0 <= a < v.len() && v[a].name@ == s.name@));
                }
            }
            lemma_index_named_unique(r, s.name@, n);
        },
    }
}

/// The bytes of the first `n` listed lines of `skills`, a newline counted
/// with each.
pub open spec fn lines_bytes(skills: Seq<SkillDefinition>, max: int, n: int) -> int
    decreases n,
{
    if n <= 0 || skills.len() == 0 {
        0
    } else {
        utf8_len(skill_line(skills[0], max)) + 1 + lines_bytes(skills.drop_first(), max, n - 1)
    }
}

proof fn lemma_listed_within(skills: Seq<SkillDefinition>, max: int, budget: int, total: int)
    requires
        total <= budget,
    ensures
        listed_count(skills, max, budget, total) <= skills.len(),
        total + lines_bytes(skills, max, listed_count(skills, max, budget, total) as int) <= budget,
    decreases skills.len(),
{
    if skills.len() > 0 {
        let l = utf8_len(skill_line(skills[0], max));
        if total + l + 1 <= budget {
            lemma_listed_within(skills.drop_first(), max, budget, total + l + 1);
        }
    }
}

proof fn lemma_lines_bytes_last(skills: Seq<SkillDefinition>, max: int, n: int)
    requires
        1 <= n <= skills.len(),
    ensures
        lines_bytes(skills, max, n) == lines_bytes(skills, max, n - 1) + utf8_len(skill_line(skills[n - 1], max)) + 1,
    decreases n,
{
    let df = skills.drop_first();
    if n > 1 {
        lemma_lines_bytes_last(df, max, n - 1);
        assert(df[n - 2] == skills[n - 1]);
        assert(lines_bytes(skills, max, n) == utf8_len(skill_line(skills[0], max)) + 1 + lines_bytes(df, max, n - 1));
        assert(lines_bytes(skills, max, n - 1) == utf8_len(skill_line(skills[0], max)) + 1 + lines_bytes(df, max, n - 2));
    } else {
        assert(lines_bytes(df, max, 0) == 0);
        assert(lines_bytes(skills, max, 0) == 0);
    }
}

proof fn lemma_joined_len(skills: Seq<SkillDefinition>, max: int, n: int)
    requires
        1 <= n <= skills.len(),
    ensures
        utf8_len(joined_lines(skills, max, n)) + 1 == lines_bytes(skills, max, n),
    decreases n,
{
    reveal_strlit("\n");
    lemma_lines_bytes_last(skills, max, n);
    if n > 1 {
        lemma_joined_len(skills, max, n - 1);
        let a = joined_lines(skills, max, n - 1);
        lemma_utf8_len_concat(a, "\n"@);
        lemma_utf8_len_concat(a + "\n"@, skill_line(skills[n - 1], max));
        assert(utf8_len("\n"@) == 1) by {
            let nl = "\n"@;
            assert(nl.len() == 1 && nl[0] == '\n');
            assert(nl.drop_first().len() == 0);
            assert(utf8_len(nl.drop_first()) == 0);
            assert(char_width('\n') == 1);
        }
    }
}

/// The skill listing never exceeds its byte budget.
pub proof fn law_listing_within_budget(skills: Seq<SkillDefinition>, budget: int, max: int)
    ensures
        utf8_len(spec_skill_listing(skills, budget, max)) <= budget || spec_skill_listing(skills, budget, max).len() == 0,
{
    let h = utf8_len(listing_header()) as int;
    let n = listed_count(skills, max, budget, h);
    if n > 0 {
        if h > budget {
            let l = utf8_len(skill_line(skills[0], max));
            assert(h + l + 1 > budget);
            assert(false);
        }
        lemma_listed_within(skills, max, budget, h);
        lemma_joined_len(skills, max, n as int);
        lemma_utf8_len_concat(listing_header(), joined_lines(skills, max, n as int));
    }
}

/// No two skills of `v` share a name.
pub open spec fn names_unique(v: Seq<SkillDefinition>) -> bool {
    forall|i: int, j: int| 0 <= i < j < v.len() ==> v[i].name@ != v[j].name@
}

proof fn lemma_registered_keeps(v: Seq<SkillDefinition>, t: SkillDefinition, name: Seq<char>, i: int)
    requires
        names_unique(v),
        index_named(v, name) == Some(i),
    ensures
        names_unique(registered(v, t)),
        t.name@ == name ==> index_named(registered(v, t), name) == Some(i) && registered(v, t)[i] == t,
        t.name@ != name ==> index_named(registered(v, t), name) == Some(i) && registered(v, t)[i] == v[i],
{
    let r = registered(v, t);
    match index_named(v, t.name@) {
        Some(k) => {
            assert forall|a: int, b: int| 0 <= a < b < r.len() implies r[a].name@ != r[b].name@ by {
                assert(v[a].name@ != v[b].name@);
            }
            if t.name@ != name {
                assert(k != i);
            }
        },
        None => {
            let n = v.len() as int;
            assert forall|a: int, b: int| 0 <= a < b < r.len() implies r[a].name@ != r[b].name@ by {
                if b == n {
                    assert(!(0 <= a < v.len() && v[a].name@ == t.name@));
                }
            }
            assert(t.name@ != name);
        },
    }
    lemma_index_named_unique(r, name, i);
}

proof fn lemma_register_all_unique(start: Seq<SkillDefinition>, ss: Seq<SkillDefinition>, n: int)
    requires
        names_unique(start),
        0 <= n <= ss.len(),
    ensures
        names_unique(register_all(start, ss, n)),
    decreases n,
{
    if n > 0 {
        lemma_register_all_unique(start, ss, n - 1);
        let v = register_all(start, ss, n - 1);
        let t = ss[n - 1];
        match index_named(v, t.name@) {
            Some(i) => lemma_registered_keeps(v, t, t.name@, i),
            None => {
                let r = registered(v, t);
                assert forall|a: int, b: int| 0 <= a < b < r.len() implies r[a].name@ != r[b].name@ by {
                    if b == v.len() {
                        assert(!(0 <= a < v.len() && v[a].name@ == t.name@));
                    }
                }
            },
        }
    }
}

proof fn lemma_registered_finds(v: Seq<SkillDefinition>, t: SkillDefinition)
    requires
        names_unique(v),
    ensures
        index_named(registered(v, t), t.name@) matches Some(i) && registered(v, t)[i] == t,
{
    match index_named(v, t.name@) {
        Some(i) => lemma_registered_keeps(v, t, t.name@, i),
        None => {
            let r = registered(v, t);
            let n = v.len() as int;
            assert forall|a: int, b: int| 0 <= a < b < r.len() implies r[a].name@ != r[b].name@ by {
                if b == n {
                    assert(!(0 <= a < v.len() && v[a].name@ == t.name@));
                }
            }
            assert(r[n] == t);
            lemma_index_named_unique(r, t.name@, n);
        },
    }
}

/// After registering skills in order, the skill found under a name is the
/// last one registered with that name: later registrations replace
/// earlier ones (so project skills, registered after user skills, win).
pub proof fn law_last_registration_wins(start: Seq<SkillDefinition>, ss: Seq<SkillDefinition>, n: int, j: int)
    requires
        names_unique(start),
        0 <= j < n <= ss.len(),
        forall|k: int| j < k < n ==> (#[trigger] ss[k]).name@ != ss[j].name@,
    ensures
        index_named(register_all(start, ss, n), ss[j].name@) matches Some(i) && register_all(start, ss, n)[i] == ss[j],
    decreases n - j,
{
    if n == j + 1 {
        lemma_register_all_unique(start, ss, j);
        lemma_registered_finds(register_all(start, ss, j), ss[j]);
    } else {
        law_last_registration_wins(start, ss, n - 1, j);
        lemma_register_all_unique(start, ss, n - 1);
        let v = register_all(start, ss, n - 1);
        let i = index_named(v, ss[j].name@)->0;
        lemma_registered_keeps(v, ss[n - 1], ss[j].name@, i);
    }
}

/// A skill registered earlier keeps its place and contents through later
/// registrations of skills of other names: a built-in or user skill that no
/// later skill shares a name with is still found, unchanged.
pub proof fn law_unshadowed_skill_kept(start: Seq<SkillDefinition>, ss: Seq<SkillDefinition>, n: int, i: int)
    requires
        names_unique(start),
        0 <= i < start.len(),
        0 <= n <= ss.len(),
        forall|k: int| 0 <= k < n ==> (#[trigger] ss[k]).name@ != start[i].name@,
    ensures
        index_named(register_all(start, ss, n), start[i].name@) == Some(i),
        register_all(start, ss, n)[i] == start[i],
    decreases n,
{
    if n == 0 {
        lemma_index_named_unique(start, start[i].name@, i);
    } else {
        law_unshadowed_skill_kept(start, ss, n - 1, i);
        lemma_register_all_unique(start, ss, n - 1);
        let v = register_all(start, ss, n - 1);
        lemma_registered_keeps(v, ss[n - 1], start[i].name@, i);
    }
}

} // verus!
