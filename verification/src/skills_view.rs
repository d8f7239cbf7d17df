//! `/skills`: the resolved skill registry as transcript notes.
//!
//! The listing names every skill with its scope, source and status, and says what is
//! wrong with an unusable one. The detail shows where a skill came from, including one
//! installed for another tool, so a user can tell why a name resolves the way it does.

use vstd::prelude::*;

use crate::i18n::UiText;
use crate::model::views;

use crate::strings::{cat2, cat3, cat4, cat5, dec, decimal, join, joined, same, trim, trimmed};

verus! {

broadcast use crate::model::group_views;

/// A skill of the same name that another one hides.
#[derive(Debug)]
pub struct SkillShadow {
    pub scope: String,
    pub source: String,
    pub error: Option<String>,
}

/// A resolved skill. Scope and source are the labels that are shown: the source is
/// the own store, or the ecosystem the skill was installed for.
#[derive(Debug)]
pub struct SkillEntry {
    pub name: String,
    pub description: Option<String>,
    pub scope: String,
    pub source: String,
    /// Why it cannot be used; nothing for a usable one.
    pub invalid: Option<String>,
    /// Where its file lies; nothing for a built-in one.
    pub location: Option<String>,
    pub shadowed: Vec<SkillShadow>,
}

/// A file that could not be loaded.
#[derive(Debug)]
pub struct SkillProblem {
    pub location: String,
    pub error: String,
}

#[derive(Debug)]
pub struct SkillRegistry {
    pub entries: Vec<SkillEntry>,
    pub problems: Vec<SkillProblem>,
}

/// The files bundled with a skill.
#[derive(Debug)]
pub struct SkillFiles {
    pub scripts: Vec<String>,
    pub references: Vec<String>,
    pub other_files: Vec<String>,
}

/// The first of the entries from `i` on with a name.
pub open spec fn entry_from(entries: Seq<SkillEntry>, name: Seq<char>, i: int) -> Option<int>
    decreases entries.len() - i,
{
    if i >= entries.len() {
        None
    } else if entries[i].name@ == name {
        Some(i)
    } else {
        entry_from(entries, name, i + 1)
    }
}

impl SkillRegistry {
    /// The entry of a name.
    pub fn get(&self, name: &str) -> (r: Option<usize>)
        ensures
            entry_from(self.entries@, name@, 0) == (match r {
                Some(i) => Some(i as int),
                None => None,
            }),
            r matches Some(i) ==> i < self.entries@.len(),
    {
        let mut i: usize = 0;
        while i < self.entries.len()
            invariant
                i <= self.entries@.len(),
                entry_from(self.entries@, name@, 0) == entry_from(self.entries@, name@, i as int),
            decreases self.entries@.len() - i,
        {
            if same(self.entries[i].name.as_str(), name) {
                return Some(i);
            }
            i += 1;
        }
        None
    }
}

/// What is wrong with an unusable skill.
pub open spec fn status_text(e: SkillEntry) -> Seq<char> {
    match e.invalid {
        Some(reason) => " · INVALID: "@ + reason@,
        None => Seq::empty(),
    }
}

fn status_suffix(e: &SkillEntry) -> (r: String)
    ensures
        r@ == status_text(*e),
{
    match &e.invalid {
        Some(reason) => cat2(" · INVALID: ", reason.as_str()),
        None => String::new(),
    }
}

// ---------------------------------------------------------------- listing

/// The first `n` hidden skills.
pub open spec fn shadow_text(shadows: Seq<SkillShadow>, n: int) -> Seq<char>
    decreases n,
{
    if n <= 0 {
        Seq::empty()
    } else {
        shadow_text(shadows, n - 1) + (" · shadows "@ + shadows[n - 1].scope@ + " "@ + shadows[n
            - 1].source@)
    }
}

/// A skill in the listing.
pub open spec fn listed(e: SkillEntry) -> Seq<char> {
    let description = match e.description {
        Some(d) => d@,
        None => "—"@,
    };
    ("  $"@ + e.name@ + " — "@ + description + " ["@) + (e.scope@ + " · "@ + e.source@ + "]"@
        + status_text(e)) + shadow_text(e.shadowed@, e.shadowed@.len() as int)
}

fn listed_line(e: &SkillEntry) -> (r: String)
    ensures
        r@ == listed(*e),
{
    let description = match &e.description {
        Some(d) => d.as_str(),
        None => "—",
    };
    let head = cat5("  $", e.name.as_str(), " — ", description, " [");
    let suffix = status_suffix(e);
    let origin = cat5(e.scope.as_str(), " · ", e.source.as_str(), "]", suffix.as_str());
    let mut line = cat2(head.as_str(), origin.as_str());
    let ghost base = line@;
    let mut i: usize = 0;
    assert(base + shadow_text(e.shadowed@, 0) =~= base);
    while i < e.shadowed.len()
        invariant
            i <= e.shadowed@.len(),
            line@ == base + shadow_text(e.shadowed@, i as int),
        decreases e.shadowed@.len() - i,
    {
        let s = &e.shadowed[i];
        let ghost before = line@;
        let more = cat4(" · shadows ", s.scope.as_str(), " ", s.source.as_str());
        line.append(more.as_str());
        i += 1;
        assert(line@ =~= base + shadow_text(e.shadowed@, i as int));
    }
    line
}

/// The rows of the problems, under their heading.
pub open spec fn problem_rows(problems: Seq<SkillProblem>, t: UiText) -> Seq<Seq<char>> {
    if problems.len() == 0 {
        Seq::empty()
    } else {
        seq![t.skills_not_loaded@ + " ("@ + decimal(problems.len()) + ")"@] + Seq::new(
            problems.len(),
            |i: int| "  "@ + problems[i].location@ + ": "@ + problems[i].error@,
        )
    }
}

/// The rows of the listing.
pub open spec fn listing_rows(registry: SkillRegistry, t: UiText) -> Seq<Seq<char>> {
    seq![t.skills_title@ + " ("@ + decimal(registry.entries@.len()) + ")"@] + Seq::new(
        registry.entries@.len(),
        |i: int| listed(registry.entries@[i]),
    ) + problem_rows(registry.problems@, t) + seq![t.skills_hint@]
}

fn push_problems(out: &mut Vec<String>, problems: &Vec<SkillProblem>, t: &UiText)
    ensures
        views(final(out)@) == views(old(out)@) + problem_rows(problems@, *t),
{
    let ghost base = views(out@);
    let n: usize = problems.len();
    if n == 0 {
        assert(views(out@) =~= base + problem_rows(problems@, *t));
        return ;
    }
    out.push(cat4(t.skills_not_loaded, " (", dec(n as u64).as_str(), ")"));
    let ghost head = views(out@);
    let ghost all = Seq::new(
        problems@.len(),
        |i: int| "  "@ + problems@[i].location@ + ": "@ + problems@[i].error@,
    );
    let mut i: usize = 0;
    assert(head + all.take(0) =~= head);
    while i < n
        invariant
            i <= n,
            n == problems@.len(),
            all == Seq::new(
                problems@.len(),
                |i: int| "  "@ + problems@[i].location@ + ": "@ + problems@[i].error@,
            ),
            views(out@) == head + all.take(i as int),
        decreases n - i,
    {
        out.push(cat4("  ", problems[i].location.as_str(), ": ", problems[i].error.as_str()));
        i += 1;
        assert(all.take(i as int) =~= all.take(i - 1).push(all[i - 1]));
        assert(views(out@) =~= head + all.take(i as int));
    }
    assert(all.take(i as int) =~= all);
    assert(views(out@) =~= base + problem_rows(problems@, *t));
}

/// Every skill with its scope, source and status, then what could not be loaded.
pub fn listing_note(registry: &SkillRegistry, t: &UiText) -> (r: String)
    ensures
        r@ == joined(listing_rows(*registry, *t), "\n"@),
{
    let entries = &registry.entries;
    let n: usize = entries.len();
    let mut out: Vec<String> = Vec::new();
    out.push(cat4(t.skills_title, " (", dec(n as u64).as_str(), ")"));
    let ghost head = views(out@);
    let ghost all = Seq::new(entries@.len(), |i: int| listed(entries@[i]));
    let mut i: usize = 0;
    assert(head =~= seq![t.skills_title@ + " ("@ + decimal(entries@.len()) + ")"@]);
    assert(head + all.take(0) =~= head);
    while i < n
        invariant
            i <= n,
            n == entries@.len(),
            all == Seq::new(entries@.len(), |i: int| listed(entries@[i])),
            views(out@) == head + all.take(i as int),
        decreases n - i,
    {
        out.push(listed_line(&entries[i]));
        i += 1;
        assert(all.take(i as int) =~= all.take(i - 1).push(all[i - 1]));
        assert(views(out@) =~= head + all.take(i as int));
    }
    assert(all.take(i as int) =~= all);
    push_problems(&mut out, &registry.problems, t);
    out.push(t.skills_hint.to_owned());
    assert(views(out@) =~= listing_rows(*registry, *t));
    join(&out, "\n")
}

// ---------------------------------------------------------------- detail

/// A row that names files, where there are any.
pub open spec fn file_row(label: Seq<char>, files: Seq<Seq<char>>) -> Seq<Seq<char>> {
    if files.len() == 0 {
        Seq::empty()
    } else {
        seq![label + joined(files, ", "@)]
    }
}

/// The files that the loader found; its reason where it refused.
pub open spec fn loaded_rows(loaded: Result<SkillFiles, String>) -> Seq<Seq<char>> {
    match loaded {
        Ok(f) => file_row("  scripts: "@, views(f.scripts@)) + file_row(
            "  references: "@,
            views(f.references@),
        ) + file_row("  files: "@, views(f.other_files@)),
        Err(e) => seq!["  "@ + e@],
    }
}

/// The rows of what a skill hides.
pub open spec fn shadow_rows(shadows: Seq<SkillShadow>, t: UiText) -> Seq<Seq<char>> {
    Seq::new(
        shadows.len(),
        |i: int|
            ("  "@ + t.agents_shadows@ + ": "@ + shadows[i].scope@ + " "@) + (shadows[i].source@
                + (match shadows[i].error {
                Some(e) => " ("@ + e@ + ")"@,
                None => Seq::empty(),
            })),
    )
}

/// The rows of a skill's detail.
pub open spec fn detail_rows(e: SkillEntry, loaded: Result<SkillFiles, String>, t: UiText) -> Seq<
    Seq<char>,
> {
    seq![
        ("Skill $"@ + e.name@ + " ["@ + e.scope@ + " · "@) + (e.source@ + "]"@ + status_text(e)),
    ] + (match e.description {
        Some(d) => seq!["  "@ + d@],
        None => Seq::empty(),
    }) + seq![
        match e.location {
            Some(l) => "  "@ + t.agents_location@ + ": "@ + l@,
            None => "  "@ + t.agents_location@ + ": (built-in)"@,
        },
    ] + loaded_rows(loaded) + shadow_rows(e.shadowed@, t)
}

/// The detail of a name, or that there is no such skill.
pub open spec fn detail_text(
    registry: SkillRegistry,
    name: Seq<char>,
    loaded: Result<SkillFiles, String>,
    t: UiText,
) -> Seq<char> {
    match entry_from(registry.entries@, trimmed(name), 0) {
        Some(i) => joined(detail_rows(registry.entries@[i], loaded, t), "\n"@),
        None => t.skills_title@ + " "@ + name + ": no such skill. "@ + t.skills_hint@,
    }
}

fn push_files(out: &mut Vec<String>, label: &str, files: &Vec<String>)
    ensures
        views(final(out)@) == views(old(out)@) + file_row(label@, views(files@)),
{
    let ghost base = views(out@);
    if files.len() > 0 {
        out.push(cat2(label, join(files, ", ").as_str()));
    }
    assert(views(out@) =~= base + file_row(label@, views(files@)));
}

fn push_loaded(out: &mut Vec<String>, loaded: &Result<SkillFiles, String>)
    ensures
        views(final(out)@) == views(old(out)@) + loaded_rows(*loaded),
{
    let ghost base = views(out@);
    match loaded {
        Ok(f) => {
            push_files(out, "  scripts: ", &f.scripts);
            push_files(out, "  references: ", &f.references);
            push_files(out, "  files: ", &f.other_files);
        },
        Err(e) => out.push(cat2("  ", e.as_str())),
    }
    assert(views(out@) =~= base + loaded_rows(*loaded));
}

fn push_shadows(out: &mut Vec<String>, shadows: &Vec<SkillShadow>, t: &UiText)
    ensures
        views(final(out)@) == views(old(out)@) + shadow_rows(shadows@, *t),
{
    let ghost base = views(out@);
    let ghost all = shadow_rows(shadows@, *t);
    let mut i: usize = 0;
    assert(base + all.take(0) =~= base);
    while i < shadows.len()
        invariant
            i <= shadows@.len(),
            all == shadow_rows(shadows@, *t),
            views(out@) == base + all.take(i as int),
        decreases shadows@.len() - i,
    {
        let s = &shadows[i];
        let reason = match &s.error {
            Some(e) => cat3(" (", e.as_str(), ")"),
            None => String::new(),
        };
        let head = cat5("  ", t.agents_shadows, ": ", s.scope.as_str(), " ");
        let tail = cat2(s.source.as_str(), reason.as_str());
        out.push(cat2(head.as_str(), tail.as_str()));
        i += 1;
        assert(all.take(i as int) =~= all.take(i - 1).push(all[i - 1]));
        assert(views(out@) =~= base + all.take(i as int));
    }
    assert(all.take(i as int) =~= all);
}

/// Where a skill came from and what it brings. `loaded` is what the loader made of it:
/// an invalid skill reports its reason instead of a list of files.
pub fn detail_note(
    registry: &SkillRegistry,
    name: &str,
    loaded: &Result<SkillFiles, String>,
    t: &UiText,
) -> (r: String)
    ensures
        r@ == detail_text(*registry, name@, *loaded, *t),
{
    let i: usize = match registry.get(trim(name).as_str()) {
        Some(i) => i,
        None => {
            return cat5(t.skills_title, " ", name, ": no such skill. ", t.skills_hint);
        },
    };
    let e = &registry.entries[i];
    let mut out: Vec<String> = Vec::new();
    let head = cat5("Skill $", e.name.as_str(), " [", e.scope.as_str(), " · ");
    let suffix = status_suffix(e);
    let origin = cat3(e.source.as_str(), "]", suffix.as_str());
    out.push(cat2(head.as_str(), origin.as_str()));
    match &e.description {
        Some(d) => out.push(cat2("  ", d.as_str())),
        None => {},
    }
    match &e.location {
        Some(l) => out.push(cat4("  ", t.agents_location, ": ", l.as_str())),
        None => out.push(cat3("  ", t.agents_location, ": (built-in)")),
    }
    let ghost top = views(out@);
    push_loaded(&mut out, loaded);
    push_shadows(&mut out, &e.shadowed, t);
    assert(views(out@) =~= detail_rows(*e, *loaded, *t));
    join(&out, "\n")
}

/// The listing names every skill of the registry: it has a row for each of them.
pub proof fn listing_is_complete(registry: SkillRegistry, t: UiText, i: int)
    requires
        0 <= i < registry.entries@.len(),
    ensures
        listing_rows(registry, t)[i + 1] == listed(registry.entries@[i]),
{
}

} // verus!
