//! The full-screen views over the conversation, and the slash commands.

use vstd::prelude::*;

use crate::i18n::{text_of, SlashText, UiText};
use crate::model::views;
use crate::state::AppState;
use crate::strings::{
    begins, cat2, cat4, chars_of, contains, drop_white, find_whitespace, has_char, has_text,
    is_whitespace, lowered, same, skip_set, skip_white, split_whitespace, starts_with, string_of,
    strip_prefix, text_words, to_ascii_lowercase, trim, trim_start_of, trimmed, whitespace,
    word_end,
};
use crate::transcript::{ToolCallBlock, ToolStatus};

verus! {

broadcast use crate::model::group_views;

/// Which screen is active.
#[derive(Clone, Copy, Debug, PartialEq, Eq, Structural)]
pub enum Screen {
    Conversation,
    Tools,
    Plan,
    Diff,
    Verification,
    Sessions,
    Context,
    Agents,
    /// The `/remote` invite: a QR to scan, and the fingerprint to compare.
    Remote,
    /// One user shell execution: status, runtime, command, live output.
    Shell,
    Help,
    /// Durable runtime observatory.
    Trace,
    /// One background process or child agent.
    Activity,
    /// The list of background processes.
    ActivityList,
}

// ---------------------------------------------------------------- the registry

/// Help / popup grouping for slash commands.
#[derive(Clone, Copy, Debug, PartialEq, Eq, Structural)]
pub enum SlashCategory {
    /// Model, permission, collab, goal: how the agent runs.
    Agent,
    /// Screens and inspection.
    View,
    /// History, export, memory, clear.
    Session,
    /// Attachments, skills, paste.
    Input,
    /// Theme, web, remote, help, quit.
    System,
}

/// Whether a command may run while a turn is busy.
#[derive(Clone, Copy, Debug, PartialEq, Eq, Structural)]
pub enum BusyPolicy {
    /// Safe while busy (views, help, quit, most pickers).
    Always,
    /// Axes and destructive session ops: refused with a notice while busy.
    IdleOnly,
}

/// How a command appears in the `/` popup. Help still uses [`SlashDef::listed`].
#[derive(Clone, Copy, Debug, PartialEq, Eq, Structural)]
pub enum SlashVisibility {
    /// Shown on a bare `/`.
    Quick,
    /// Hidden until the user types a matching prefix.
    Searchable,
    /// Never listed, never searchable.
    Internal,
}

/// One slash command: single source of truth for menu, aliases, and busy rules.
#[derive(Debug)]
pub struct SlashDef {
    /// Canonical name with the leading `/` (shown in help, completed by Tab).
    pub name: &'static str,
    /// Alternate tokens with the leading `/`.
    pub aliases: Vec<&'static str>,
    pub category: SlashCategory,
    /// Shown in `/help`. Independent of popup visibility.
    pub listed: bool,
    /// Empty-`/` vs prefix-search vs never.
    pub visibility: SlashVisibility,
    pub busy: BusyPolicy,
}

/// A slash command as contracts speak of it.
pub ghost struct DefV {
    pub name: Seq<char>,
    pub aliases: Seq<Seq<char>>,
    pub category: SlashCategory,
    pub listed: bool,
    pub visibility: SlashVisibility,
    pub busy: BusyPolicy,
}

/// The texts of a list of static strings.
pub open spec fn static_views(v: Seq<&'static str>) -> Seq<Seq<char>> {
    Seq::new(v.len(), |i: int| v[i]@)
}

impl View for SlashDef {
    type V = DefV;

    open spec fn view(&self) -> DefV {
        DefV {
            name: self.name@,
            aliases: static_views(self.aliases@),
            category: self.category,
            listed: self.listed,
            visibility: self.visibility,
            busy: self.busy,
        }
    }
}

/// A command that is listed unless it is internal.
pub open spec fn slash_of(
    name: Seq<char>,
    aliases: Seq<Seq<char>>,
    category: SlashCategory,
    visibility: SlashVisibility,
    busy: BusyPolicy,
) -> DefV {
    DefV { name, aliases, category, listed: !(visibility is Internal), visibility, busy }
}

fn slash(
    name: &'static str,
    aliases: Vec<&'static str>,
    category: SlashCategory,
    visibility: SlashVisibility,
    busy: BusyPolicy,
) -> (r: SlashDef)
    ensures
        r@ == slash_of(name@, static_views(aliases@), category, visibility, busy),
{
    let listed = match visibility {
        SlashVisibility::Internal => false,
        _ => true,
    };
    SlashDef { name, aliases, category, listed, visibility, busy }
}

fn aliases0() -> (r: Vec<&'static str>)
    ensures
        static_views(r@) == Seq::<Seq<char>>::empty(),
{
    let r: Vec<&'static str> = Vec::new();
    assert(static_views(r@) =~= Seq::<Seq<char>>::empty());
    r
}

fn aliases1(a: &'static str) -> (r: Vec<&'static str>)
    ensures
        static_views(r@) == seq![a@],
{
    let mut r: Vec<&'static str> = Vec::new();
    r.push(a);
    assert(static_views(r@) =~= seq![a@]);
    r
}

fn aliases2(a: &'static str, b: &'static str) -> (r: Vec<&'static str>)
    ensures
        static_views(r@) == seq![a@, b@],
{
    let mut r: Vec<&'static str> = Vec::new();
    r.push(a);
    r.push(b);
    assert(static_views(r@) =~= seq![a@, b@]);
    r
}

/// The command at a place of the registry. The order is that of the help screen
/// within each category, and that of completion.
pub open spec fn def_at(i: int) -> DefV {
    if i == 0 {
        slash_of(
            "/model"@,
            Seq::empty(),
            SlashCategory::Agent,
            SlashVisibility::Quick,
            BusyPolicy::Always,
        )
    } else if i == 1 {
        slash_of(
            "/permission"@,
            seq!["/mode"@],
            SlashCategory::Agent,
            SlashVisibility::Quick,
            BusyPolicy::Always,
        )
    } else if i == 2 {
        slash_of(
            "/goal"@,
            Seq::empty(),
            SlashCategory::Agent,
            SlashVisibility::Quick,
            BusyPolicy::Always,
        )
    } else if i == 3 {
        slash_of(
            "/btw"@,
            Seq::empty(),
            SlashCategory::Agent,
            SlashVisibility::Quick,
            BusyPolicy::Always,
        )
    } else if i == 4 {
        slash_of(
            "/recap"@,
            Seq::empty(),
            SlashCategory::Agent,
            SlashVisibility::Quick,
            BusyPolicy::Always,
        )
    } else if i == 5 {
        slash_of(
            "/work-mode"@,
            seq!["/work_mode"@],
            SlashCategory::Agent,
            SlashVisibility::Quick,
            BusyPolicy::IdleOnly,
        )
    } else if i == 6 {
        slash_of(
            "/collab"@,
            Seq::empty(),
            SlashCategory::Agent,
            SlashVisibility::Quick,
            BusyPolicy::IdleOnly,
        )
    } else if i == 7 {
        slash_of(
            "/plan"@,
            Seq::empty(),
            SlashCategory::Agent,
            SlashVisibility::Quick,
            BusyPolicy::IdleOnly,
        )
    } else if i == 8 {
        slash_of(
            "/diff"@,
            Seq::empty(),
            SlashCategory::View,
            SlashVisibility::Quick,
            BusyPolicy::Always,
        )
    } else if i == 9 {
        slash_of(
            "/trace"@,
            Seq::empty(),
            SlashCategory::View,
            SlashVisibility::Searchable,
            BusyPolicy::Always,
        )
    } else if i == 10 {
        slash_of(
            "/tools"@,
            Seq::empty(),
            SlashCategory::View,
            SlashVisibility::Searchable,
            BusyPolicy::Always,
        )
    } else if i == 11 {
        slash_of(
            "/sessions"@,
            Seq::empty(),
            SlashCategory::View,
            SlashVisibility::Searchable,
            BusyPolicy::Always,
        )
    } else if i == 12 {
        slash_of(
            "/memory"@,
            Seq::empty(),
            SlashCategory::Session,
            SlashVisibility::Searchable,
            BusyPolicy::Always,
        )
    } else if i == 13 {
        slash_of(
            "/restore"@,
            seq!["/checkpoint"@, "/rewind"@],
            SlashCategory::Session,
            SlashVisibility::Searchable,
            BusyPolicy::IdleOnly,
        )
    } else if i == 14 {
        slash_of(
            "/fork"@,
            Seq::empty(),
            SlashCategory::Session,
            SlashVisibility::Searchable,
            BusyPolicy::IdleOnly,
        )
    } else if i == 15 {
        slash_of(
            "/compact"@,
            Seq::empty(),
            SlashCategory::Session,
            SlashVisibility::Quick,
            BusyPolicy::IdleOnly,
        )
    } else if i == 16 {
        slash_of(
            "/export"@,
            seq!["/save"@],
            SlashCategory::Session,
            SlashVisibility::Searchable,
            BusyPolicy::Always,
        )
    } else if i == 17 {
        slash_of(
            "/clear"@,
            seq!["/new"@],
            SlashCategory::Session,
            SlashVisibility::Quick,
            BusyPolicy::IdleOnly,
        )
    } else if i == 18 {
        slash_of(
            "/skill"@,
            Seq::empty(),
            SlashCategory::Input,
            SlashVisibility::Quick,
            BusyPolicy::Always,
        )
    } else if i == 19 {
        slash_of(
            "/attach"@,
            seq!["/image"@],
            SlashCategory::Input,
            SlashVisibility::Searchable,
            BusyPolicy::Always,
        )
    } else if i == 20 {
        slash_of(
            "/paste"@,
            Seq::empty(),
            SlashCategory::Input,
            SlashVisibility::Searchable,
            BusyPolicy::Always,
        )
    } else if i == 21 {
        slash_of(
            "/editor"@,
            Seq::empty(),
            SlashCategory::Input,
            SlashVisibility::Searchable,
            BusyPolicy::Always,
        )
    } else if i == 22 {
        slash_of(
            "/theme"@,
            Seq::empty(),
            SlashCategory::System,
            SlashVisibility::Searchable,
            BusyPolicy::Always,
        )
    } else if i == 23 {
        slash_of(
            "/web"@,
            Seq::empty(),
            SlashCategory::System,
            SlashVisibility::Searchable,
            BusyPolicy::Always,
        )
    } else if i == 24 {
        slash_of(
            "/remote"@,
            Seq::empty(),
            SlashCategory::System,
            SlashVisibility::Searchable,
            BusyPolicy::Always,
        )
    } else if i == 25 {
        slash_of(
            "/remote-loc"@,
            Seq::empty(),
            SlashCategory::System,
            SlashVisibility::Searchable,
            BusyPolicy::Always,
        )
    } else if i == 26 {
        slash_of(
            "/doctor"@,
            Seq::empty(),
            SlashCategory::System,
            SlashVisibility::Searchable,
            BusyPolicy::Always,
        )
    } else if i == 27 {
        slash_of(
            "/help"@,
            Seq::empty(),
            SlashCategory::System,
            SlashVisibility::Quick,
            BusyPolicy::Always,
        )
    } else {
        slash_of(
            "/quit"@,
            seq!["/q"@],
            SlashCategory::System,
            SlashVisibility::Searchable,
            BusyPolicy::Always,
        )
    }
}

/// All slash commands.
pub open spec fn registry() -> Seq<DefV> {
    Seq::new(29, |i: int| def_at(i))
}

/// The commands, in registry order.
pub fn slash_defs() -> (r: Vec<SlashDef>)
    ensures
        def_views(r@) == registry(),
{
    let mut r: Vec<SlashDef> = Vec::new();
    r.push(
        slash(
            "/model",
            aliases0(),
            SlashCategory::Agent,
            SlashVisibility::Quick,
            BusyPolicy::Always,
        ),
    );
    r.push(
        slash(
            "/permission",
            aliases1("/mode"),
            SlashCategory::Agent,
            SlashVisibility::Quick,
            BusyPolicy::Always,
        ),
    );
    r.push(
        slash(
            "/goal",
            aliases0(),
            SlashCategory::Agent,
            SlashVisibility::Quick,
            BusyPolicy::Always,
        ),
    );
    r.push(
        slash(
            "/btw",
            aliases0(),
            SlashCategory::Agent,
            SlashVisibility::Quick,
            BusyPolicy::Always,
        ),
    );
    r.push(
        slash(
            "/recap",
            aliases0(),
            SlashCategory::Agent,
            SlashVisibility::Quick,
            BusyPolicy::Always,
        ),
    );
    r.push(
        slash(
            "/work-mode",
            aliases1("/work_mode"),
            SlashCategory::Agent,
            SlashVisibility::Quick,
            BusyPolicy::IdleOnly,
        ),
    );
    r.push(
        slash(
            "/collab",
            aliases0(),
            SlashCategory::Agent,
            SlashVisibility::Quick,
            BusyPolicy::IdleOnly,
        ),
    );
    r.push(
        slash(
            "/plan",
            aliases0(),
            SlashCategory::Agent,
            SlashVisibility::Quick,
            BusyPolicy::IdleOnly,
        ),
    );
    r.push(
        slash(
            "/diff",
            aliases0(),
            SlashCategory::View,
            SlashVisibility::Quick,
            BusyPolicy::Always,
        ),
    );
    r.push(
        slash(
            "/trace",
            aliases0(),
            SlashCategory::View,
            SlashVisibility::Searchable,
            BusyPolicy::Always,
        ),
    );
    r.push(
        slash(
            "/tools",
            aliases0(),
            SlashCategory::View,
            SlashVisibility::Searchable,
            BusyPolicy::Always,
        ),
    );
    r.push(
        slash(
            "/sessions",
            aliases0(),
            SlashCategory::View,
            SlashVisibility::Searchable,
            BusyPolicy::Always,
        ),
    );
    r.push(
        slash(
            "/memory",
            aliases0(),
            SlashCategory::Session,
            SlashVisibility::Searchable,
            BusyPolicy::Always,
        ),
    );
    r.push(
        slash(
            "/restore",
            aliases2("/checkpoint", "/rewind"),
            SlashCategory::Session,
            SlashVisibility::Searchable,
            BusyPolicy::IdleOnly,
        ),
    );
    r.push(
        slash(
            "/fork",
            aliases0(),
            SlashCategory::Session,
            SlashVisibility::Searchable,
            BusyPolicy::IdleOnly,
        ),
    );
    r.push(
        slash(
            "/compact",
            aliases0(),
            SlashCategory::Session,
            SlashVisibility::Quick,
            BusyPolicy::IdleOnly,
        ),
    );
    r.push(
        slash(
            "/export",
            aliases1("/save"),
            SlashCategory::Session,
            SlashVisibility::Searchable,
            BusyPolicy::Always,
        ),
    );
    r.push(
        slash(
            "/clear",
            aliases1("/new"),
            SlashCategory::Session,
            SlashVisibility::Quick,
            BusyPolicy::IdleOnly,
        ),
    );
    r.push(
        slash(
            "/skill",
            aliases0(),
            SlashCategory::Input,
            SlashVisibility::Quick,
            BusyPolicy::Always,
        ),
    );
    r.push(
        slash(
            "/attach",
            aliases1("/image"),
            SlashCategory::Input,
            SlashVisibility::Searchable,
            BusyPolicy::Always,
        ),
    );
    r.push(
        slash(
            "/paste",
            aliases0(),
            SlashCategory::Input,
            SlashVisibility::Searchable,
            BusyPolicy::Always,
        ),
    );
    r.push(
        slash(
            "/editor",
            aliases0(),
            SlashCategory::Input,
            SlashVisibility::Searchable,
            BusyPolicy::Always,
        ),
    );
    r.push(
        slash(
            "/theme",
            aliases0(),
            SlashCategory::System,
            SlashVisibility::Searchable,
            BusyPolicy::Always,
        ),
    );
    r.push(
        slash(
            "/web",
            aliases0(),
            SlashCategory::System,
            SlashVisibility::Searchable,
            BusyPolicy::Always,
        ),
    );
    r.push(
        slash(
            "/remote",
            aliases0(),
            SlashCategory::System,
            SlashVisibility::Searchable,
            BusyPolicy::Always,
        ),
    );
    r.push(
        slash(
            "/remote-loc",
            aliases0(),
            SlashCategory::System,
            SlashVisibility::Searchable,
            BusyPolicy::Always,
        ),
    );
    r.push(
        slash(
            "/doctor",
            aliases0(),
            SlashCategory::System,
            SlashVisibility::Searchable,
            BusyPolicy::Always,
        ),
    );
    r.push(
        slash(
            "/help",
            aliases0(),
            SlashCategory::System,
            SlashVisibility::Quick,
            BusyPolicy::Always,
        ),
    );
    r.push(
        slash(
            "/quit",
            aliases1("/q"),
            SlashCategory::System,
            SlashVisibility::Searchable,
            BusyPolicy::Always,
        ),
    );
    assert(def_views(r@) =~= registry());
    r
}

/// The canonical names, in registry order.
pub const SLASH_NAMES: [&'static str; 29] = [
    "/model",
    "/permission",
    "/goal",
    "/btw",
    "/recap",
    "/work-mode",
    "/collab",
    "/plan",
    "/diff",
    "/trace",
    "/tools",
    "/sessions",
    "/memory",
    "/restore",
    "/fork",
    "/compact",
    "/export",
    "/clear",
    "/skill",
    "/attach",
    "/paste",
    "/editor",
    "/theme",
    "/web",
    "/remote",
    "/remote-loc",
    "/doctor",
    "/help",
    "/quit",
];

/// A number that tells the tokens of the registry apart.
spec fn token_code(s: Seq<char>) -> int {
    let second = if s.len() > 2 {
        s[2] as int
    } else {
        0
    };
    let fifth = if s.len() > 5 {
        s[5] as int
    } else {
        0
    };
    64 * s.len() + s[1] as int + 2 * second + fifth
}

/// The number of the name at a place.
spec fn name_code(i: int) -> int {
    if i == 0 {
        823
    } else if i == 1 {
        1123
    } else if i == 2 {
        645
    } else if i == 3 {
        586
    } else if i == 4 {
        812
    } else if i == 5 {
        1026
    } else if i == 6 {
        866
    } else if i == 7 {
        648
    } else if i == 8 {
        630
    } else if i == 9 {
        829
    } else if i == 10 {
        837
    } else if i == 11 {
        998
    } else if i == 12 {
        873
    } else if i == 13 {
        939
    } else if i == 14 {
        644
    } else if i == 15 {
        930
    } else if i == 16 {
        903
    } else if i == 17 {
        813
    } else if i == 18 {
        821
    } else if i == 19 {
        876
    } else if i == 20 {
        791
    } else if i == 21 {
        860
    } else if i == 22 {
        809
    } else if i == 23 {
        577
    } else if i == 24 {
        880
    } else if i == 25 {
        1136
    } else if i == 26 {
        881
    } else if i == 27 {
        626
    } else {
        667
    }
}

proof fn name_shape(i: int)
    requires
        0 <= i < registry().len(),
    ensures
        registry()[i] == def_at(i),
        def_at(i).name.len() > 1,
        def_at(i).name[0] == '/',
        token_code(def_at(i).name) == name_code(i),
{
    reveal_strlit("/model");
    reveal_strlit("/permission");
    reveal_strlit("/goal");
    reveal_strlit("/btw");
    reveal_strlit("/recap");
    reveal_strlit("/work-mode");
    reveal_strlit("/collab");
    reveal_strlit("/plan");
    reveal_strlit("/diff");
    reveal_strlit("/trace");
    reveal_strlit("/tools");
    reveal_strlit("/sessions");
    reveal_strlit("/memory");
    reveal_strlit("/restore");
    reveal_strlit("/fork");
    reveal_strlit("/compact");
    reveal_strlit("/export");
    reveal_strlit("/clear");
    reveal_strlit("/skill");
    reveal_strlit("/attach");
    reveal_strlit("/paste");
    reveal_strlit("/editor");
    reveal_strlit("/theme");
    reveal_strlit("/web");
    reveal_strlit("/remote");
    reveal_strlit("/remote-loc");
    reveal_strlit("/doctor");
    reveal_strlit("/help");
    reveal_strlit("/quit");
}

proof fn codes_differ(i: int, j: int)
    requires
        0 <= j < i < registry().len(),
    ensures
        name_code(i) != name_code(j),
{
}

proof fn alias_shape(j: int, k: int, i: int)
    requires
        0 <= j < registry().len(),
        0 <= k < def_at(j).aliases.len(),
        0 <= i < registry().len(),
    ensures
        def_at(j).aliases[k] != def_at(i).name,
{
    name_shape(i);
    reveal_strlit("/mode");
    assert(token_code("/mode"@) == 651);
    reveal_strlit("/work_mode");
    assert(token_code("/work_mode"@) == 1076);
    reveal_strlit("/checkpoint");
    assert(token_code("/checkpoint"@) == 1118);
    reveal_strlit("/rewind");
    assert(token_code("/rewind"@) == 874);
    reveal_strlit("/save");
    assert(token_code("/save"@) == 629);
    reveal_strlit("/new");
    assert(token_code("/new"@) == 568);
    reveal_strlit("/image");
    assert(token_code("/image"@) == 808);
    reveal_strlit("/q");
    assert(token_code("/q"@) == 241);
}

/// The canonical names are those of the registry.
pub proof fn names_are_the_registry(i: int)
    requires
        0 <= i < 29,
    ensures
        SLASH_NAMES@[i]@ == registry()[i].name,
{
}

/// The commands held by a list.
pub open spec fn def_views(v: Seq<SlashDef>) -> Seq<DefV> {
    Seq::new(v.len(), |i: int| v[i]@)
}

// ---------------------------------------------------------------- looking up

/// Whether a command goes by the token.
pub open spec fn goes_by(d: DefV, token: Seq<char>) -> bool {
    d.name == token || d.aliases.contains(token)
}

/// The first command from position `i` on that goes by the token.
pub open spec fn find_def(defs: Seq<DefV>, token: Seq<char>, i: int) -> Option<int>
    decreases defs.len() - i,
{
    if i >= defs.len() {
        None
    } else if goes_by(defs[i], token) {
        Some(i)
    } else {
        find_def(defs, token, i + 1)
    }
}

/// The token with a `/` in front.
pub open spec fn keyed(token: Seq<char>) -> Seq<char> {
    if begins(token, "/"@) {
        token
    } else {
        "/"@ + token
    }
}

/// The command that a token names.
pub open spec fn def_named(token: Seq<char>) -> Option<DefV> {
    match find_def(registry(), keyed(token), 0) {
        Some(i) => Some(registry()[i]),
        None => None,
    }
}

/// The canonical name that a token stands for; a bare `/` is help.
pub open spec fn primary(token: Seq<char>) -> Option<Seq<char>> {
    if token.len() == 0 || token == "/"@ {
        Some("/help"@)
    } else {
        match def_named(token) {
            Some(d) => Some(d.name),
            None => None,
        }
    }
}

fn holds_static(v: &Vec<&'static str>, x: &str) -> (r: bool)
    ensures
        r == static_views(v@).contains(x@),
{
    let mut i: usize = 0;
    while i < v.len()
        invariant
            i <= v@.len(),
            forall|k: int| 0 <= k < i ==> static_views(v@)[k] != x@,
        decreases v@.len() - i,
    {
        if same(v[i], x) {
            assert(static_views(v@)[i as int] == x@);
            return true;
        }
        i += 1;
    }
    false
}

fn def_goes_by(d: &SlashDef, token: &str) -> (r: bool)
    ensures
        r == goes_by(d@, token@),
{
    same(d.name, token) || holds_static(&d.aliases, token)
}

fn with_slash(token: &str) -> (r: String)
    ensures
        r@ == keyed(token@),
{
    if starts_with(token, "/") {
        token.to_owned()
    } else {
        cat2("/", token)
    }
}

/// The command that goes by the token, taken out of the registry.
fn take_def(token: &str) -> (r: Option<SlashDef>)
    ensures
        match r {
            Some(d) => find_def(registry(), token@, 0) matches Some(i) && d@ == registry()[i],
            None => find_def(registry(), token@, 0) is None,
        },
{
    let mut defs = slash_defs();
    let mut i: usize = 0;
    while i < defs.len()
        invariant
            def_views(defs@) == registry(),
            i <= defs@.len(),
            find_def(registry(), token@, 0) == find_def(registry(), token@, i as int),
        decreases defs@.len() - i,
    {
        assert(registry()[i as int] == defs@[i as int]@);
        if def_goes_by(&defs[i], token) {
            return Some(defs.remove(i));
        }
        i += 1;
    }
    None
}

/// Whether `name`, without the leading `/`, is a command. The empty name is `/`,
/// which is help.
pub fn is_known_slash_token(name: &str) -> (r: bool)
    ensures
        r == (name@.len() == 0 || find_def(registry(), "/"@ + name@, 0) is Some),
{
    if name.is_empty() {
        return true;
    }
    take_def(cat2("/", name).as_str()).is_some()
}

/// Canonical primary name (with `/`) for a typed token (with or without `/`).
pub fn slash_primary(token: &str) -> (r: Option<&'static str>)
    ensures
        match r {
            Some(name) => primary(token@) == Some(name@),
            None => primary(token@) is None,
        },
{
    // Bare `/` is help.
    if token.is_empty() || same(token, "/") {
        return Some("/help");
    }
    match take_def(with_slash(token).as_str()) {
        Some(d) => Some(d.name),
        None => None,
    }
}

/// The command that a token (with or without `/`) names.
pub fn slash_def(token: &str) -> (r: Option<SlashDef>)
    ensures
        match r {
            Some(d) => def_named(token@) == Some(d@),
            None => def_named(token@) is None,
        },
{
    take_def(with_slash(token).as_str())
}

/// The names and aliases of the first `n` commands.
pub open spec fn tokens_of(defs: Seq<DefV>, n: int) -> Seq<Seq<char>>
    decreases n,
{
    if n <= 0 {
        Seq::empty()
    } else {
        tokens_of(defs, n - 1).push(defs[n - 1].name) + defs[n - 1].aliases
    }
}

/// All tokens (primary + aliases) that parse as local slash commands.
pub fn all_slash_tokens() -> (r: Vec<&'static str>)
    ensures
        static_views(r@) == tokens_of(registry(), registry().len() as int),
{
    let defs = slash_defs();
    let mut out: Vec<&'static str> = Vec::new();
    let mut i: usize = 0;
    assert(static_views(out@) =~= Seq::<Seq<char>>::empty());
    while i < defs.len()
        invariant
            def_views(defs@) == registry(),
            i <= defs@.len(),
            static_views(out@) == tokens_of(registry(), i as int),
        decreases defs@.len() - i,
    {
        let ghost before = static_views(out@);
        assert(registry()[i as int] == defs@[i as int]@);
        out.push(defs[i].name);
        let mut k: usize = 0;
        assert(static_views(out@) =~= before.push(defs@[i as int].name@));
        let ghost head = static_views(out@);
        let ghost more = static_views(defs@[i as int].aliases@);
        assert(head + more.take(0) =~= head);
        while k < defs[i].aliases.len()
            invariant
                i < defs@.len(),
                k <= defs@[i as int].aliases@.len(),
                more == static_views(defs@[i as int].aliases@),
                static_views(out@) == head + more.take(k as int),
            decreases defs@[i as int].aliases@.len() - k,
        {
            let ghost was = static_views(out@);
            out.push(defs[i].aliases[k]);
            assert(static_views(out@) =~= was.push(more[k as int]));
            k += 1;
            assert(more.take(k as int) =~= more.take(k - 1).push(more[k - 1]));
            assert(static_views(out@) =~= head + more.take(k as int));
        }
        assert(more.take(k as int) =~= more);
        i += 1;
    }
    out
}

/// True when `token` (with leading `/`) is a primary name or alias.
pub fn is_exact_slash_token(token: &str) -> (r: bool)
    ensures
        r == tokens_of(registry(), registry().len() as int).contains(token@),
{
    holds_static(&all_slash_tokens(), token)
}

// ---------------------------------------------------------------- copy

/// The wording of a command, by its name or an alias; empty for another token.
pub open spec fn copy_of(name: Seq<char>, s: SlashText) -> Seq<char> {
    if name == "/model"@ {
        s.model@
    } else if name == "/permission"@ || name == "/mode"@ {
        s.permission@
    } else if name == "/goal"@ {
        s.goal@
    } else if name == "/btw"@ {
        s.btw@
    } else if name == "/recap"@ {
        s.recap@
    } else if name == "/work-mode"@ || name == "/work_mode"@ {
        s.work_mode@
    } else if name == "/collab"@ {
        s.collab@
    } else if name == "/plan"@ {
        s.plan_collab@
    } else if name == "/memory"@ {
        s.memory@
    } else if name == "/skill"@ {
        s.skill@
    } else if name == "/feature-dev"@ {
        s.feature_dev@
    } else if name == "/diff"@ {
        s.diff@
    } else if name == "/trace"@ {
        s.trace@
    } else if name == "/tools"@ {
        s.tools@
    } else if name == "/sessions"@ {
        s.sessions@
    } else if name == "/restore"@ || name == "/checkpoint"@ || name == "/rewind"@ {
        s.restore@
    } else if name == "/fork"@ {
        s.fork@
    } else if name == "/compact"@ {
        s.compact@
    } else if name == "/export"@ || name == "/save"@ {
        s.export@
    } else if name == "/web"@ {
        s.web@
    } else if name == "/remote"@ {
        s.remote@
    } else if name == "/remote-loc"@ {
        s.remote_loc@
    } else if name == "/image"@ || name == "/attach"@ {
        s.attach@
    } else if name == "/paste"@ {
        s.paste@
    } else if name == "/editor"@ {
        s.editor@
    } else if name == "/theme"@ {
        s.theme@
    } else if name == "/clear"@ || name == "/new"@ {
        s.clear@
    } else if name == "/doctor"@ {
        s.doctor@
    } else if name == "/help"@ {
        s.help@
    } else if name == "/quit"@ || name == "/q"@ {
        s.quit@
    } else {
        ""@
    }
}

fn slash_copy(name: &str, s: &SlashText) -> (r: &'static str)
    ensures
        r@ == copy_of(name@, *s),
{
    if same(name, "/model") {
        s.model
    } else if same(name, "/permission") || same(name, "/mode") {
        s.permission
    } else if same(name, "/goal") {
        s.goal
    } else if same(name, "/btw") {
        s.btw
    } else if same(name, "/recap") {
        s.recap
    } else if same(name, "/work-mode") || same(name, "/work_mode") {
        s.work_mode
    } else if same(name, "/collab") {
        s.collab
    } else if same(name, "/plan") {
        s.plan_collab
    } else if same(name, "/memory") {
        s.memory
    } else if same(name, "/skill") {
        s.skill
    } else if same(name, "/feature-dev") {
        s.feature_dev
    } else if same(name, "/diff") {
        s.diff
    } else if same(name, "/trace") {
        s.trace
    } else if same(name, "/tools") {
        s.tools
    } else if same(name, "/sessions") {
        s.sessions
    } else if same(name, "/restore") || same(name, "/checkpoint") || same(name, "/rewind") {
        s.restore
    } else if same(name, "/fork") {
        s.fork
    } else if same(name, "/compact") {
        s.compact
    } else if same(name, "/export") || same(name, "/save") {
        s.export
    } else if same(name, "/web") {
        s.web
    } else if same(name, "/remote") {
        s.remote
    } else if same(name, "/remote-loc") {
        s.remote_loc
    } else if same(name, "/image") || same(name, "/attach") {
        s.attach
    } else if same(name, "/paste") {
        s.paste
    } else if same(name, "/editor") {
        s.editor
    } else if same(name, "/theme") {
        s.theme
    } else if same(name, "/clear") || same(name, "/new") {
        s.clear
    } else if same(name, "/doctor") {
        s.doctor
    } else if same(name, "/help") {
        s.help
    } else if same(name, "/quit") || same(name, "/q") {
        s.quit
    } else {
        ""
    }
}

/// The palette's own wording, or the longer one of the help screen.
pub open spec fn description_of(name: Seq<char>, t: UiText) -> Seq<char> {
    copy_of(name, t.slash)
}

pub open spec fn label_of(name: Seq<char>, t: UiText) -> Seq<char> {
    copy_of(name, t.slash_brief)
}

/// What the help screen says of a command.
pub fn slash_description(name: &str, t: &UiText) -> (r: &'static str)
    ensures
        r@ == description_of(name@, *t),
{
    slash_copy(name, &t.slash)
}

/// One-line palette label. Help keeps the longer [`slash_description`].
pub fn slash_popup_label(name: &str, t: &UiText) -> (r: &'static str)
    ensures
        r@ == label_of(name@, *t),
{
    slash_copy(name, &t.slash_brief)
}

/// The texts of a list of pairs of static strings.
pub open spec fn static_pairs(v: Seq<(&'static str, &'static str)>) -> Seq<(Seq<char>, Seq<char>)> {
    Seq::new(v.len(), |i: int| (v[i].0@, v[i].1@))
}

/// The texts of a list of pairs.
pub open spec fn pairs(v: Seq<(String, String)>) -> Seq<(Seq<char>, Seq<char>)> {
    Seq::new(v.len(), |i: int| (v[i].0@, v[i].1@))
}

/// The listed commands among the first `n`, with what help says of them; those of
/// one category where one is given.
pub open spec fn listed_upto(defs: Seq<DefV>, t: UiText, cat: Option<SlashCategory>, n: int) -> Seq<
    (Seq<char>, Seq<char>),
>
    decreases n,
{
    if n <= 0 {
        Seq::empty()
    } else {
        let before = listed_upto(defs, t, cat, n - 1);
        let d = defs[n - 1];
        if d.listed && (cat is None || cat == Some(d.category)) {
            before.push((d.name, description_of(d.name, t)))
        } else {
            before
        }
    }
}

/// The listed commands of a category, or of all.
pub open spec fn listed_of(t: UiText, cat: Option<SlashCategory>) -> Seq<(Seq<char>, Seq<char>)> {
    listed_upto(registry(), t, cat, registry().len() as int)
}

fn listed_commands(t: &UiText, cat: Option<SlashCategory>) -> (r: Vec<
    (&'static str, &'static str),
>)
    ensures
        static_pairs(r@) == listed_of(*t, cat),
{
    let defs = slash_defs();
    let mut out: Vec<(&'static str, &'static str)> = Vec::new();
    let mut i: usize = 0;
    assert(static_pairs(out@) =~= Seq::<(Seq<char>, Seq<char>)>::empty());
    while i < defs.len()
        invariant
            def_views(defs@) == registry(),
            i <= defs@.len(),
            static_pairs(out@) == listed_upto(registry(), *t, cat, i as int),
        decreases defs@.len() - i,
    {
        assert(registry()[i as int] == defs@[i as int]@);
        let ghost before = static_pairs(out@);
        let wanted = match cat {
            None => true,
            Some(c) => defs[i].category == c,
        };
        if defs[i].listed && wanted {
            out.push((defs[i].name, slash_description(defs[i].name, t)));
            assert(static_pairs(out@) =~= before.push(
                (registry()[i as int].name, description_of(registry()[i as int].name, *t)),
            ));
        }
        i += 1;
    }
    out
}

/// Localized listed slash commands for completion and the Help screen.
pub fn slash_commands(t: &UiText) -> (r: Vec<(&'static str, &'static str)>)
    ensures
        static_pairs(r@) == listed_of(*t, None),
{
    listed_commands(t, None)
}

/// The category that stands at a place of the help screen.
pub open spec fn category_at(i: int) -> SlashCategory {
    if i == 0 {
        SlashCategory::Agent
    } else if i == 1 {
        SlashCategory::View
    } else if i == 2 {
        SlashCategory::Session
    } else if i == 3 {
        SlashCategory::Input
    } else {
        SlashCategory::System
    }
}

/// The first `n` categories that have commands, with their commands.
pub open spec fn groups_upto(t: UiText, n: int) -> Seq<
    (SlashCategory, Seq<(Seq<char>, Seq<char>)>),
>
    decreases n,
{
    if n <= 0 {
        Seq::empty()
    } else {
        let before = groups_upto(t, n - 1);
        let items = listed_of(t, Some(category_at(n - 1)));
        if items.len() == 0 {
            before
        } else {
            before.push((category_at(n - 1), items))
        }
    }
}

/// The categories and commands held by a grouped list.
pub open spec fn group_views(v: Seq<(SlashCategory, Vec<(&'static str, &'static str)>)>) -> Seq<
    (SlashCategory, Seq<(Seq<char>, Seq<char>)>),
> {
    Seq::new(v.len(), |i: int| (v[i].0, static_pairs(v[i].1@)))
}

/// Help entries grouped by category (category label applied by the renderer).
pub fn slash_commands_grouped(t: &UiText) -> (r: Vec<
    (SlashCategory, Vec<(&'static str, &'static str)>),
>)
    ensures
        group_views(r@) == groups_upto(*t, 5),
{
    let mut out: Vec<(SlashCategory, Vec<(&'static str, &'static str)>)> = Vec::new();
    let mut i: usize = 0;
    assert(group_views(out@) =~= Seq::<(SlashCategory, Seq<(Seq<char>, Seq<char>)>)>::empty());
    while i < 5
        invariant
            i <= 5,
            group_views(out@) == groups_upto(*t, i as int),
        decreases 5 - i,
    {
        let cat = if i == 0 {
            SlashCategory::Agent
        } else if i == 1 {
            SlashCategory::View
        } else if i == 2 {
            SlashCategory::Session
        } else if i == 3 {
            SlashCategory::Input
        } else {
            SlashCategory::System
        };
        let items = listed_commands(t, Some(cat));
        assert(static_pairs(items@).len() == items@.len());
        if items.len() > 0 {
            let ghost before = group_views(out@);
            out.push((cat, items));
            assert(group_views(out@) =~= before.push((cat, static_pairs(items@))));
        }
        i += 1;
    }
    out
}

pub open spec fn category_text(cat: SlashCategory, t: UiText) -> Seq<char> {
    match cat {
        SlashCategory::Agent => t.help_group_agent@,
        SlashCategory::View => t.help_group_view@,
        SlashCategory::Session => t.help_group_session@,
        SlashCategory::Input => t.help_group_input@,
        SlashCategory::System => t.help_group_system@,
    }
}

pub fn category_label(cat: SlashCategory, t: &UiText) -> (r: &'static str)
    ensures
        r@ == category_text(cat, *t),
{
    match cat {
        SlashCategory::Agent => t.help_group_agent,
        SlashCategory::View => t.help_group_view,
        SlashCategory::Session => t.help_group_session,
        SlashCategory::Input => t.help_group_input,
        SlashCategory::System => t.help_group_system,
    }
}

/// The message that names a skill, with the words that follow it.
pub open spec fn mention(skill: Seq<char>, rest: Seq<char>) -> Seq<char> {
    let name = trimmed(skill).skip(skip_set(trimmed(skill), "$"@, 0));
    if trimmed(rest).len() == 0 {
        "$"@ + name
    } else {
        "$"@ + name + " "@ + trimmed(rest)
    }
}

/// Build a user message that names a skill for turn injection (same path as `$name`).
pub fn skill_mention_message(skill_name: &str, rest: &str) -> (r: String)
    ensures
        r@ == mention(skill_name@, rest@),
{
    let name = trim_start_of(trim(skill_name).as_str(), "$");
    let rest = trim(rest);
    if rest.as_str().is_empty() {
        cat2("$", name.as_str())
    } else {
        cat4("$", name.as_str(), " ", rest.as_str())
    }
}

// ---------------------------------------------------------------- the popup

/// Whether the name or an alias of a command begins with `prefix`.
pub open spec fn prefixed(d: DefV, prefix: Seq<char>) -> bool {
    begins(d.name, prefix) || exists|i: int|
        0 <= i < d.aliases.len() && begins(#[trigger] d.aliases[i], prefix)
}

/// Whether a command belongs in the `/` popup for a typed prefix: an internal one
/// never does, a searchable one not on a bare `/`.
pub open spec fn in_popup(d: DefV, prefix: Seq<char>) -> bool {
    match d.visibility {
        SlashVisibility::Internal => false,
        SlashVisibility::Quick => prefixed(d, prefix),
        SlashVisibility::Searchable => prefix != "/"@ && prefixed(d, prefix),
    }
}

/// Whether `def` belongs in the `/` popup for this typed `prefix`.
pub fn include_in_slash_popup(def: &SlashDef, prefix: &str) -> (r: bool)
    ensures
        r == in_popup(def@, prefix@),
{
    match def.visibility {
        SlashVisibility::Internal => return false,
        SlashVisibility::Searchable => if same(prefix, "/") {
            return false;
        },
        SlashVisibility::Quick => {},
    }
    if starts_with(def.name, prefix) {
        return true;
    }
    let mut i: usize = 0;
    while i < def.aliases.len()
        invariant
            i <= def.aliases@.len(),
            !(def.visibility is Internal),
            def.visibility is Searchable ==> prefix@ != "/"@,
            forall|k: int| 0 <= k < i ==> !begins(#[trigger] def@.aliases[k], prefix@),
        decreases def.aliases@.len() - i,
    {
        if starts_with(def.aliases[i], prefix) {
            assert(begins(def@.aliases[i as int], prefix@));
            return true;
        }
        assert(def@.aliases[i as int] == def.aliases@[i as int]@);
        i += 1;
    }
    false
}

/// The popup rows among the first `n` commands.
pub open spec fn popup_upto(defs: Seq<DefV>, prefix: Seq<char>, t: UiText, n: int) -> Seq<
    (Seq<char>, Seq<char>),
>
    decreases n,
{
    if n <= 0 {
        Seq::empty()
    } else {
        let before = popup_upto(defs, prefix, t, n - 1);
        let d = defs[n - 1];
        if in_popup(d, prefix) {
            before.push((d.name, label_of(d.name, t)))
        } else {
            before
        }
    }
}

/// The popup rows for a typed prefix.
pub open spec fn popup_of(prefix: Seq<char>, t: UiText) -> Seq<(Seq<char>, Seq<char>)> {
    popup_upto(registry(), prefix, t, registry().len() as int)
}

/// Slash commands whose primary name or alias starts with `prefix` (with `/`).
/// Rows always use the **primary** name so Tab completes the canonical form.
/// A bare `/` is the Quick list only; a longer prefix also searches the rest.
pub fn slash_matches(prefix: &str, t: &UiText) -> (r: Vec<(String, String)>)
    ensures
        pairs(r@) == popup_of(prefix@, *t),
{
    let defs = slash_defs();
    let mut out: Vec<(String, String)> = Vec::new();
    let mut i: usize = 0;
    assert(pairs(out@) =~= Seq::<(Seq<char>, Seq<char>)>::empty());
    while i < defs.len()
        invariant
            def_views(defs@) == registry(),
            i <= defs@.len(),
            pairs(out@) == popup_upto(registry(), prefix@, *t, i as int),
        decreases defs@.len() - i,
    {
        assert(registry()[i as int] == defs@[i as int]@);
        let ghost before = pairs(out@);
        if include_in_slash_popup(&defs[i], prefix) {
            out.push((defs[i].name.to_owned(), slash_popup_label(defs[i].name, t).to_owned()));
            assert(pairs(out@) =~= before.push(
                (registry()[i as int].name, label_of(registry()[i as int].name, *t)),
            ));
        }
        i += 1;
    }
    out
}

/// Whether a skill is offered for a typed prefix: never where its `/name` is a
/// command's name or alias. A skill with a popup label of its own stays on the bare
/// `/` list; the others are searchable only.
pub open spec fn skill_offered(name: Seq<char>, prefix: Seq<char>, t: UiText) -> bool {
    let entry = "/"@ + name;
    &&& find_def(registry(), entry, 0) is None
    &&& begins(name, prefix.skip(skip_set(prefix, "/"@, 0))) || begins(entry, prefix)
    &&& prefix != "/"@ || label_of(entry, t).len() != 0
}

/// The label of a skill: the popup's own, else its description, else a word for it.
pub open spec fn skill_label(name: Seq<char>, desc: Seq<char>, t: UiText) -> Seq<char> {
    let own = label_of("/"@ + name, t);
    if own.len() != 0 {
        own
    } else if desc.len() == 0 {
        t.slash.skill_entry@
    } else {
        desc
    }
}

/// The rows of the first `n` skills.
pub open spec fn skill_rows(
    catalog: Seq<(Seq<char>, Seq<char>)>,
    prefix: Seq<char>,
    t: UiText,
    n: int,
) -> Seq<(Seq<char>, Seq<char>)>
    decreases n,
{
    if n <= 0 {
        Seq::empty()
    } else {
        let before = skill_rows(catalog, prefix, t, n - 1);
        let (name, desc) = catalog[n - 1];
        if skill_offered(name, prefix, t) {
            before.push(("/"@ + name, skill_label(name, desc, t)))
        } else {
            before
        }
    }
}

/// Skills that may appear as `/name` (and do not collide with commands).
pub fn skill_slash_matches(state: &AppState, prefix: &str) -> (r: Vec<(String, String)>)
    ensures
        pairs(r@) == skill_rows(
            pairs(state.skill_catalog@),
            prefix@,
            text_of(state.locale),
            state.skill_catalog@.len() as int,
        ),
{
    let prefix_name = trim_start_of(prefix, "/");
    let t = state.t();
    let mut out: Vec<(String, String)> = Vec::new();
    let mut i: usize = 0;
    let bare = same(prefix, "/");
    assert(pairs(out@) =~= Seq::<(Seq<char>, Seq<char>)>::empty());
    while i < state.skill_catalog.len()
        invariant
            t == text_of(state.locale),
            prefix_name@ == prefix@.skip(skip_set(prefix@, "/"@, 0)),
            bare == (prefix@ == "/"@),
            i <= state.skill_catalog@.len(),
            pairs(out@) == skill_rows(pairs(state.skill_catalog@), prefix@, t, i as int),
        decreases state.skill_catalog@.len() - i,
    {
        let name = state.skill_catalog[i].0.as_str();
        let desc = state.skill_catalog[i].1.as_str();
        let entry = cat2("/", name);
        let own = slash_popup_label(entry.as_str(), &t);
        let ghost before = pairs(out@);
        assert(pairs(state.skill_catalog@)[i as int] == (name@, desc@));
        let hidden = take_def(entry.as_str()).is_some();
        if !hidden && (starts_with(name, prefix_name.as_str()) || starts_with(
            entry.as_str(),
            prefix,
        )) && (!bare || !own.is_empty()) {
            let label = if !own.is_empty() {
                own.to_owned()
            } else if desc.is_empty() {
                t.slash.skill_entry.to_owned()
            } else {
                desc.to_owned()
            };
            out.push((entry, label));
            assert(pairs(out@) =~= before.push(("/"@ + name@, skill_label(name@, desc@, t))));
        }
        i += 1;
    }
    out
}

/// The popup for a text of the composer: none unless the text is a single line
/// that begins with `/`, and none once a full command and an argument stand there.
pub open spec fn popup_for(
    text: Seq<char>,
    t: UiText,
    catalog: Seq<(Seq<char>, Seq<char>)>,
    skill_text: UiText,
) -> Seq<(Seq<char>, Seq<char>)> {
    if !begins(text, "/"@) || text.contains('\n') {
        Seq::empty()
    } else {
        let words = text_words(text);
        let token = if words.len() > 0 {
            words[0]
        } else {
            text
        };
        let rows = popup_of(token, t) + skill_rows(
            catalog,
            token,
            skill_text,
            catalog.len() as int,
        );
        if text.contains(' ') && rows.len() <= 1 {
            Seq::empty()
        } else {
            rows
        }
    }
}

/// The completion popup's entries for the composer `text`, or empty when no popup
/// should show. Single source of truth shared by the key handling and the renderer.
/// Discovered skills stand beside the commands as `/skill-name`.
pub fn slash_popup(text: &str, t: &UiText, state: &AppState) -> (r: Vec<(String, String)>)
    ensures
        pairs(r@) == popup_for(text@, *t, pairs(state.skill_catalog@), text_of(state.locale)),
{
    let ghost catalog = pairs(state.skill_catalog@);
    let none: Vec<(String, String)> = Vec::new();
    assert(pairs(none@) =~= Seq::<(Seq<char>, Seq<char>)>::empty());
    if !starts_with(text, "/") || has_char(text, '\n') {
        return none;
    }
    let words = split_whitespace(text);
    let token = if words.len() > 0 {
        assert(views(words@)[0] == words@[0]@);
        words[0].as_str()
    } else {
        text
    };
    let mut matches = slash_matches(token, t);
    let mut skills = skill_slash_matches(state, token);
    let ghost m0 = matches@;
    let ghost s0 = skills@;
    matches.append(&mut skills);
    assert(pairs(matches@) =~= pairs(m0) + pairs(s0));
    // Once a full command + argument is being typed, stop offering the popup.
    if has_char(text, ' ') && matches.len() <= 1 {
        return none;
    }
    matches
}

/// Like [`slash_popup`], but respects a dismissal, so that the menu stays hidden
/// until the composer text changes again.
pub fn visible_slash_popup(state: &AppState) -> (r: Vec<(String, String)>)
    ensures
        pairs(r@) == (if state.slash_popup_dismissed {
            Seq::<(Seq<char>, Seq<char>)>::empty()
        } else {
            popup_for(
                state.composer.text@,
                text_of(state.locale),
                pairs(state.skill_catalog@),
                text_of(state.locale),
            )
        }),
{
    if state.slash_popup_dismissed {
        let none: Vec<(String, String)> = Vec::new();
        assert(pairs(none@) =~= Seq::<(Seq<char>, Seq<char>)>::empty());
        return none;
    }
    slash_popup(state.composer.text.as_str(), &state.t(), state)
}

/// Whether a skill of the catalog has the name, letter case aside.
pub open spec fn in_catalog(catalog: Seq<(String, String)>, name: Seq<char>) -> bool {
    exists|i: int| 0 <= i < catalog.len() && lowered((#[trigger] catalog[i]).0@) == lowered(name)
}

/// Whether `name` (no leading `/`) is a skill that can be invoked as `/name`: one
/// that no command hides.
pub fn is_skill_slash_token(state: &AppState, name: &str) -> (r: bool)
    ensures
        r == (!(name@.len() == 0 || find_def(registry(), "/"@ + name@, 0) is Some) && in_catalog(
            state.skill_catalog@,
            name@,
        )),
{
    if is_known_slash_token(name) {
        return false;
    }
    let low = to_ascii_lowercase(name);
    let mut i: usize = 0;
    while i < state.skill_catalog.len()
        invariant
            low@ == lowered(name@),
            !(name@.len() == 0 || find_def(registry(), "/"@ + name@, 0) is Some),
            i <= state.skill_catalog@.len(),
            forall|k: int|
                0 <= k < i ==> lowered((#[trigger] state.skill_catalog@[k]).0@) != lowered(name@),
        decreases state.skill_catalog@.len() - i,
    {
        let own = to_ascii_lowercase(state.skill_catalog[i].0.as_str());
        if same(own.as_str(), low.as_str()) {
            assert(lowered(state.skill_catalog@[i as int].0@) == lowered(name@));
            return true;
        }
        i += 1;
    }
    false
}

// ---------------------------------------------------------------- file mentions

/// The word that ends at the caret, without the `@` it begins with.
pub open spec fn mention_query(before: Seq<char>) -> Option<Seq<char>> {
    let words = text_words(before);
    if words.len() > 0 && begins(words.last(), "@"@) {
        Some(words.last().skip(1))
    } else {
        None
    }
}

/// Active `@file` query immediately before the composer cursor.
pub fn file_mention_query(state: &AppState) -> (r: Option<String>)
    requires
        state.composer.wf(),
    ensures
        match r {
            Some(q) => mention_query(state.composer.before()) == Some(q@),
            None => mention_query(state.composer.before()) is None,
        },
{
    let before = state.composer.text_before_cursor();
    let words = split_whitespace(before.as_str());
    let n: usize = words.len();
    if n == 0 {
        return None;
    }
    assert(views(words@).last() == words@[n - 1]@);
    proof {
        reveal_strlit("@");
    }
    strip_prefix(words[n - 1].as_str(), "@")
}

/// The bytes of a character in UTF-8.
pub open spec fn utf8_bytes(c: char) -> nat {
    if c as u32 <= 0x7f {
        1
    } else if c as u32 <= 0x7ff {
        2
    } else if c as u32 <= 0xffff {
        3
    } else {
        4
    }
}

/// The bytes of a text in UTF-8.
pub open spec fn byte_len(s: Seq<char>) -> nat
    decreases s.len(),
{
    if s.len() == 0 {
        0
    } else {
        byte_len(s.drop_last()) + utf8_bytes(s.last())
    }
}

/// Whether `path` holds the query, letter case aside.
pub open spec fn file_matches(path: Seq<char>, query: Seq<char>) -> bool {
    has_text(lowered(path), query)
}

/// Whether `a` stands before `b` in the file popup: a path that begins with the
/// query before one that only holds it, then the shorter before the longer.
pub open spec fn stands_before(a: Seq<char>, b: Seq<char>, query: Seq<char>) -> bool {
    let fa = begins(lowered(a), query);
    let fb = begins(lowered(b), query);
    if fa != fb {
        fa
    } else {
        byte_len(lowered(a)) < byte_len(lowered(b))
    }
}

/// The first place from `i` on whose path `x` stands before.
pub open spec fn place_of(list: Seq<Seq<char>>, x: Seq<char>, query: Seq<char>, i: int) -> int
    decreases list.len() - i,
{
    if i >= list.len() {
        list.len() as int
    } else if stands_before(x, list[i], query) {
        i
    } else {
        place_of(list, x, query, i + 1)
    }
}

/// The paths among the first `n` that match, in popup order; equals keep theirs.
pub open spec fn ranked(paths: Seq<Seq<char>>, query: Seq<char>, n: int) -> Seq<Seq<char>>
    decreases n,
{
    if n <= 0 {
        Seq::empty()
    } else {
        let before = ranked(paths, query, n - 1);
        let x = paths[n - 1];
        if file_matches(x, query) {
            before.insert(place_of(before, x, query, 0), x)
        } else {
            before
        }
    }
}

/// At most the first fifty.
pub open spec fn first_fifty(s: Seq<Seq<char>>) -> Seq<Seq<char>> {
    if s.len() > 50 {
        s.take(50)
    } else {
        s
    }
}

proof fn place_bounds(list: Seq<Seq<char>>, x: Seq<char>, query: Seq<char>, i: int)
    requires
        0 <= i <= list.len(),
    ensures
        i <= place_of(list, x, query, i) <= list.len(),
        forall|k: int|
            i <= k < place_of(list, x, query, i) ==> !stands_before(x, #[trigger] list[k], query),
        place_of(list, x, query, i) < list.len() ==> stands_before(
            x,
            list[place_of(list, x, query, i)],
            query,
        ),
    decreases list.len() - i,
{
    if i < list.len() && !stands_before(x, list[i], query) {
        place_bounds(list, x, query, i + 1);
    }
}

proof fn place_in_front(list: Seq<Seq<char>>, x: Seq<char>, query: Seq<char>, i: int)
    requires
        list.len() >= 50,
        0 <= i <= 50,
    ensures
        place_of(list.take(50), x, query, i) == (if place_of(list, x, query, i) > 50 {
            50
        } else {
            place_of(list, x, query, i)
        }),
    decreases 50 - i,
{
    place_bounds(list, x, query, i);
    if i < 50 {
        assert(list.take(50)[i] == list[i]);
        if !stands_before(x, list[i], query) {
            place_in_front(list, x, query, i + 1);
        }
    }
}

/// Keeping only fifty while paths come in keeps what the whole list begins with.
proof fn fifty_is_enough(list: Seq<Seq<char>>, x: Seq<char>, query: Seq<char>)
    ensures
        first_fifty(list.insert(place_of(list, x, query, 0), x)) == first_fifty(
            first_fifty(list).insert(place_of(first_fifty(list), x, query, 0), x),
        ),
{
    let p = place_of(list, x, query, 0);
    place_bounds(list, x, query, 0);
    if list.len() > 50 {
        place_in_front(list, x, query, 0);
        let front = list.take(50);
        let q = place_of(front, x, query, 0);
        place_bounds(front, x, query, 0);
        assert(list.insert(p, x).take(50) =~= front.insert(q, x).take(50));
    }
}

/// No path of the popup stands before one above it, and the popup holds the paths
/// that match, each as often as it was listed.
pub proof fn file_popup_is_ordered(paths: Seq<Seq<char>>, query: Seq<char>, n: int)
    requires
        0 <= n <= paths.len(),
    ensures
        forall|i: int, j: int|
            0 <= i < j < ranked(paths, query, n).len() ==> !stands_before(
                #[trigger] ranked(paths, query, n)[j],
                #[trigger] ranked(paths, query, n)[i],
                query,
            ),
        ranked(paths, query, n).to_multiset() == paths.take(n).filter(
            |p: Seq<char>| file_matches(p, query),
        ).to_multiset(),
    decreases n,
{
    let keep = |p: Seq<char>| file_matches(p, query);
    broadcast use vstd::seq_lib::group_to_multiset_ensures;
    reveal(Seq::filter);
    if n <= 0 {
        assert(paths.take(0) =~= Seq::<Seq<char>>::empty());
        assert(paths.take(0).filter(keep) =~= Seq::<Seq<char>>::empty());
    } else {
        file_popup_is_ordered(paths, query, n - 1);
        let before = ranked(paths, query, n - 1);
        let x = paths[n - 1];
        assert(paths.take(n).drop_last() =~= paths.take(n - 1));
        assert(paths.take(n).last() == x);
        if file_matches(x, query) {
            let p = place_of(before, x, query, 0);
            place_bounds(before, x, query, 0);
            vstd::seq_lib::to_multiset_insert(before, p, x);
            let after = before.insert(p, x);
            assert forall|i: int, j: int| 0 <= i < j < after.len() implies !stands_before(
                #[trigger] after[j],
                #[trigger] after[i],
                query,
            ) by {
                if i < p && j > p {
                    assert(after[i] == before[i]);
                    assert(after[j] == before[j - 1]);
                } else if i == p {
                    assert(after[j] == before[j - 1]);
                    assert(p < before.len());
                    if p < j - 1 {
                        assert(!stands_before(before[j - 1], before[p], query));
                    }
                } else if j == p {
                    assert(after[i] == before[i]);
                } else if i > p {
                    assert(after[i] == before[i - 1]);
                    assert(after[j] == before[j - 1]);
                }
            }
        }
    }
}

/// Whether neither of two paths stands before the other.
pub open spec fn ties(a: Seq<char>, b: Seq<char>, query: Seq<char>) -> bool {
    !stands_before(a, b, query) && !stands_before(b, a, query)
}

proof fn filter_of_none(s: Seq<Seq<char>>, keep: spec_fn(Seq<char>) -> bool)
    requires
        forall|k: int| 0 <= k < s.len() ==> !keep(#[trigger] s[k]),
    ensures
        s.filter(keep) == Seq::<Seq<char>>::empty(),
    decreases s.len(),
{
    reveal(Seq::filter);
    if s.len() > 0 {
        assert forall|k: int| 0 <= k < s.drop_last().len() implies !keep(
            #[trigger] s.drop_last()[k],
        ) by {
            assert(s.drop_last()[k] == s[k]);
        }
        filter_of_none(s.drop_last(), keep);
        assert(!keep(s[s.len() - 1]));
    }
}

/// Paths that tie stand in the popup in the order in which they were listed: those that
/// tie with `x` are, in the popup, the matching ones of the list that do.
pub proof fn tied_files_keep_their_order(
    paths: Seq<Seq<char>>,
    query: Seq<char>,
    n: int,
    x: Seq<char>,
)
    requires
        0 <= n <= paths.len(),
    ensures
        ranked(paths, query, n).filter(|p: Seq<char>| ties(p, x, query)) == paths.take(n).filter(
            |p: Seq<char>| file_matches(p, query) && ties(p, x, query),
        ),
    decreases n,
{
    let tied = |p: Seq<char>| ties(p, x, query);
    let both = |p: Seq<char>| file_matches(p, query) && ties(p, x, query);
    reveal(Seq::filter);
    if n <= 0 {
        assert(paths.take(0) =~= Seq::<Seq<char>>::empty());
    } else {
        tied_files_keep_their_order(paths, query, n - 1, x);
        file_popup_is_ordered(paths, query, n - 1);
        let before = ranked(paths, query, n - 1);
        let y = paths[n - 1];
        assert(paths.take(n).drop_last() =~= paths.take(n - 1));
        assert(paths.take(n).last() == y);
        if file_matches(y, query) {
            let p = place_of(before, y, query, 0);
            place_bounds(before, y, query, 0);
            let front = before.take(p);
            let back = before.skip(p);
            assert(before =~= front + back);
            assert(before.insert(p, y) =~= front.push(y) + back);
            Seq::filter_distributes_over_add(front, back, tied);
            Seq::filter_distributes_over_add(front.push(y), back, tied);
            assert(front.push(y).drop_last() =~= front);
            if tied(y) {
                assert forall|k: int| 0 <= k < back.len() implies !tied(#[trigger] back[k]) by {
                    assert(back[k] == before[p + k]);
                    assert(stands_before(y, before[p], query));
                    if k > 0 {
                        assert(!stands_before(before[p + k], before[p], query));
                    }
                }
                filter_of_none(back, tied);
                assert(before.filter(tied) =~= front.filter(tied));
                assert(before.insert(p, y).filter(tied) =~= before.filter(tied).push(y));
            } else {
                assert(before.insert(p, y).filter(tied) =~= before.filter(tied));
            }
        }
    }
}

fn utf8_len(v: &Vec<char>) -> (r: u128)
    ensures
        r == byte_len(v@),
{
    let mut n: u128 = 0;
    let mut i: usize = 0;
    assert(v@.take(0) =~= Seq::<char>::empty());
    while i < v.len()
        invariant
            i <= v@.len(),
            n == byte_len(v@.take(i as int)),
            n <= 4 * i,
        decreases v@.len() - i,
    {
        let c: u32 = v[i] as u32;
        n = n + (if c <= 0x7f {
            1u128
        } else if c <= 0x7ff {
            2
        } else if c <= 0xffff {
            3
        } else {
            4
        });
        i += 1;
        assert(v@.take(i as int).drop_last() =~= v@.take(i - 1));
    }
    assert(v@.take(i as int) =~= v@);
    n
}

fn comes_before(a: &str, b: &str, q: &str) -> (r: bool)
    ensures
        r == stands_before(a@, b@, q@),
{
    let la = to_ascii_lowercase(a);
    let lb = to_ascii_lowercase(b);
    let fa = starts_with(la.as_str(), q);
    let fb = starts_with(lb.as_str(), q);
    if fa != fb {
        fa
    } else {
        utf8_len(&chars_of(la.as_str())) < utf8_len(&chars_of(lb.as_str()))
    }
}

/// The paths that a mention searches: the repository's, or those of the context
/// while the repository has none.
pub open spec fn file_source(s: AppState) -> Seq<Seq<char>> {
    if s.file_candidates@.len() == 0 {
        views(s.context_files@)
    } else {
        views(s.file_candidates@)
    }
}

/// The paths that match the query, in popup order, fifty at most.
pub fn rank_files(source: &Vec<String>, query: &str) -> (r: Vec<String>)
    ensures
        views(r@) == first_fifty(ranked(views(source@), query@, source@.len() as int)),
{
    let mut out: Vec<String> = Vec::new();
    let mut i: usize = 0;
    let ghost paths = views(source@);
    assert(views(out@) =~= Seq::<Seq<char>>::empty());
    while i < source.len()
        invariant
            paths == views(source@),
            i <= source@.len(),
            out@.len() <= 50,
            views(out@) == first_fifty(ranked(paths, query@, i as int)),
        decreases source@.len() - i,
    {
        let ghost all = ranked(paths, query@, i as int);
        let path = source[i].as_str();
        assert(paths[i as int] == path@);
        let low = to_ascii_lowercase(path);
        if contains(low.as_str(), query) {
            let mut p: usize = 0;
            let ghost list = views(out@);
            while p < out.len() && !comes_before(path, out[p].as_str(), query)
                invariant
                    list == views(out@),
                    p <= out@.len(),
                    place_of(list, path@, query@, 0) == place_of(list, path@, query@, p as int),
                decreases out@.len() - p,
            {
                p += 1;
            }
            let ghost o0 = out@;
            out.insert(p, path.to_owned());
            assert(views(out@) =~= list.insert(p as int, path@));
            proof {
                fifty_is_enough(all, path@, query@);
            }
            if out.len() > 50 {
                let ghost o1 = out@;
                out.truncate(50);
                assert(views(out@) =~= views(o1).take(50));
            }
        }
        i += 1;
    }
    out
}

/// Filter repository paths for the active `@file` mention.
pub fn visible_file_popup(state: &AppState) -> (r: Vec<String>)
    requires
        state.composer.wf(),
    ensures
        views(r@) == (match mention_query(state.composer.before()) {
            Some(q) => if state.slash_popup_dismissed {
                Seq::<Seq<char>>::empty()
            } else {
                first_fifty(
                    ranked(file_source(*state), lowered(q), file_source(*state).len() as int),
                )
            },
            None => Seq::<Seq<char>>::empty(),
        }),
{
    let none: Vec<String> = Vec::new();
    assert(views(none@) =~= Seq::<Seq<char>>::empty());
    if state.slash_popup_dismissed {
        return none;
    }
    let query = match file_mention_query(state) {
        Some(q) => to_ascii_lowercase(q.as_str()),
        None => {
            return none;
        },
    };
    if state.file_candidates.len() == 0 {
        rank_files(&state.context_files, query.as_str())
    } else {
        rank_files(&state.file_candidates, query.as_str())
    }
}

// ---------------------------------------------------------------- argument hints

/// The hint of a command that needs an argument: as it follows a space, and as it
/// follows the command's name.
pub open spec fn ghost_of(name: Seq<char>, t: UiText) -> Option<(Seq<char>, Seq<char>)> {
    let g = t.slash_ghost;
    if name == "/btw"@ {
        Some((g.btw@, g.btw_spaced@))
    } else if name == "/goal"@ {
        Some((g.goal@, g.goal_spaced@))
    } else if name == "/skill"@ {
        Some((g.skill@, g.skill_spaced@))
    } else if name == "/attach"@ {
        Some((g.path@, g.path_spaced@))
    } else {
        None
    }
}

/// The hint drawn after a text: none unless the text is a known command that
/// needs an argument, with nothing but white space behind it.
pub open spec fn ghost_for(text: Seq<char>, t: UiText) -> Option<Seq<char>> {
    let e = word_end(text, 0);
    if text.len() == 0 || !begins(text, "/"@) || text.contains('\n') {
        None
    } else if e < text.len() && trimmed(text.skip(e + 1)).len() != 0 {
        None
    } else {
        match primary(text.take(e)) {
            None => None,
            Some(name) => match ghost_of(name, t) {
                None => None,
                Some((bare, spaced)) => if whitespace(text.last()) {
                    Some(bare)
                } else {
                    Some(spaced)
                },
            },
        }
    }
}

/// Ghost argument hint drawn after the cursor (not inserted into the buffer).
/// Shown only when the composer is exactly a known command that needs an
/// argument (optional trailing spaces).
///
/// With a leading space when the buffer has none yet (`/btw` → ` <问题>`), or just
/// the placeholder when a space is already present (`/btw ` → `<问题>`).
pub fn slash_arg_ghost(text: &str, t: &UiText) -> (r: Option<&'static str>)
    ensures
        match r {
            Some(g) => ghost_for(text@, *t) == Some(g@),
            None => ghost_for(text@, *t) is None,
        },
{
    if text.is_empty() || !starts_with(text, "/") || has_char(text, '\n') {
        return None;
    }
    let v = chars_of(text);
    let n: usize = v.len();
    let e: usize = find_whitespace(&v, 0);
    let cmd = string_of(&v, 0, e);
    assert(cmd@ =~= text@.take(e as int));
    // Any non-space content after the command name means the user started the arg.
    if e < n {
        let rest = string_of(&v, e + 1, n);
        assert(rest@ =~= text@.skip(e + 1));
        if !trim(rest.as_str()).as_str().is_empty() {
            return None;
        }
    }
    // Accept primary or alias; the hint is that of the canonical primary.
    let name = match slash_primary(cmd.as_str()) {
        Some(name) => name,
        None => {
            return None;
        },
    };
    let g = &t.slash_ghost;
    let (bare, spaced) = if same(name, "/btw") {
        (g.btw, g.btw_spaced)
    } else if same(name, "/goal") {
        (g.goal, g.goal_spaced)
    } else if same(name, "/skill") {
        (g.skill, g.skill_spaced)
    } else if same(name, "/attach") {
        (g.path, g.path_spaced)
    } else {
        return None;
    };
    if is_whitespace(v[n - 1]) {
        Some(bare)
    } else {
        Some(spaced)
    }
}

// ---------------------------------------------------------------- the Tools screen

/// Filters for the Tools screen.
#[derive(Clone, Copy, Debug, PartialEq, Eq, Structural)]
pub enum ToolFilter {
    All,
    Read,
    Write,
    Shell,
    Failed,
}

/// What a tool does, coarsely.
#[derive(Clone, Copy, Debug, PartialEq, Eq, Structural)]
pub enum Category {
    Read,
    Write,
    Shell,
    Other,
}

/// Whether a name in lower case speaks of reading.
pub open spec fn reads(n: Seq<char>) -> bool {
    has_text(n, "read"@) || has_text(n, "grep"@) || has_text(n, "search"@) || has_text(n, "find"@)
        || has_text(n, "list"@) || has_text(n, "symbol"@)
}

/// Whether a name in lower case speaks of writing.
pub open spec fn writes(n: Seq<char>) -> bool {
    has_text(n, "write"@) || has_text(n, "patch"@) || has_text(n, "edit"@) || has_text(n, "apply"@)
        || has_text(n, "create"@) || has_text(n, "delete"@)
}

/// The category of a tool by its name.
pub open spec fn category_of(name: Seq<char>) -> Category {
    let n = lowered(name);
    if n == "run_command"@ {
        Category::Shell
    } else if reads(n) {
        Category::Read
    } else if writes(n) {
        Category::Write
    } else {
        Category::Other
    }
}

/// Classify a tool by name into a coarse category for filtering. The names looked
/// for are plain ASCII, so only ASCII letters need folding.
pub fn tool_category(name: &str) -> (r: Category)
    ensures
        r == category_of(name@),
{
    let low = to_ascii_lowercase(name);
    let n = low.as_str();
    if same(n, "run_command") {
        Category::Shell
    } else if contains(n, "read") || contains(n, "grep") || contains(n, "search") || contains(
        n,
        "find",
    ) || contains(n, "list") || contains(n, "symbol") {
        Category::Read
    } else if contains(n, "write") || contains(n, "patch") || contains(n, "edit") || contains(
        n,
        "apply",
    ) || contains(n, "create") || contains(n, "delete") {
        Category::Write
    } else {
        Category::Other
    }
}

/// The filter that Tab leads to.
pub open spec fn next_filter(f: ToolFilter) -> ToolFilter {
    match f {
        ToolFilter::All => ToolFilter::Read,
        ToolFilter::Read => ToolFilter::Write,
        ToolFilter::Write => ToolFilter::Shell,
        ToolFilter::Shell => ToolFilter::Failed,
        ToolFilter::Failed => ToolFilter::All,
    }
}

pub open spec fn filter_label(f: ToolFilter) -> Seq<char> {
    match f {
        ToolFilter::All => "全部"@,
        ToolFilter::Read => "读取"@,
        ToolFilter::Write => "写入"@,
        ToolFilter::Shell => "Shell"@,
        ToolFilter::Failed => "需调整"@,
    }
}

/// Whether a call passes a filter.
pub open spec fn passes(f: ToolFilter, block: ToolCallBlock) -> bool {
    match f {
        ToolFilter::All => true,
        ToolFilter::Failed => block.status == ToolStatus::Failed,
        ToolFilter::Read => category_of(block.name@) == Category::Read,
        ToolFilter::Write => category_of(block.name@) == Category::Write,
        ToolFilter::Shell => category_of(block.name@) == Category::Shell,
    }
}

impl ToolFilter {
    /// Cycle to the next filter (Tab on the Tools screen).
    pub fn next(self) -> (r: ToolFilter)
        ensures
            r == next_filter(self),
    {
        match self {
            ToolFilter::All => ToolFilter::Read,
            ToolFilter::Read => ToolFilter::Write,
            ToolFilter::Write => ToolFilter::Shell,
            ToolFilter::Shell => ToolFilter::Failed,
            ToolFilter::Failed => ToolFilter::All,
        }
    }

    pub fn label(self) -> (r: &'static str)
        ensures
            r@ == filter_label(self),
    {
        match self {
            ToolFilter::All => "全部",
            ToolFilter::Read => "读取",
            ToolFilter::Write => "写入",
            ToolFilter::Shell => "Shell",
            ToolFilter::Failed => "需调整",
        }
    }

    /// Whether a tool block passes this filter.
    pub fn matches(self, block: &ToolCallBlock) -> (r: bool)
        ensures
            r == passes(self, *block),
    {
        match self {
            ToolFilter::All => true,
            ToolFilter::Failed => block.status == ToolStatus::Failed,
            ToolFilter::Read => tool_category(block.name.as_str()) == Category::Read,
            ToolFilter::Write => tool_category(block.name.as_str()) == Category::Write,
            ToolFilter::Shell => tool_category(block.name.as_str()) == Category::Shell,
        }
    }
}

/// Tools screen navigation state: which row is selected and the active filter.
#[derive(Clone, Copy, Debug, PartialEq, Eq, Structural)]
pub struct ToolsScreenState {
    pub selected: usize,
    pub filter: ToolFilter,
}

impl ToolsScreenState {
    pub fn move_up(&mut self)
        ensures
            final(self).filter == old(self).filter,
            final(self).selected == (if old(self).selected > 0 {
                old(self).selected - 1
            } else {
                0
            }),
    {
        self.selected = self.selected.saturating_sub(1);
    }

    pub fn move_down(&mut self, len: usize)
        ensures
            final(self).filter == old(self).filter,
            final(self).selected == (if old(self).selected + 1 < len {
                old(self).selected + 1
            } else {
                old(self).selected as int
            }),
    {
        if len > 0 && self.selected < len - 1 {
            self.selected += 1;
        }
    }

    pub fn cycle_filter(&mut self)
        ensures
            *final(self) == (ToolsScreenState {
                selected: 0,
                filter: next_filter(old(self).filter),
            }),
    {
        self.filter = self.filter.next();
        self.selected = 0;
    }
}

// ---------------------------------------------------------------- laws

/// Five steps of Tab lead back to the filter they started from, and no fewer do.
pub proof fn tool_filter_cycle_is_complete(f: ToolFilter)
    ensures
        next_filter(next_filter(next_filter(next_filter(next_filter(f))))) == f,
        next_filter(f) != f,
        next_filter(next_filter(f)) != f,
        next_filter(next_filter(next_filter(f))) != f,
        next_filter(next_filter(next_filter(next_filter(f)))) != f,
{
}

/// A bare `/` offers quick commands only, and an internal command is never
/// offered, whatever is typed.
pub proof fn popup_visibility(d: DefV, prefix: Seq<char>)
    ensures
        in_popup(d, "/"@) ==> d.visibility is Quick,
        d.visibility is Internal ==> !in_popup(d, prefix),
{
}

/// A token that a name or an alias spells names a command, and every token that
/// names a command is one of these.
pub proof fn exact_tokens_are_known(token: Seq<char>)
    ensures
        tokens_of(registry(), registry().len() as int).contains(token) <==> find_def(
            registry(),
            token,
            0,
        ) is Some,
{
    find_def_finds(registry(), token, 0);
    tokens_hold(registry(), token, registry().len() as int);
}

proof fn find_def_finds(defs: Seq<DefV>, token: Seq<char>, i: int)
    requires
        0 <= i <= defs.len(),
    ensures
        find_def(defs, token, i) is Some <==> exists|k: int|
            i <= k < defs.len() && goes_by(#[trigger] defs[k], token),
        find_def(defs, token, i) matches Some(k) ==> i <= k < defs.len() && goes_by(defs[k], token)
            && forall|j: int| i <= j < k ==> !goes_by(#[trigger] defs[j], token),
    decreases defs.len() - i,
{
    if i < defs.len() && !goes_by(defs[i], token) {
        find_def_finds(defs, token, i + 1);
    }
}

proof fn tokens_hold(defs: Seq<DefV>, token: Seq<char>, n: int)
    requires
        0 <= n <= defs.len(),
    ensures
        tokens_of(defs, n).contains(token) <==> exists|k: int|
            0 <= k < n && goes_by(#[trigger] defs[k], token),
    decreases n,
{
    if n > 0 {
        tokens_hold(defs, token, n - 1);
        let before = tokens_of(defs, n - 1);
        let d = defs[n - 1];
        let head = before.push(d.name);
        let all = head + d.aliases;
        if before.contains(token) {
            let k = choose|k: int| 0 <= k < before.len() && before[k] == token;
            assert(all[k] == token);
        }
        if d.name == token {
            assert(all[before.len() as int] == token);
        }
        if d.aliases.contains(token) {
            let k = choose|k: int| 0 <= k < d.aliases.len() && d.aliases[k] == token;
            assert(all[head.len() + k] == token);
        }
        if all.contains(token) {
            let k = choose|k: int| 0 <= k < all.len() && all[k] == token;
            if k < before.len() {
                assert(before[k] == token);
            } else if k > before.len() {
                assert(d.aliases[k - head.len()] == token);
            }
            assert(before.contains(token) || goes_by(d, token));
        }
    }
}

/// Completing a command completes to a name that completes to itself: the primary
/// name of a primary name is that name.
pub proof fn slash_primary_is_stable(token: Seq<char>)
    ensures
        primary(token) matches Some(name) ==> primary(name) == Some(name),
{
    reveal_strlit("/");
    if primary(token) is Some {
        let name = primary(token)->0;
        if token.len() == 0 || token == "/"@ {
            names_begin_with_a_slash(27);
            name_finds_itself(27);
        } else {
            find_def_finds(registry(), keyed(token), 0);
            let i = find_def(registry(), keyed(token), 0)->0;
            names_begin_with_a_slash(i);
            name_finds_itself(i);
        }
    }
}

proof fn names_begin_with_a_slash(i: int)
    requires
        0 <= i < registry().len(),
    ensures
        keyed(registry()[i].name) == registry()[i].name,
        registry()[i].name.len() > 1,
{
    reveal_strlit("/");
    name_shape(i);
    assert(registry()[i].name.subrange(0, 1) =~= "/"@);
}

proof fn name_finds_itself(i: int)
    requires
        0 <= i < registry().len(),
    ensures
        find_def(registry(), registry()[i].name, 0) == Some(i),
{
    let name = registry()[i].name;
    assert forall|j: int| 0 <= j < i implies !goes_by(#[trigger] registry()[j], name) by {
        name_shape(i);
        name_shape(j);
        codes_differ(i, j);
        if def_at(j).aliases.contains(name) {
            let k = choose|k: int|
                0 <= k < def_at(j).aliases.len() && def_at(j).aliases[k] == name;
            alias_shape(j, k, i);
        }
    }
    assert(goes_by(registry()[i], name));
    find_def_finds(registry(), name, 0);
    let r = find_def(registry(), name, 0)->0;
    if r > i {
        assert(!goes_by(registry()[i], name));
    }
}

/// No skill row hides a command: what stands in it is neither a command's name nor an
/// alias.
pub proof fn skills_do_not_collide(
    catalog: Seq<(Seq<char>, Seq<char>)>,
    prefix: Seq<char>,
    t: UiText,
    n: int,
    i: int,
)
    requires
        0 <= n <= catalog.len(),
        0 <= i < skill_rows(catalog, prefix, t, n).len(),
    ensures
        !tokens_of(registry(), registry().len() as int).contains(
            skill_rows(catalog, prefix, t, n)[i].0,
        ),
    decreases n,
{
    if n > 0 {
        let before = skill_rows(catalog, prefix, t, n - 1);
        if i < before.len() {
            skills_do_not_collide(catalog, prefix, t, n - 1, i);
        } else {
            exact_tokens_are_known("/"@ + catalog[n - 1].0);
        }
    }
}

/// The names of commands hold no white space.
proof fn names_are_words(i: int)
    requires
        0 <= i < registry().len(),
    ensures
        forall|k: int|
            0 <= k < registry()[i].name.len() ==> !whitespace(#[trigger] registry()[i].name[k]),
{
    name_shape(i);
    reveal_strlit("/model");
    reveal_strlit("/permission");
    reveal_strlit("/goal");
    reveal_strlit("/btw");
    reveal_strlit("/recap");
    reveal_strlit("/work-mode");
    reveal_strlit("/collab");
    reveal_strlit("/plan");
    reveal_strlit("/diff");
    reveal_strlit("/trace");
    reveal_strlit("/tools");
    reveal_strlit("/sessions");
    reveal_strlit("/memory");
    reveal_strlit("/restore");
    reveal_strlit("/fork");
    reveal_strlit("/compact");
    reveal_strlit("/export");
    reveal_strlit("/clear");
    reveal_strlit("/skill");
    reveal_strlit("/attach");
    reveal_strlit("/paste");
    reveal_strlit("/editor");
    reveal_strlit("/theme");
    reveal_strlit("/web");
    reveal_strlit("/remote");
    reveal_strlit("/remote-loc");
    reveal_strlit("/doctor");
    reveal_strlit("/help");
    reveal_strlit("/quit");
}

proof fn word_ends(s: Seq<char>, i: int)
    requires
        0 <= i <= s.len(),
    ensures
        i <= word_end(s, i) <= s.len(),
        forall|k: int| i <= k < word_end(s, i) ==> !whitespace(#[trigger] s[k]),
        word_end(s, i) < s.len() ==> whitespace(s[word_end(s, i)]),
    decreases s.len() - i,
{
    if i < s.len() && !whitespace(s[i]) {
        word_ends(s, i + 1);
    }
}

proof fn word_ends_here(s: Seq<char>, i: int, e: int)
    requires
        0 <= i <= e <= s.len(),
        forall|k: int| i <= k < e ==> !whitespace(#[trigger] s[k]),
        e < s.len() ==> whitespace(s[e]),
    ensures
        word_end(s, i) == e,
    decreases e - i,
{
    if i < e {
        word_ends_here(s, i + 1, e);
    }
}

proof fn primary_is_a_name(token: Seq<char>)
    ensures
        primary(token) matches Some(name) ==> exists|i: int|
            0 <= i < registry().len() && name == (#[trigger] registry()[i]).name,
{
    if primary(token) is Some {
        if token.len() == 0 || token == "/"@ {
            assert(registry()[27].name == "/help"@);
        } else {
            find_def_finds(registry(), keyed(token), 0);
            let i = find_def(registry(), keyed(token), 0)->0;
            assert(registry()[i].name == primary(token)->0);
        }
    }
}

proof fn blank_is_all_white(s: Seq<char>)
    ensures
        trimmed(s).len() == 0 <==> forall|k: int| 0 <= k < s.len() ==> whitespace(#[trigger] s[k]),
{
    all_white_is_skipped(s, 0);
    all_white_is_dropped(s, s.len() as int);
}

proof fn all_white_is_skipped(s: Seq<char>, i: int)
    requires
        0 <= i <= s.len(),
    ensures
        i <= skip_white(s, i) <= s.len(),
        skip_white(s, i) < s.len() ==> !whitespace(s[skip_white(s, i)]),
        forall|k: int| i <= k < skip_white(s, i) ==> whitespace(#[trigger] s[k]),
    decreases s.len() - i,
{
    if i < s.len() && whitespace(s[i]) {
        all_white_is_skipped(s, i + 1);
    }
}

proof fn all_white_is_dropped(s: Seq<char>, j: int)
    requires
        0 <= j <= s.len(),
    ensures
        0 <= drop_white(s, j) <= j,
        drop_white(s, j) > 0 ==> !whitespace(s[drop_white(s, j) - 1]),
        forall|k: int| drop_white(s, j) <= k < j ==> whitespace(#[trigger] s[k]),
    decreases j,
{
    if j > 0 && whitespace(s[j - 1]) {
        all_white_is_dropped(s, j - 1);
    }
}

/// An argument hint is shown for exactly the single lines that begin with `/`, hold
/// nothing but white space after their first word, and whose first word stands for a
/// command that takes an argument.
pub proof fn hint_is_shown(text: Seq<char>, t: UiText)
    ensures
        ghost_for(text, t) is Some <==> {
            &&& begins(text, "/"@)
            &&& !text.contains('\n')
            &&& forall|k: int|
                word_end(text, 0) <= k < text.len() ==> whitespace(#[trigger] text[k])
            &&& primary(text.take(word_end(text, 0))) matches Some(name) && (name == "/btw"@ || name
                == "/goal"@ || name == "/skill"@ || name == "/attach"@)
        },
{
    reveal_strlit("/");
    let e = word_end(text, 0);
    word_ends(text, 0);
    if e < text.len() {
        let rest = text.skip(e + 1);
        blank_is_all_white(rest);
        if trimmed(rest).len() == 0 {
            assert forall|k: int| e <= k < text.len() implies whitespace(#[trigger] text[k]) by {
                if k > e {
                    assert(rest[k - e - 1] == text[k]);
                }
            }
        } else {
            let k = choose|k: int| 0 <= k < rest.len() && !whitespace(#[trigger] rest[k]);
            assert(rest[k] == text[e + 1 + k]);
        }
    }
}

/// A command's alias gets the hint of its name: putting the primary name in place of
/// the first word leaves the hint as it was.
pub proof fn alias_keeps_the_hint(text: Seq<char>, t: UiText)
    requires
        begins(text, "/"@),
    ensures
        primary(text.take(word_end(text, 0))) matches Some(name) ==> ghost_for(
            name + text.skip(word_end(text, 0)),
            t,
        ) == ghost_for(text, t),
{
    reveal_strlit("/");
    let e = word_end(text, 0);
    word_ends(text, 0);
    let word = text.take(e);
    if primary(word) is Some {
        let name = primary(word)->0;
        primary_is_a_name(word);
        let i = choose|i: int|
            0 <= i < registry().len() && name == (#[trigger] registry()[i]).name;
        name_shape(i);
        names_are_words(i);
        slash_primary_is_stable(word);
        let n = name.len() as int;
        let other = name + text.skip(e);
        assert forall|k: int| 0 <= k < n implies !whitespace(#[trigger] other[k]) by {
            assert(other[k] == registry()[i].name[k]);
        }
        if n < other.len() {
            assert(other[n] == text[e]);
        }
        word_ends_here(other, 0, n);
        assert(other.take(n) =~= name);
        assert(other.subrange(0, 1) =~= "/"@);
        assert(begins(other, "/"@));
        if e < text.len() {
            assert(other.skip(n + 1) =~= text.skip(e + 1));
            assert(other.last() == text.last());
        } else {
            assert(other =~= name);
            assert(other.last() == registry()[i].name[n - 1]);
            assert(text.last() == text[e - 1]);
        }
        if text.contains('\n') {
            let k = choose|k: int| 0 <= k < text.len() && text[k] == '\n';
            assert(other[k - e + n] == '\n');
        }
        if other.contains('\n') {
            let k = choose|k: int| 0 <= k < other.len() && other[k] == '\n';
            if k < n {
                assert(!whitespace(other[k]));
            }
            assert(text[k - n + e] == '\n');
        }
    }
}

} // verus!
