//! The active theme id in the user-level config.
//!
//! `[ui] theme = "…"` is read from and written into the config's text with the
//! format-preserving `toml_edit`, so unrelated tables and comments survive.

use vstd::prelude::*;

use toml_edit::DocumentMut;

use crate::strings::{cat2, trim, trimmed};
use crate::theme::{theme_name, theme_name_round_trip, theme_of_name, ThemeId};

verus! {

// ---------------------------------------------------------------- documents

/// A TOML document.
#[verifier::external_type_specification]
#[verifier::external_body]
pub struct ExDocumentMut(DocumentMut);

/// What stands at a path of a document. A table counts as one in either notation, and
/// a value is its text, without the white space and the comments around it.
pub ghost enum Entry {
    Table,
    Tables,
    Value(Seq<char>),
}

/// What a document holds: its entries by path, the strings among them, and its
/// comments. The parts of an array of tables stand under its path and their number.
/// `comments` has the comments in front of an entry's key or header under its path and
/// `false`, those behind its value or header under `true`, and those at the document's
/// end under the empty path and `true`; an entry without them has none there.
pub ghost struct Config {
    pub entries: Map<Seq<Seq<char>>, Entry>,
    pub strings: Map<Seq<Seq<char>>, Seq<char>>,
    pub comments: Map<(Seq<Seq<char>>, bool), Seq<Seq<char>>>,
}

/// The entries of a document, by the keys that lead to them.
pub uninterp spec fn document_entries(doc: DocumentMut) -> Map<Seq<Seq<char>>, Entry>;

/// The strings among the entries of a document.
pub uninterp spec fn document_strings(doc: DocumentMut) -> Map<Seq<Seq<char>>, Seq<char>>;

/// The comments of a document, by the entry they belong to and the side of it.
pub uninterp spec fn document_comments(doc: DocumentMut) -> Map<
    (Seq<Seq<char>>, bool),
    Seq<Seq<char>>,
>;

/// What a text parses into, or the message of the error.
pub uninterp spec fn toml_parsed(text: Seq<char>) -> Result<Config, Seq<char>>;

/// What a document holds.
pub open spec fn contents(doc: DocumentMut) -> Config {
    Config {
        entries: document_entries(doc),
        strings: document_strings(doc),
        comments: document_comments(doc),
    }
}

/// What a parse that made the document came to.
pub open spec fn holding(doc: DocumentMut) -> Result<Config, Seq<char>> {
    Ok(contents(doc))
}

/// What a parse came to.
pub open spec fn outcome(r: Result<DocumentMut, String>) -> Result<Config, Seq<char>> {
    match r {
        Ok(doc) => holding(doc),
        Err(e) => Err(e@),
    }
}

/// Nothing at all.
pub open spec fn empty_config() -> Config {
    Config { entries: Map::empty(), strings: Map::empty(), comments: Map::empty() }
}

/// Whether the path `q` is `p` or leads through it.
pub open spec fn at_or_below(q: Seq<Seq<char>>, p: Seq<Seq<char>>) -> bool {
    p.len() <= q.len() && q.take(p.len() as int) == p
}

/// Whether two maps agree at a key.
pub open spec fn agree_at<K, V>(a: Map<K, V>, b: Map<K, V>, k: K) -> bool {
    a.contains_key(k) == b.contains_key(k) && (a.contains_key(k) ==> a[k] == b[k])
}

/// Whether two documents hold the same at a path: the entry, the string and the
/// comments on both sides.
pub open spec fn same_at(a: Config, b: Config, q: Seq<Seq<char>>) -> bool {
    &&& agree_at(a.entries, b.entries, q)
    &&& agree_at(a.strings, b.strings, q)
    &&& agree_at(a.comments, b.comments, (q, false))
    &&& agree_at(a.comments, b.comments, (q, true))
}

/// Whether a document holds anything at a path.
pub open spec fn holds_at(c: Config, q: Seq<Seq<char>>) -> bool {
    c.entries.contains_key(q) || c.strings.contains_key(q) || c.comments.contains_key((q, false))
        || c.comments.contains_key((q, true))
}

/// Whether `after` is `before` with the string `text` put at `p`. What stood at `p` and
/// below it is gone, with the comments behind it; the comments in front of a value
/// stay. Everything else is what it was.
pub open spec fn string_put(
    before: Config,
    after: Config,
    p: Seq<Seq<char>>,
    text: Seq<char>,
) -> bool {
    &&& after.entries.contains_key(p) && after.entries[p] is Value
    &&& after.strings.contains_key(p) && after.strings[p] == text
    &&& !after.comments.contains_key((p, true))
    &&& (before.entries.contains_key(p) ==> before.entries[p] is Value) ==> agree_at(
        before.comments,
        after.comments,
        (p, false),
    )
    &&& forall|q: Seq<Seq<char>>| #[trigger]
        at_or_below(q, p) && q != p ==> !holds_at(after, q)
    &&& forall|q: Seq<Seq<char>>| !#[trigger] at_or_below(q, p) ==> same_at(before, after, q)
}

/// `DocumentMut::new`: a document that holds nothing.
#[verifier::external_body]
fn new_document() -> (r: DocumentMut)
    ensures
        contents(r) == empty_config(),
{
    DocumentMut::new()
}

/// `DocumentMut::from_str`: the document of a text, or the error's message. What the
/// grammar accepts is left to the crate.
#[verifier::external_body]
fn parse_document(text: &str) -> (r: Result<DocumentMut, String>)
    ensures
        toml_parsed(text@) == outcome(r),
{
    text.parse::<DocumentMut>().map_err(|e| e.to_string())
}

/// `Table::contains_key` on the document's root table.
#[verifier::external_body]
fn has_key(doc: &DocumentMut, key: &str) -> (r: bool)
    ensures
        r == document_entries(*doc).contains_key(seq![key@]),
{
    doc.contains_key(key)
}

/// `Item::is_table_like` of the root entry `key`: a table, in either notation. An
/// entry that is not there is none.
#[verifier::external_body]
fn holds_table(doc: &DocumentMut, key: &str) -> (r: bool)
    ensures
        r == (document_entries(*doc).contains_key(seq![key@]) && document_entries(
            *doc,
        )[seq![key@]] is Table),
{
    doc.get(key).is_some_and(|item| item.is_table_like())
}

/// `Item::get` and `Item::as_str`: the string at a key of a top-level table.
#[verifier::external_body]
fn string_at(doc: &DocumentMut, table: &str, key: &str) -> (r: Option<String>)
    ensures
        match r {
            Some(s) => document_strings(*doc).contains_key(seq![table@, key@])
                && document_strings(*doc)[seq![table@, key@]] == s@,
            None => !document_strings(*doc).contains_key(seq![table@, key@]),
        },
{
    doc.get(table).and_then(|t| t.get(key)).and_then(|v| v.as_str()).map(|s| s.to_string())
}

/// An empty `Table` put at a root key that is not taken, through `IndexMut`. It comes
/// without comments, and nothing else changes.
#[verifier::external_body]
fn put_table(doc: &mut DocumentMut, key: &str)
    requires
        !document_entries(*old(doc)).contains_key(seq![key@]),
    ensures
        document_entries(*final(doc)) == document_entries(*old(doc)).insert(
            seq![key@],
            Entry::Table,
        ),
        document_strings(*final(doc)) == document_strings(*old(doc)),
        document_comments(*final(doc)) == document_comments(*old(doc)),
{
    doc[key] = toml_edit::Item::Table(toml_edit::Table::new());
}

/// `toml_edit::value` put at a key of a table, through `IndexMut`. The new value takes
/// the place of the old item, whose own comments and parts go with it; the key stays,
/// with the comments in front of it, and so does every other item. `IndexMut` panics
/// where the root entry is no table.
#[verifier::external_body]
fn put_string(doc: &mut DocumentMut, table: &str, key: &str, text: &str)
    requires
        document_entries(*old(doc)).contains_key(seq![table@]),
        document_entries(*old(doc))[seq![table@]] is Table,
    ensures
        string_put(contents(*old(doc)), contents(*final(doc)), seq![table@, key@], text@),
{
    doc[table][key] = toml_edit::value(text);
}

/// `DocumentMut` as text: every item as it was written, with the white space and the
/// comments around it. Reading it again gives back what the document holds.
#[verifier::external_body]
fn document_text(doc: &DocumentMut) -> (r: String)
    ensures
        toml_parsed(r@) == holding(*doc),
{
    doc.to_string()
}

// ---------------------------------------------------------------- reading

/// Where the table of the interface's settings stands.
pub open spec fn ui_path() -> Seq<Seq<char>> {
    seq!["ui"@]
}

/// Where the theme's id stands.
pub open spec fn theme_path() -> Seq<Seq<char>> {
    seq!["ui"@, "theme"@]
}

/// The theme that a parsed config names.
pub open spec fn theme_in(parsed: Result<Config, Seq<char>>) -> Option<ThemeId> {
    match parsed {
        Ok(c) => if c.strings.contains_key(theme_path()) {
            theme_of_name(c.strings[theme_path()])
        } else {
            None
        },
        Err(_) => None,
    }
}

/// Parse `ui.theme` from TOML text. A text that is not TOML names no theme.
pub fn parse_theme_id_from_toml(text: &str) -> (r: Option<ThemeId>)
    ensures
        r == theme_in(toml_parsed(text@)),
{
    match parse_document(text) {
        Ok(doc) => match string_at(&doc, "ui", "theme") {
            Some(raw) => ThemeId::parse(raw.as_str()),
            None => None,
        },
        Err(_) => None,
    }
}

// ---------------------------------------------------------------- writing

/// What a config's text holds; a blank text is an empty document.
pub open spec fn config_of(text: Seq<char>) -> Result<Config, Seq<char>> {
    if trimmed(text).len() == 0 {
        Ok(empty_config())
    } else {
        toml_parsed(text)
    }
}

/// Whether a theme can be put: `ui` is a table, or nothing at all.
pub open spec fn takes_theme(parsed: Result<Config, Seq<char>>) -> bool {
    match parsed {
        Ok(c) => c.entries.contains_key(ui_path()) ==> c.entries[ui_path()] is Table,
        Err(_) => true,
    }
}

/// The config with the table `ui` in it.
pub open spec fn with_ui(c: Config) -> Config {
    Config { entries: c.entries.insert(ui_path(), Entry::Table), ..c }
}

/// Whether `after` is `before` with the theme put into its table `ui`.
pub open spec fn themed(before: Config, after: Config, id: ThemeId) -> bool {
    string_put(with_ui(before), after, theme_path(), theme_name(id))
}

fn open_config(text: &str) -> (r: Result<DocumentMut, String>)
    ensures
        config_of(text@) == outcome(r),
{
    if trim(text).as_str().is_empty() {
        Ok(new_document())
    } else {
        parse_document(text)
    }
}

fn put_theme(doc: DocumentMut, id: ThemeId) -> (r: String)
    requires
        takes_theme(Ok(contents(doc))),
    ensures
        toml_parsed(r@) matches Ok(after) && themed(contents(doc), after, id),
{
    let ghost before = contents(doc);
    let mut doc = doc;
    if !has_key(&doc, "ui") {
        put_table(&mut doc, "ui");
    }
    assert(document_entries(doc) =~= before.entries.insert(ui_path(), Entry::Table));
    assert(contents(doc) == with_ui(before));
    put_string(&mut doc, "ui", "theme", id.as_str());
    document_text(&doc)
}

/// The config's text with the theme put into it: every other entry and every comment
/// but those behind the old theme is still there. It fails, with the parser's words, on
/// a text that is not TOML.
pub fn themed_config(text: &str, id: ThemeId) -> (r: Result<String, String>)
    requires
        takes_theme(config_of(text@)),
    ensures
        match config_of(text@) {
            Ok(held) => r matches Ok(t) && toml_parsed(t@) matches Ok(after) && themed(
                held,
                after,
                id,
            ),
            Err(e) => r matches Err(m) && m@ == "config is not valid TOML: "@ + e,
        },
{
    match open_config(text) {
        Ok(doc) => Ok(put_theme(doc, id)),
        Err(e) => Err(cat2("config is not valid TOML: ", e.as_str())),
    }
}

/// The same for any text: `None` where `ui` stands in it and is no table.
pub fn try_themed_config(text: &str, id: ThemeId) -> (r: Option<Result<String, String>>)
    ensures
        r is Some <==> takes_theme(config_of(text@)),
        r matches Some(res) ==> match config_of(text@) {
            Ok(held) => res matches Ok(t) && toml_parsed(t@) matches Ok(after) && themed(
                held,
                after,
                id,
            ),
            Err(e) => res matches Err(m) && m@ == "config is not valid TOML: "@ + e,
        },
{
    match open_config(text) {
        Ok(doc) => {
            if has_key(&doc, "ui") && !holds_table(&doc, "ui") {
                return None;
            }
        },
        Err(_) => {},
    }
    Some(themed_config(text, id))
}

// ---------------------------------------------------------------- laws

/// A saved theme is the one that is loaded, and another can be saved over it. At every
/// path outside the theme's the entry, the string and the comments are what they were,
/// and so are the comments in front of a theme that was there.
pub proof fn saved_theme_loads(before: Config, after: Config, id: ThemeId)
    requires
        takes_theme(Ok(before)),
        themed(before, after, id),
    ensures
        theme_in(Ok(after)) == Some(id),
        takes_theme(Ok(after)),
        forall|q: Seq<Seq<char>>|
            !#[trigger] at_or_below(q, theme_path()) && q != ui_path() ==> same_at(
                before,
                after,
                q,
            ),
        before.entries.contains_key(ui_path()) ==> same_at(before, after, ui_path()),
        before.entries.contains_key(theme_path()) && before.entries[theme_path()] is Value
            ==> agree_at(before.comments, after.comments, (theme_path(), false)),
{
    theme_name_round_trip(id);
    let opened = with_ui(before);
    assert(ui_path().len() == 1 && theme_path().len() == 2);
    assert(!at_or_below(ui_path(), theme_path()));
    assert(same_at(opened, after, ui_path()));
    assert forall|q: Seq<Seq<char>>|
        !#[trigger] at_or_below(q, theme_path()) && q != ui_path() implies same_at(
        before,
        after,
        q,
    ) by {
        assert(same_at(opened, after, q));
    }
}

/// Of two themes saved one after the other the second is loaded, and everything
/// outside the theme's path is still what it was before the first.
pub proof fn second_theme_loads(
    before: Config,
    between: Config,
    after: Config,
    first: ThemeId,
    second: ThemeId,
)
    requires
        takes_theme(Ok(before)),
        themed(before, between, first),
        themed(between, after, second),
    ensures
        theme_in(Ok(after)) == Some(second),
        forall|q: Seq<Seq<char>>|
            !#[trigger] at_or_below(q, theme_path()) && q != ui_path() ==> same_at(
                before,
                after,
                q,
            ),
{
    saved_theme_loads(before, between, first);
    saved_theme_loads(between, after, second);
}

} // verus!
