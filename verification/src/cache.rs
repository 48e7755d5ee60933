//! The per-session cache layout and the rules for trusting what is read back.
//! The files themselves are read and written by the caller: transcript
//! `<dir>/<session>.json` (`/` in the id escaped to `_`), tool catalog
//! `<dir>/<session>-tools.json`, session directory `<dir>/directory.json`.

use vstd::prelude::*;
use vstd::string::*;

use crate::spine::opt_text;
use crate::text::{concat, owned, push_char, str_eq};
use crate::types::{Item, ItemV, SessionSummary, SummaryV};

verus! {

/// Transcript-cache format version. Files of an earlier version are never
/// trusted (they may be mis-ordered or lossy): reading one reports no cache,
/// and the next open replays and rewrites it.
pub const TRANSCRIPT_CACHE_VERSION: u64 = 3;

/// The cache layout under a fixed directory.
pub struct CacheStore {
    cache_dir: String,
}

impl View for CacheStore {
    type V = Seq<char>;

    closed spec fn view(&self) -> Seq<char> {
        self.cache_dir@
    }
}

/// `/` escaped to `_`.
pub open spec fn escape_v(id: Seq<char>) -> Seq<char> {
    id.map_values(|c: char| if c == '/' { '_' } else { c })
}

/// `Path::join` of a relative name onto a directory.
pub open spec fn join_v(dir: Seq<char>, name: Seq<char>) -> Seq<char> {
    if dir.len() == 0 {
        name
    } else if dir.last() == '/' {
        dir + name
    } else {
        dir + seq!['/'] + name
    }
}

/// `session_id` with `/` escaped to `_`.
pub fn escape(session_id: &str) -> (r: String)
    ensures
        r@ == escape_v(session_id@),
{
    let mut r = String::new();
    let n = session_id.unicode_len();
    let mut i: usize = 0;
    while i < n
        invariant
            n == session_id@.len(),
            i <= n,
            r@ == escape_v(session_id@.take(i as int)),
        decreases n - i,
    {
        let c = session_id.get_char(i);
        push_char(&mut r, if c == '/' { '_' } else { c });
        assert(escape_v(session_id@.take(i + 1)) =~= escape_v(session_id@.take(i as int)).push(if c == '/' { '_' } else { c }));
        i = i + 1;
    }
    assert(session_id@.take(n as int) =~= session_id@);
    r
}

fn join(dir: &str, name: &str) -> (r: String)
    ensures
        r@ == join_v(dir@, name@),
{
    let n = dir.unicode_len();
    if n == 0 {
        owned(name)
    } else if dir.get_char(n - 1) == '/' {
        concat(dir, name)
    } else {
        let mut r = concat(dir, "/");
        proof {
            reveal_strlit("/");
        }
        r.append(name);
        assert(r@ =~= join_v(dir@, name@));
        r
    }
}

impl CacheStore {
    pub fn new(cache_dir: String) -> (c: Self)
        ensures
            c@ == cache_dir@,
    {
        CacheStore { cache_dir }
    }

    /// The cache root.
    pub fn dir(&self) -> (d: &str)
        ensures
            d@ == self@,
    {
        self.cache_dir.as_str()
    }

    /// `<dir>/<session>.json`.
    pub fn transcript_path(&self, session_id: &str) -> (p: String)
        ensures
            p@ == join_v(self@, escape_v(session_id@) + ".json"@),
    {
        let mut file = escape(session_id);
        file.append(".json");
        join(self.cache_dir.as_str(), file.as_str())
    }

    /// `<dir>/<session>-tools.json`.
    pub fn tools_path(&self, session_id: &str) -> (p: String)
        ensures
            p@ == join_v(self@, escape_v(session_id@) + "-tools.json"@),
    {
        let mut file = escape(session_id);
        file.append("-tools.json");
        join(self.cache_dir.as_str(), file.as_str())
    }

    /// `<dir>/directory.json`.
    pub fn directory_path(&self) -> (p: String)
        ensures
            p@ == join_v(self@, "directory.json"@),
    {
        join(self.cache_dir.as_str(), "directory.json")
    }
}

/// Whether a transcript is worth a file: an empty one (or one without a
/// session) is not cached.
pub fn transcript_worth_saving(session_id: &str, item_count: usize) -> (r: bool)
    ensures
        r == (session_id@.len() > 0 && item_count > 0),
{
    session_id.unicode_len() > 0 && item_count > 0
}

/// Whether the session directory is worth writing: an empty list writes
/// nothing (and the save still counts as done).
pub fn directory_worth_saving(session_count: usize) -> (r: bool)
    ensures
        r == (session_count > 0),
{
    session_count > 0
}

/// The items that parsed, in order.
pub open spec fn parsed_items(items: Seq<Option<Item>>) -> Seq<ItemV>
    decreases items.len(),
{
    if items.len() == 0 {
        Seq::empty()
    } else {
        match items.last() {
            Some(it) => parsed_items(items.drop_last()).push(it@),
            None => parsed_items(items.drop_last()),
        }
    }
}

/// What a transcript file read back is trusted as: only the current format,
/// with a non-empty item list of which at least one item parsed; the stamp
/// defaults to empty.
pub open spec fn accepted_v(version: Option<u64>, updated_at: Option<String>, items: Option<Seq<Option<Item>>>) -> Option<(Seq<ItemV>, Seq<char>)> {
    if version != Some(TRANSCRIPT_CACHE_VERSION) {
        None
    } else {
        match items {
            None => None,
            Some(its) => if its.len() == 0 || parsed_items(its).len() == 0 {
                None
            } else {
                Some((parsed_items(its), opt_text(updated_at)))
            },
        }
    }
}

/// Decide what a transcript file read back is worth: `version` is its `v`
/// (when an unsigned integer), `updated_at` its `updatedAt` (when a string),
/// `items` its `items` array (when an array), each element parsed or not.
pub fn accept_transcript(version: Option<u64>, updated_at: Option<String>, items: Option<Vec<Option<Item>>>) -> (r: Option<(Vec<Item>, String)>)
    ensures
        (match r {
            Some(p) => Some((p.0.deep_view(), p.1@)),
            None => None,
        }) == accepted_v(version, updated_at, match items {
            Some(v) => Some(v@),
            None => None,
        }),
{
    match version {
        Some(v) => if v != TRANSCRIPT_CACHE_VERSION {
            return None;
        },
        None => return None,
    }
    let its = match items {
        Some(v) => v,
        None => return None,
    };
    let n = its.len();
    if n == 0 {
        return None;
    }
    let ghost all = its@;
    let mut its = its;
    let mut out: Vec<Item> = Vec::new();
    assert(all.take(0) =~= Seq::<Option<Item>>::empty());
    assert(out.deep_view() =~= parsed_items(all.take(0)));
    let mut i: usize = 0;
    while i < n
        invariant
            n == all.len(),
            i <= n,
            its@.len() == n - i,
            forall|j: int| 0 <= j < n - i ==> its@[j] == all[i + j],
            out.deep_view() == parsed_items(all.take(i as int)),
        decreases n - i,
    {
        let ghost before = its@;
        let e = its.remove(0);
        assert(e == all[i as int]);
        assert(all.take(i + 1).drop_last() =~= all.take(i as int));
        match e {
            Some(it) => {
                let ghost o0 = out.deep_view();
                out.push(it);
                assert(out.deep_view() =~= o0.push(all[i as int]->0@));
            },
            None => {},
        }
        assert forall|j: int| 0 <= j < n - i - 1 implies its@[j] == all[i + 1 + j] by {
            assert(its@[j] == before[j + 1]);
        }
        i = i + 1;
    }
    assert(all.take(n as int) =~= all);
    if out.len() == 0 {
        return None;
    }
    let stamp = match updated_at {
        Some(s) => s,
        None => String::new(),
    };
    Some((out, stamp))
}

/// One entry of the cached session directory, read off the file.
#[derive(Clone, Debug, PartialEq)]
pub struct DirectoryEntry {
    /// `id`, when a string.
    pub id: Option<String>,
    pub title: Option<String>,
    pub updated_at: Option<String>,
    pub last_message_snippet: Option<String>,
    pub project_id: Option<String>,
    /// `messageCount`, when an integer.
    pub message_count: Option<i64>,
    pub model: Option<String>,
    /// `hasRecipe`, when a boolean.
    pub has_recipe: Option<bool>,
    pub cwd: Option<String>,
}

/// A directory entry as plain values.
pub struct DirectoryEntryV {
    pub id: Option<Seq<char>>,
    pub title: Option<Seq<char>>,
    pub updated_at: Option<Seq<char>>,
    pub last_message_snippet: Option<Seq<char>>,
    pub project_id: Option<Seq<char>>,
    pub message_count: Option<i64>,
    pub model: Option<Seq<char>>,
    pub has_recipe: Option<bool>,
    pub cwd: Option<Seq<char>>,
}

impl View for DirectoryEntry {
    type V = DirectoryEntryV;

    open spec fn view(&self) -> DirectoryEntryV {
        DirectoryEntryV {
            id: crate::spine::opt_seq(self.id),
            title: crate::spine::opt_seq(self.title),
            updated_at: crate::spine::opt_seq(self.updated_at),
            last_message_snippet: crate::spine::opt_seq(self.last_message_snippet),
            project_id: crate::spine::opt_seq(self.project_id),
            message_count: self.message_count,
            model: crate::spine::opt_seq(self.model),
            has_recipe: self.has_recipe,
            cwd: crate::spine::opt_seq(self.cwd),
        }
    }
}

/// The text of an optional field, empty when absent.
pub open spec fn or_empty(o: Option<Seq<char>>) -> Seq<char> {
    match o {
        Some(t) => t,
        None => Seq::empty(),
    }
}

pub open spec fn entry_summary(e: DirectoryEntryV) -> SummaryV {
    SummaryV {
        id: or_empty(e.id),
        title: or_empty(e.title),
        updated_at: or_empty(e.updated_at),
        last_message_snippet: e.last_message_snippet,
        project_id: e.project_id,
        message_count: match e.message_count {
            Some(n) => n,
            None => 0,
        },
        model: or_empty(e.model),
        has_recipe: match e.has_recipe {
            Some(b) => b,
            None => false,
        },
        has_new: false,
        archived: false,
    }
}

/// The summaries and cwds of the directory's entries that carry an id (a
/// cached summary is never new).
pub open spec fn directory_v(es: Seq<DirectoryEntryV>) -> (Seq<SummaryV>, Seq<(Seq<char>, Seq<char>)>)
    decreases es.len(),
{
    if es.len() == 0 {
        (Seq::empty(), Seq::empty())
    } else {
        let prev = directory_v(es.drop_last());
        let e = es.last();
        if e.id is Some {
            (
                prev.0.push(entry_summary(e)),
                match e.cwd {
                    Some(c) => prev.1.push((or_empty(e.id), c)),
                    None => prev.1,
                },
            )
        } else {
            prev
        }
    }
}

/// The entries as plain values.
pub open spec fn entries_view(es: Seq<DirectoryEntry>) -> Seq<DirectoryEntryV> {
    es.map_values(|e: DirectoryEntry| e@)
}

fn opt_copy(o: &Option<String>) -> (r: Option<String>)
    ensures
        crate::spine::opt_seq(r) == crate::spine::opt_seq(*o),
{
    match o {
        Some(s) => Some(s.clone()),
        None => None,
    }
}

fn text_or_empty(o: &Option<String>) -> (r: String)
    ensures
        r@ == opt_text(*o),
{
    match o {
        Some(s) => s.clone(),
        None => String::new(),
    }
}

/// The cached session directory: `None` when no entry carries an id.
pub fn directory_from_entries(entries: &Vec<DirectoryEntry>) -> (r: Option<(Vec<SessionSummary>, Vec<(String, String)>)>)
    ensures
        r is None <==> directory_v(entries_view(entries@)).0.len() == 0,
        r matches Some(p) ==> p.0.deep_view() == directory_v(entries_view(entries@)).0
            && p.1@.map_values(|q: (String, String)| (q.0@, q.1@)) == directory_v(entries_view(entries@)).1,
{
    let mut sessions: Vec<SessionSummary> = Vec::new();
    let mut cwds: Vec<(String, String)> = Vec::new();
    let n = entries.len();
    let ghost ev = entries_view(entries@);
    assert(ev.take(0) =~= Seq::<DirectoryEntryV>::empty());
    assert(sessions.deep_view() =~= Seq::<SummaryV>::empty());
    assert(cwds@.map_values(|q: (String, String)| (q.0@, q.1@)) =~= Seq::<(Seq<char>, Seq<char>)>::empty());
    for i in 0..n
        invariant
            n == entries.len(),
            ev == entries_view(entries@),
            sessions.deep_view() == directory_v(ev.take(i as int)).0,
            cwds@.map_values(|q: (String, String)| (q.0@, q.1@)) == directory_v(ev.take(i as int)).1,
    {
        let e = &entries[i];
        assert(ev.take(i + 1).drop_last() =~= ev.take(i as int));
        assert(ev.take(i + 1).last() == e@);
        match &e.id {
            Some(id) => {
                let ghost s0 = sessions.deep_view();
                let ghost c0 = cwds@;
                sessions.push(SessionSummary {
                    id: id.clone(),
                    title: text_or_empty(&e.title),
                    updated_at: text_or_empty(&e.updated_at),
                    last_message_snippet: opt_copy(&e.last_message_snippet),
                    project_id: opt_copy(&e.project_id),
                    message_count: match e.message_count {
                        Some(c) => c,
                        None => 0,
                    },
                    model: text_or_empty(&e.model),
                    has_recipe: match e.has_recipe {
                        Some(b) => b,
                        None => false,
                    },
                    has_new: false,
                    archived: false,
                });
                assert(sessions.deep_view() =~= s0.push(entry_summary(e@)));
                match &e.cwd {
                    Some(c) => {
                        cwds.push((id.clone(), c.clone()));
                        assert(cwds@.map_values(|q: (String, String)| (q.0@, q.1@)) =~= c0.map_values(|q: (String, String)| (q.0@, q.1@)).push((id@, c@)));
                    },
                    None => {},
                }
            },
            None => {},
        }
    }
    assert(ev.take(n as int) =~= ev);
    if sessions.len() == 0 {
        return None;
    }
    Some((sessions, cwds))
}


// ---------------------------------------------------------------------------
// The directory file
// ---------------------------------------------------------------------------

/// A member value of a directory entry, as far as the file format reads it:
/// a string, a number (with its value when it is an `i64`), a boolean, or
/// anything else.
pub enum JsonField {
    Str(String),
    Int(Option<i64>),
    Bool(bool),
    Other,
}

pub enum FieldV {
    Str(Seq<char>),
    Int(Option<i64>),
    Bool(bool),
    Other,
}

impl View for JsonField {
    type V = FieldV;

    open spec fn view(&self) -> FieldV {
        match self {
            JsonField::Str(s) => FieldV::Str(s@),
            JsonField::Int(n) => FieldV::Int(*n),
            JsonField::Bool(b) => FieldV::Bool(*b),
            JsonField::Other => FieldV::Other,
        }
    }
}

/// An object's members as plain values.
pub open spec fn members_v(ms: Seq<(String, JsonField)>) -> Seq<(Seq<char>, FieldV)> {
    ms.map_values(|p: (String, JsonField)| (p.0@, p.1@))
}

/// The `sessions` elements as plain values.
pub open spec fn sessions_v(r: Option<Vec<Option<Vec<(String, JsonField)>>>>) -> Option<Seq<Option<Seq<(Seq<char>, FieldV)>>>> {
    match r {
        None => None,
        Some(v) => Some(v@.map_values(|m: Option<Vec<(String, JsonField)>>| match m {
            Some(ms) => Some(members_v(ms@)),
            None => None,
        })),
    }
}

/// No two members share a key.
pub open spec fn keys_unique<V>(ms: Seq<(Seq<char>, V)>) -> bool {
    forall|i: int, j: int| 0 <= i < j < ms.len() ==> #[trigger] ms[i].0 != #[trigger] ms[j].0
}

/// The root's members as plain values.
pub open spec fn root_v(r: Option<Option<Vec<(String, Option<Vec<Option<Vec<(String, JsonField)>>>>)>>>)
    -> Option<Option<Seq<(Seq<char>, Option<Seq<Option<Seq<(Seq<char>, FieldV)>>>>)>>> {
    match r {
        None => None,
        Some(None) => Some(None),
        Some(Some(ms)) => Some(Some(ms@.map_values(
            |p: (String, Option<Vec<Option<Vec<(String, JsonField)>>>>)| (p.0@, sessions_v(p.1)),
        ))),
    }
}

/// What `serde_json::from_slice::<Value>` makes of the directory file:
/// `None` when the bytes are not JSON, `Some(None)` when the root is not an
/// object, else the root's members, each with (when the member is an array)
/// its elements: an element's members (`None` when the element is not an
/// object), each value reduced to a `JsonField`.
pub uninterp spec fn directory_root_of(bytes: Seq<u8>) -> Option<Option<Seq<(Seq<char>, Option<Seq<Option<Seq<(Seq<char>, FieldV)>>>>)>>>;

/// `serde_json::from_slice::<Value>` on the directory file, reduced to the
/// root's members and, for array members, their elements' members (an
/// object is a map, so no two members share a key). The contract names the
/// result as a function of the bytes; what JSON parses to what is left
/// unsaid.
#[verifier::external_body]
fn json_directory_root(bytes: &[u8]) -> (r: Option<Option<Vec<(String, Option<Vec<Option<Vec<(String, JsonField)>>>>)>>>)
    ensures
        root_v(r) == directory_root_of(bytes@),
        root_v(r) matches Some(Some(ms)) ==> keys_unique(ms),
{
    let root = serde_json::from_slice::<serde_json::Value>(bytes).ok()?;
    Some(root.as_object().map(|m| m.iter().map(|(k, v)| (k.clone(), v.as_array().map(|a| a.iter().map(|e| e.as_object().map(|o| o.iter().map(|(k, v)| (k.clone(), match v {
        serde_json::Value::String(s) => JsonField::Str(s.clone()),
        serde_json::Value::Number(n) => JsonField::Int(n.as_i64()),
        serde_json::Value::Bool(b) => JsonField::Bool(*b),
        _ => JsonField::Other,
    })).collect())).collect()))).collect()))
}

/// The elements of the file's `sessions` array: `None` when the file is not
/// JSON, its root is not an object, or `sessions` is missing or no array.
pub open spec fn directory_sessions_of(bytes: Seq<u8>) -> Option<Seq<Option<Seq<(Seq<char>, FieldV)>>>> {
    match directory_root_of(bytes) {
        Some(Some(ms)) => match field_of(ms, "sessions"@) {
            Some(Some(arr)) => Some(arr),
            _ => None,
        },
        _ => None,
    }
}

/// The value of the member named `key` (the first, were there several).
pub open spec fn field_of<V>(ms: Seq<(Seq<char>, V)>, key: Seq<char>) -> Option<V>
    decreases ms.len(),
{
    if ms.len() == 0 {
        None
    } else if ms[0].0 == key {
        Some(ms[0].1)
    } else {
        field_of(ms.drop_first(), key)
    }
}

/// A string member's text; absent when missing or not a string.
pub open spec fn str_field(ms: Seq<(Seq<char>, FieldV)>, key: Seq<char>) -> Option<Seq<char>> {
    match field_of(ms, key) {
        Some(FieldV::Str(t)) => Some(t),
        _ => None,
    }
}

/// An integer member's value; absent when missing or not an `i64`.
pub open spec fn int_field(ms: Seq<(Seq<char>, FieldV)>, key: Seq<char>) -> Option<i64> {
    match field_of(ms, key) {
        Some(FieldV::Int(Some(n))) => Some(n),
        _ => None,
    }
}

/// A boolean member's value; absent when missing or not a boolean.
pub open spec fn bool_field(ms: Seq<(Seq<char>, FieldV)>, key: Seq<char>) -> Option<bool> {
    match field_of(ms, key) {
        Some(FieldV::Bool(b)) => Some(b),
        _ => None,
    }
}

/// The entry one element of `sessions` describes (nothing, for an element
/// that is not an object).
pub open spec fn entry_of(m: Option<Seq<(Seq<char>, FieldV)>>) -> DirectoryEntryV {
    match m {
        None => DirectoryEntryV {
            id: None,
            title: None,
            updated_at: None,
            last_message_snippet: None,
            project_id: None,
            message_count: None,
            model: None,
            has_recipe: None,
            cwd: None,
        },
        Some(ms) => DirectoryEntryV {
            id: str_field(ms, "id"@),
            title: str_field(ms, "title"@),
            updated_at: str_field(ms, "updatedAt"@),
            last_message_snippet: str_field(ms, "lastMessageSnippet"@),
            project_id: str_field(ms, "projectId"@),
            message_count: int_field(ms, "messageCount"@),
            model: str_field(ms, "model"@),
            has_recipe: bool_field(ms, "hasRecipe"@),
            cwd: str_field(ms, "cwd"@),
        },
    }
}

/// The entries the directory file holds, when it holds a `sessions` array.
pub open spec fn directory_entries_of(bytes: Seq<u8>) -> Option<Seq<DirectoryEntryV>> {
    match directory_sessions_of(bytes) {
        None => None,
        Some(ss) => Some(ss.map_values(|m: Option<Seq<(Seq<char>, FieldV)>>| entry_of(m))),
    }
}

proof fn lemma_field_at<V>(ms: Seq<(Seq<char>, V)>, key: Seq<char>, i: int)
    requires
        0 <= i < ms.len(),
        ms[i].0 == key,
        forall|j: int| 0 <= j < i ==> ms[j].0 != key,
    ensures
        field_of(ms, key) == Some(ms[i].1),
    decreases i,
{
    if i > 0 {
        assert(ms[0].0 != key);
        lemma_field_at(ms.drop_first(), key, i - 1);
    }
}

proof fn lemma_field_none<V>(ms: Seq<(Seq<char>, V)>, key: Seq<char>)
    requires
        forall|j: int| 0 <= j < ms.len() ==> ms[j].0 != key,
    ensures
        field_of(ms, key) is None,
    decreases ms.len(),
{
    if ms.len() > 0 {
        assert(ms[0].0 != key);
        lemma_field_none(ms.drop_first(), key);
    }
}

/// Where the first member named `key` sits, if anywhere.
fn find_key<V>(ms: &Vec<(String, V)>, key: &str) -> (r: Option<usize>)
    ensures
        match r {
            Some(i) => i < ms@.len() && ms@[i as int].0@ == key@ && forall|j: int| 0 <= j < i ==> ms@[j].0@ != key@,
            None => forall|j: int| 0 <= j < ms@.len() ==> ms@[j].0@ != key@,
        },
{
    let n = ms.len();
    let mut i: usize = 0;
    while i < n
        invariant
            n == ms@.len(),
            i <= n,
            forall|j: int| 0 <= j < i ==> ms@[j].0@ != key@,
        decreases n - i,
    {
        if str_eq(ms[i].0.as_str(), key) {
            return Some(i);
        }
        i = i + 1;
    }
    None
}

/// Where the member named `key` sits, if anywhere.
fn find_field(ms: &Vec<(String, JsonField)>, key: &str) -> (r: Option<usize>)
    ensures
        match r {
            Some(i) => i < ms@.len() && field_of(members_v(ms@), key@) == Some(ms@[i as int].1@),
            None => field_of(members_v(ms@), key@) is None,
        },
{
    let r = find_key(ms, key);
    proof {
        let mv = members_v(ms@);
        match r {
            Some(i) => lemma_field_at(mv, key@, i as int),
            None => lemma_field_none(mv, key@),
        }
    }
    r
}

fn str_member(ms: &Vec<(String, JsonField)>, key: &str) -> (r: Option<String>)
    ensures
        crate::spine::opt_seq(r) == str_field(members_v(ms@), key@),
{
    match find_field(ms, key) {
        Some(i) => match &ms[i].1 {
            JsonField::Str(t) => Some(t.clone()),
            _ => None,
        },
        None => None,
    }
}

fn int_member(ms: &Vec<(String, JsonField)>, key: &str) -> (r: Option<i64>)
    ensures
        r == int_field(members_v(ms@), key@),
{
    match find_field(ms, key) {
        Some(i) => match &ms[i].1 {
            JsonField::Int(n) => *n,
            _ => None,
        },
        None => None,
    }
}

fn bool_member(ms: &Vec<(String, JsonField)>, key: &str) -> (r: Option<bool>)
    ensures
        r == bool_field(members_v(ms@), key@),
{
    match find_field(ms, key) {
        Some(i) => match &ms[i].1 {
            JsonField::Bool(b) => Some(*b),
            _ => None,
        },
        None => None,
    }
}

/// The entry of one `sessions` element.
fn entry_from(m: &Option<Vec<(String, JsonField)>>) -> (e: DirectoryEntry)
    ensures
        e@ == entry_of(match m {
            Some(ms) => Some(members_v(ms@)),
            None => None,
        }),
{
    match m {
        None => DirectoryEntry {
            id: None,
            title: None,
            updated_at: None,
            last_message_snippet: None,
            project_id: None,
            message_count: None,
            model: None,
            has_recipe: None,
            cwd: None,
        },
        Some(ms) => DirectoryEntry {
            id: str_member(ms, "id"),
            title: str_member(ms, "title"),
            updated_at: str_member(ms, "updatedAt"),
            last_message_snippet: str_member(ms, "lastMessageSnippet"),
            project_id: str_member(ms, "projectId"),
            message_count: int_member(ms, "messageCount"),
            model: str_member(ms, "model"),
            has_recipe: bool_member(ms, "hasRecipe"),
            cwd: str_member(ms, "cwd"),
        },
    }
}

/// The cached session directory read off the file's bytes: `None` when the
/// file is not JSON, holds no `sessions` array, or no entry carries an id;
/// else each entry with an id as a summary (in file order) and the cwds
/// recorded for them.
pub fn directory_from_bytes(bytes: &[u8]) -> (r: Option<(Vec<SessionSummary>, Vec<(String, String)>)>)
    ensures
        directory_entries_of(bytes@) is None ==> r is None,
        directory_entries_of(bytes@) matches Some(es) ==> {
            &&& (r is None <==> directory_v(es).0.len() == 0)
            &&& (r matches Some(p) ==> p.0.deep_view() == directory_v(es).0
                && p.1@.map_values(|q: (String, String)| (q.0@, q.1@)) == directory_v(es).1)
        },
{
    let root = json_directory_root(bytes);
    let members = match &root {
        Some(Some(ms)) => ms,
        _ => return None,
    };
    let k = match find_key(members, "sessions") {
        Some(k) => k,
        None => {
            proof {
                lemma_field_none(root_v(root)->0->0, "sessions"@);
            }
            return None;
        },
    };
    proof {
        lemma_field_at(root_v(root)->0->0, "sessions"@, k as int);
    }
    let sessions = match &members[k].1 {
        Some(v) => v,
        None => return None,
    };
    let ghost ss = sessions_v(Some(*sessions)).unwrap();
    let ghost es = ss.map_values(|m: Option<Seq<(Seq<char>, FieldV)>>| entry_of(m));
    let n = sessions.len();
    let mut entries: Vec<DirectoryEntry> = Vec::new();
    assert(entries_view(entries@) =~= es.take(0));
    let mut i: usize = 0;
    while i < n
        invariant
            n == sessions@.len(),
            ss == sessions_v(Some(*sessions)).unwrap(),
            es == ss.map_values(|m: Option<Seq<(Seq<char>, FieldV)>>| entry_of(m)),
            i <= n,
            entries_view(entries@) == es.take(i as int),
        decreases n - i,
    {
        let e = entry_from(&sessions[i]);
        let ghost before = entries@;
        entries.push(e);
        assert(entries_view(entries@) =~= entries_view(before).push(e@));
        assert(es.take(i + 1) =~= es.take(i as int).push(es[i as int]));
        i = i + 1;
    }
    assert(es.take(n as int) =~= es);
    directory_from_entries(&entries)
}

// ---------------------------------------------------------------------------
// Laws
// ---------------------------------------------------------------------------

/// Every element of a list that parsed in full is kept, in order.
proof fn lemma_all_parsed(items: Seq<Item>)
    ensures
        parsed_items(items.map_values(|it: Item| Some(it))) == items.map_values(|it: Item| it@),
    decreases items.len(),
{
    if items.len() > 0 {
        lemma_all_parsed(items.drop_last());
        assert(items.map_values(|it: Item| Some(it)).drop_last() =~= items.drop_last().map_values(|it: Item| Some(it)));
        assert(items.map_values(|it: Item| it@) =~= items.drop_last().map_values(|it: Item| it@).push(items.last()@));
    } else {
        assert(items.map_values(|it: Item| it@) =~= Seq::<ItemV>::empty());
    }
}

/// What a save writes is trusted back whole: a file in the current format
/// whose stamp and items all read back is accepted as exactly those items,
/// in order, with that stamp, whenever there is at least one item (the only
/// transcripts worth saving).
pub proof fn a_saved_transcript_is_accepted_back(items: Seq<Item>, stamp: String)
    requires
        items.len() > 0,
    ensures
        accepted_v(Some(TRANSCRIPT_CACHE_VERSION), Some(stamp), Some(items.map_values(|it: Item| Some(it))))
            == Some((items.map_values(|it: Item| it@), stamp@)),
{
    lemma_all_parsed(items);
}

/// Ids that differ only by '/' against '_' name one file: their escapes agree.
pub proof fn slash_and_underscore_share_a_file(a: Seq<char>, b: Seq<char>)
    requires
        a.len() == b.len(),
        forall|i: int| 0 <= i < a.len() ==> #[trigger] a[i] == b[i] || ((a[i] == '/' || a[i] == '_') && (b[i] == '/' || b[i] == '_')),
    ensures
        escape_v(a) == escape_v(b),
{
    assert(escape_v(a) =~= escape_v(b));
}

} // verus!
