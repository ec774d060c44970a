//! Repository entries and the `repository` subcommand: parsing the lines
//! of a repository list, the configured set of repositories, and the
//! counters of `repository check`.
use vstd::prelude::*;
use crate::text::{
    chars_of, entries, find_char, find_first, lemma_find_char, opt_view, range_is, repository_entries,
    string_from_chars, string_views,
};

verus! {

/// What a line of a repository list points to.
#[derive(Clone, Copy, Debug, PartialEq, Eq, Structural)]
pub enum RepositoryType {
    /// A file to download.
    Reward,
    /// Another repository list (`Nested <url>`).
    Nested,
    /// A compressed tarball to download and unpack (`Archive <url>`).
    Archive,
    /// A line of any other form.
    Unknown,
}

/// A parsed line of a repository list.
pub struct Repository {
    pub repo_type: RepositoryType,
    pub url: Option<String>,
}

/// How a line of a repository list reads: a line without a space is a
/// reward URL; otherwise the word before the first space decides, with the
/// rest of the line as URL: `Nested` and `Archive` are known, any other
/// word makes the line unknown (and without URL).
pub open spec fn spec_parse_repository(entry: Seq<char>) -> (RepositoryType, Option<Seq<char>>) {
    match find_char(entry, ' ') {
        None => (RepositoryType::Reward, Some(entry)),
        Some(i) => {
            let word = entry.take(i);
            let rest = entry.skip(i + 1);
            if word == "Nested"@ {
                (RepositoryType::Nested, Some(rest))
            } else if word == "Archive"@ {
                (RepositoryType::Archive, Some(rest))
            } else {
                (RepositoryType::Unknown, None)
            }
        },
    }
}

/// Parses one line of a repository list.
pub fn parse_repository(entry: String) -> (r: Repository)
    ensures
        (r.repo_type, opt_view(r.url)) == spec_parse_repository(entry@),
{
    let chars = chars_of(entry.as_str());
    assert(chars@.take(chars@.len() as int) == chars@);
    match find_first(&chars, ' ', chars.len()) {
        None => Repository { repo_type: RepositoryType::Reward, url: Some(entry) },
        Some(i) => {
            assert(chars@.subrange(0, i as int) == chars@.take(i as int));
            assert(chars@.subrange(i + 1, chars@.len() as int) == chars@.skip(i + 1));
            if range_is(&chars, 0, i, "Nested") {
                Repository {
                    repo_type: RepositoryType::Nested,
                    url: Some(string_from_chars(&chars, i + 1, chars.len())),
                }
            } else if range_is(&chars, 0, i, "Archive") {
                Repository {
                    repo_type: RepositoryType::Archive,
                    url: Some(string_from_chars(&chars, i + 1, chars.len())),
                }
            } else {
                Repository { repo_type: RepositoryType::Unknown, url: None }
            }
        },
    }
}

/// A parsed line has a URL exactly when its kind is known; a reward line
/// is its own URL, and a nested or archive line is its keyword, a space
/// and its URL.
pub proof fn law_parse_repository(entry: Seq<char>)
    ensures
        (spec_parse_repository(entry).1 is None) == (spec_parse_repository(entry).0
            == RepositoryType::Unknown),
        spec_parse_repository(entry).0 == RepositoryType::Reward ==> spec_parse_repository(entry).1
            == Some(entry),
        spec_parse_repository(entry).0 == RepositoryType::Nested ==> entry == "Nested"@ + seq![' ']
            + spec_parse_repository(entry).1->0,
        spec_parse_repository(entry).0 == RepositoryType::Archive ==> entry == "Archive"@ + seq![' ']
            + spec_parse_repository(entry).1->0,
{
    lemma_find_char(entry, ' ');
    match find_char(entry, ' ') {
        Some(i) => {
            assert(entry == entry.take(i) + seq![' '] + entry.skip(i + 1));
        },
        None => {},
    }
}

/// The kind of a repository-list line.
pub open spec fn kind_of(entry: Seq<char>) -> RepositoryType {
    spec_parse_repository(entry).0
}

/// How many of `es` are of kind `t`.
pub open spec fn count_kind(es: Seq<Seq<char>>, t: RepositoryType) -> nat
    decreases es.len(),
{
    if es.len() == 0 {
        0
    } else {
        count_kind(es.drop_last(), t) + if kind_of(es.last()) == t {
            1nat
        } else {
            0nat
        }
    }
}

/// The entries of one repository list, by kind.
pub struct EntryCounts {
    pub entries: u64,
    pub reward: u64,
    pub nested: u64,
    pub archive: u64,
    pub unknown: u64,
}

impl EntryCounts {
    /// The counts describe the entry lines `es`.
    pub open spec fn describes(&self, es: Seq<Seq<char>>) -> bool {
        &&& self.entries == es.len()
        &&& self.reward == count_kind(es, RepositoryType::Reward)
        &&& self.nested == count_kind(es, RepositoryType::Nested)
        &&& self.archive == count_kind(es, RepositoryType::Archive)
        &&& self.unknown == count_kind(es, RepositoryType::Unknown)
    }
}

/// Every entry is of exactly one kind, so the kinds add up to the entries.
pub proof fn lemma_kinds_partition(es: Seq<Seq<char>>)
    ensures
        count_kind(es, RepositoryType::Reward) + count_kind(es, RepositoryType::Nested)
            + count_kind(es, RepositoryType::Archive) + count_kind(es, RepositoryType::Unknown)
            == es.len(),
    decreases es.len(),
{
    if es.len() > 0 {
        lemma_kinds_partition(es.drop_last());
    }
}

proof fn lemma_count_kind_bound(es: Seq<Seq<char>>, t: RepositoryType)
    ensures
        count_kind(es, t) <= es.len(),
    decreases es.len(),
{
    if es.len() > 0 {
        lemma_count_kind_bound(es.drop_last(), t);
    }
}

/// Counts the entries of a repository list's text by kind (the figures
/// that `repository check` prints for each repository).
pub fn count_entries(content: &str) -> (r: EntryCounts)
    ensures
        r.describes(entries(content@)),
        r.balanced(),
{
    let es = repository_entries(content);
    let ghost ev = entries(content@);
    let n = es.len();
    assert(n <= u64::MAX);
    let mut r = EntryCounts { entries: 0, reward: 0, nested: 0, archive: 0, unknown: 0 };
    let mut i: usize = 0;
    while i < es.len()
        invariant
            string_views(es@) == ev,
            i <= es@.len(),
            es@.len() <= u64::MAX,
            r.describes(ev.take(i as int)),
        decreases es@.len() - i,
    {
        let ghost before = ev.take(i as int);
        assert(ev.take(i + 1).drop_last() == before);
        assert(ev[i as int] == es@[i as int]@);
        proof {
            lemma_count_kind_bound(before, RepositoryType::Reward);
            lemma_count_kind_bound(before, RepositoryType::Nested);
            lemma_count_kind_bound(before, RepositoryType::Archive);
            lemma_count_kind_bound(before, RepositoryType::Unknown);
        }
        let parsed = parse_repository(es[i].clone());
        match parsed.repo_type {
            RepositoryType::Reward => r.reward = r.reward + 1,
            RepositoryType::Nested => r.nested = r.nested + 1,
            RepositoryType::Archive => r.archive = r.archive + 1,
            RepositoryType::Unknown => r.unknown = r.unknown + 1,
        }
        r.entries = r.entries + 1;
        i = i + 1;
    }
    assert(ev.take(es@.len() as int) == ev);
    proof {
        lemma_kinds_partition(ev);
    }
    r
}


impl EntryCounts {
    /// The kinds add up to the number of entries.
    pub open spec fn balanced(&self) -> bool {
        self.reward + self.nested + self.archive + self.unknown == self.entries
    }
}

/// A repository as configured: its name, the URL of its list, and whether
/// it takes part in `pull` and `repository sync`.
pub struct RepositoryEntry {
    pub name: String,
    pub url: String,
    pub enabled: bool,
}

impl RepositoryEntry {
    pub open spec fn view_triple(&self) -> (Seq<char>, Seq<char>, bool) {
        (self.name@, self.url@, self.enabled)
    }
}

/// The view of a list of entries: (name, url, enabled) in order.
pub open spec fn entry_views(v: Seq<RepositoryEntry>) -> Seq<(Seq<char>, Seq<char>, bool)> {
    v.map_values(|e: RepositoryEntry| e.view_triple())
}

/// Position of the repository called `name`.
pub open spec fn position(s: Seq<(Seq<char>, Seq<char>, bool)>, name: Seq<char>) -> Option<int>
    decreases s.len(),
{
    if s.len() == 0 {
        None
    } else if s.last().0 == name {
        Some(s.len() - 1)
    } else {
        position(s.drop_last(), name)
    }
}

/// No two repositories share a name.
pub open spec fn names_distinct(s: Seq<(Seq<char>, Seq<char>, bool)>) -> bool {
    forall|i: int, j: int| 0 <= i < j < s.len() ==> s[i].0 != s[j].0
}

/// The URL and enabled flag of the repository called `name`, if any.
pub open spec fn lookup(s: Seq<(Seq<char>, Seq<char>, bool)>, name: Seq<char>) -> Option<(Seq<char>, bool)> {
    match position(s, name) {
        Some(i) => Some((s[i].1, s[i].2)),
        None => None,
    }
}

/// `s` with the repository `name` set to (`url`, `enabled`): replaced in
/// place when it exists, appended otherwise.
pub open spec fn spec_insert(
    s: Seq<(Seq<char>, Seq<char>, bool)>,
    name: Seq<char>,
    url: Seq<char>,
    enabled: bool,
) -> Seq<(Seq<char>, Seq<char>, bool)> {
    match position(s, name) {
        Some(i) => s.update(i, (name, url, enabled)),
        None => s.push((name, url, enabled)),
    }
}

/// `s` without the repository `name`.
pub open spec fn spec_remove(s: Seq<(Seq<char>, Seq<char>, bool)>, name: Seq<char>) -> Seq<(Seq<char>, Seq<char>, bool)> {
    match position(s, name) {
        Some(i) => s.remove(i),
        None => s,
    }
}

/// `s` with the repository `name` (which exists) enabled or disabled.
pub open spec fn spec_set_enabled(
    s: Seq<(Seq<char>, Seq<char>, bool)>,
    name: Seq<char>,
    enabled: bool,
) -> Seq<(Seq<char>, Seq<char>, bool)> {
    match position(s, name) {
        Some(i) => s.update(i, (s[i].0, s[i].1, enabled)),
        None => s,
    }
}

pub proof fn lemma_position(s: Seq<(Seq<char>, Seq<char>, bool)>, name: Seq<char>)
    ensures
        match position(s, name) {
            Some(i) => 0 <= i < s.len() && s[i].0 == name && forall|j: int|
                i < j < s.len() ==> s[j].0 != name,
            None => forall|j: int| 0 <= j < s.len() ==> s[j].0 != name,
        },
    decreases s.len(),
{
    if s.len() > 0 && s.last().0 != name {
        lemma_position(s.drop_last(), name);
        assert forall|j: int| 0 <= j < s.len() - 1 implies s[j] == s.drop_last()[j] by {}
    }
}

/// In a list with distinct names, the repository at index `i` is the one
/// found under its name.
pub proof fn lemma_position_of_index(s: Seq<(Seq<char>, Seq<char>, bool)>, i: int)
    requires
        names_distinct(s),
        0 <= i < s.len(),
    ensures
        position(s, s[i].0) == Some(i),
{
    lemma_position(s, s[i].0);
    match position(s, s[i].0) {
        Some(k) => {
            if k < i {
                assert(s[k].0 != s[i].0);
            }
        },
        None => {},
    }
}

/// Reading back a written repository gives what was written, and leaves
/// every other repository as it was; the names stay distinct.
pub proof fn law_insert_lookup(
    s: Seq<(Seq<char>, Seq<char>, bool)>,
    name: Seq<char>,
    url: Seq<char>,
    enabled: bool,
    other: Seq<char>,
)
    requires
        names_distinct(s),
    ensures
        names_distinct(spec_insert(s, name, url, enabled)),
        lookup(spec_insert(s, name, url, enabled), name) == Some((url, enabled)),
        other != name ==> lookup(spec_insert(s, name, url, enabled), other) == lookup(s, other),
{
    let t = spec_insert(s, name, url, enabled);
    lemma_position(s, name);
    lemma_position(s, other);
    assert(names_distinct(t));
    match position(s, name) {
        Some(i) => {
            lemma_position_of_index(t, i);
            if other != name {
                match position(s, other) {
                    Some(k) => lemma_position_of_index(t, k),
                    None => {
                        lemma_position(t, other);
                    },
                }
            }
        },
        None => {
            lemma_position_of_index(t, s.len() as int);
            if other != name {
                match position(s, other) {
                    Some(k) => lemma_position_of_index(t, k),
                    None => {
                        lemma_position(t, other);
                    },
                }
            }
        },
    }
}

/// After removing a repository it is no longer found, and every other
/// repository reads as before; the names stay distinct.
pub proof fn law_remove_lookup(s: Seq<(Seq<char>, Seq<char>, bool)>, name: Seq<char>, other: Seq<char>)
    requires
        names_distinct(s),
    ensures
        names_distinct(spec_remove(s, name)),
        lookup(spec_remove(s, name), name) is None,
        other != name ==> lookup(spec_remove(s, name), other) == lookup(s, other),
{
    let t = spec_remove(s, name);
    lemma_position(s, name);
    lemma_position(s, other);
    match position(s, name) {
        Some(i) => {
            assert forall|a: int, b: int| 0 <= a < b < t.len() implies t[a].0 != t[b].0 by {
                let a2 = if a < i { a } else { a + 1 };
                let b2 = if b < i { b } else { b + 1 };
                assert(t[a] == s[a2]);
                assert(t[b] == s[b2]);
            }
            lemma_position(t, name);
            assert forall|j: int| 0 <= j < t.len() implies t[j].0 != name by {
                let j2 = if j < i { j } else { j + 1 };
                assert(t[j] == s[j2]);
            }
            if other != name {
                match position(s, other) {
                    Some(k) => {
                        let k2 = if k < i { k } else { k - 1 };
                        assert(t[k2] == s[k]);
                        lemma_position_of_index(t, k2);
                    },
                    None => {
                        lemma_position(t, other);
                        assert forall|j: int| 0 <= j < t.len() implies t[j].0 != other by {
                            let j2 = if j < i { j } else { j + 1 };
                            assert(t[j] == s[j2]);
                        }
                    },
                }
            }
        },
        None => {},
    }
}

/// Enabling or disabling a repository changes its flag alone.
pub proof fn law_set_enabled_lookup(
    s: Seq<(Seq<char>, Seq<char>, bool)>,
    name: Seq<char>,
    enabled: bool,
    other: Seq<char>,
)
    requires
        names_distinct(s),
        lookup(s, name) is Some,
    ensures
        names_distinct(spec_set_enabled(s, name, enabled)),
        lookup(spec_set_enabled(s, name, enabled), name) == Some(((lookup(s, name)->0).0, enabled)),
        other != name ==> lookup(spec_set_enabled(s, name, enabled), other) == lookup(s, other),
{
    let i = position(s, name)->0;
    lemma_position(s, name);
    law_insert_lookup(s, name, s[i].1, enabled, other);
    assert(spec_set_enabled(s, name, enabled) == spec_insert(s, name, s[i].1, enabled));
}

/// The configured repositories, in the order of the configuration file.
pub struct Repositories {
    entries: Vec<RepositoryEntry>,
}

impl View for Repositories {
    type V = Seq<(Seq<char>, Seq<char>, bool)>;

    closed spec fn view(&self) -> Seq<(Seq<char>, Seq<char>, bool)> {
        entry_views(self.entries@)
    }
}

impl Repositories {
    #[verifier::type_invariant]
    spec fn wf(self) -> bool {
        names_distinct(entry_views(self.entries@))
    }

    /// No repositories.
    pub fn new() -> (r: Repositories)
        ensures
            r@ == Seq::<(Seq<char>, Seq<char>, bool)>::empty(),
            names_distinct(r@),
    {
        let r = Repositories { entries: Vec::new() };
        assert(r@ =~= Seq::<(Seq<char>, Seq<char>, bool)>::empty());
        r
    }

    /// The repositories, in order.
    pub fn entries(&self) -> (r: &Vec<RepositoryEntry>)
        ensures
            entry_views(r@) == self@,
            names_distinct(self@),
    {
        proof {
            use_type_invariant(self);
        }
        &self.entries
    }

    /// Where the repository `name` stands.
    pub fn find(&self, name: &String) -> (r: Option<usize>)
        ensures
            match r {
                Some(i) => position(self@, name@) == Some(i as int),
                None => position(self@, name@) is None,
            },
    {
        proof {
            use_type_invariant(self);
        }
        let ghost s = self@;
        let mut i: usize = 0;
        while i < self.entries.len()
            invariant
                s == entry_views(self.entries@),
                names_distinct(s),
                i <= self.entries@.len(),
                forall|j: int| 0 <= j < i ==> s[j].0 != name@,
            decreases self.entries@.len() - i,
        {
            if self.entries[i].name == *name {
                proof {
                    lemma_position_of_index(s, i as int);
                }
                return Some(i);
            }
            i = i + 1;
        }
        proof {
            lemma_position(s, name@);
        }
        None
    }

    /// Sets the repository `name` to (`url`, `enabled`), adding it at the
    /// end when it is new.
    pub fn insert(&mut self, name: String, url: String, enabled: bool)
        ensures
            final(self)@ == spec_insert(old(self)@, name@, url@, enabled),
            names_distinct(final(self)@),
    {
        proof {
            use_type_invariant(&*self);
            law_insert_lookup(self@, name@, url@, enabled, name@);
        }
        let found = self.find(&name);
        proof {
            lemma_position(self@, name@);
        }
        let ghost before = self.entries@;
        let e = RepositoryEntry { name, url, enabled };
        let mut entries: Vec<RepositoryEntry> = Vec::new();
        std::mem::swap(&mut entries, &mut self.entries);
        match found {
            Some(i) => {
                entries.set(i, e);
                assert(entry_views(entries@) == entry_views(before).update(i as int, e.view_triple()));
            },
            None => {
                entries.push(e);
                assert(entry_views(entries@) == entry_views(before).push(e.view_triple()));
            },
        }
        self.entries = entries;
    }

    /// Removes the repository `name`; tells whether it existed.
    pub fn remove(&mut self, name: &String) -> (existed: bool)
        ensures
            existed == (position(old(self)@, name@) is Some),
            final(self)@ == spec_remove(old(self)@, name@),
            names_distinct(final(self)@),
    {
        proof {
            use_type_invariant(&*self);
            law_remove_lookup(self@, name@, name@);
        }
        let found = self.find(name);
        proof {
            lemma_position(self@, name@);
        }
        match found {
            Some(i) => {
                let ghost before = self.entries@;
                let mut entries: Vec<RepositoryEntry> = Vec::new();
        std::mem::swap(&mut entries, &mut self.entries);
                entries.remove(i);
                assert(entry_views(entries@) == entry_views(before).remove(i as int));
                self.entries = entries;
                true
            },
            None => false,
        }
    }

    /// Enables or disables the repository `name`, which must exist.
    pub fn set_enabled(&mut self, name: &String, enabled: bool)
        requires
            position(old(self)@, name@) is Some,
        ensures
            final(self)@ == spec_set_enabled(old(self)@, name@, enabled),
            names_distinct(final(self)@),
    {
        proof {
            use_type_invariant(&*self);
            law_set_enabled_lookup(self@, name@, enabled, name@);
        }
        let i = self.find(name).unwrap();
        proof {
            lemma_position(self@, name@);
        }
        let ghost before = self.entries@;
        let mut entries: Vec<RepositoryEntry> = Vec::new();
        std::mem::swap(&mut entries, &mut self.entries);
        let e = RepositoryEntry {
            name: entries[i].name.clone(),
            url: entries[i].url.clone(),
            enabled,
        };
        entries.set(i, e);
        assert(entry_views(entries@) == entry_views(before).update(
            i as int,
            (entry_views(before)[i as int].0, entry_views(before)[i as int].1, enabled),
        ));
        self.entries = entries;
    }
}


/// Whether a repository takes part in `repository sync` for the names
/// given: it must be enabled, and named when names are given.
pub open spec fn selected_for_sync(e: (Seq<char>, Seq<char>, bool), names: Seq<Seq<char>>) -> bool {
    e.2 && (names.len() == 0 || names.contains(e.0))
}

/// The repositories that `repository sync` fetches, in order.
pub open spec fn sync_selection(
    s: Seq<(Seq<char>, Seq<char>, bool)>,
    names: Seq<Seq<char>>,
) -> Seq<(Seq<char>, Seq<char>, bool)> {
    s.filter(|e: (Seq<char>, Seq<char>, bool)| selected_for_sync(e, names))
}

/// `repository sync` fetches enabled repositories only, and when names are
/// given, only named ones; every enabled repository that is named (or
/// every enabled one, when no names are given) is fetched.
pub proof fn law_sync_selection(s: Seq<(Seq<char>, Seq<char>, bool)>, names: Seq<Seq<char>>)
    ensures
        forall|i: int|
            0 <= i < sync_selection(s, names).len() ==> (#[trigger] sync_selection(s, names)[i]).2 && (
            names.len() > 0 ==> names.contains(sync_selection(s, names)[i].0)),
        forall|j: int|
            0 <= j < s.len() && (#[trigger] s[j]).2 && (names.len() == 0 || names.contains(s[j].0))
                ==> sync_selection(s, names).contains(s[j]),
        sync_selection(s, names).len() <= s.len(),
{
    let pred = |e: (Seq<char>, Seq<char>, bool)| selected_for_sync(e, names);
    assert forall|i: int| 0 <= i < sync_selection(s, names).len() implies (#[trigger] sync_selection(
        s,
        names,
    )[i]).2 && (names.len() > 0 ==> names.contains(sync_selection(s, names)[i].0)) by {
        s.lemma_filter_pred(pred, i);
    }
    assert forall|j: int|
        0 <= j < s.len() && (#[trigger] s[j]).2 && (names.len() == 0 || names.contains(
            s[j].0,
        )) implies sync_selection(s, names).contains(s[j]) by {
        s.lemma_filter_contains(pred, j);
    }
    s.lemma_filter_len(pred);
}

/// Whether `name` is among `names`.
pub fn contains_name(names: &Vec<String>, name: &String) -> (r: bool)
    ensures
        r == string_views(names@).contains(name@),
{
    let mut i: usize = 0;
    while i < names.len()
        invariant
            i <= names@.len(),
            forall|j: int| 0 <= j < i ==> names@[j]@ != name@,
        decreases names@.len() - i,
    {
        if names[i] == *name {
            assert(string_views(names@)[i as int] == name@);
            return true;
        }
        i = i + 1;
    }
    assert forall|j: int| 0 <= j < string_views(names@).len() implies string_views(names@)[j]
        != name@ by {
        assert(string_views(names@)[j] == names@[j]@);
    }
    false
}

impl Repositories {
    /// The repositories to sync for the names given (all enabled ones when
    /// none are given), in order.
    pub fn sync_targets(&self, names: &Vec<String>) -> (r: Vec<RepositoryEntry>)
        ensures
            entry_views(r@) == sync_selection(self@, string_views(names@)),
    {
        let ghost ns = string_views(names@);
        let ghost s = self@;
        let entries = self.entries();
        let mut r: Vec<RepositoryEntry> = Vec::new();
        let mut i: usize = 0;
        while i < entries.len()
            invariant
                entry_views(entries@) == s,
                ns == string_views(names@),
                i <= entries@.len(),
                entry_views(r@) == sync_selection(s.take(i as int), ns),
            decreases entries@.len() - i,
        {
            let ghost prefix = s.take(i as int);
            assert(s.take(i + 1).drop_last() == prefix);
            proof {
                reveal_with_fuel(Seq::filter, 1);
            }
            let e = &entries[i];
            assert(e.view_triple() == s[i as int]);
            if e.enabled && (names.len() == 0 || contains_name(names, &e.name)) {
                let ghost before = r@;
                r.push(RepositoryEntry { name: e.name.clone(), url: e.url.clone(), enabled: e.enabled });
                assert(entry_views(r@) == entry_views(before).push(s[i as int]));
            }
            i = i + 1;
        }
        assert(s.take(entries@.len() as int) == s);
        r
    }
}

/// A `repository` subcommand.
pub enum RepositoryAction {
    /// Add (or replace) a repository, enabled.
    Add { name: String, url: String },
    /// Remove a repository, and its sync cache unless it is to be kept.
    Remove { name: String, keep_cache: bool },
    /// Print the repositories.
    List,
    /// Fetch the lists of the enabled repositories (of those named, if any).
    Sync { names: Vec<String>, timeout: Option<u64> },
    /// Report on every repository.
    Check { timeout: Option<u64> },
    /// Enable a repository.
    Enable { name: String },
    /// Disable a repository.
    Disable { name: String },
}

/// What is left to do after a `repository` subcommand has been applied to
/// the configured repositories.
pub enum RepositoryEffect {
    /// Write the configuration back.
    Save,
    /// `repository remove`: carry out these steps in order, stopping at
    /// the first that fails.
    Removed { steps: Vec<RemoveStep> },
    /// Print the repositories.
    List,
    /// Fetch these repositories' lists into the sync cache.
    Sync { targets: Vec<RepositoryEntry>, timeout: Option<u64> },
    /// Check every repository.
    Check { timeout: Option<u64> },
}

/// A step of `repository remove`.
pub enum RemoveStep {
    /// Report that the repository does not exist.
    ReportMissing(String),
    /// Write the configuration back.
    Save,
    /// Delete the repository's sync cache, when there is one.
    DeleteCache(String),
}

pub enum RemoveStepView {
    ReportMissing(Seq<char>),
    Save,
    DeleteCache(Seq<char>),
}

impl View for RemoveStep {
    type V = RemoveStepView;

    open spec fn view(&self) -> RemoveStepView {
        match self {
            RemoveStep::ReportMissing(n) => RemoveStepView::ReportMissing(n@),
            RemoveStep::Save => RemoveStepView::Save,
            RemoveStep::DeleteCache(n) => RemoveStepView::DeleteCache(n@),
        }
    }
}

/// The steps of `repository remove` for the repository `name`: a missing
/// repository is reported and the configuration written back unchanged;
/// otherwise the configuration is written first, and the sync cache
/// deleted after, unless it is kept.
pub open spec fn remove_steps(existed: bool, keep: bool, name: Seq<char>) -> Seq<RemoveStepView> {
    if !existed {
        seq![RemoveStepView::ReportMissing(name), RemoveStepView::Save]
    } else if keep {
        seq![RemoveStepView::Save]
    } else {
        seq![RemoveStepView::Save, RemoveStepView::DeleteCache(name)]
    }
}

/// The subcommand needs the repository it names to exist: enabling or
/// disabling a missing repository is refused.
pub open spec fn action_allowed(action: &RepositoryAction, s: Seq<(Seq<char>, Seq<char>, bool)>) -> bool {
    match action {
        RepositoryAction::Enable { name } => position(s, name@) is Some,
        RepositoryAction::Disable { name } => position(s, name@) is Some,
        _ => true,
    }
}

/// Applies a `repository` subcommand to the configured repositories and
/// says what remains to do. `configured_keep_cache` is the `keep_cache`
/// setting of the configuration, when it holds one.
pub fn run(action: RepositoryAction, repos: &mut Repositories, configured_keep_cache: Option<bool>) -> (r: RepositoryEffect)
    requires
        action_allowed(&action, old(repos)@),
    ensures
        names_distinct(final(repos)@),
        match action {
            RepositoryAction::Add { name, url } => {
                &&& final(repos)@ == spec_insert(old(repos)@, name@, url@, true)
                &&& r is Save
            },
            RepositoryAction::Remove { name, keep_cache } => {
                &&& final(repos)@ == spec_remove(old(repos)@, name@)
                &&& r matches RepositoryEffect::Removed { steps }
                &&& steps@.map_values(|x: RemoveStep| x@) == remove_steps(
                    position(old(repos)@, name@) is Some,
                    keep_cache || configured_keep_cache == Some(true),
                    name@,
                )
            },
            RepositoryAction::List => final(repos)@ == old(repos)@ && r is List,
            RepositoryAction::Sync { names, timeout } => {
                &&& final(repos)@ == old(repos)@
                &&& r matches RepositoryEffect::Sync { targets, timeout: t }
                &&& entry_views(targets@) == sync_selection(old(repos)@, string_views(names@))
                &&& t == timeout
            },
            RepositoryAction::Check { timeout } => {
                &&& final(repos)@ == old(repos)@
                &&& r == (RepositoryEffect::Check { timeout })
            },
            RepositoryAction::Enable { name } => {
                &&& final(repos)@ == spec_set_enabled(old(repos)@, name@, true)
                &&& r is Save
            },
            RepositoryAction::Disable { name } => {
                &&& final(repos)@ == spec_set_enabled(old(repos)@, name@, false)
                &&& r is Save
            },
        },
{
    proof {
        use_type_invariant(&*repos);
    }
    match action {
        RepositoryAction::Add { name, url } => {
            repos.insert(name, url, true);
            RepositoryEffect::Save
        },
        RepositoryAction::Remove { name, keep_cache } => {
            let keep = keep_cache || match configured_keep_cache {
                Some(k) => k,
                None => false,
            };
            let existed = repos.remove(&name);
            let mut steps: Vec<RemoveStep> = Vec::new();
            if !existed {
                steps.push(RemoveStep::ReportMissing(name));
                steps.push(RemoveStep::Save);
            } else if keep {
                steps.push(RemoveStep::Save);
            } else {
                steps.push(RemoveStep::Save);
                steps.push(RemoveStep::DeleteCache(name));
            }
            proof {
                assert(steps@.map_values(|x: RemoveStep| x@) =~= remove_steps(existed, keep, name@));
            }
            RepositoryEffect::Removed { steps }
        },
        RepositoryAction::List => RepositoryEffect::List,
        RepositoryAction::Sync { names, timeout } => {
            let targets = repos.sync_targets(&names);
            RepositoryEffect::Sync { targets, timeout }
        },
        RepositoryAction::Check { timeout } => RepositoryEffect::Check { timeout },
        RepositoryAction::Enable { name } => {
            repos.set_enabled(&name, true);
            RepositoryEffect::Save
        },
        RepositoryAction::Disable { name } => {
            repos.set_enabled(&name, false);
            RepositoryEffect::Save
        },
    }
}


/// The figures of `repository check` over all repositories.
pub struct CheckTotals {
    pub alive: u64,
    pub dead: u64,
    pub entries: u64,
    pub reward: u64,
    pub nested: u64,
    pub archive: u64,
    pub unknown: u64,
    pub enabled: u64,
    pub disabled: u64,
}

impl CheckTotals {
    /// Every checked repository was found either alive or dead and either
    /// enabled or disabled, and every entry is of one kind.
    pub open spec fn balanced(&self) -> bool {
        &&& self.alive + self.dead == self.enabled + self.disabled
        &&& self.reward + self.nested + self.archive + self.unknown == self.entries
    }

    /// Nothing checked yet.
    pub fn new() -> (r: CheckTotals)
        ensures
            r.alive == 0 && r.dead == 0 && r.entries == 0 && r.reward == 0 && r.nested == 0
                && r.archive == 0 && r.unknown == 0 && r.enabled == 0 && r.disabled == 0,
            r.balanced(),
    {
        CheckTotals {
            alive: 0,
            dead: 0,
            entries: 0,
            reward: 0,
            nested: 0,
            archive: 0,
            unknown: 0,
            enabled: 0,
            disabled: 0,
        }
    }

    /// Adds one checked repository: whether it is enabled, whether it
    /// answered, and the counts of its entries.
    pub fn record(&mut self, enabled: bool, alive: bool, counts: &EntryCounts)
        requires
            old(self).alive + old(self).dead < u64::MAX,
            old(self).enabled + old(self).disabled < u64::MAX,
            old(self).entries + counts.entries <= u64::MAX,
            old(self).reward + counts.reward <= u64::MAX,
            old(self).nested + counts.nested <= u64::MAX,
            old(self).archive + counts.archive <= u64::MAX,
            old(self).unknown + counts.unknown <= u64::MAX,
        ensures
            final(self).alive == old(self).alive + if alive { 1int } else { 0int },
            final(self).dead == old(self).dead + if alive { 0int } else { 1int },
            final(self).enabled == old(self).enabled + if enabled { 1int } else { 0int },
            final(self).disabled == old(self).disabled + if enabled { 0int } else { 1int },
            final(self).entries == old(self).entries + counts.entries,
            final(self).reward == old(self).reward + counts.reward,
            final(self).nested == old(self).nested + counts.nested,
            final(self).archive == old(self).archive + counts.archive,
            final(self).unknown == old(self).unknown + counts.unknown,
            old(self).balanced() && counts.balanced() ==> final(self).balanced(),
    {
        if alive {
            self.alive = self.alive + 1;
        } else {
            self.dead = self.dead + 1;
        }
        if enabled {
            self.enabled = self.enabled + 1;
        } else {
            self.disabled = self.disabled + 1;
        }
        self.entries = self.entries + counts.entries;
        self.reward = self.reward + counts.reward;
        self.nested = self.nested + counts.nested;
        self.archive = self.archive + counts.archive;
        self.unknown = self.unknown + counts.unknown;
    }
}

/// The outcome of `repository sync`: how many repositories were synced
/// and how many failed.
pub struct SyncTally {
    pub synced: u64,
    pub failed: u64,
}

impl SyncTally {
    pub fn new() -> (r: SyncTally)
        ensures
            r.synced == 0 && r.failed == 0,
    {
        SyncTally { synced: 0, failed: 0 }
    }

    /// Counts one repository, synced or failed.
    pub fn record(&mut self, ok: bool)
        requires
            old(self).synced + old(self).failed < u64::MAX,
        ensures
            final(self).synced == old(self).synced + if ok { 1int } else { 0int },
            final(self).failed == old(self).failed + if ok { 0int } else { 1int },
    {
        if ok {
            self.synced = self.synced + 1;
        } else {
            self.failed = self.failed + 1;
        }
    }
}

/// A decimal digit.
pub open spec fn digit_char(d: nat) -> char {
    seq!['0', '1', '2', '3', '4', '5', '6', '7', '8', '9'][d as int]
}

/// How an unsigned integer is displayed: its decimal digits, without
/// leading zeros.
pub open spec fn decimal_text(n: nat) -> Seq<char>
    decreases n,
{
    if n < 10 {
        seq![digit_char(n)]
    } else {
        decimal_text(n / 10).push(digit_char(n % 10))
    }
}

/// One unit of a displayed duration: nothing for zero, otherwise the
/// number followed by the unit, with an `s` for two or more when the unit
/// takes a plural.
pub open spec fn duration_item(value: nat, unit: Seq<char>, plural: bool) -> Seq<char> {
    if value == 0 {
        seq![]
    } else {
        decimal_text(value) + unit + if plural && value > 1 {
            seq!['s']
        } else {
            seq![]
        }
    }
}

/// The non-empty items, separated by single spaces.
pub open spec fn join_items(items: Seq<Seq<char>>) -> Seq<char>
    decreases items.len(),
{
    if items.len() == 0 {
        seq![]
    } else {
        let before = join_items(items.drop_last());
        let item = items.last();
        if item.len() == 0 {
            before
        } else if before.len() == 0 {
            item
        } else {
            before + seq![' '] + item
        }
    }
}

/// What `humantime::format_duration` displays for `secs` whole seconds:
/// `0s` for none; otherwise the years (of 365.25 days), months (of 30.44
/// days), days, hours, minutes and seconds that are not zero, such as
/// `1year 2months 3h 5s`.
pub open spec fn humantime_text(secs: u64) -> Seq<char> {
    if secs == 0 {
        seq!['0', 's']
    } else {
        let years = secs / 31_557_600;
        let ydays = secs % 31_557_600;
        let months = ydays / 2_630_016;
        let mdays = ydays % 2_630_016;
        let days = mdays / 86400;
        let day_secs = mdays % 86400;
        let hours = day_secs / 3600;
        let minutes = day_secs % 3600 / 60;
        let seconds = day_secs % 60;
        join_items(
            seq![
                duration_item(years as nat, seq!['y', 'e', 'a', 'r'], true),
                duration_item(months as nat, seq!['m', 'o', 'n', 't', 'h'], true),
                duration_item(days as nat, seq!['d', 'a', 'y'], true),
                duration_item(hours as nat, seq!['h'], false),
                duration_item(minutes as nat, seq!['m'], false),
                duration_item(seconds as nat, seq!['s'], false),
            ],
        )
    }
}

/// `humantime::format_duration(Duration::from_secs(secs))`, displayed. The
/// contract claims the text that its `Display` writes for whole seconds
/// (see [`humantime_text`]).
#[verifier::external_body]
fn format_duration_secs(secs: u64) -> (r: String)
    ensures
        r@ == humantime_text(secs),
{
    humantime::format_duration(std::time::Duration::from_secs(secs)).to_string()
}

/// The "last synced" figure of `repository check`: the time since the
/// sync cache was written, or that it never was.
pub fn last_synced(elapsed_secs: Option<u64>) -> (r: String)
    ensures
        r@ == match elapsed_secs {
            Some(s) => humantime_text(s) + " ago"@,
            None => "Never synced"@,
        },
{
    match elapsed_secs {
        Some(s) => format_duration_secs(s).concat(" ago"),
        None => String::from_str("Never synced"),
    }
}

} // verus!
