//! Settings kept between runs: stored credentials and aliases for activities
//! and tags. Reading and writing the file is the host's part; this module holds
//! what is decided about the values.
use crate::error::{ConfigurationError, Error};
use vstd::prelude::*;

verus! {

/// Credentials as they stand in the settings file.
#[derive(Debug, Clone, PartialEq, Eq)]
pub struct Authentication {
    pub api_key: Option<String>,
    pub api_secret: Option<String>,
}

/// A table of aliases: names, each at most once, with the id each stands for,
/// in the order in which the names were first stored.
#[derive(Debug, Clone, PartialEq, Eq)]
pub struct AliasTable {
    entries: Vec<(String, String)>,
}

/// Aliases: short names, stored lower-cased, for activity and tag ids.
#[derive(Debug, Clone, PartialEq, Eq)]
pub struct Alias {
    pub activity: Option<AliasTable>,
    pub tag: Option<AliasTable>,
}

/// Everything the settings file holds.
#[derive(Debug, Clone, PartialEq, Eq)]
pub struct Settings {
    pub auth: Option<Authentication>,
    pub alias: Option<Alias>,
}

/// What `str::to_lowercase` makes of a text.
pub uninterp spec fn lower_of(s: Seq<char>) -> Seq<char>;

/// Relies on str::to_lowercase: the lower-case form of a text, which depends on
/// its characters alone.
#[verifier::external_body]
fn lowercase(s: &str) -> (r: String)
    ensures
        r@ == lower_of(s@),
{
    s.to_lowercase()
}

/// Entry `i` is the first one named `k`.
pub open spec fn is_first(s: Seq<(Seq<char>, Seq<char>)>, k: Seq<char>, i: int) -> bool {
    &&& 0 <= i < s.len()
    &&& s[i].0 == k
    &&& forall|j: int| 0 <= j < i ==> (#[trigger] s[j]).0 != k
}

/// Where the entry named `k` stands, if there is one.
pub open spec fn position(s: Seq<(Seq<char>, Seq<char>)>, k: Seq<char>) -> Option<int> {
    if exists|i: int| is_first(s, k, i) {
        Some(choose|i: int| is_first(s, k, i))
    } else {
        None
    }
}

/// `s` with `v` stored under `k`: the entry named `k` gets the new id, or a new
/// entry is appended.
pub open spec fn put(s: Seq<(Seq<char>, Seq<char>)>, k: Seq<char>, v: Seq<char>) -> Seq<
    (Seq<char>, Seq<char>),
> {
    match position(s, k) {
        Some(i) => s.update(i, (k, v)),
        None => s.push((k, v)),
    }
}

/// `s` without the entry named `k`.
pub open spec fn without(s: Seq<(Seq<char>, Seq<char>)>, k: Seq<char>) -> Seq<
    (Seq<char>, Seq<char>),
> {
    match position(s, k) {
        Some(i) => s.remove(i),
        None => s,
    }
}

/// No name occurs twice.
pub open spec fn keys_unique(s: Seq<(Seq<char>, Seq<char>)>) -> bool {
    forall|i: int, j: int| 0 <= i < j < s.len() ==> (#[trigger] s[i]).0 != (#[trigger] s[j]).0
}

proof fn lemma_first_is_position(s: Seq<(Seq<char>, Seq<char>)>, k: Seq<char>, i: int)
    requires
        is_first(s, k, i),
    ensures
        position(s, k) == Some(i),
{
    let j = choose|j: int| is_first(s, k, j);
    assert(is_first(s, k, j));
    if j < i {
        assert(s[j].0 != k);
    } else if i < j {
        assert(s[i].0 != k);
    }
}

proof fn lemma_absent_has_no_position(s: Seq<(Seq<char>, Seq<char>)>, k: Seq<char>)
    requires
        forall|j: int| 0 <= j < s.len() ==> (#[trigger] s[j]).0 != k,
    ensures
        position(s, k) is None,
{
}

impl View for AliasTable {
    type V = Seq<(Seq<char>, Seq<char>)>;

    closed spec fn view(&self) -> Seq<(Seq<char>, Seq<char>)> {
        self.entries@.map_values(|e: (String, String)| (e.0@, e.1@))
    }
}

impl AliasTable {
    /// An empty table.
    pub fn new() -> (t: Self)
        ensures
            t@ == Seq::<(Seq<char>, Seq<char>)>::empty(),
    {
        let t = AliasTable { entries: Vec::new() };
        assert(t@ =~= Seq::<(Seq<char>, Seq<char>)>::empty());
        t
    }

    /// The number of entries.
    pub fn len(&self) -> (n: usize)
        ensures
            n == self@.len(),
    {
        self.entries.len()
    }

    /// The table has no entry.
    pub fn is_empty(&self) -> (r: bool)
        ensures
            r == (self@.len() == 0),
    {
        self.entries.len() == 0
    }

    /// The entries, in order.
    pub fn entries(&self) -> (r: &[(String, String)])
        ensures
            r@.map_values(|e: (String, String)| (e.0@, e.1@)) == self@,
    {
        self.entries.as_slice()
    }

    fn find(&self, key: &str) -> (r: Option<usize>)
        ensures
            r matches Some(i) ==> i < self@.len() && position(self@, key@) == Some(i as int),
            r is None ==> position(self@, key@) is None,
    {
        let wanted = String::from_str(key);
        let mut i: usize = 0;
        while i < self.entries.len()
            invariant
                i <= self.entries.len(),
                wanted@ == key@,
                self@.len() == self.entries.len(),
                forall|j: int| 0 <= j < i ==> (#[trigger] self@[j]).0 != key@,
            decreases self.entries.len() - i,
        {
            assert(self@[i as int] == (self.entries@[i as int].0@, self.entries@[i as int].1@));
            if self.entries[i].0 == wanted {
                proof {
                    lemma_first_is_position(self@, key@, i as int);
                }
                return Some(i);
            }
            i = i + 1;
        }
        proof {
            lemma_absent_has_no_position(self@, key@);
        }
        None
    }

    /// The id stored under `key`, if any.
    pub fn get(&self, key: &str) -> (r: Option<&String>)
        ensures
            match position(self@, key@) {
                Some(i) => r matches Some(v) && v@ == self@[i].1,
                None => r is None,
            },
    {
        match self.find(key) {
            Some(i) => {
                assert(self@[i as int] == (self.entries@[i as int].0@, self.entries@[i as int].1@));
                Some(&self.entries[i].1)
            },
            None => None,
        }
    }

    /// Stores `value` under `key`, replacing what was stored there before.
    pub fn insert(&mut self, key: String, value: String)
        ensures
            final(self)@ == put(old(self)@, key@, value@),
    {
        let found = self.find(key.as_str());
        let ghost k = key@;
        let ghost v = value@;
        match found {
            Some(i) => {
                self.entries.set(i, (key, value));
                assert(self@ =~= old(self)@.update(i as int, (k, v)));
            },
            None => {
                self.entries.push((key, value));
                assert(self@ =~= old(self)@.push((k, v)));
            },
        }
    }

    /// Removes the entry named `key`, if there is one.
    pub fn remove(&mut self, key: &str)
        ensures
            final(self)@ == without(old(self)@, key@),
    {
        match self.find(key) {
            Some(i) => {
                self.entries.remove(i);
                assert(self@ =~= old(self)@.remove(i as int));
            },
            None => {},
        }
    }
}

/// Storing an entry keeps the names unique, and the name then stands for the
/// id stored.
pub proof fn lemma_put_keeps_keys_unique(s: Seq<(Seq<char>, Seq<char>)>, k: Seq<char>, v: Seq<char>)
    requires
        keys_unique(s),
    ensures
        keys_unique(put(s, k, v)),
        position(put(s, k, v), k) matches Some(i) && put(s, k, v)[i].1 == v,
{
    let t = put(s, k, v);
    match position(s, k) {
        Some(i) => {
            assert(is_first(s, k, i));
            assert forall|a: int, b: int| 0 <= a < b < t.len() implies (#[trigger] t[a]).0 != (
            #[trigger] t[b]).0 by {
                if a == i {
                    assert(s[b].0 != s[i].0);
                } else if b == i {
                    assert(s[a].0 != s[i].0);
                } else {
                    assert(s[a].0 != s[b].0);
                }
            }
            assert(is_first(t, k, i));
            lemma_first_is_position(t, k, i);
        },
        None => {
            assert forall|j: int| 0 <= j < s.len() implies (#[trigger] s[j]).0 != k by {
                if s[j].0 == k {
                    assert forall|m: int| 0 <= m < j implies (#[trigger] s[m]).0 != k by {
                        assert(s[m].0 != s[j].0);
                    }
                    assert(is_first(s, k, j));
                }
            }
            assert forall|a: int, b: int| 0 <= a < b < t.len() implies (#[trigger] t[a]).0 != (
            #[trigger] t[b]).0 by {
                if b == s.len() {
                    assert(s[a].0 != k);
                } else {
                    assert(s[a].0 != s[b].0);
                }
            }
            assert forall|m: int| 0 <= m < s.len() implies (#[trigger] t[m]).0 != k by {
                assert(t[m] == s[m]);
            }
            assert(is_first(t, k, s.len() as int));
            lemma_first_is_position(t, k, s.len() as int);
        },
    }
}

/// Removing an entry keeps the names unique, and the name is then absent.
pub proof fn lemma_without_keeps_keys_unique(s: Seq<(Seq<char>, Seq<char>)>, k: Seq<char>)
    requires
        keys_unique(s),
    ensures
        keys_unique(without(s, k)),
        position(without(s, k), k) is None,
{
    let t = without(s, k);
    match position(s, k) {
        Some(i) => {
            assert(is_first(s, k, i));
            assert forall|a: int, b: int| 0 <= a < b < t.len() implies (#[trigger] t[a]).0 != (
            #[trigger] t[b]).0 by {
                let a0 = if a < i { a } else { a + 1 };
                let b0 = if b < i { b } else { b + 1 };
                assert(t[a] == s[a0]);
                assert(t[b] == s[b0]);
                assert(s[a0].0 != s[b0].0);
            }
            assert forall|j: int| 0 <= j < t.len() implies (#[trigger] t[j]).0 != k by {
                let j0 = if j < i { j } else { j + 1 };
                assert(t[j] == s[j0]);
                if j0 != i {
                    if j0 < i {
                        assert(s[j0].0 != k);
                    } else {
                        assert(s[i].0 != s[j0].0);
                    }
                }
            }
            lemma_absent_has_no_position(t, k);
        },
        None => {
            assert forall|j: int| 0 <= j < s.len() implies (#[trigger] s[j]).0 != k by {
                if s[j].0 == k {
                    assert forall|m: int| 0 <= m < j implies (#[trigger] s[m]).0 != k by {
                        assert(s[m].0 != s[j].0);
                    }
                    assert(is_first(s, k, j));
                }
            }
            lemma_absent_has_no_position(t, k);
        },
    }
}

/// The entries of an optional table; an absent table has none.
pub open spec fn table_of(t: Option<AliasTable>) -> Seq<(Seq<char>, Seq<char>)> {
    match t {
        Some(t) => t@,
        None => Seq::empty(),
    }
}

/// `new` is `old` with `value` stored under `key`.
pub open spec fn entry_put(
    old: Option<AliasTable>,
    new: Option<AliasTable>,
    key: Seq<char>,
    value: Seq<char>,
) -> bool {
    new matches Some(t) && t@ == put(table_of(old), key, value)
}

/// `new` is `old` without the entry named `key`; a table left empty is dropped.
pub open spec fn entry_dropped(old: Option<AliasTable>, new: Option<AliasTable>, key: Seq<char>) -> bool {
    match old {
        None => new is None,
        Some(t) => if without(t@, key).len() == 0 {
            new is None
        } else {
            new matches Some(n) && n@ == without(t@, key)
        },
    }
}

/// Stores `value` under `key` in an optional table, creating it where there is none.
fn put_entry(slot: &mut Option<AliasTable>, key: String, value: String)
    ensures
        entry_put(*old(slot), *final(slot), key@, value@),
{
    let mut t = match slot.take() {
        Some(t) => t,
        None => AliasTable::new(),
    };
    t.insert(key, value);
    *slot = Some(t);
}

/// Removes `key` from an optional table; a table left empty is dropped.
fn drop_entry(slot: &mut Option<AliasTable>, key: &str)
    ensures
        entry_dropped(*old(slot), *final(slot), key@),
{
    match slot.take() {
        None => {},
        Some(mut t) => {
            t.remove(key);
            if !t.is_empty() {
                *slot = Some(t);
            }
        },
    }
}

impl Alias {
    /// Stores an alias for an activity, lower-cased.
    pub fn add_activity_alias(&mut self, alias: String, activity_id: String)
        ensures
            final(self).tag == old(self).tag,
            entry_put(old(self).activity, final(self).activity, lower_of(alias@), activity_id@),
    {
        let key = lowercase(alias.as_str());
        put_entry(&mut self.activity, key, activity_id);
    }

    /// Removes the alias of an activity; a table left empty is dropped.
    pub fn remove_activity_alias(&mut self, alias: &str)
        ensures
            final(self).tag == old(self).tag,
            entry_dropped(old(self).activity, final(self).activity, lower_of(alias@)),
    {
        let key = lowercase(alias);
        drop_entry(&mut self.activity, key.as_str());
    }

    /// Stores an alias for a tag, lower-cased.
    pub fn add_tag_alias(&mut self, alias: String, tag_id: String)
        ensures
            final(self).activity == old(self).activity,
            entry_put(old(self).tag, final(self).tag, lower_of(alias@), tag_id@),
    {
        let key = lowercase(alias.as_str());
        put_entry(&mut self.tag, key, tag_id);
    }

    /// Removes the alias of a tag; a table left empty is dropped.
    pub fn remove_tag_alias(&mut self, alias: &str)
        ensures
            final(self).activity == old(self).activity,
            entry_dropped(old(self).tag, final(self).tag, lower_of(alias@)),
    {
        let key = lowercase(alias);
        drop_entry(&mut self.tag, key.as_str());
    }
}

/// The alias section, or an empty one where there is none.
pub open spec fn alias_or_empty(a: Option<Alias>) -> Alias {
    match a {
        Some(a) => a,
        None => Alias { activity: None, tag: None },
    }
}

impl Default for Settings {
    fn default() -> (s: Settings)
        ensures
            s.auth is None,
            s.alias is None,
    {
        Settings { auth: None, alias: None }
    }
}

impl Settings {
    /// Stores a credential pair, replacing any stored before.
    pub fn set_auth(&mut self, api_key: &str, api_secret: &str)
        ensures
            final(self).alias == old(self).alias,
            final(self).auth matches Some(a) && (a.api_key matches Some(k) && k@ == api_key@) && (
            a.api_secret matches Some(s) && s@ == api_secret@),
    {
        self.auth = Some(
            Authentication {
                api_key: Some(String::from_str(api_key)),
                api_secret: Some(String::from_str(api_secret)),
            },
        );
    }

    /// Stores an alias for an activity, creating the alias section where there is none.
    pub fn add_activity_alias(&mut self, alias: String, activity_id: String)
        ensures
            final(self).auth == old(self).auth,
            final(self).alias is Some,
            alias_or_empty(final(self).alias).tag == alias_or_empty(old(self).alias).tag,
            entry_put(
                alias_or_empty(old(self).alias).activity,
                alias_or_empty(final(self).alias).activity,
                lower_of(alias@),
                activity_id@,
            ),
    {
        let mut section = match self.alias.take() {
            Some(a) => a,
            None => Alias { activity: None, tag: None },
        };
        section.add_activity_alias(alias, activity_id);
        self.alias = Some(section);
    }

    /// Stores an alias for a tag, creating the alias section where there is none.
    pub fn add_tag_alias(&mut self, alias: String, tag_id: String)
        ensures
            final(self).auth == old(self).auth,
            final(self).alias is Some,
            alias_or_empty(final(self).alias).activity == alias_or_empty(old(self).alias).activity,
            entry_put(
                alias_or_empty(old(self).alias).tag,
                alias_or_empty(final(self).alias).tag,
                lower_of(alias@),
                tag_id@,
            ),
    {
        let mut section = match self.alias.take() {
            Some(a) => a,
            None => Alias { activity: None, tag: None },
        };
        section.add_tag_alias(alias, tag_id);
        self.alias = Some(section);
    }

    /// Removes the alias of an activity; an alias section left empty is dropped.
    pub fn remove_activity_alias(&mut self, alias: &str)
        ensures
            final(self).auth == old(self).auth,
            old(self).alias is None ==> final(self).alias is None,
            final(self).alias matches Some(a) ==> !(a.activity is None && a.tag is None),
            old(self).alias is Some ==> {
                &&& alias_or_empty(final(self).alias).tag == alias_or_empty(old(self).alias).tag
                &&& entry_dropped(
                    alias_or_empty(old(self).alias).activity,
                    alias_or_empty(final(self).alias).activity,
                    lower_of(alias@),
                )
            },
    {
        match self.alias.take() {
            None => {},
            Some(mut section) => {
                section.remove_activity_alias(alias);
                if section.tag.is_some() || section.activity.is_some() {
                    self.alias = Some(section);
                }
            },
        }
    }

    /// Removes the alias of a tag; an alias section left empty is dropped.
    pub fn remove_tag_alias(&mut self, alias: &str)
        ensures
            final(self).auth == old(self).auth,
            old(self).alias is None ==> final(self).alias is None,
            final(self).alias matches Some(a) ==> !(a.activity is None && a.tag is None),
            old(self).alias is Some ==> {
                &&& alias_or_empty(final(self).alias).activity == alias_or_empty(
                    old(self).alias,
                ).activity
                &&& entry_dropped(
                    alias_or_empty(old(self).alias).tag,
                    alias_or_empty(final(self).alias).tag,
                    lower_of(alias@),
                )
            },
    {
        match self.alias.take() {
            None => {},
            Some(mut section) => {
                section.remove_tag_alias(alias);
                if section.tag.is_some() || section.activity.is_some() {
                    self.alias = Some(section);
                }
            },
        }
    }
}

/// The directory of the settings file, below the home directory where one is known.
pub open spec fn cfg_dir_of(home: Option<Seq<char>>) -> Seq<char> {
    match home {
        Some(h) => h + "/"@ + ".tmlr"@,
        None => ".tmlr"@,
    }
}

/// The directory of the settings file: `.tmlr` in the home directory, or in
/// the working directory where no home directory is known.
pub fn get_default_cfg_dir(home: Option<&str>) -> (r: String)
    ensures
        r@ == cfg_dir_of(
            match home {
                Some(h) => Some(h@),
                None => None,
            },
        ),
{
    match home {
        Some(h) => {
            let mut r = String::from_str(h);
            r.append("/");
            r.append(".tmlr");
            r
        },
        None => String::from_str(".tmlr"),
    }
}

/// The settings file at its default place: `config.toml` in the settings directory.
pub fn get_default_file_path(home: Option<&str>) -> (r: String)
    ensures
        r@ == cfg_dir_of(
            match home {
                Some(h) => Some(h@),
                None => None,
            },
        ) + "/"@ + "config.toml"@,
{
    let mut r = get_default_cfg_dir(home);
    r.append("/");
    r.append("config.toml");
    r
}

/// What an attempt to read the settings file comes to. Where no path was given
/// and the file at the default place does not exist yet, the settings start
/// empty; every other failure is reported.
pub fn load_settings(custom_path: Option<&str>, loaded: Result<Settings, ConfigurationError>) -> (r:
    Result<Settings, Error>)
    ensures
        match loaded {
            Ok(s) => r == Ok::<Settings, Error>(s),
            Err(e) => if custom_path is None && e is FileNotFoundError {
                r matches Ok(s) && s.auth is None && s.alias is None
            } else {
                r == Err::<Settings, Error>(Error::Config(e))
            },
        },
{
    match loaded {
        Ok(s) => Ok(s),
        Err(e) => {
            let missing = match &e {
                ConfigurationError::FileNotFoundError(_) => true,
                _ => false,
            };
            if custom_path.is_none() && missing {
                Ok(Settings::default())
            } else {
                Err(Error::Config(e))
            }
        },
    }
}

} // verus!
