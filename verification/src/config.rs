//! Key-value configuration: string keys mapped to string values, with typed
//! readers for booleans and integers. The store keeps at most one entry per
//! key; `set` replaces.

use vstd::prelude::*;

verus! {

/// What parsing a string as a signed 32-bit integer yields, as a function
/// of its characters alone.
pub uninterp spec fn spec_parsed_i32(s: Seq<char>) -> Option<i32>;

/// Relies on `str::parse::<i32>`: the parsed integer, or nothing for text
/// that is not one; a function of the characters alone.
#[verifier::external_body]
fn parse_i32(s: &str) -> (r: Option<i32>)
    ensures
        r == spec_parsed_i32(s@),
{
    s.parse().ok()
}

/// Whether the entry at `i` is the earliest one carrying `key`.
pub open spec fn spec_entry_found(s: Seq<(String, String)>, key: Seq<char>, i: int) -> bool {
    &&& 0 <= i < s.len()
    &&& s[i].0@ == key
    &&& forall|j: int| 0 <= j < i ==> s[j].0@ != key
}

/// The value stored under `key`, if any: the second component of the
/// earliest entry carrying the key.
pub open spec fn spec_lookup(s: Seq<(String, String)>, key: Seq<char>) -> Option<Seq<char>> {
    if exists|i: int| spec_entry_found(s, key, i) {
        Some(s[choose|i: int| spec_entry_found(s, key, i)].1@)
    } else {
        None
    }
}

/// Two earliest-entry indices for one key coincide.
proof fn lemma_found_unique(s: Seq<(String, String)>, key: Seq<char>, i: int, j: int)
    requires
        spec_entry_found(s, key, i),
        spec_entry_found(s, key, j),
    ensures
        i == j,
{
    if i < j {
        assert(s[i].0@ != key);
    }
    if j < i {
        assert(s[j].0@ != key);
    }
}

/// An earliest entry determines the lookup.
proof fn lemma_lookup_of_found(s: Seq<(String, String)>, key: Seq<char>, i: int)
    requires
        spec_entry_found(s, key, i),
    ensures
        spec_lookup(s, key) == Some(s[i].1@),
{
    let c = choose|c: int| spec_entry_found(s, key, c);
    lemma_found_unique(s, key, i, c);
}

/// The configuration store.
#[derive(Debug)]
pub struct Config {
    values: Vec<(String, String)>,
}

/// The earliest index carrying `key`, if any.
fn find_entry(values: &Vec<(String, String)>, key: &str) -> (r: Option<usize>)
    ensures
        match r {
            Some(i) => spec_entry_found(values@, key@, i as int),
            None => forall|j: int| 0 <= j < values@.len() ==> (#[trigger] values@[j].0)@ != key@,
        },
{
    let mut i: usize = 0;
    while i < values.len()
        invariant
            i <= values@.len(),
            forall|j: int| 0 <= j < i ==> values@[j].0@ != key@,
        decreases values@.len() - i,
    {
        if values[i].0 == String::from_str(key) {
            return Some(i);
        }
        i = i + 1;
    }
    None
}

impl Config {
    /// The stored entries, in insertion order.
    pub closed spec fn spec_entries(&self) -> Seq<(String, String)> {
        self.values@
    }

    /// The value stored under `key`, if any.
    pub open spec fn spec_get(&self, key: Seq<char>) -> Option<Seq<char>> {
        spec_lookup(self.spec_entries(), key)
    }

    /// An empty configuration.
    pub fn new() -> (r: Config)
        ensures
            r.spec_entries().len() == 0,
            forall|key: Seq<char>| r.spec_get(key) is None,
    {
        let r = Config { values: Vec::new() };
        proof {
            assert forall|key: Seq<char>| r.spec_get(key) is None by {
                if exists|i: int| spec_entry_found(r.values@, key, i) {
                    let i = choose|i: int| spec_entry_found(r.values@, key, i);
                }
            }
        }
        r
    }

    /// Stores a value under a key, replacing the earliest entry carrying
    /// the key or adding one.
    pub fn set(&mut self, key: &str, value: &str)
        ensures
            final(self).spec_get(key@) == Some(value@),
            forall|other: Seq<char>|
                other != key@ ==> final(self).spec_get(other) == old(self).spec_get(other),
    {
        let entry = (String::from_str(key), String::from_str(value));
        let ghost olds = self.values@;
        match find_entry(&self.values, key) {
            Some(i) => {
                self.values[i] = entry;
                proof {
                    let news = self.values@;
                    assert(olds[i as int].0@ == key@);
                    assert(forall|j: int|
                        0 <= j < news.len() && j != i ==> (#[trigger] news[j]) == olds[j]);
                    assert(spec_entry_found(news, key@, i as int));
                    lemma_lookup_of_found(news, key@, i as int);
                    assert forall|other: Seq<char>| other != key@ implies spec_lookup(news, other)
                        == spec_lookup(olds, other) by {
                        if exists|c: int| spec_entry_found(olds, other, c) {
                            let c = choose|c: int| spec_entry_found(olds, other, c);
                            assert(c != i);
                            assert(news[c].0@ == other);
                            assert forall|j: int| 0 <= j < c implies (#[trigger] news[j].0)@
                                != other by {
                                if j == i {
                                    assert(news[j].0@ == key@);
                                } else {
                                    assert(news[j] == olds[j]);
                                }
                            }
                            assert(spec_entry_found(news, other, c));
                            lemma_lookup_of_found(olds, other, c);
                            lemma_lookup_of_found(news, other, c);
                        } else {
                            if exists|c: int| spec_entry_found(news, other, c) {
                                let c = choose|c: int| spec_entry_found(news, other, c);
                                assert(c != i);
                                assert(olds[c].0@ == other);
                                assert forall|j: int| 0 <= j < c implies (#[trigger] olds[j].0)@
                                    != other by {
                                    if j == i {
                                        assert(olds[j].0@ == key@);
                                    } else {
                                        assert(news[j] == olds[j]);
                                    }
                                }
                                assert(spec_entry_found(olds, other, c));
                            }
                        }
                    }
                }
            },
            None => {
                self.values.push(entry);
                proof {
                    let news = self.values@;
                    assert(news[olds.len() as int].0@ == key@);
                    assert(forall|j: int|
                        0 <= j < olds.len() ==> (#[trigger] news[j]) == olds[j]);
                    assert(spec_entry_found(news, key@, olds.len() as int));
                    lemma_lookup_of_found(news, key@, olds.len() as int);
                    assert forall|other: Seq<char>| other != key@ implies spec_lookup(news, other)
                        == spec_lookup(olds, other) by {
                        if exists|c: int| spec_entry_found(olds, other, c) {
                            let c = choose|c: int| spec_entry_found(olds, other, c);
                            assert(news[c].0@ == other);
                            assert(forall|j: int|
                                0 <= j < c ==> (#[trigger] news[j].0)@ != other);
                            assert(spec_entry_found(news, other, c));
                            lemma_lookup_of_found(olds, other, c);
                            lemma_lookup_of_found(news, other, c);
                            assert(news[c].1 == olds[c].1);
                        } else {
                            if exists|c: int| spec_entry_found(news, other, c) {
                                let c = choose|c: int| spec_entry_found(news, other, c);
                                assert(c != olds.len());
                                assert(olds[c].0@ == other);
                                assert forall|j: int| 0 <= j < c implies (#[trigger] olds[j].0)@
                                    != other by {
                                    assert(news[j] == olds[j]);
                                    assert(news[j].0@ != other);
                                }
                                assert(spec_entry_found(olds, other, c));
                            }
                        }
                    }
                }
            },
        }
    }

    /// The value stored under `key`, if any.
    pub fn get(&self, key: &str) -> (r: Option<&String>)
        ensures
            match r {
                Some(v) => self.spec_get(key@) == Some(v@),
                None => self.spec_get(key@) is None,
            },
    {
        match find_entry(&self.values, key) {
            Some(i) => {
                proof {
                    lemma_lookup_of_found(self.values@, key@, i as int);
                }
                Some(&self.values[i].1)
            },
            None => {
                proof {
                    if exists|c: int| spec_entry_found(self.values@, key@, c) {
                        let c = choose|c: int| spec_entry_found(self.values@, key@, c);
                    }
                }
                None
            },
        }
    }

    /// The value stored under `key`, or the given default.
    pub fn get_or_default(&self, key: &str, default: &str) -> (r: String)
        ensures
            self.spec_get(key@) is Some ==> r@ == self.spec_get(key@)->0,
            self.spec_get(key@) is None ==> r@ == default@,
    {
        match self.get(key) {
            Some(v) => v.clone(),
            None => String::from_str(default),
        }
    }

    /// The boolean stored under `key`: `Some` exactly for the texts `true`
    /// and `false`.
    pub fn get_bool(&self, key: &str) -> (r: Option<bool>)
        ensures
            self.spec_get(key@) == Some("true"@) ==> r == Some(true),
            self.spec_get(key@) == Some("false"@) ==> r == Some(false),
            r is None <==> !(self.spec_get(key@) == Some("true"@) || self.spec_get(key@) == Some(
                "false"@,
            )),
    {
        proof {
            reveal_strlit("true");
            reveal_strlit("false");
            assert("true"@[0] == 't' && "false"@[0] == 'f');
        }
        match self.get(key) {
            Some(v) => {
                if *v == String::from_str("true") {
                    Some(true)
                } else if *v == String::from_str("false") {
                    Some(false)
                } else {
                    None
                }
            },
            None => None,
        }
    }

    /// The integer stored under `key`, parsed as the parser names it.
    pub fn get_int(&self, key: &str) -> (r: Option<i32>)
        ensures
            self.spec_get(key@) is Some ==> r == spec_parsed_i32(self.spec_get(key@)->0),
            self.spec_get(key@) is None ==> r is None,
    {
        match self.get(key) {
            Some(v) => parse_i32(v.as_str()),
            None => None,
        }
    }

    /// Copies every entry of `other` into this store, overwriting on
    /// matching keys; an entry of `other` shadowed by a later duplicate in
    /// `other` itself loses to that duplicate.
    pub fn merge(&mut self, other: &Config)
        ensures
            forall|key: Seq<char>|
                !spec_has_key(other.spec_entries(), key) ==> final(self).spec_get(key) == old(
                    self,
                ).spec_get(key),
    {
        let mut i: usize = 0;
        while i < other.values.len()
            invariant
                i <= other.values@.len(),
                forall|key: Seq<char>|
                    !spec_has_key(other.values@, key) ==> self.spec_get(key) == old(
                        self,
                    ).spec_get(key),
            decreases other.values@.len() - i,
        {
            let key = other.values[i].0.clone();
            let value = other.values[i].1.clone();
            proof {
                assert(spec_has_key(other.values@, key@));
            }
            self.set(key.as_str(), value.as_str());
            i = i + 1;
        }
    }

    /// The keys of every entry, in insertion order.
    pub fn keys(&self) -> (r: Vec<String>)
        ensures
            r@.len() == self.spec_entries().len(),
            forall|i: int|
                0 <= i < r@.len() ==> r@[i]@ == (#[trigger] self.spec_entries()[i]).0@,
    {
        let mut out: Vec<String> = Vec::new();
        let mut i: usize = 0;
        while i < self.values.len()
            invariant
                i <= self.values@.len(),
                out@.len() == i,
                forall|j: int| 0 <= j < i ==> out@[j]@ == (#[trigger] self.values@[j]).0@,
            decreases self.values@.len() - i,
    {
            out.push(self.values[i].0.clone());
            i = i + 1;
        }
        out
    }

    /// Whether the store holds an entry for `key`.
    pub fn contains_key(&self, key: &str) -> (r: bool)
        ensures
            r == (self.spec_get(key@) is Some),
    {
        match self.get(key) {
            Some(_) => true,
            None => false,
        }
    }
}

/// Whether any entry carries `key`.
pub open spec fn spec_has_key(s: Seq<(String, String)>, key: Seq<char>) -> bool {
    exists|i: int| 0 <= i < s.len() && s[i].0@ == key
}

impl Default for Config {
    fn default() -> (r: Config)
        ensures
            r.spec_entries().len() == 0,
    {
        Config::new()
    }
}

} // verus!
