//! Alias bookkeeping: a flat name-to-identifier mapping for devices.
//!
//! The store itself is an in-memory association of alias names to device
//! identifiers, viewed as a mathematical map; the layer that owns the disk
//! reads and writes the backing JSON file and hands the bytes in and out
//! through `from_json` and `to_json`. Resolution falls back to the name
//! itself when no alias is known, so an unaliased identifier passes through
//! unchanged.

use vstd::pervasive::VecAdditionalExecFns;
use vstd::prelude::*;

use crate::text::str_eq;

verus! {

/// The pairs of a sequence of owned strings, as their character sequences.
pub open spec fn entry_views(s: Seq<(String, String)>) -> Seq<(Seq<char>, Seq<char>)> {
    s.map_values(|p: (String, String)| (p.0@, p.1@))
}

/// The map a sequence of entries denotes: a later entry overwrites an
/// earlier one with the same key.
pub open spec fn map_of_entries(s: Seq<(Seq<char>, Seq<char>)>) -> Map<Seq<char>, Seq<char>>
    decreases s.len(),
{
    if s.len() == 0 {
        Map::empty()
    } else {
        map_of_entries(s.drop_last()).insert(s.last().0, s.last().1)
    }
}

spec fn has_key(s: Seq<(String, String)>, k: Seq<char>) -> bool {
    exists|i: int| 0 <= i < s.len() && s[i].0@ == k
}

spec fn value_of(s: Seq<(String, String)>, k: Seq<char>) -> Seq<char> {
    let i = choose|i: int| 0 <= i < s.len() && s[i].0@ == k;
    s[i].1@
}

spec fn unique_keys(s: Seq<(String, String)>) -> bool {
    forall|p: int, q: int| 0 <= p < q < s.len() ==> s[p].0@ != s[q].0@
}

spec fn view_of(s: Seq<(String, String)>) -> Map<Seq<char>, Seq<char>> {
    Map::new(|k: Seq<char>| has_key(s, k), |k: Seq<char>| value_of(s, k))
}

proof fn lemma_value_at(s: Seq<(String, String)>, i: int, k: Seq<char>)
    requires
        0 <= i < s.len(),
        s[i].0@ == k,
        unique_keys(s),
    ensures
        has_key(s, k),
        value_of(s, k) == s[i].1@,
{
    assert(has_key(s, k));
    let c = choose|j: int| 0 <= j < s.len() && s[j].0@ == k;
    if c < i {
        assert(s[c].0@ != s[i].0@);
    } else if i < c {
        assert(s[i].0@ != s[c].0@);
    }
}

proof fn lemma_view_after_push(s: Seq<(String, String)>, x: (String, String))
    requires
        unique_keys(s),
        forall|j: int| 0 <= j < s.len() ==> s[j].0@ != x.0@,
    ensures
        unique_keys(s.push(x)),
        view_of(s.push(x)) == view_of(s).insert(x.0@, x.1@),
{
    let t = s.push(x);
    assert forall|p: int, q: int| 0 <= p < q < t.len() implies t[p].0@ != t[q].0@ by {
        if q < s.len() {
            assert(t[p] == s[p] && t[q] == s[q]);
        } else {
            assert(t[q] == x && t[p] == s[p]);
        }
    }
    assert forall|k: Seq<char>| #[trigger] has_key(t, k) implies k == x.0@ || has_key(s, k) by {
        let j = choose|j: int| 0 <= j < t.len() && t[j].0@ == k;
        if j < s.len() {
            assert(s[j].0@ == k);
        } else {
            assert(t[j] == x);
        }
    }
    assert forall|k: Seq<char>| has_key(s, k) implies #[trigger] has_key(t, k) by {
        let j = choose|j: int| 0 <= j < s.len() && s[j].0@ == k;
        assert(t[j].0@ == k);
    }
    assert(t[s.len() as int] == x);
    lemma_value_at(t, s.len() as int, x.0@);
    assert forall|k: Seq<char>| has_key(s, k) && k != x.0@ implies value_of(t, k) == value_of(
        s,
        k,
    ) by {
        let j = choose|j: int| 0 <= j < s.len() && s[j].0@ == k;
        assert(t[j].0@ == k);
        lemma_value_at(t, j, k);
        lemma_value_at(s, j, k);
    }
    assert(view_of(t) =~= view_of(s).insert(x.0@, x.1@));
}

proof fn lemma_view_after_set(s: Seq<(String, String)>, i: int, x: (String, String))
    requires
        unique_keys(s),
        0 <= i < s.len(),
        s[i].0@ == x.0@,
    ensures
        unique_keys(s.update(i, x)),
        view_of(s.update(i, x)) == view_of(s).insert(x.0@, x.1@),
{
    let t = s.update(i, x);
    assert forall|p: int, q: int| 0 <= p < q < t.len() implies t[p].0@ != t[q].0@ by {
        assert(t[p].0@ == s[p].0@);
        assert(t[q].0@ == s[q].0@);
    }
    assert forall|k: Seq<char>| #[trigger] has_key(t, k) implies has_key(s, k) by {
        let j = choose|j: int| 0 <= j < t.len() && t[j].0@ == k;
        assert(s[j].0@ == k);
    }
    assert forall|k: Seq<char>| has_key(s, k) implies #[trigger] has_key(t, k) by {
        let j = choose|j: int| 0 <= j < s.len() && s[j].0@ == k;
        assert(t[j].0@ == k);
    }
    lemma_value_at(t, i, x.0@);
    assert forall|k: Seq<char>| has_key(s, k) && k != x.0@ implies value_of(t, k) == value_of(
        s,
        k,
    ) by {
        let j = choose|j: int| 0 <= j < s.len() && s[j].0@ == k;
        assert(j != i);
        assert(t[j] == s[j]);
        lemma_value_at(t, j, k);
        lemma_value_at(s, j, k);
    }
    assert(view_of(t) =~= view_of(s).insert(x.0@, x.1@));
}

proof fn lemma_view_after_remove(s: Seq<(String, String)>, i: int)
    requires
        unique_keys(s),
        0 <= i < s.len(),
    ensures
        unique_keys(s.remove(i)),
        view_of(s.remove(i)) == view_of(s).remove(s[i].0@),
{
    let t = s.remove(i);
    let key = s[i].0@;
    assert forall|p: int, q: int| 0 <= p < q < t.len() implies t[p].0@ != t[q].0@ by {
        let p0: int = if p < i {
            p
        } else {
            p + 1
        };
        let q0: int = if q < i {
            q
        } else {
            q + 1
        };
        assert(t[p] == s[p0]);
        assert(t[q] == s[q0]);
    }
    assert forall|k: Seq<char>| #[trigger] has_key(t, k) implies has_key(s, k) && k != key by {
        let j = choose|j: int| 0 <= j < t.len() && t[j].0@ == k;
        let j0: int = if j < i {
            j
        } else {
            j + 1
        };
        assert(t[j] == s[j0]);
        assert(s[j0].0@ == k);
        if j0 < i {
            assert(s[j0].0@ != s[i].0@);
        } else {
            assert(s[i].0@ != s[j0].0@);
        }
    }
    assert forall|k: Seq<char>| has_key(s, k) && k != key implies #[trigger] has_key(t, k) by {
        let j = choose|j: int| 0 <= j < s.len() && s[j].0@ == k;
        assert(j != i);
        let jn: int = if j < i {
            j
        } else {
            j - 1
        };
        assert(t[jn] == s[j]);
        assert(t[jn].0@ == k);
    }
    assert forall|k: Seq<char>| has_key(t, k) implies value_of(t, k) == value_of(s, k) by {
        let j = choose|j: int| 0 <= j < t.len() && t[j].0@ == k;
        let j0: int = if j < i {
            j
        } else {
            j + 1
        };
        assert(t[j] == s[j0]);
        assert(s[j0].0@ == k);
        lemma_value_at(t, j, k);
        lemma_value_at(s, j0, k);
    }
    assert(view_of(t) =~= view_of(s).remove(key));
}

/// The alias store: alias names mapped to device identifiers.
pub struct AliasManager {
    aliases: Vec<(String, String)>,
}

impl View for AliasManager {
    type V = Map<Seq<char>, Seq<char>>;

    closed spec fn view(&self) -> Map<Seq<char>, Seq<char>> {
        view_of(self.aliases@)
    }
}

impl AliasManager {
    /// Each alias name occurs at most once.
    pub closed spec fn wf(&self) -> bool {
        unique_keys(self.aliases@)
    }

    /// The store's entries as owned pairs, alias first, identifier second.
    pub closed spec fn entries(&self) -> Seq<(String, String)> {
        self.aliases@
    }

    /// An empty store.
    pub fn new() -> (m: Self)
        ensures
            m.wf(),
            m@ == Map::<Seq<char>, Seq<char>>::empty(),
            m.entries().len() == 0,
    {
        let m = AliasManager { aliases: Vec::new() };
        proof {
            assert(m@ =~= Map::<Seq<char>, Seq<char>>::empty());
        }
        m
    }

    /// The device identifier an alias maps to, if the alias is known.
    pub fn get_alias(&self, alias: &str) -> (r: Option<String>)
        requires
            self.wf(),
        ensures
            match r {
                Some(v) => self@.contains_key(alias@) && v@ == self@[alias@],
                None => !self@.contains_key(alias@),
            },
    {
        match index_of_key(&self.aliases, alias) {
            Some(i) => {
                let v = self.aliases[i].1.clone();
                proof {
                    lemma_value_at(self.aliases@, i as int, alias@);
                }
                Some(v)
            },
            None => None,
        }
    }

    /// Record an alias. An existing entry is replaced only when `overwrite`
    /// is set; otherwise the store is left as it was.
    pub fn add_alias(&mut self, alias: String, device_url: String, overwrite: bool)
        requires
            old(self).wf(),
        ensures
            final(self).wf(),
            final(self)@ == (if old(self)@.contains_key(alias@) && !overwrite {
                old(self)@
            } else {
                old(self)@.insert(alias@, device_url@)
            }),
    {
        let ghost ka = alias@;
        let ghost va = device_url@;
        let ghost prior = self.aliases@;
        match index_of_key(&self.aliases, alias.as_str()) {
            Some(i) => {
                if overwrite {
                    self.aliases.set(i, (alias, device_url));
                    proof {
                        lemma_view_after_set(prior, i as int, self.aliases@[i as int]);
                    }
                }
            },
            None => {
                self.aliases.push((alias, device_url));
                proof {
                    lemma_view_after_push(prior, self.aliases@.last());
                }
            },
        }
    }

    /// Forget an alias; removing an unknown alias leaves the store as it
    /// was.
    pub fn delete_alias(&mut self, alias: String)
        requires
            old(self).wf(),
        ensures
            final(self).wf(),
            final(self)@ == old(self)@.remove(alias@),
    {
        let ghost prior = self.aliases@;
        match index_of_key(&self.aliases, alias.as_str()) {
            Some(i) => {
                let _ = self.aliases.remove(i);
                proof {
                    lemma_view_after_remove(prior, i as int);
                }
            },
            None => {
                proof {
                    assert(self@ =~= self@.remove(alias@));
                }
            },
        }
    }

    /// The identifier a name stands for: its alias target if one is known,
    /// the name itself otherwise.
    pub fn resolve_alias(&self, alias: &str) -> (r: String)
        requires
            self.wf(),
        ensures
            r@ == (if self@.contains_key(alias@) {
                self@[alias@]
            } else {
                alias@
            }),
    {
        match self.get_alias(alias) {
            Some(v) => v,
            None => alias.to_owned(),
        }
    }

    /// All entries of the store, as owned copies.
    pub fn load_aliases(&self) -> (r: Vec<(String, String)>)
        ensures
            entry_views(r@) == entry_views(self.entries()),
            r@.len() == self.entries().len(),
    {
        let n = self.aliases.len();
        let mut out: Vec<(String, String)> = Vec::new();
        let mut i: usize = 0;
        while i < n
            invariant
                n == self.aliases.len(),
                i <= n,
                out@.len() == i,
                forall|j: int|
                    0 <= j < i ==> (#[trigger] out@[j]).0@ == self.aliases@[j].0@ && out@[j].1@
                        == self.aliases@[j].1@,
            decreases n - i,
        {
            out.push((self.aliases[i].0.clone(), self.aliases[i].1.clone()));
            i = i + 1;
        }
        proof {
            assert(entry_views(out@) =~= entry_views(self.aliases@));
        }
        out
    }
}

/// The JSON text that a sequence of alias entries renders to: one object,
/// keys sorted, values the identifier strings.
pub uninterp spec fn alias_json(entries: Seq<(Seq<char>, Seq<char>)>) -> Seq<char>;

/// The alias entries a byte string parses to — keys sorted — or nothing if
/// the bytes are not a JSON object of strings.
pub uninterp spec fn parsed_alias_entries(bytes: Seq<u8>) -> Option<Seq<(Seq<char>, Seq<char>)>>;

/// Relies on serde_json::to_string over a serde_json::Map built from the
/// pairs: the map is backed by an ordered tree, so the rendered JSON object
/// is a function of the pairs alone. Serializing string values cannot fail.
#[verifier::external_body]
fn render_alias_json(entries: &Vec<(String, String)>) -> (s: String)
    ensures
        s@ == alias_json(entry_views(entries@)),
{
    let mut m = serde_json::Map::new();
    for kv in entries.iter() {
        m.insert(kv.0.clone(), serde_json::Value::String(kv.1.clone()));
    }
    serde_json::to_string(&m).expect("a map of strings serializes")
}

/// Relies on serde_json::from_slice reading a JSON object into a
/// serde_json::Map, which is backed by an ordered tree: the outcome is a
/// function of the bytes alone. An object value that is not a string, or
/// bytes that are not a JSON object, parse to nothing.
#[verifier::external_body]
fn parse_alias_json(bytes: &Vec<u8>) -> (r: Option<Vec<(String, String)>>)
    ensures
        match r {
            Some(v) => parsed_alias_entries(bytes@) == Some(entry_views(v@)),
            None => parsed_alias_entries(bytes@) is None,
        },
{
    let m: serde_json::Map<String, serde_json::Value> = match serde_json::from_slice(
        bytes.as_slice(),
    ) {
        Ok(m) => m,
        Err(_) => return None,
    };
    let mut out: Vec<(String, String)> = Vec::new();
    for kv in m {
        match kv.1 {
            serde_json::Value::String(s) => out.push((kv.0, s)),
            _ => return None,
        }
    }
    Some(out)
}

impl AliasManager {
    /// The store rendered as the JSON object persisted on disk.
    pub fn to_json(&self) -> (s: String)
        ensures
            s@ == alias_json(entry_views(self.entries())),
    {
        render_alias_json(&self.aliases)
    }

    /// A store read back from the persisted JSON object, or nothing if the
    /// bytes do not hold a JSON object of strings. A duplicate key keeps
    /// its later value.
    pub fn from_json(bytes: &Vec<u8>) -> (r: Option<AliasManager>)
        ensures
            match r {
                Some(m) => {
                    &&& m.wf()
                    &&& parsed_alias_entries(bytes@) matches Some(es) && m@ == map_of_entries(es)
                },
                None => parsed_alias_entries(bytes@) is None,
            },
    {
        let parsed = match parse_alias_json(bytes) {
            Some(v) => v,
            None => {
                return None;
            },
        };
        let n = parsed.len();
        let mut m = AliasManager::new();
        let mut i: usize = 0;
        while i < n
            invariant
                n == parsed.len(),
                i <= n,
                m.wf(),
                m@ == map_of_entries(entry_views(parsed@).take(i as int)),
            decreases n - i,
        {
            m.add_alias(parsed[i].0.clone(), parsed[i].1.clone(), true);
            proof {
                let es = entry_views(parsed@);
                assert(es.take(i + 1int).drop_last() =~= es.take(i as int));
                assert(es.take(i + 1int).last() == es[i as int]);
            }
            i = i + 1;
        }
        proof {
            assert(entry_views(parsed@).take(n as int) =~= entry_views(parsed@));
        }
        Some(m)
    }
}

fn index_of_key(v: &Vec<(String, String)>, key: &str) -> (r: Option<usize>)
    ensures
        match r {
            Some(i) => i < v@.len() && v@[i as int].0@ == key@,
            None => forall|j: int| 0 <= j < v@.len() ==> v@[j].0@ != key@,
        },
{
    let n = v.len();
    let mut i: usize = 0;
    while i < n
        invariant
            n == v.len(),
            i <= n,
            forall|j: int| 0 <= j < i ==> v@[j].0@ != key@,
        decreases n - i,
    {
        if str_eq(v[i].0.as_str(), key) {
            return Some(i);
        }
        i = i + 1;
    }
    None
}

} // verus!
