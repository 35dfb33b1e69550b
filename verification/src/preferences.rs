//! The store behind the `preferences` plugin of the mobile action registry:
//! JSON values (kept as their JSON text) under string keys, and the plugin's
//! methods `get`, `set`, `remove`, `keys` and `clear` on it. Loading and
//! saving the store's file is left to the caller.
use vstd::prelude::*;
use crate::benchmark::{ascending, insert_sorted};
use crate::text::{push_str, str_eq, sviews, to_owned_string};

verus! {

/// Key-value pairs with no key twice.
pub struct Preferences {
    entries: Vec<(String, String)>,
}

pub open spec fn has_key(es: Seq<(String, String)>, k: Seq<char>) -> bool {
    exists|i: int| 0 <= i < es.len() && (#[trigger] es[i]).0@ == k
}

pub open spec fn index_of_key(es: Seq<(String, String)>, k: Seq<char>) -> int {
    choose|i: int| 0 <= i < es.len() && (#[trigger] es[i]).0@ == k
}

pub open spec fn keys_unique(es: Seq<(String, String)>) -> bool {
    forall|i: int, j: int| 0 <= i < j < es.len() ==> (#[trigger] es[i]).0@ != (#[trigger] es[j]).0@
}

/// The map that a list of pairs with distinct keys stands for.
pub open spec fn entries_map(es: Seq<(String, String)>) -> Map<Seq<char>, Seq<char>> {
    Map::new(|k: Seq<char>| has_key(es, k), |k: Seq<char>| es[index_of_key(es, k)].1@)
}

/// The value under a key, if there is one.
pub open spec fn lookup(m: Map<Seq<char>, Seq<char>>, k: Seq<char>) -> Option<Seq<char>> {
    if m.contains_key(k) {
        Some(m[k])
    } else {
        None
    }
}

impl View for Preferences {
    type V = Map<Seq<char>, Seq<char>>;

    closed spec fn view(&self) -> Map<Seq<char>, Seq<char>> {
        entries_map(self.entries@)
    }
}

proof fn lemma_index_of_key(es: Seq<(String, String)>, i: int)
    requires
        keys_unique(es),
        0 <= i < es.len(),
    ensures
        has_key(es, es[i].0@),
        index_of_key(es, es[i].0@) == i,
{
    let k = es[i].0@;
    assert(has_key(es, k));
    let j = index_of_key(es, k);
    if j < i {
        assert(es[j].0@ != es[i].0@);
    } else if j > i {
        assert(es[i].0@ != es[j].0@);
    }
}

impl Preferences {
    #[verifier::type_invariant]
    spec fn inv(self) -> bool {
        keys_unique(self.entries@)
    }

    /// The empty store.
    pub fn new() -> (r: Self)
        ensures
            r@ == Map::<Seq<char>, Seq<char>>::empty(),
    {
        let r = Preferences { entries: Vec::new() };
        assert(r@ =~= Map::<Seq<char>, Seq<char>>::empty());
        r
    }

    fn find(&self, key: &str) -> (r: Option<usize>)
        ensures
            match r {
                Some(i) => i < self.entries@.len() && self.entries@[i as int].0@ == key@,
                None => !has_key(self.entries@, key@),
            },
    {
        let mut i: usize = 0;
        while i < self.entries.len()
            invariant
                i <= self.entries@.len(),
                forall|j: int| 0 <= j < i ==> (#[trigger] self.entries@[j]).0@ != key@,
            decreases self.entries@.len() - i,
        {
            if str_eq(self.entries[i].0.as_str(), key) {
                return Some(i);
            }
            i = i + 1;
        }
        None
    }

    /// The JSON text under `key`.
    pub fn get(&self, key: &str) -> (r: Option<String>)
        ensures
            match r {
                Some(v) => lookup(self@, key@) == Some(v@),
                None => lookup(self@, key@) is None,
            },
    {
        proof {
            use_type_invariant(self);
        }
        match self.find(key) {
            Some(i) => {
                proof {
                    lemma_index_of_key(self.entries@, i as int);
                }
                Some(to_owned_string(self.entries[i].1.as_str()))
            },
            None => None,
        }
    }

    /// Stores `value` under `key`, replacing what was there.
    pub fn set(&mut self, key: String, value: String)
        ensures
            final(self)@ == old(self)@.insert(key@, value@),
    {
        proof {
            use_type_invariant(&*self);
        }
        let ghost old_es = self.entries@;
        let ghost k = key@;
        let ghost v = value@;
        match self.find(key.as_str()) {
            Some(i) => {
                proof {
                    lemma_index_of_key(old_es, i as int);
                }
                let mut taken: Vec<(String, String)> = Vec::new();
                std::mem::swap(&mut taken, &mut self.entries);
                taken.set(i, (key, value));
                proof {
                    let es = taken@;
                    assert(es == old_es.update(i as int, es[i as int]));
                    assert forall|a: int, b: int| 0 <= a < b < es.len() implies (#[trigger] es[a]).0@ != (#[trigger] es[b]).0@ by {
                        if a != i && b != i {
                            assert(es[a] == old_es[a] && es[b] == old_es[b]);
                        } else if a == i {
                            assert(es[b] == old_es[b]);
                            assert(old_es[i as int].0@ != old_es[b].0@);
                        } else {
                            assert(es[a] == old_es[a]);
                            assert(old_es[a].0@ != old_es[i as int].0@);
                        }
                    }
                    assert forall|q: Seq<char>| #[trigger] has_key(es, q) == (has_key(old_es, q) || q == k) by {
                        if has_key(es, q) {
                            let j = choose|j: int| 0 <= j < es.len() && (#[trigger] es[j]).0@ == q;
                            if j != i {
                                assert(old_es[j] == es[j]);
                            }
                        }
                        if has_key(old_es, q) {
                            let j = choose|j: int| 0 <= j < old_es.len() && (#[trigger] old_es[j]).0@ == q;
                            if j != i {
                                assert(old_es[j] == es[j]);
                            } else {
                                assert(es[i as int].0@ == k);
                            }
                        }
                    }
                    assert forall|q: Seq<char>| has_key(es, q) implies es[index_of_key(es, q)].1@ == (
                    #[trigger] entries_map(old_es).insert(k, v))[q] by {
                        let j = index_of_key(es, q);
                        lemma_index_of_key(es, j);
                        if q == k {
                            lemma_index_of_key(es, i as int);
                        } else {
                            assert(j != i);
                            assert(old_es[j] == es[j]);
                            lemma_index_of_key(old_es, j);
                        }
                    }
                    assert(entries_map(es) =~= entries_map(old_es).insert(k, v));
                }
                self.entries = taken;
            },
            None => {
                let mut taken: Vec<(String, String)> = Vec::new();
                std::mem::swap(&mut taken, &mut self.entries);
                taken.push((key, value));
                proof {
                    let es = taken@;
                    let n = old_es.len() as int;
                    assert forall|a: int, b: int| 0 <= a < b < es.len() implies (#[trigger] es[a]).0@ != (#[trigger] es[b]).0@ by {
                        assert(es[a] == old_es[a]);
                        if b < n {
                            assert(es[b] == old_es[b]);
                        } else {
                            assert(es[b].0@ == k);
                            assert(!(0 <= a < old_es.len() && old_es[a].0@ == k));
                        }
                    }
                    assert forall|q: Seq<char>| #[trigger] has_key(es, q) == (has_key(old_es, q) || q == k) by {
                        if has_key(es, q) {
                            let j = choose|j: int| 0 <= j < es.len() && (#[trigger] es[j]).0@ == q;
                            if j < n {
                                assert(old_es[j] == es[j]);
                            }
                        }
                        if has_key(old_es, q) {
                            let j = choose|j: int| 0 <= j < old_es.len() && (#[trigger] old_es[j]).0@ == q;
                            assert(old_es[j] == es[j]);
                        }
                        if q == k {
                            assert(es[n].0@ == k);
                        }
                    }
                    assert forall|q: Seq<char>| has_key(es, q) implies es[index_of_key(es, q)].1@ == (
                    #[trigger] entries_map(old_es).insert(k, v))[q] by {
                        let j = index_of_key(es, q);
                        lemma_index_of_key(es, j);
                        if q == k {
                            lemma_index_of_key(es, n);
                        } else {
                            assert(j != n);
                            assert(old_es[j] == es[j]);
                            lemma_index_of_key(old_es, j);
                        }
                    }
                    assert(entries_map(es) =~= entries_map(old_es).insert(k, v));
                }
                self.entries = taken;
            },
        }
    }

    /// Removes `key`; whether it was there.
    pub fn remove(&mut self, key: &str) -> (r: bool)
        ensures
            r == old(self)@.contains_key(key@),
            final(self)@ == old(self)@.remove(key@),
    {
        proof {
            use_type_invariant(&*self);
        }
        let ghost old_es = self.entries@;
        let ghost k = key@;
        match self.find(key) {
            Some(i) => {
                proof {
                    lemma_index_of_key(old_es, i as int);
                }
                let mut taken: Vec<(String, String)> = Vec::new();
                std::mem::swap(&mut taken, &mut self.entries);
                let _gone = taken.remove(i);
                proof {
                    let es = taken@;
                    let ii = i as int;
                    assert forall|a: int| 0 <= a < es.len() implies #[trigger] es[a] == old_es[if a < ii { a } else { a + 1 }] by {}
                    assert forall|a: int, b: int| 0 <= a < b < es.len() implies (#[trigger] es[a]).0@ != (#[trigger] es[b]).0@ by {
                        let oa = if a < ii { a } else { a + 1 };
                        let ob = if b < ii { b } else { b + 1 };
                        assert(es[a] == old_es[oa] && es[b] == old_es[ob]);
                    }
                    assert forall|q: Seq<char>| #[trigger] has_key(es, q) == (has_key(old_es, q) && q != k) by {
                        if has_key(es, q) {
                            let j = choose|j: int| 0 <= j < es.len() && (#[trigger] es[j]).0@ == q;
                            let oj = if j < ii { j } else { j + 1 };
                            assert(es[j] == old_es[oj]);
                            assert(old_es[oj].0@ == q);
                            if q == k {
                                assert(oj != ii);
                                if oj < ii {
                                    assert(old_es[oj].0@ != old_es[ii].0@);
                                } else {
                                    assert(old_es[ii].0@ != old_es[oj].0@);
                                }
                            }
                        }
                        if has_key(old_es, q) && q != k {
                            let j = choose|j: int| 0 <= j < old_es.len() && (#[trigger] old_es[j]).0@ == q;
                            assert(j != ii);
                            let nj = if j < ii { j } else { j - 1 };
                            assert(es[nj] == old_es[j]);
                        }
                    }
                    assert forall|q: Seq<char>| has_key(es, q) implies es[index_of_key(es, q)].1@ == (
                    #[trigger] entries_map(old_es).remove(k))[q] by {
                        let j = index_of_key(es, q);
                        lemma_index_of_key(es, j);
                        let oj = if j < ii { j } else { j + 1 };
                        assert(es[j] == old_es[oj]);
                        lemma_index_of_key(old_es, oj);
                    }
                    assert(entries_map(es) =~= entries_map(old_es).remove(k));
                }
                self.entries = taken;
                true
            },
            None => {
                assert(entries_map(old_es) =~= entries_map(old_es).remove(k));
                false
            },
        }
    }

    /// Removes every key.
    pub fn clear(&mut self)
        ensures
            final(self)@ == Map::<Seq<char>, Seq<char>>::empty(),
    {
        self.entries = Vec::new();
        assert(entries_map(self.entries@) =~= Map::<Seq<char>, Seq<char>>::empty());
    }

    /// The keys, in ascending order.
    pub fn keys(&self) -> (r: Vec<String>)
        ensures
            ascending(sviews(r@)),
            forall|s: Seq<char>| #[trigger] sviews(r@).contains(s) == self@.contains_key(s),
    {
        proof {
            use_type_invariant(self);
        }
        let ghost es = self.entries@;
        let mut r: Vec<String> = Vec::new();
        let mut i: usize = 0;
        while i < self.entries.len()
            invariant
                i <= es.len(),
                es == self.entries@,
                keys_unique(es),
                ascending(sviews(r@)),
                forall|s: Seq<char>| #[trigger] sviews(r@).contains(s) == (exists|j: int| 0 <= j < i && (#[trigger] es[j]).0@ == s),
            decreases es.len() - i,
        {
            let k = to_owned_string(self.entries[i].0.as_str());
            proof {
                if sviews(r@).contains(k@) {
                    let j = choose|j: int| 0 <= j < i && (#[trigger] es[j]).0@ == k@;
                    assert(es[j].0@ != es[i as int].0@);
                }
            }
            let ghost before = sviews(r@);
            insert_sorted(&mut r, k);
            proof {
                assert forall|s: Seq<char>| #[trigger] sviews(r@).contains(s) == (exists|j: int| 0 <= j < i + 1 && (#[trigger] es[j]).0@ == s) by {
                    if sviews(r@).contains(s) && s != es[i as int].0@ {
                        assert(before.contains(s));
                    }
                    if s == es[i as int].0@ {
                        assert(0 <= i < i + 1 && es[i as int].0@ == s);
                    }
                    if exists|j: int| 0 <= j < i + 1 && (#[trigger] es[j]).0@ == s {
                        let j = choose|j: int| 0 <= j < i + 1 && (#[trigger] es[j]).0@ == s;
                        if j < i {
                            assert(before.contains(s));
                        }
                    }
                }
            }
            i = i + 1;
        }
        r
    }
}

/// What a `preferences` request answers.
#[derive(Debug, Clone, PartialEq, Eq)]
pub enum PreferencesReply {
    /// `get`: the JSON text under the key, or nothing (JSON `null`).
    Value(Option<String>),
    /// `set`: the key and the value stored.
    Stored { key: String, value: String },
    /// `remove`: the key and whether it was there.
    Removed { key: String, removed: bool },
    /// `keys`: every key, ascending.
    Keys(Vec<String>),
    /// `clear`.
    Cleared,
}

pub open spec fn missing_field(field: Seq<char>) -> Seq<char> {
    "payload missing string field "@ + field
}

/// Runs a `preferences` request with its `payload.key` (when a string) and
/// its `payload.value` (as JSON text, when present).
pub fn preferences_call(
    prefs: &mut Preferences,
    method: &str,
    key: Option<String>,
    value: Option<String>,
) -> (r: Result<PreferencesReply, String>)
    ensures
        method@ == "get"@ ==> match key {
            None => (r matches Err(m) && m@ == missing_field("key"@)),
            Some(k) => (r matches Ok(PreferencesReply::Value(v)) && match v {
                Some(x) => lookup(old(prefs)@, k@) == Some(x@),
                None => lookup(old(prefs)@, k@) is None,
            }),
        } && final(prefs)@ == old(prefs)@,
        method@ == "set"@ ==> match (key, value) {
            (None, _) => (r matches Err(m) && m@ == missing_field("key"@)) && final(prefs)@ == old(prefs)@,
            (Some(_), None) => (r matches Err(m) && m@ == "preferences.set requires payload.value"@) && final(prefs)@ == old(prefs)@,
            (Some(k), Some(v)) => r == Ok::<PreferencesReply, String>(PreferencesReply::Stored { key: k, value: v })
                && final(prefs)@ == old(prefs)@.insert(k@, v@),
        },
        method@ == "remove"@ ==> match key {
            None => (r matches Err(m) && m@ == missing_field("key"@)) && final(prefs)@ == old(prefs)@,
            Some(k) => r == Ok::<PreferencesReply, String>(PreferencesReply::Removed {
                key: k,
                removed: old(prefs)@.contains_key(k@),
            }) && final(prefs)@ == old(prefs)@.remove(k@),
        },
        method@ == "keys"@ ==> (r matches Ok(PreferencesReply::Keys(ks)) && ascending(sviews(ks@)) && forall|s: Seq<char>|
            #[trigger] sviews(ks@).contains(s) == old(prefs)@.contains_key(s)) && final(prefs)@ == old(prefs)@,
        method@ == "clear"@ ==> r == Ok::<PreferencesReply, String>(PreferencesReply::Cleared) && final(prefs)@ == Map::<
            Seq<char>,
            Seq<char>,
        >::empty(),
        method@ != "get"@ && method@ != "set"@ && method@ != "remove"@ && method@ != "keys"@ && method@ != "clear"@
            ==> (r matches Err(m) && m@ == "unsupported preferences method: "@ + method@) && final(prefs)@ == old(prefs)@,
{
    proof {
        reveal_strlit("payload missing string field key");
        reveal_strlit("payload missing string field ");
        reveal_strlit("key");
        reveal_strlit("get");
        reveal_strlit("set");
        reveal_strlit("remove");
        reveal_strlit("keys");
        reveal_strlit("clear");
        assert("get"@[0] == 'g' && "set"@[0] == 's' && "remove"@[0] == 'r');
        assert("keys"@[0] == 'k' && "clear"@[0] == 'c');
    }
    if str_eq(method, "get") {
        match key {
            None => Err(to_owned_string("payload missing string field key")),
            Some(k) => Ok(PreferencesReply::Value(prefs.get(k.as_str()))),
        }
    } else if str_eq(method, "set") {
        match key {
            None => Err(to_owned_string("payload missing string field key")),
            Some(k) => match value {
                None => Err(to_owned_string("preferences.set requires payload.value")),
                Some(v) => {
                    let kk = k.clone();
                    let vv = v.clone();
                    prefs.set(k, v);
                    Ok(PreferencesReply::Stored { key: kk, value: vv })
                },
            },
        }
    } else if str_eq(method, "remove") {
        match key {
            None => Err(to_owned_string("payload missing string field key")),
            Some(k) => {
                let removed = prefs.remove(k.as_str());
                Ok(PreferencesReply::Removed { key: k, removed })
            },
        }
    } else if str_eq(method, "keys") {
        Ok(PreferencesReply::Keys(prefs.keys()))
    } else if str_eq(method, "clear") {
        prefs.clear();
        Ok(PreferencesReply::Cleared)
    } else {
        proof {
            reveal_strlit("unsupported preferences method: ");
        }
        let mut m = to_owned_string("unsupported preferences method: ");
        push_str(&mut m, method);
        Err(m)
    }
}

/// What is read back is what was written: right after storing `v` under
/// `k`, a read of `k` gives `v`; other keys read as before; after a removal
/// the key reads as absent, and after `clear` every key does.
pub proof fn law_read_after_write(m: Map<Seq<char>, Seq<char>>, k: Seq<char>, v: Seq<char>, other: Seq<char>)
    ensures
        lookup(m.insert(k, v), k) == Some(v),
        other != k ==> lookup(m.insert(k, v), other) == lookup(m, other),
        lookup(m.remove(k), k) is None,
        other != k ==> lookup(m.remove(k), other) == lookup(m, other),
        lookup(Map::<Seq<char>, Seq<char>>::empty(), k) is None,
{
}

} // verus!
