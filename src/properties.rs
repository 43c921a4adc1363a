//! A map from property names to scalar values, kept as a vector of entries
//! with unique keys in the order they were first set.

use vstd::prelude::*;

use crate::component::{ComponentView, LogComponent};
use crate::level::str_eq;

verus! {

/// The entries of a property map, as (name, value) pairs in order.
pub type PairsView = Seq<(Seq<char>, ComponentView)>;

/// No two entries share a key.
pub open spec fn keys_unique(s: PairsView) -> bool {
    forall|a: int, b: int|
        0 <= a < s.len() && 0 <= b < s.len() && a != b ==> #[trigger] s[a].0 != #[trigger] s[b].0
}

/// The map that a sequence of entries denotes.
pub open spec fn map_of(s: PairsView) -> Map<Seq<char>, ComponentView>
    decreases s.len(),
{
    if s.len() == 0 {
        Map::empty()
    } else {
        map_of(s.drop_last()).insert(s.last().0, s.last().1)
    }
}

/// The content of a list of exec entries.
pub open spec fn pairs_of(entries: Seq<(String, LogComponent)>) -> PairsView {
    entries.map_values(|e: (String, LogComponent)| (e.0@, e.1@))
}

proof fn lemma_map_of_contains(s: PairsView, k: Seq<char>)
    ensures
        map_of(s).contains_key(k) <==> exists|i: int| 0 <= i < s.len() && #[trigger] s[i].0 == k,
    decreases s.len(),
{
    if s.len() > 0 {
        lemma_map_of_contains(s.drop_last(), k);
        if map_of(s).contains_key(k) && s.last().0 != k {
            let i = choose|i: int| 0 <= i < s.drop_last().len() && #[trigger] s.drop_last()[i].0 == k;
            assert(s[i].0 == k);
        }
        if exists|i: int| 0 <= i < s.len() && #[trigger] s[i].0 == k {
            let i = choose|i: int| 0 <= i < s.len() && #[trigger] s[i].0 == k;
            if i < s.len() - 1 {
                assert(s.drop_last()[i].0 == k);
            }
        }
    }
}

proof fn lemma_map_of_at(s: PairsView, i: int)
    requires
        keys_unique(s),
        0 <= i < s.len(),
    ensures
        map_of(s)[s[i].0] == s[i].1,
    decreases s.len(),
{
    if i < s.len() - 1 {
        let t = s.drop_last();
        assert(keys_unique(t)) by {
            assert forall|a: int, b: int|
                0 <= a < t.len() && 0 <= b < t.len() && a != b implies #[trigger] t[a].0
                != #[trigger] t[b].0 by {
                assert(t[a] == s[a] && t[b] == s[b]);
            }
        }
        assert(s[i].0 != s[s.len() - 1].0);
        assert(t[i] == s[i]);
        lemma_map_of_at(t, i);
    }
}

/// A unique-keyed sequence denotes `m` when it has exactly `m`'s keys and
/// each entry agrees with `m`.
proof fn lemma_map_of_is(s: PairsView, m: Map<Seq<char>, ComponentView>)
    requires
        keys_unique(s),
        forall|k: Seq<char>|
            #[trigger] m.contains_key(k) <==> exists|i: int| 0 <= i < s.len() && #[trigger] s[i].0 == k,
        forall|i: int| 0 <= i < s.len() ==> m[#[trigger] s[i].0] == s[i].1,
    ensures
        map_of(s) == m,
{
    assert forall|k: Seq<char>| #[trigger] map_of(s).contains_key(k) <==> m.contains_key(k) by {
        lemma_map_of_contains(s, k);
    }
    assert forall|k: Seq<char>| #[trigger] map_of(s).contains_key(k) implies map_of(s)[k] == m[k] by {
        lemma_map_of_contains(s, k);
        let i = choose|i: int| 0 <= i < s.len() && #[trigger] s[i].0 == k;
        lemma_map_of_at(s, i);
    }
    assert(map_of(s) =~= m);
}

/// Named scalar properties with unique names.
#[derive(Debug)]
pub struct Properties {
    entries: Vec<(String, LogComponent)>,
}

impl View for Properties {
    type V = Map<Seq<char>, ComponentView>;

    closed spec fn view(&self) -> Map<Seq<char>, ComponentView> {
        map_of(self.pairs())
    }
}

impl Properties {
    #[verifier::type_invariant]
    spec fn unique_names(self) -> bool {
        keys_unique(pairs_of(self.entries@))
    }

    /// The entries in the order they were first set.
    pub closed spec fn pairs(&self) -> PairsView {
        pairs_of(self.entries@)
    }

    /// An empty property map.
    pub fn new() -> (r: Properties)
        ensures
            r@ == Map::<Seq<char>, ComponentView>::empty(),
            r.pairs() == Seq::<(Seq<char>, ComponentView)>::empty(),
    {
        let r = Properties { entries: Vec::new() };
        assert(r.pairs() =~= Seq::<(Seq<char>, ComponentView)>::empty());
        r
    }

    /// Number of properties.
    pub fn len(&self) -> (r: usize)
        ensures
            r == self.pairs().len(),
    {
        self.entries.len()
    }

    /// The `i`-th entry in order.
    pub fn entry(&self, i: usize) -> (r: (&String, &LogComponent))
        requires
            i < self.pairs().len(),
        ensures
            (r.0@, r.1@) == self.pairs()[i as int],
    {
        let e = &self.entries[i];
        (&e.0, &e.1)
    }

    /// Moves the entries out, leaving this map empty.
    fn take_entries(&mut self) -> (r: Vec<(String, LogComponent)>)
        ensures
            pairs_of(r@) == old(self).pairs(),
            keys_unique(pairs_of(r@)),
    {
        let mut other = Properties::new();
        std::mem::swap(self, &mut other);
        proof {
            use_type_invariant(&other);
        }
        let Properties { entries } = other;
        entries
    }

    fn position(&self, key: &str) -> (r: Option<usize>)
        ensures
            r matches Some(i) ==> i < self.entries@.len() && self.pairs()[i as int].0 == key@,
            r is None ==> forall|i: int|
                0 <= i < self.pairs().len() ==> #[trigger] self.pairs()[i].0 != key@,
    {
        let n = self.entries.len();
        let mut i: usize = 0;
        while i < n
            invariant
                n == self.entries@.len(),
                0 <= i <= n,
                forall|j: int| 0 <= j < i ==> #[trigger] self.pairs()[j].0 != key@,
            decreases n - i,
        {
            if str_eq(self.entries[i].0.as_str(), key) {
                return Some(i);
            }
            i = i + 1;
        }
        None
    }

    /// The value of property `key`, if set.
    pub fn get(&self, key: &str) -> (r: Option<&LogComponent>)
        ensures
            r matches Some(v) ==> self@.contains_key(key@) && self@[key@] == v@,
            r is None ==> !self@.contains_key(key@),
    {
        proof {
            use_type_invariant(self);
            lemma_map_of_contains(self.pairs(), key@);
        }
        match self.position(key) {
            Some(i) => {
                proof {
                    lemma_map_of_at(self.pairs(), i as int);
                }
                Some(&self.entries[i].1)
            },
            None => None,
        }
    }

    /// Sets property `key` to `value`, replacing any earlier value.
    pub fn insert(&mut self, key: String, value: LogComponent)
        ensures
            final(self)@ == old(self)@.insert(key@, value@),
    {
        proof {
            use_type_invariant(&*self);
        }
        let ghost s = self.pairs();
        let ghost m = self@;
        let ghost k = key@;
        let ghost v = value@;
        match self.position(key.as_str()) {
            Some(i) => {
                let mut entries = self.take_entries();
                entries.set(i, (key, value));
                proof {
                    let t = pairs_of(entries@);
                    assert(t =~= s.update(i as int, (k, v)));
                    assert(keys_unique(t)) by {
                        assert forall|a: int, b: int|
                            0 <= a < t.len() && 0 <= b < t.len() && a != b implies #[trigger] t[a].0
                            != #[trigger] t[b].0 by {
                            assert(t[a].0 == s[a].0 && t[b].0 == s[b].0);
                        }
                    }
                    let m2 = m.insert(k, v);
                    assert forall|x: Seq<char>| #[trigger] m2.contains_key(x) <==> exists|j: int|
                        0 <= j < t.len() && #[trigger] t[j].0 == x by {
                        lemma_map_of_contains(s, x);
                        if exists|j: int| 0 <= j < s.len() && #[trigger] s[j].0 == x {
                            let j = choose|j: int| 0 <= j < s.len() && #[trigger] s[j].0 == x;
                            assert(t[j].0 == x);
                        }
                        if exists|j: int| 0 <= j < t.len() && #[trigger] t[j].0 == x {
                            let j = choose|j: int| 0 <= j < t.len() && #[trigger] t[j].0 == x;
                            assert(s[j].0 == x);
                        }
                    }
                    assert forall|j: int| 0 <= j < t.len() implies m2[#[trigger] t[j].0] == t[j].1 by {
                        if j != i {
                            assert(s[j].0 != s[i as int].0);
                            lemma_map_of_at(s, j);
                        }
                    }
                    lemma_map_of_is(t, m2);
                }
                *self = Properties { entries };
            },
            None => {
                let mut entries = self.take_entries();
                entries.push((key, value));
                proof {
                    let t = pairs_of(entries@);
                    assert(t =~= s.push((k, v)));
                    assert(t.drop_last() =~= s);
                    assert(keys_unique(t)) by {
                        assert forall|a: int, b: int|
                            0 <= a < t.len() && 0 <= b < t.len() && a != b implies #[trigger] t[a].0
                            != #[trigger] t[b].0 by {
                            if a < s.len() && b < s.len() {
                                assert(t[a] == s[a] && t[b] == s[b]);
                            } else if a < s.len() {
                                assert(t[a] == s[a]);
                            } else {
                                assert(t[b] == s[b]);
                            }
                        }
                    }
                }
                *self = Properties { entries };
            },
        }
    }

    /// Removes property `key`, if set.
    pub fn remove(&mut self, key: &str)
        ensures
            final(self)@ == old(self)@.remove(key@),
    {
        proof {
            use_type_invariant(&*self);
        }
        let ghost s = self.pairs();
        let ghost m = self@;
        match self.position(key) {
            Some(i) => {
                let mut entries = self.take_entries();
                let _ = entries.remove(i);
                proof {
                    let t = pairs_of(entries@);
                    let ii = i as int;
                    assert(t =~= s.remove(ii));
                    assert forall|j: int| 0 <= j < t.len() implies #[trigger] t[j] == (if j < ii {
                        s[j]
                    } else {
                        s[j + 1]
                    }) by {}
                    assert(keys_unique(t)) by {
                        assert forall|a: int, b: int|
                            0 <= a < t.len() && 0 <= b < t.len() && a != b implies #[trigger] t[a].0
                            != #[trigger] t[b].0 by {
                            let sa = if a < ii { a } else { a + 1 };
                            let sb = if b < ii { b } else { b + 1 };
                            assert(t[a] == s[sa] && t[b] == s[sb]);
                        }
                    }
                    let m2 = m.remove(key@);
                    assert forall|x: Seq<char>| #[trigger] m2.contains_key(x) <==> exists|j: int|
                        0 <= j < t.len() && #[trigger] t[j].0 == x by {
                        lemma_map_of_contains(s, x);
                        if m2.contains_key(x) {
                            let j = choose|j: int| 0 <= j < s.len() && #[trigger] s[j].0 == x;
                            assert(j != ii);
                            let tj = if j < ii { j } else { j - 1 };
                            assert(t[tj].0 == x);
                        }
                        if exists|j: int| 0 <= j < t.len() && #[trigger] t[j].0 == x {
                            let j = choose|j: int| 0 <= j < t.len() && #[trigger] t[j].0 == x;
                            let sj = if j < ii { j } else { j + 1 };
                            assert(s[sj].0 == x);
                            assert(sj != ii);
                            assert(s[sj].0 != s[ii].0);
                        }
                    }
                    assert forall|j: int| 0 <= j < t.len() implies m2[#[trigger] t[j].0] == t[j].1 by {
                        let sj = if j < ii { j } else { j + 1 };
                        assert(t[j] == s[sj]);
                        assert(s[sj].0 != s[ii].0);
                        lemma_map_of_at(s, sj);
                    }
                    lemma_map_of_is(t, m2);
                }
                *self = Properties { entries };
            },
            None => {
                proof {
                    lemma_map_of_contains(s, key@);
                    assert(m.remove(key@) =~= m);
                }
            },
        }
    }

    /// A copy with the same entries in the same order.
    pub fn duplicate(&self) -> (r: Properties)
        ensures
            r.pairs() == self.pairs(),
            r@ == self@,
    {
        proof {
            use_type_invariant(self);
        }
        let n = self.entries.len();
        let mut out: Vec<(String, LogComponent)> = Vec::new();
        let mut i: usize = 0;
        while i < n
            invariant
                n == self.entries@.len(),
                0 <= i <= n,
                out@.len() == i,
                pairs_of(out@) == self.pairs().subrange(0, i as int),
            decreases n - i,
        {
            let e = &self.entries[i];
            let ghost before = out@;
            out.push((e.0.clone(), e.1.duplicate()));
            proof {
                assert(pairs_of(out@) =~= pairs_of(before).push(self.pairs()[i as int]));
                assert(self.pairs().subrange(0, i + 1) =~= self.pairs().subrange(0, i as int).push(
                    self.pairs()[i as int],
                ));
            }
            i = i + 1;
        }
        proof {
            assert(pairs_of(out@) =~= self.pairs());
        }
        Properties { entries: out }
    }
}

} // verus!

verus! {

/// The ambient properties that new records carry: absent until first set.
#[derive(Debug)]
pub struct PropertyOverlay {
    current: Option<Properties>,
}

/// The map of an optional property set.
pub open spec fn overlay_map(p: Option<Properties>) -> Option<Map<Seq<char>, ComponentView>> {
    match p {
        Some(p) => Some(p@),
        None => None,
    }
}

impl View for PropertyOverlay {
    type V = Option<Map<Seq<char>, ComponentView>>;

    closed spec fn view(&self) -> Option<Map<Seq<char>, ComponentView>> {
        overlay_map(self.current)
    }
}

/// The map of an overlay, empty when it was never set.
pub open spec fn or_empty(m: Option<Map<Seq<char>, ComponentView>>) -> Map<Seq<char>, ComponentView> {
    match m {
        Some(m) => m,
        None => Map::empty(),
    }
}

impl PropertyOverlay {
    /// An overlay that was never set.
    pub fn new() -> (r: PropertyOverlay)
        ensures
            r@ is None,
    {
        PropertyOverlay { current: None }
    }

    /// Replaces all properties.
    pub fn replace_all(&mut self, properties: Properties)
        ensures
            final(self)@ == Some(properties@),
    {
        self.current = Some(properties);
    }

    /// Sets one property.
    pub fn set(&mut self, name: String, value: LogComponent)
        ensures
            final(self)@ == Some(or_empty(old(self)@).insert(name@, value@)),
    {
        let mut p = match self.current.take() {
            Some(p) => p,
            None => Properties::new(),
        };
        p.insert(name, value);
        self.current = Some(p);
    }

    /// Removes one property; an overlay that was never set becomes empty.
    pub fn remove(&mut self, name: &str)
        ensures
            final(self)@ == Some(or_empty(old(self)@).remove(name@)),
    {
        let mut p = match self.current.take() {
            Some(p) => p,
            None => Properties::new(),
        };
        p.remove(name);
        self.current = Some(p);
    }

    /// A copy of the current properties, for a record being created.
    pub fn snapshot(&self) -> (r: Option<Properties>)
        ensures
            overlay_map(r) == self@,
    {
        match &self.current {
            Some(p) => Some(p.duplicate()),
            None => None,
        }
    }
}

} // verus!
