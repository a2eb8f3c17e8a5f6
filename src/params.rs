//! `ParamMap`: a finite map from string keys to string values, the shape of
//! request parameters and of the property maps built from them.
use vstd::prelude::*;
use crate::text::{after_prefix, has_prefix, is_prefix_of, text_eq};

verus! {

/// The views of a sequence of strings.
pub open spec fn string_views(v: Seq<String>) -> Seq<Seq<char>> {
    v.map_values(|s: String| s@)
}

/// The map that inserting `ks[i] -> vs[i]` in order gives, starting from empty.
pub open spec fn map_of(ks: Seq<Seq<char>>, vs: Seq<Seq<char>>) -> Map<Seq<char>, Seq<char>>
    decreases ks.len(),
{
    if ks.len() == 0 || vs.len() == 0 {
        Map::empty()
    } else {
        map_of(ks.drop_last(), vs.drop_last()).insert(ks.last(), vs.last())
    }
}

pub open spec fn no_duplicates(ks: Seq<Seq<char>>) -> bool {
    forall|i: int, j: int| 0 <= i < ks.len() && 0 <= j < ks.len() && i != j ==> ks[i] != ks[j]
}

/// The entries of `m` whose key starts with `p`, keyed by the rest of the key.
pub open spec fn under_prefix(m: Map<Seq<char>, Seq<char>>, p: Seq<char>) -> Map<
    Seq<char>,
    Seq<char>,
> {
    Map::new(|k: Seq<char>| m.contains_key(p + k), |k: Seq<char>| m[p + k])
}

proof fn lemma_map_of_index(ks: Seq<Seq<char>>, vs: Seq<Seq<char>>, i: int)
    requires
        ks.len() == vs.len(),
        no_duplicates(ks),
        0 <= i < ks.len(),
    ensures
        map_of(ks, vs).contains_key(ks[i]),
        map_of(ks, vs)[ks[i]] == vs[i],
    decreases ks.len(),
{
    if i < ks.len() - 1 {
        lemma_map_of_index(ks.drop_last(), vs.drop_last(), i);
    }
}

proof fn lemma_map_of_domain(ks: Seq<Seq<char>>, vs: Seq<Seq<char>>, k: Seq<char>)
    requires
        ks.len() == vs.len(),
        map_of(ks, vs).contains_key(k),
    ensures
        exists|i: int| 0 <= i < ks.len() && ks[i] == k,
    decreases ks.len(),
{
    if ks.len() > 0 && k != ks.last() {
        lemma_map_of_domain(ks.drop_last(), vs.drop_last(), k);
        let i = choose|i: int| 0 <= i < ks.len() - 1 && ks.drop_last()[i] == k;
        assert(ks[i] == k);
    }
}

proof fn lemma_map_of_len(ks: Seq<Seq<char>>, vs: Seq<Seq<char>>)
    requires
        ks.len() == vs.len(),
        no_duplicates(ks),
    ensures
        map_of(ks, vs).dom().finite(),
        map_of(ks, vs).len() == ks.len(),
    decreases ks.len(),
{
    if ks.len() > 0 {
        let (ks0, vs0) = (ks.drop_last(), vs.drop_last());
        lemma_map_of_len(ks0, vs0);
        if map_of(ks0, vs0).contains_key(ks.last()) {
            lemma_map_of_domain(ks0, vs0, ks.last());
        }
    }
}

proof fn lemma_map_of_update(ks: Seq<Seq<char>>, vs: Seq<Seq<char>>, i: int, v: Seq<char>)
    requires
        ks.len() == vs.len(),
        no_duplicates(ks),
        0 <= i < ks.len(),
    ensures
        map_of(ks, vs.update(i, v)) == map_of(ks, vs).insert(ks[i], v),
    decreases ks.len(),
{
    let vs2 = vs.update(i, v);
    if i == ks.len() - 1 {
        assert(vs2.drop_last() =~= vs.drop_last());
        assert(map_of(ks, vs2) =~= map_of(ks, vs).insert(ks[i], v));
    } else {
        assert(vs2.drop_last() =~= vs.drop_last().update(i, v));
        lemma_map_of_update(ks.drop_last(), vs.drop_last(), i, v);
        assert(map_of(ks, vs2) =~= map_of(ks, vs).insert(ks[i], v));
    }
}

proof fn lemma_map_of_push(ks: Seq<Seq<char>>, vs: Seq<Seq<char>>, k: Seq<char>, v: Seq<char>)
    requires
        ks.len() == vs.len(),
    ensures
        map_of(ks.push(k), vs.push(v)) == map_of(ks, vs).insert(k, v),
{
    assert(ks.push(k).drop_last() =~= ks);
    assert(vs.push(v).drop_last() =~= vs);
}

/// A finite map from strings to strings, kept as two parallel vectors whose
/// keys are pairwise distinct.
#[derive(Clone, Debug)]
pub struct ParamMap {
    keys: Vec<String>,
    values: Vec<String>,
}

impl View for ParamMap {
    type V = Map<Seq<char>, Seq<char>>;

    closed spec fn view(&self) -> Map<Seq<char>, Seq<char>> {
        map_of(string_views(self.keys@), string_views(self.values@))
    }
}

impl ParamMap {
    /// Keys pairwise distinct, one value per key.
    pub closed spec fn wf(&self) -> bool {
        &&& self.keys@.len() == self.values@.len()
        &&& no_duplicates(string_views(self.keys@))
    }

    /// An empty map.
    pub fn new() -> (r: ParamMap)
        ensures
            r.wf(),
            r@ == Map::<Seq<char>, Seq<char>>::empty(),
    {
        let r = ParamMap { keys: Vec::new(), values: Vec::new() };
        assert(string_views(r.keys@) =~= Seq::empty());
        r
    }

    /// Position of `k` among the keys, if present.
    fn find(&self, k: &str) -> (r: Option<usize>)
        requires
            self.wf(),
        ensures
            r matches Some(i) ==> i < self.keys@.len() && self.keys@[i as int]@ == k@,
            r is None ==> !self@.contains_key(k@),
    {
        let mut i: usize = 0;
        while i < self.keys.len()
            invariant
                i <= self.keys@.len(),
                forall|j: int| 0 <= j < i ==> #[trigger] self.keys@[j]@ != k@,
            decreases self.keys@.len() - i,
        {
            if text_eq(self.keys[i].as_str(), k) {
                return Some(i);
            }
            i = i + 1;
        }
        proof {
            let ks = string_views(self.keys@);
            if self@.contains_key(k@) {
                lemma_map_of_domain(ks, string_views(self.values@), k@);
                let j = choose|j: int| 0 <= j < ks.len() && ks[j] == k@;
                assert(self.keys@[j]@ == k@);
            }
        }
        None
    }

    /// Number of entries.
    pub fn len(&self) -> (r: usize)
        requires
            self.wf(),
        ensures
            r == self@.len(),
            self@.dom().finite(),
    {
        proof {
            lemma_map_of_len(string_views(self.keys@), string_views(self.values@));
        }
        self.keys.len()
    }

    /// Whether `k` has an entry.
    pub fn contains_key(&self, k: &str) -> (r: bool)
        requires
            self.wf(),
        ensures
            r == self@.contains_key(k@),
    {
        match self.find(k) {
            Some(i) => {
                proof {
                    lemma_map_of_index(
                        string_views(self.keys@),
                        string_views(self.values@),
                        i as int,
                    );
                }
                true
            },
            None => false,
        }
    }

    /// The value stored under `k`.
    pub fn get(&self, k: &str) -> (r: Option<&String>)
        requires
            self.wf(),
        ensures
            r matches Some(v) ==> self@.contains_key(k@) && v@ == self@[k@],
            r is None ==> !self@.contains_key(k@),
    {
        match self.find(k) {
            Some(i) => {
                proof {
                    lemma_map_of_index(
                        string_views(self.keys@),
                        string_views(self.values@),
                        i as int,
                    );
                }
                Some(&self.values[i])
            },
            None => None,
        }
    }

    /// Stores `v` under `k`, replacing any earlier value.
    pub fn insert(&mut self, k: String, v: String)
        requires
            old(self).wf(),
        ensures
            final(self).wf(),
            final(self)@ == old(self)@.insert(k@, v@),
    {
        let ghost ks = string_views(self.keys@);
        let ghost vs = string_views(self.values@);
        match self.find(k.as_str()) {
            Some(i) => {
                proof {
                    lemma_map_of_update(ks, vs, i as int, v@);
                }
                self.values.set(i, v);
                proof {
                    assert(string_views(self.values@) =~= vs.update(i as int, v@));
                    assert(string_views(self.keys@) =~= ks);
                }
            },
            None => {
                proof {
                    lemma_map_of_push(ks, vs, k@, v@);
                    assert forall|j: int| 0 <= j < ks.len() implies ks[j] != k@ by {
                        lemma_map_of_index(ks, vs, j);
                    }
                }
                self.keys.push(k);
                self.values.push(v);
                proof {
                    assert(string_views(self.keys@) =~= ks.push(k@));
                    assert(string_views(self.values@) =~= vs.push(v@));
                }
            },
        }
    }

    /// Every entry of `other` stored in `self`, those of `other` winning on
    /// equal keys.
    pub fn extend_from(&mut self, other: &ParamMap)
        requires
            old(self).wf(),
            other.wf(),
        ensures
            final(self).wf(),
            final(self)@ == old(self)@.union_prefer_right(other@),
    {
        let ghost ks = string_views(other.keys@);
        let ghost vs = string_views(other.values@);
        let n = other.keys.len();
        let mut i: usize = 0;
        while i < n
            invariant
                n == other.keys@.len(),
                n == other.values@.len(),
                ks == string_views(other.keys@),
                vs == string_views(other.values@),
                i <= n,
                self.wf(),
                self@ == old(self)@.union_prefer_right(
                    map_of(ks.subrange(0, i as int), vs.subrange(0, i as int)),
                ),
            decreases n - i,
        {
            let k = other.keys[i].clone();
            let v = other.values[i].clone();
            self.insert(k, v);
            proof {
                let (ks0, vs0) = (ks.subrange(0, i as int), vs.subrange(0, i as int));
                assert(ks.subrange(0, i + 1) =~= ks0.push(ks[i as int]));
                assert(vs.subrange(0, i + 1) =~= vs0.push(vs[i as int]));
                lemma_map_of_push(ks0, vs0, ks[i as int], vs[i as int]);
                assert(self@ =~= old(self)@.union_prefer_right(
                    map_of(ks.subrange(0, i + 1), vs.subrange(0, i + 1)),
                ));
            }
            i = i + 1;
        }
        proof {
            assert(ks.subrange(0, n as int) =~= ks);
            assert(vs.subrange(0, n as int) =~= vs);
        }
    }

    /// The entries whose key starts with `p`, each under the rest of its key.
    pub fn strip_prefixed(&self, p: &str) -> (r: ParamMap)
        requires
            self.wf(),
        ensures
            r.wf(),
            r@ == under_prefix(self@, p@),
    {
        let ghost ks = string_views(self.keys@);
        let ghost vs = string_views(self.values@);
        let n = self.keys.len();
        let mut out = ParamMap::new();
        let mut i: usize = 0;
        while i < n
            invariant
                n == self.keys@.len(),
                n == self.values@.len(),
                ks == string_views(self.keys@),
                vs == string_views(self.values@),
                i <= n,
                out.wf(),
                out@ == under_prefix(map_of(ks.subrange(0, i as int), vs.subrange(0, i as int)), p@),
            decreases n - i,
        {
            let ghost m0 = map_of(ks.subrange(0, i as int), vs.subrange(0, i as int));
            proof {
                let (ks0, vs0) = (ks.subrange(0, i as int), vs.subrange(0, i as int));
                assert(ks.subrange(0, i + 1) =~= ks0.push(ks[i as int]));
                assert(vs.subrange(0, i + 1) =~= vs0.push(vs[i as int]));
                lemma_map_of_push(ks0, vs0, ks[i as int], vs[i as int]);
            }
            let key = self.keys[i].as_str();
            if has_prefix(key, p) {
                let rest = after_prefix(key, p);
                proof {
                    assert(key@ =~= p@ + rest@);
                    assert forall|u: Seq<char>| p@ + u == key@ implies u == rest@ by {
                        assert(u =~= (p@ + u).subrange(p@.len() as int, (p@ + u).len() as int));
                    }
                }
                out.insert(rest, self.values[i].clone());
                proof {
                    assert(out@ =~= under_prefix(m0.insert(key@, vs[i as int]), p@));
                }
            } else {
                proof {
                    assert forall|u: Seq<char>| p@ + u != key@ by {
                        if p@ + u == key@ {
                            assert(key@.subrange(0, p@.len() as int) =~= p@);
                        }
                    }
                    assert(out@ =~= under_prefix(m0.insert(key@, vs[i as int]), p@));
                }
            }
            i = i + 1;
        }
        proof {
            assert(ks.subrange(0, n as int) =~= ks);
            assert(vs.subrange(0, n as int) =~= vs);
        }
        out
    }

    /// Whether some key starts with `p`.
    pub fn has_key_with_prefix(&self, p: &str) -> (r: bool)
        requires
            self.wf(),
        ensures
            r == exists|k: Seq<char>| self@.contains_key(k) && is_prefix_of(p@, k),
    {
        let ghost ks = string_views(self.keys@);
        let ghost vs = string_views(self.values@);
        let mut i: usize = 0;
        while i < self.keys.len()
            invariant
                ks == string_views(self.keys@),
                vs == string_views(self.values@),
                self.wf(),
                i <= self.keys@.len(),
                forall|j: int| 0 <= j < i ==> !is_prefix_of(p@, #[trigger] ks[j]),
            decreases self.keys@.len() - i,
        {
            if has_prefix(self.keys[i].as_str(), p) {
                proof {
                    lemma_map_of_index(ks, vs, i as int);
                    assert(self@.contains_key(ks[i as int]));
                }
                return true;
            }
            i = i + 1;
        }
        proof {
            assert forall|k: Seq<char>| self@.contains_key(k) implies !is_prefix_of(p@, k) by {
                lemma_map_of_domain(ks, vs, k);
                let j = choose|j: int| 0 <= j < ks.len() && ks[j] == k;
                assert(!is_prefix_of(p@, ks[j]));
            }
        }
        false
    }

    /// The entries as key/value pairs, each key once.
    pub fn to_pairs(&self) -> (r: Vec<(String, String)>)
        requires
            self.wf(),
        ensures
            r@.len() == self@.len(),
            forall|i: int|
                0 <= i < r@.len() ==> self@.contains_key((#[trigger] r@[i]).0@) && self@[r@[i].0@]
                    == r@[i].1@,
            forall|k: Seq<char>|
                #[trigger] self@.contains_key(k) ==> exists|i: int|
                    0 <= i < r@.len() && r@[i].0@ == k,
            forall|i: int, j: int|
                0 <= i < r@.len() && 0 <= j < r@.len() && i != j ==> (#[trigger] r@[i]).0@
                    != (#[trigger] r@[j]).0@,
    {
        let ghost ks = string_views(self.keys@);
        let ghost vs = string_views(self.values@);
        proof {
            lemma_map_of_len(ks, vs);
        }
        let mut out: Vec<(String, String)> = Vec::new();
        let mut i: usize = 0;
        while i < self.keys.len()
            invariant
                ks == string_views(self.keys@),
                vs == string_views(self.values@),
                self.wf(),
                i <= self.keys@.len(),
                out@.len() == i,
                forall|j: int| 0 <= j < i ==> (#[trigger] out@[j]).0@ == ks[j] && out@[j].1@ == vs[j],
            decreases self.keys@.len() - i,
        {
            out.push((self.keys[i].clone(), self.values[i].clone()));
            i = i + 1;
        }
        proof {
            assert forall|j: int| 0 <= j < out@.len() implies self@.contains_key(
                (#[trigger] out@[j]).0@,
            ) && self@[out@[j].0@] == out@[j].1@ by {
                lemma_map_of_index(ks, vs, j);
            }
            assert forall|k: Seq<char>| #[trigger] self@.contains_key(k) implies exists|i: int|
                0 <= i < out@.len() && out@[i].0@ == k by {
                lemma_map_of_domain(ks, vs, k);
                let i = choose|i: int| 0 <= i < ks.len() && ks[i] == k;
                assert(out@[i].0@ == k);
            }
        }
        out
    }
}

} // verus!
