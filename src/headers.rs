//! Header mutation: a header set and the set / add / remove pipeline of a
//! `ConfigHTTPHeaderOperationConfig`.

use vstd::prelude::*;
use crate::config_loader::{ConfigHTTPHeaderOperationConfig, ConfigHeaders};

verus! {

/// (name, value) entries seen as character sequences.
pub open spec fn entries_view(v: Seq<(String, String)>) -> Seq<(Seq<char>, Seq<char>)> {
    v.map_values(|p: (String, String)| (p.0@, p.1@))
}

/// The mapping that a list of entries denotes: a later entry for a name
/// replaces an earlier one.
pub open spec fn map_of(s: Seq<(Seq<char>, Seq<char>)>) -> Map<Seq<char>, Seq<char>>
    decreases s.len(),
{
    if s.len() == 0 {
        Map::empty()
    } else {
        map_of(s.drop_last()).insert(s.last().0, s.last().1)
    }
}

/// No two entries share a name.
pub open spec fn names_distinct(s: Seq<(Seq<char>, Seq<char>)>) -> bool {
    forall|i: int, j: int| 0 <= i < j < s.len() ==> #[trigger] s[i].0 != #[trigger] s[j].0
}

/// The names listed for removal.
pub open spec fn removed_names(r: Seq<String>) -> Set<Seq<char>> {
    r.map_values(|n: String| n@).to_set()
}

/// The mapping of an optional entry list; absent means empty.
pub open spec fn optional_map(e: Option<Vec<(String, String)>>) -> Map<Seq<char>, Seq<char>> {
    match e {
        None => Map::empty(),
        Some(v) => map_of(entries_view(v@)),
    }
}

/// The names of an optional removal list; absent means none.
pub open spec fn optional_removed(e: Option<Vec<String>>) -> Set<Seq<char>> {
    match e {
        None => Set::empty(),
        Some(v) => removed_names(v@),
    }
}

/// Headers after an operation set: first every `set` entry is written, then
/// every `add` entry (so `add` wins over `set` for the same name), then every
/// name of `remove` is dropped.
pub open spec fn apply_operations(
    h: Map<Seq<char>, Seq<char>>,
    op: ConfigHTTPHeaderOperationConfig,
) -> Map<Seq<char>, Seq<char>> {
    h.union_prefer_right(optional_map(op.set)).union_prefer_right(optional_map(op.add)).remove_keys(
        optional_removed(op.remove),
    )
}

proof fn lemma_map_of_contains(s: Seq<(Seq<char>, Seq<char>)>, k: Seq<char>)
    ensures
        map_of(s).contains_key(k) <==> exists|i: int| 0 <= i < s.len() && #[trigger] s[i].0 == k,
    decreases s.len(),
{
    if s.len() > 0 {
        lemma_map_of_contains(s.drop_last(), k);
        if map_of(s).contains_key(k) && s.last().0 != k {
            let i = choose|i: int| 0 <= i < s.drop_last().len() && #[trigger] s.drop_last()[i].0 == k;
            assert(s[i].0 == k);
        }
        if exists|i: int| 0 <= i < s.len() && #[trigger] s[i].0 == k {
            let i = choose|i: int| 0 <= i < s.len() && #[trigger] s[i].0 == k;
            if i < s.len() - 1 {
                assert(s.drop_last()[i].0 == k);
            }
        }
    }
}

proof fn lemma_map_of_push(s: Seq<(Seq<char>, Seq<char>)>, p: (Seq<char>, Seq<char>))
    ensures
        map_of(s.push(p)) == map_of(s).insert(p.0, p.1),
{
    assert(s.push(p).drop_last() =~= s);
}

proof fn lemma_map_of_update(s: Seq<(Seq<char>, Seq<char>)>, i: int, v: Seq<char>)
    requires
        names_distinct(s),
        0 <= i < s.len(),
    ensures
        map_of(s.update(i, (s[i].0, v))) == map_of(s).insert(s[i].0, v),
    decreases s.len(),
{
    let k = s[i].0;
    let t = s.update(i, (k, v));
    if i == s.len() - 1 {
        assert(t.drop_last() =~= s.drop_last());
        assert(map_of(t) =~= map_of(s).insert(k, v));
    } else {
        let d = s.drop_last();
        assert(t.drop_last() =~= d.update(i, (k, v)));
        assert(names_distinct(d));
        lemma_map_of_update(d, i, v);
        assert(s.last().0 != k);
        assert(map_of(t) =~= map_of(s).insert(k, v));
    }
}

proof fn lemma_map_of_remove(s: Seq<(Seq<char>, Seq<char>)>, i: int)
    requires
        names_distinct(s),
        0 <= i < s.len(),
    ensures
        map_of(s.remove(i)) == map_of(s).remove(s[i].0),
    decreases s.len(),
{
    let k = s[i].0;
    let t = s.remove(i);
    let d = s.drop_last();
    if i == s.len() - 1 {
        assert(t =~= d);
        lemma_map_of_contains(d, k);
        assert(!map_of(d).contains_key(k));
        assert(map_of(t) =~= map_of(s).remove(k));
    } else {
        assert(t.drop_last() =~= d.remove(i));
        assert(t.last() == s.last());
        assert(names_distinct(d));
        lemma_map_of_remove(d, i);
        assert(s.last().0 != k);
        assert(map_of(t) =~= map_of(s).remove(k));
    }
}

/// A set of request or response headers: one value per name.
pub struct HeaderMap {
    entries: Vec<(String, String)>,
}

impl View for HeaderMap {
    type V = Map<Seq<char>, Seq<char>>;

    closed spec fn view(&self) -> Map<Seq<char>, Seq<char>> {
        map_of(entries_view(self.entries@))
    }
}

impl HeaderMap {
    /// The representation holds each name once.
    pub closed spec fn wf(&self) -> bool {
        names_distinct(entries_view(self.entries@))
    }

    /// A header set with no header.
    pub fn new() -> (r: HeaderMap)
        ensures
            r.wf(),
            r@ == Map::<Seq<char>, Seq<char>>::empty(),
    {
        let r = HeaderMap { entries: Vec::new() };
        assert(entries_view(r.entries@) =~= Seq::empty());
        r
    }

    fn position(&self, name: &String) -> (r: Option<usize>)
        ensures
            r is Some ==> r->0 < self.entries@.len() && self.entries@[r->0 as int].0@ == name@,
            r is None ==> forall|i: int|
                0 <= i < self.entries@.len() ==> #[trigger] self.entries@[i].0@ != name@,
    {
        let mut i: usize = 0;
        while i < self.entries.len()
            invariant
                0 <= i <= self.entries@.len(),
                forall|j: int| 0 <= j < i ==> #[trigger] self.entries@[j].0@ != name@,
            decreases self.entries@.len() - i,
        {
            if self.entries[i].0 == *name {
                return Some(i);
            }
            i = i + 1;
        }
        None
    }

    /// The value of a header, if it is present.
    pub fn get(&self, name: &str) -> (r: Option<&String>)
        requires
            self.wf(),
        ensures
            r is Some <==> self@.contains_key(name@),
            r is Some ==> r->0@ == self@[name@],
    {
        let ghost s = entries_view(self.entries@);
        proof {
            lemma_map_of_contains(s, name@);
        }
        let key = String::from_str(name);
        match self.position(&key) {
            Some(i) => {
                assert(s[i as int].0 == name@);
                assert(s.update(i as int, (s[i as int].0, s[i as int].1)) =~= s);
                proof {
                    lemma_map_of_update(s, i as int, s[i as int].1);
                }
                Some(&self.entries[i].1)
            },
            None => {
                assert forall|j: int| 0 <= j < s.len() implies #[trigger] s[j].0 != name@ by {
                    assert(s[j].0 == self.entries@[j].0@);
                }
                None
            },
        }
    }

    /// Writes a header, replacing any value it had.
    pub fn set(&mut self, name: String, value: String)
        requires
            old(self).wf(),
        ensures
            final(self).wf(),
            final(self)@ == old(self)@.insert(name@, value@),
    {
        let ghost s = entries_view(self.entries@);
        match self.position(&name) {
            Some(i) => {
                proof {
                    lemma_map_of_update(s, i as int, value@);
                }
                let ghost n = name@;
                self.entries.set(i, (name, value));
                assert(entries_view(self.entries@) =~= s.update(i as int, (n, value@)));
            },
            None => {
                let ghost p = (name@, value@);
                self.entries.push((name, value));
                assert(entries_view(self.entries@) =~= s.push(p));
                proof {
                    lemma_map_of_push(s, p);
                }
            },
        }
    }

    /// Drops a header if it is present.
    pub fn remove(&mut self, name: &str)
        requires
            old(self).wf(),
        ensures
            final(self).wf(),
            final(self)@ == old(self)@.remove(name@),
    {
        let ghost s = entries_view(self.entries@);
        proof {
            lemma_map_of_contains(s, name@);
        }
        let key = String::from_str(name);
        match self.position(&key) {
            Some(i) => {
                proof {
                    lemma_map_of_remove(s, i as int);
                }
                self.entries.remove(i);
                assert(entries_view(self.entries@) =~= s.remove(i as int));
            },
            None => {
                assert forall|j: int| 0 <= j < s.len() implies #[trigger] s[j].0 != name@ by {
                    assert(s[j].0 == self.entries@[j].0@);
                }
                assert(old(self)@.remove(name@) =~= old(self)@);
            },
        }
    }
}

/// Writes every entry in order; a later entry for a name wins.
fn write_all(v: &Vec<(String, String)>, headers: &mut HeaderMap)
    requires
        old(headers).wf(),
    ensures
        final(headers).wf(),
        final(headers)@ == old(headers)@.union_prefer_right(map_of(entries_view(v@))),
{
    let ghost base = headers@;
    let ghost s = entries_view(v@);
    let mut i: usize = 0;
    assert(s.take(0) =~= Seq::empty());
    assert(base.union_prefer_right(Map::empty()) =~= base);
    while i < v.len()
        invariant
            s == entries_view(v@),
            headers.wf(),
            0 <= i <= v@.len(),
            headers@ == base.union_prefer_right(map_of(s.take(i as int))),
        decreases v@.len() - i,
    {
        let ghost m = map_of(s.take(i as int));
        assert(s.take(i + 1).drop_last() =~= s.take(i as int));
        assert(s.take(i + 1).last() == s[i as int]);
        assert(map_of(s.take(i + 1)) == m.insert(s[i as int].0, s[i as int].1));
        assert(base.union_prefer_right(m.insert(s[i as int].0, s[i as int].1)) =~= base.union_prefer_right(
            m,
        ).insert(s[i as int].0, s[i as int].1));
        headers.set(v[i].0.clone(), v[i].1.clone());
        i = i + 1;
    }
    assert(s.take(v@.len() as int) =~= s);
}

/// Drops every listed name.
fn remove_all(v: &Vec<String>, headers: &mut HeaderMap)
    requires
        old(headers).wf(),
    ensures
        final(headers).wf(),
        final(headers)@ == old(headers)@.remove_keys(removed_names(v@)),
{
    let ghost base = headers@;
    let mut i: usize = 0;
    assert(v@.take(0).map_values(|n: String| n@) =~= Seq::empty());
    assert(base.remove_keys(removed_names(v@.take(0))) =~= base);
    while i < v.len()
        invariant
            headers.wf(),
            0 <= i <= v@.len(),
            headers@ == base.remove_keys(removed_names(v@.take(i as int))),
        decreases v@.len() - i,
    {
        let ghost t = v@.take(i as int).map_values(|n: String| n@);
        assert(v@.take(i + 1).map_values(|n: String| n@) =~= t.push(v@[i as int]@));
        proof {
            t.lemma_push_to_set_commute(v@[i as int]@);
        }
        assert(base.remove_keys(t.to_set().insert(v@[i as int]@)) =~= base.remove_keys(
            t.to_set(),
        ).remove(v@[i as int]@));
        headers.remove(v[i].as_str());
        i = i + 1;
    }
    assert(v@.take(v@.len() as int) =~= v@);
}

impl ConfigHTTPHeaderOperationConfig {
    /// Applies this operation set to `headers`: `set`, then `add`, then
    /// `remove`, so a later step overrides an earlier one on the same name.
    pub fn apply(&self, headers: &mut HeaderMap)
        requires
            old(headers).wf(),
        ensures
            final(headers).wf(),
            final(headers)@ == apply_operations(old(headers)@, *self),
    {
        let ghost h0 = headers@;
        match &self.set {
            Some(v) => write_all(v, headers),
            None => {
                assert(h0.union_prefer_right(Map::empty()) =~= h0);
            },
        }
        let ghost h1 = headers@;
        match &self.add {
            Some(v) => write_all(v, headers),
            None => {
                assert(h1.union_prefer_right(Map::empty()) =~= h1);
            },
        }
        let ghost h2 = headers@;
        match &self.remove {
            Some(v) => remove_all(v, headers),
            None => {
                assert(h2.remove_keys(Set::empty()) =~= h2);
            },
        }
    }
}

impl ConfigHeaders {
    /// Applies the request-side operations, if any, to request headers.
    pub fn apply_request(&self, headers: &mut HeaderMap)
        requires
            old(headers).wf(),
        ensures
            final(headers).wf(),
            self.request is None ==> final(headers)@ == old(headers)@,
            self.request is Some ==> final(headers)@ == apply_operations(
                old(headers)@,
                self.request->0,
            ),
    {
        match &self.request {
            Some(op) => op.apply(headers),
            None => {},
        }
    }

    /// Applies the response-side operations, if any, to response headers.
    pub fn apply_response(&self, headers: &mut HeaderMap)
        requires
            old(headers).wf(),
        ensures
            final(headers).wf(),
            self.response is None ==> final(headers)@ == old(headers)@,
            self.response is Some ==> final(headers)@ == apply_operations(
                old(headers)@,
                self.response->0,
            ),
    {
        match &self.response {
            Some(op) => op.apply(headers),
            None => {},
        }
    }
}

/// The order set, add, remove decides each header: a name that `remove`
/// lists is absent; otherwise a name that `add` gives has the value from
/// `add`; otherwise a name that `set` gives has the value from `set`;
/// otherwise the header is as it was.
pub proof fn lemma_operation_order(
    h: Map<Seq<char>, Seq<char>>,
    op: ConfigHTTPHeaderOperationConfig,
    name: Seq<char>,
)
    ensures
        optional_removed(op.remove).contains(name) ==> !apply_operations(h, op).contains_key(name),
        !optional_removed(op.remove).contains(name) && optional_map(op.add).contains_key(name) ==> {
            &&& apply_operations(h, op).contains_key(name)
            &&& apply_operations(h, op)[name] == optional_map(op.add)[name]
        },
        !optional_removed(op.remove).contains(name) && !optional_map(op.add).contains_key(name)
            && optional_map(op.set).contains_key(name) ==> {
            &&& apply_operations(h, op).contains_key(name)
            &&& apply_operations(h, op)[name] == optional_map(op.set)[name]
        },
        !optional_removed(op.remove).contains(name) && !optional_map(op.add).contains_key(name)
            && !optional_map(op.set).contains_key(name) ==> {
            &&& apply_operations(h, op).contains_key(name) == h.contains_key(name)
            &&& h.contains_key(name) ==> apply_operations(h, op)[name] == h[name]
        },
{
}

} // verus!
