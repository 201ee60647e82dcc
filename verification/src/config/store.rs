//! The configuration store: a map from keys to text values, where a later
//! write to a key replaces the earlier one.

use vstd::prelude::*;
use crate::config::parse::{count_value, flag_value, parse_count, parse_flag};
use crate::text::{
    has_prefix, lowercase_of, lowercase_str, same_text, skip_underscores, starts_with,
    tail_without_underscores,
};

verus! {

/// Where a configuration value comes from, highest priority first.
#[derive(Debug, Clone, Copy, PartialEq, Eq, Structural)]
pub enum ConfigSource {
    /// Environment variables (highest priority).
    Env,
    /// Command line arguments.
    Args,
    /// File-based configuration.
    File,
    /// Default values (lowest priority).
    Default,
}

/// `m` after writing the pairs `ps` in order.
pub open spec fn insert_all(m: Map<Seq<char>, Seq<char>>, ps: Seq<(Seq<char>, Seq<char>)>) -> Map<
    Seq<char>,
    Seq<char>,
>
    decreases ps.len(),
{
    if ps.len() == 0 {
        m
    } else {
        insert_all(m, ps.drop_last()).insert(ps.last().0, ps.last().1)
    }
}

/// The map that writing the pairs `ps` in order produces.
pub open spec fn to_map(ps: Seq<(Seq<char>, Seq<char>)>) -> Map<Seq<char>, Seq<char>> {
    insert_all(Map::empty(), ps)
}

/// The text of each pair.
pub open spec fn pair_views(e: Seq<(String, String)>) -> Seq<(Seq<char>, Seq<char>)> {
    e.map_values(|p: (String, String)| (p.0@, p.1@))
}

/// No key occurs twice.
pub open spec fn keys_distinct(ps: Seq<(Seq<char>, Seq<char>)>) -> bool {
    forall|i: int, j: int| 0 <= i < j < ps.len() ==> ps[i].0 != ps[j].0
}

/// The key under which a key that starts with `prefix` appears in the
/// section: the rest of the key, without leading underscores.
pub open spec fn section_key(key: Seq<char>, prefix: Seq<char>) -> Seq<char> {
    skip_underscores(key.skip(prefix.len() as int))
}

/// The pairs of `ps` whose key starts with `prefix`, keyed by `section_key`.
pub open spec fn section_pairs(ps: Seq<(Seq<char>, Seq<char>)>, prefix: Seq<char>) -> Seq<
    (Seq<char>, Seq<char>),
>
    decreases ps.len(),
{
    if ps.len() == 0 {
        Seq::empty()
    } else if has_prefix(ps.last().0, prefix) {
        section_pairs(ps.drop_last(), prefix).push(
            (section_key(ps.last().0, prefix), ps.last().1),
        )
    } else {
        section_pairs(ps.drop_last(), prefix)
    }
}

/// The configuration key for an environment variable named `key`: with no
/// prefix, the name lower-cased; with a prefix, only names that start with
/// it, the rest of the name without leading underscores, lower-cased.
pub open spec fn env_key(key: Seq<char>, prefix: Seq<char>) -> Option<Seq<char>> {
    if prefix.len() == 0 {
        Some(lowercase_of(key))
    } else if has_prefix(key, prefix) {
        Some(lowercase_of(section_key(key, prefix)))
    } else {
        None
    }
}

/// The pairs that loading the variables `vars` under `prefix` writes.
pub open spec fn env_pairs(vars: Seq<(Seq<char>, Seq<char>)>, prefix: Seq<char>) -> Seq<
    (Seq<char>, Seq<char>),
>
    decreases vars.len(),
{
    if vars.len() == 0 {
        Seq::empty()
    } else {
        match env_key(vars.last().0, prefix) {
            Some(k) => env_pairs(vars.drop_last(), prefix).push((k, vars.last().1)),
            None => env_pairs(vars.drop_last(), prefix),
        }
    }
}

proof fn lemma_insert_all_has(m: Map<Seq<char>, Seq<char>>, ps: Seq<(Seq<char>, Seq<char>)>, k: Seq<char>)
    ensures
        insert_all(m, ps).contains_key(k) <==> (m.contains_key(k) || exists|i: int|
            0 <= i < ps.len() && #[trigger] ps[i].0 == k),
    decreases ps.len(),
{
    if ps.len() > 0 {
        lemma_insert_all_has(m, ps.drop_last(), k);
        if exists|i: int| 0 <= i < ps.len() && #[trigger] ps[i].0 == k {
            let i = choose|i: int| 0 <= i < ps.len() && #[trigger] ps[i].0 == k;
            if i < ps.len() - 1 {
                assert(ps.drop_last()[i].0 == k);
            }
        }
        if exists|i: int| 0 <= i < ps.len() - 1 && #[trigger] ps.drop_last()[i].0 == k {
            let i = choose|i: int| 0 <= i < ps.len() - 1 && #[trigger] ps.drop_last()[i].0 == k;
            assert(ps[i].0 == k);
        }
    }
}

proof fn lemma_insert_all_push(
    m: Map<Seq<char>, Seq<char>>,
    ps: Seq<(Seq<char>, Seq<char>)>,
    p: (Seq<char>, Seq<char>),
)
    ensures
        insert_all(m, ps.push(p)) == insert_all(m, ps).insert(p.0, p.1),
{
    assert(ps.push(p).drop_last() =~= ps);
}

proof fn lemma_to_map_at(ps: Seq<(Seq<char>, Seq<char>)>, i: int)
    requires
        keys_distinct(ps),
        0 <= i < ps.len(),
    ensures
        to_map(ps).contains_key(ps[i].0),
        to_map(ps)[ps[i].0] == ps[i].1,
    decreases ps.len(),
{
    lemma_insert_all_has(Map::empty(), ps, ps[i].0);
    if i < ps.len() - 1 {
        lemma_to_map_at(ps.drop_last(), i);
        assert(ps.drop_last()[i] == ps[i]);
    }
}

proof fn lemma_to_map_update(ps: Seq<(Seq<char>, Seq<char>)>, i: int, v: Seq<char>)
    requires
        keys_distinct(ps),
        0 <= i < ps.len(),
    ensures
        to_map(ps.update(i, (ps[i].0, v))) == to_map(ps).insert(ps[i].0, v),
    decreases ps.len(),
{
    let qs = ps.update(i, (ps[i].0, v));
    if i == ps.len() - 1 {
        assert(qs.drop_last() =~= ps.drop_last());
        lemma_insert_all_has(Map::empty(), ps.drop_last(), ps[i].0);
        assert(to_map(qs) =~= to_map(ps).insert(ps[i].0, v));
    } else {
        lemma_to_map_update(ps.drop_last(), i, v);
        assert(qs.drop_last() =~= ps.drop_last().update(i, (ps[i].0, v)));
        assert(to_map(qs) =~= to_map(ps).insert(ps[i].0, v));
    }
}

/// Key-value configuration store.
pub struct ConfigStore {
    entries: Vec<(String, String)>,
}

impl View for ConfigStore {
    type V = Map<Seq<char>, Seq<char>>;

    closed spec fn view(&self) -> Map<Seq<char>, Seq<char>> {
        to_map(pair_views(self.entries@))
    }
}

impl ConfigStore {
    #[verifier::type_invariant]
    spec fn keys_unique(self) -> bool {
        keys_distinct(pair_views(self.entries@))
    }

    /// Creates an empty store.
    pub fn new() -> (r: Self)
        ensures
            r@ == Map::<Seq<char>, Seq<char>>::empty(),
    {
        ConfigStore { entries: Vec::new() }
    }

    /// Creates a store holding `values`; where a key repeats, the later
    /// value is kept.
    pub fn with_values(values: Vec<(String, String)>) -> (r: Self)
        ensures
            r@ == to_map(pair_views(values@)),
    {
        let mut store = ConfigStore::new();
        let n = values.len();
        for i in 0..n
            invariant
                n == values@.len(),
                store@ == to_map(pair_views(values@).take(i as int)),
        {
            store.set(values[i].0.as_str(), values[i].1.as_str());
            assert(pair_views(values@).take(i + 1).drop_last() =~= pair_views(values@).take(
                i as int,
            ));
        }
        assert(pair_views(values@).take(n as int) =~= pair_views(values@));
        store
    }

    fn position(&self, key: &str) -> (r: Option<usize>)
        ensures
            r matches Some(i) ==> i < self.entries@.len() && self.entries@[i as int].0@ == key@,
            r is None ==> forall|i: int|
                0 <= i < self.entries@.len() ==> #[trigger] self.entries@[i].0@ != key@,
    {
        let n = self.entries.len();
        for i in 0..n
            invariant
                n == self.entries@.len(),
                forall|j: int| 0 <= j < i ==> #[trigger] self.entries@[j].0@ != key@,
        {
            if same_text(self.entries[i].0.as_str(), key) {
                return Some(i);
            }
        }
        None
    }

    /// Sets a configuration value.
    pub fn set(&mut self, key: &str, value: &str)
        ensures
            final(self)@ == old(self)@.insert(key@, value@),
    {
        proof {
            use_type_invariant(&*self);
        }
        let ghost ps = pair_views(self.entries@);
        let entry = (String::from_str(key), String::from_str(value));
        let found = self.position(key);
        let mut entries: Vec<(String, String)> = Vec::new();
        std::mem::swap(&mut entries, &mut self.entries);
        match found {
            Some(i) => {
                proof {
                    lemma_to_map_update(ps, i as int, value@);
                }
                entries.set(i, entry);
                assert(pair_views(entries@) =~= ps.update(i as int, (key@, value@)));
            },
            None => {
                entries.push(entry);
                assert(pair_views(entries@) =~= ps.push((key@, value@)));
                assert(pair_views(entries@).drop_last() =~= ps);
            },
        }
        self.entries = entries;
    }

    /// Gets a configuration value by key.
    pub fn get(&self, key: &str) -> (r: Option<String>)
        ensures
            r is Some <==> self@.contains_key(key@),
            r matches Some(v) ==> v@ == self@[key@],
    {
        proof {
            use_type_invariant(self);
            lemma_insert_all_has(Map::empty(), pair_views(self.entries@), key@);
        }
        match self.position(key) {
            Some(i) => {
                proof {
                    lemma_to_map_at(pair_views(self.entries@), i as int);
                }
                Some(self.entries[i].1.clone())
            },
            None => {
                proof {
                    assert forall|i: int| 0 <= i < self.entries@.len() implies #[trigger] pair_views(
                        self.entries@,
                    )[i].0 != key@ by {
                        assert(self.entries@[i].0@ != key@);
                    }
                }
                None
            },
        }
    }

    /// All configuration keys, each once.
    pub fn keys(&self) -> (r: Vec<String>)
        ensures
            forall|k: Seq<char>|
                self@.contains_key(k) <==> exists|i: int| 0 <= i < r@.len() && #[trigger] r@[i]@ == k,
            forall|i: int, j: int| 0 <= i < j < r@.len() ==> r@[i]@ != r@[j]@,
    {
        proof {
            use_type_invariant(self);
        }
        let ghost ps = pair_views(self.entries@);
        let mut out: Vec<String> = Vec::new();
        let n = self.entries.len();
        for i in 0..n
            invariant
                n == self.entries@.len(),
                ps == pair_views(self.entries@),
                keys_distinct(ps),
                out@.len() == i,
                forall|j: int| 0 <= j < i ==> #[trigger] out@[j]@ == ps[j].0,
        {
            out.push(self.entries[i].0.clone());
        }
        proof {
            assert forall|k: Seq<char>| self@.contains_key(k) <==> exists|i: int|
                0 <= i < out@.len() && #[trigger] out@[i]@ == k by {
                lemma_insert_all_has(Map::empty(), ps, k);
                if exists|i: int| 0 <= i < ps.len() && #[trigger] ps[i].0 == k {
                    let i = choose|i: int| 0 <= i < ps.len() && #[trigger] ps[i].0 == k;
                    assert(out@[i]@ == k);
                }
                if exists|i: int| 0 <= i < out@.len() && #[trigger] out@[i]@ == k {
                    let i = choose|i: int| 0 <= i < out@.len() && #[trigger] out@[i]@ == k;
                    assert(ps[i].0 == k);
                }
            }
            assert forall|i: int, j: int| 0 <= i < j < out@.len() implies out@[i]@ != out@[j]@ by {
                assert(out@[i]@ == ps[i].0);
                assert(out@[j]@ == ps[j].0);
            }
        }
        out
    }

    /// The values whose keys start with `prefix`, keyed by the rest of the key
    /// without its leading underscores.
    pub fn get_section(&self, prefix: &str) -> (r: ConfigStore)
        ensures
            forall|sk: Seq<char>|
                #![trigger r@.contains_key(sk)]
                r@.contains_key(sk) <==> exists|k: Seq<char>|
                    #![trigger self@.contains_key(k)]
                    self@.contains_key(k) && has_prefix(k, prefix@) && section_key(k, prefix@) == sk,
            forall|sk: Seq<char>|
                #![trigger r@.contains_key(sk)]
                r@.contains_key(sk) ==> exists|k: Seq<char>|
                    #![trigger self@.contains_key(k)]
                    self@.contains_key(k) && has_prefix(k, prefix@) && section_key(k, prefix@) == sk
                        && r@[sk] == self@[k],
    {
        proof {
            use_type_invariant(self);
        }
        let ghost ps = pair_views(self.entries@);
        let mut section = ConfigStore::new();
        let plen = prefix.unicode_len();
        let n = self.entries.len();
        for i in 0..n
            invariant
                n == self.entries@.len(),
                plen == prefix@.len(),
                ps == pair_views(self.entries@),
                section@ == to_map(section_pairs(ps.take(i as int), prefix@)),
        {
            let key = self.entries[i].0.as_str();
            assert(ps.take(i + 1).drop_last() =~= ps.take(i as int));
            assert(ps.take(i + 1).last() == ps[i as int]);
            assert(ps[i as int] == (self.entries@[i as int].0@, self.entries@[i as int].1@));
            if starts_with(key, prefix) {
                let rest = tail_without_underscores(key, plen);
                proof {
                    lemma_insert_all_push(
                        Map::empty(),
                        section_pairs(ps.take(i as int), prefix@),
                        (rest@, ps[i as int].1),
                    );
                }
                section.set(rest, self.entries[i].1.as_str());
            }
        }
        assert(ps.take(n as int) =~= ps);
        proof {
            assert forall|sk: Seq<char>| #[trigger] section@.contains_key(sk) <==> exists|k: Seq<char>|
                #![trigger self@.contains_key(k)]
                self@.contains_key(k) && has_prefix(k, prefix@) && section_key(k, prefix@) == sk by {
                lemma_section_contents(ps, prefix@, sk);
                if section@.contains_key(sk) {
                    let i = choose|i: int|
                        0 <= i < ps.len() && has_prefix(#[trigger] ps[i].0, prefix@) && section_key(
                            ps[i].0,
                            prefix@,
                        ) == sk;
                    lemma_to_map_at(ps, i);
                    let k = ps[i].0;
                    assert(self@.contains_key(k) && has_prefix(k, prefix@) && section_key(k, prefix@)
                        == sk);
                }
                if exists|k: Seq<char>|
                    #![trigger self@.contains_key(k)]
                    self@.contains_key(k) && has_prefix(k, prefix@) && section_key(k, prefix@) == sk {
                    let k = choose|k: Seq<char>|
                        #![trigger self@.contains_key(k)]
                        self@.contains_key(k) && has_prefix(k, prefix@) && section_key(k, prefix@) == sk;
                    lemma_insert_all_has(Map::empty(), ps, k);
                    let i = choose|i: int| 0 <= i < ps.len() && #[trigger] ps[i].0 == k;
                    assert(has_prefix(ps[i].0, prefix@) && section_key(ps[i].0, prefix@) == sk);
                    assert(section@.contains_key(sk));
                }
            }
            assert forall|sk: Seq<char>| #[trigger] section@.contains_key(sk) implies exists|k: Seq<char>|
                #![trigger self@.contains_key(k)]
                self@.contains_key(k) && has_prefix(k, prefix@) && section_key(k, prefix@) == sk
                    && section@[sk] == self@[k] by {
                lemma_section_contents(ps, prefix@, sk);
                let i = choose|i: int|
                    0 <= i < ps.len() && has_prefix(#[trigger] ps[i].0, prefix@) && section_key(
                        ps[i].0,
                        prefix@,
                    ) == sk && section@[sk] == ps[i].1;
                lemma_to_map_at(ps, i);
                assert(self@.contains_key(ps[i].0));
            }
        }
        section
    }

    /// Gets a value read as a flag: true only for "true".
    pub fn get_bool(&self, key: &str) -> (r: Option<bool>)
        ensures
            r is Some <==> self@.contains_key(key@),
            r matches Some(b) ==> b == flag_value(self@[key@]),
    {
        match self.get(key) {
            Some(v) => Some(parse_flag(v.as_str())),
            None => None,
        }
    }

    /// Gets a value read as a count; `None` when absent or not a count.
    pub fn get_usize(&self, key: &str) -> (r: Option<usize>)
        ensures
            r == (if self@.contains_key(key@) {
                count_value(self@[key@])
            } else {
                None
            }),
    {
        match self.get(key) {
            Some(v) => parse_count(v.as_str()),
            None => None,
        }
    }

    /// Writes the variables `vars` (name, value) under the keys `env_key`
    /// gives, skipping those it gives none for; later writes win.
    pub fn load_vars(&mut self, vars: Vec<(String, String)>, prefix: &str)
        ensures
            final(self)@ == insert_all(old(self)@, env_pairs(pair_views(vars@), prefix@)),
    {
        let ghost vs = pair_views(vars@);
        let n = vars.len();
        for i in 0..n
            invariant
                n == vars@.len(),
                vs == pair_views(vars@),
                self@ == insert_all(old(self)@, env_pairs(vs.take(i as int), prefix@)),
        {
            assert(vs.take(i + 1).drop_last() =~= vs.take(i as int));
            assert(vs.take(i + 1).last() == vs[i as int]);
            assert(vs[i as int] == (vars@[i as int].0@, vars@[i as int].1@));
            match env_config_key(vars[i].0.as_str(), prefix) {
                Some(k) => {
                    proof {
                        lemma_insert_all_push(
                            old(self)@,
                            env_pairs(vs.take(i as int), prefix@),
                            (k@, vs[i as int].1),
                        );
                    }
                    self.set(k.as_str(), vars[i].1.as_str());
                },
                None => {},
            }
        }
        assert(vs.take(n as int) =~= vs);
    }

    /// Writes the pairs `ps` in order.
    pub fn extend(&mut self, ps: Vec<(String, String)>)
        ensures
            final(self)@ == insert_all(old(self)@, pair_views(ps@)),
    {
        let ghost vs = pair_views(ps@);
        let n = ps.len();
        for i in 0..n
            invariant
                n == ps@.len(),
                vs == pair_views(ps@),
                self@ == insert_all(old(self)@, vs.take(i as int)),
        {
            assert(vs.take(i + 1).drop_last() =~= vs.take(i as int));
            assert(vs[i as int] == (ps@[i as int].0@, ps@[i as int].1@));
            self.set(ps[i].0.as_str(), ps[i].1.as_str());
        }
        assert(vs.take(n as int) =~= vs);
    }
}

/// The configuration key for the environment variable `key` under `prefix`
/// (an empty prefix takes every variable).
pub fn env_config_key(key: &str, prefix: &str) -> (r: Option<String>)
    ensures
        r is Some <==> env_key(key@, prefix@) is Some,
        r matches Some(k) ==> env_key(key@, prefix@) == Some(k@),
{
    if prefix.unicode_len() == 0 {
        Some(lowercase_str(key))
    } else if starts_with(key, prefix) {
        Some(lowercase_str(tail_without_underscores(key, prefix.unicode_len())))
    } else {
        None
    }
}

/// Reading a key gives back what the last write to it wrote, and a write
/// leaves every other key as it was.
pub proof fn lemma_read_after_write(m: Map<Seq<char>, Seq<char>>, k: Seq<char>, v: Seq<char>, other: Seq<char>)
    ensures
        m.insert(k, v).contains_key(k),
        m.insert(k, v)[k] == v,
        other != k ==> (m.insert(k, v).contains_key(other) <==> m.contains_key(other)),
        other != k && m.contains_key(other) ==> m.insert(k, v)[other] == m[other],
{
}

/// A section holds exactly the keys that start with the prefix, under their
/// section key, and each of its values is the value of such a key.
pub proof fn lemma_section_contents(ps: Seq<(Seq<char>, Seq<char>)>, prefix: Seq<char>, sk: Seq<char>)
    ensures
        to_map(section_pairs(ps, prefix)).contains_key(sk) <==> exists|i: int|
            0 <= i < ps.len() && has_prefix(#[trigger] ps[i].0, prefix) && section_key(ps[i].0, prefix)
                == sk,
        to_map(section_pairs(ps, prefix)).contains_key(sk) ==> exists|i: int|
            0 <= i < ps.len() && has_prefix(#[trigger] ps[i].0, prefix) && section_key(ps[i].0, prefix)
                == sk && to_map(section_pairs(ps, prefix))[sk] == ps[i].1,
    decreases ps.len(),
{
    if ps.len() > 0 {
        let q = ps.drop_last();
        lemma_section_contents(q, prefix, sk);
        let last = ps.last();
        let n = ps.len() - 1;
        assert(forall|i: int| 0 <= i < q.len() ==> #[trigger] q[i] == ps[i]);
        assert(ps[n] == last);
        if has_prefix(last.0, prefix) {
            lemma_insert_all_push(Map::empty(), section_pairs(q, prefix), (section_key(last.0, prefix), last.1));
        }
        if exists|i: int|
            0 <= i < ps.len() && has_prefix(#[trigger] ps[i].0, prefix) && section_key(ps[i].0, prefix)
                == sk {
            let i = choose|i: int|
                0 <= i < ps.len() && has_prefix(#[trigger] ps[i].0, prefix) && section_key(ps[i].0, prefix)
                    == sk;
            if i < n {
                assert(has_prefix(q[i].0, prefix));
            }
        }
        if to_map(section_pairs(q, prefix)).contains_key(sk) {
            let i = choose|i: int|
                0 <= i < q.len() && has_prefix(#[trigger] q[i].0, prefix) && section_key(q[i].0, prefix)
                    == sk && to_map(section_pairs(q, prefix))[sk] == q[i].1;
            assert(has_prefix(ps[i].0, prefix));
        }
    }
}

} // verus!
