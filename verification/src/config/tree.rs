//! Nested configuration documents (YAML mappings, JSON objects) and how they
//! flatten into keys joined with `_`.

use vstd::prelude::*;
use crate::config::store::{insert_all, pair_views, ConfigStore};
use crate::value_objects::timestamp::{signed_decimal, signed_decimal_text};

verus! {

/// A configuration document, as read from a JSON or YAML parser: one variant
/// for each kind of value the parser gives. Which kinds carry a setting, and
/// how each reads as text, is decided by `flatten`.
#[derive(Debug)]
pub enum ConfigTree {
    /// A mapping or object: its entries in document order, each under its
    /// key, or `None` for a key that is not a string.
    Section(Vec<(Option<String>, ConfigTree)>),
    /// A string.
    Value(String),
    /// A boolean.
    Bool(bool),
    /// A JSON number, by the parser's display text.
    Number(String),
    /// A YAML number: its value as an `i64` when it is an integer in range,
    /// and the display text of its value as a floating-point number.
    YamlNumber(Option<i64>, Option<String>),
    /// A YAML value with a tag: the value it tags.
    Tagged(Box<ConfigTree>),
    /// A list of values.
    List(Vec<ConfigTree>),
    /// Null.
    Null,
}

/// The key of an entry named `key` inside a section reached under `prefix`.
pub open spec fn join_key(prefix: Seq<char>, key: Seq<char>) -> Seq<char> {
    if prefix.len() == 0 {
        key
    } else {
        prefix + seq!['_'] + key
    }
}

/// The name of an entry: its key, or the empty name for a key that is not a
/// string.
pub open spec fn key_name(k: Option<String>) -> Seq<char> {
    match k {
        Some(s) => s@,
        None => Seq::empty(),
    }
}

/// A boolean as text.
pub open spec fn bool_text(b: bool) -> Seq<char> {
    if b {
        "true"@
    } else {
        "false"@
    }
}

/// The text of a YAML number: the integer in decimal when it fits in `i64`,
/// else its floating-point text.
pub open spec fn yaml_number_text(whole: Option<i64>, float: Option<String>) -> Option<Seq<char>> {
    match whole {
        Some(n) => Some(signed_decimal(n as int)),
        None => match float {
            Some(t) => Some(t@),
            None => None,
        },
    }
}

/// The (key, value) pairs of `t` reached under `prefix`, in document order:
/// strings, booleans and numbers give one pair each, a tagged value gives the
/// pairs of what it tags, sections give the pairs of their entries, and lists
/// and null give none.
pub open spec fn flatten_pairs(prefix: Seq<char>, t: ConfigTree) -> Seq<(Seq<char>, Seq<char>)>
    decreases t, 0nat,
{
    match t {
        ConfigTree::Value(s) => seq![(prefix, s@)],
        ConfigTree::Bool(b) => seq![(prefix, bool_text(b))],
        ConfigTree::Number(s) => seq![(prefix, s@)],
        ConfigTree::YamlNumber(whole, float) => match yaml_number_text(whole, float) {
            Some(text) => seq![(prefix, text)],
            None => Seq::empty(),
        },
        ConfigTree::Tagged(inner) => flatten_pairs(prefix, *inner),
        ConfigTree::List(_) => Seq::empty(),
        ConfigTree::Null => Seq::empty(),
        ConfigTree::Section(children) => flatten_entries(prefix, children@, children@.len()),
    }
}

/// The pairs of the first `n` entries of a section reached under `prefix`.
pub open spec fn flatten_entries(
    prefix: Seq<char>,
    cs: Seq<(Option<String>, ConfigTree)>,
    n: nat,
) -> Seq<(Seq<char>, Seq<char>)>
    decreases cs, n,
{
    if n == 0 || n > cs.len() {
        Seq::empty()
    } else {
        flatten_entries(prefix, cs, (n - 1) as nat) + flatten_pairs(
            join_key(prefix, key_name(cs[n - 1].0)),
            cs[n - 1].1,
        )
    }
}

/// Appends one pair to `out`.
fn push_pair(out: &mut Vec<(String, String)>, key: &str, value: String)
    ensures
        pair_views(final(out)@) == pair_views(old(out)@).push((key@, value@)),
{
    out.push((String::from_str(key), value));
    assert(pair_views(out@) =~= pair_views(old(out)@).push((key@, value@)));
}

/// A boolean as text.
fn bool_string(b: bool) -> (r: String)
    ensures
        r@ == bool_text(b),
{
    proof {
        reveal_strlit("true");
        reveal_strlit("false");
    }
    if b {
        String::from_str("true")
    } else {
        String::from_str("false")
    }
}

/// Appends the pairs of `t` under `prefix` to `out`.
fn flatten_into(prefix: &str, t: &ConfigTree, out: &mut Vec<(String, String)>)
    ensures
        pair_views(final(out)@) == pair_views(old(out)@) + flatten_pairs(prefix@, *t),
    decreases t,
{
    match t {
        ConfigTree::Value(s) => {
            push_pair(out, prefix, s.clone());
        },
        ConfigTree::Bool(b) => {
            push_pair(out, prefix, bool_string(*b));
        },
        ConfigTree::Number(s) => {
            push_pair(out, prefix, s.clone());
        },
        ConfigTree::YamlNumber(whole, float) => {
            match whole {
                Some(n) => {
                    push_pair(out, prefix, signed_decimal_text(*n));
                },
                None => match float {
                    Some(text) => {
                        push_pair(out, prefix, text.clone());
                    },
                    None => {
                        assert(pair_views(out@) =~= pair_views(old(out)@) + flatten_pairs(prefix@, *t));
                    },
                },
            }
        },
        ConfigTree::Tagged(inner) => {
            proof {
                assert(decreases_to!(*t => **inner));
            }
            flatten_into(prefix, &**inner, out);
        },
        ConfigTree::List(_) => {
            assert(pair_views(out@) =~= pair_views(old(out)@) + flatten_pairs(prefix@, *t));
        },
        ConfigTree::Null => {
            assert(pair_views(out@) =~= pair_views(old(out)@) + flatten_pairs(prefix@, *t));
        },
        ConfigTree::Section(children) => {
            let n = children.len();
            for i in 0..n
                invariant
                    n == children@.len(),
                    *t == ConfigTree::Section(*children),
                    pair_views(out@) == pair_views(old(out)@) + flatten_entries(
                        prefix@,
                        children@,
                        i as nat,
                    ),
            {
                let key = match &children[i].0 {
                    Some(k) => join_key_text(prefix, k.as_str()),
                    None => {
                        proof {
                            reveal_strlit("");
                            assert(""@ =~= Seq::<char>::empty());
                        }
                        join_key_text(prefix, "")
                    },
                };
                assert(key@ == join_key(prefix@, key_name(children@[i as int].0)));
                let ghost before = pair_views(out@);
                proof {
                    let c = children@[i as int];
                    assert((*t)->Section_0 == *children);
                    assert(decreases_to!(*t => (*t)->Section_0));
                    assert(decreases_to!(*children => children@));
                    assert(decreases_to!(children@ => c));
                    assert(decreases_to!(c => c.1));
                }
                flatten_into(key.as_str(), &children[i].1, out);
                assert(pair_views(out@) =~= pair_views(old(out)@) + flatten_entries(
                    prefix@,
                    children@,
                    (i + 1) as nat,
                ));
            }
        },
    }
}

/// The key of an entry named `key` under `prefix`.
fn join_key_text(prefix: &str, key: &str) -> (r: String)
    ensures
        r@ == join_key(prefix@, key@),
{
    if prefix.unicode_len() == 0 {
        String::from_str(key)
    } else {
        let mut out = String::from_str(prefix);
        out.append("_");
        proof {
            reveal_strlit("_");
        }
        out.append(key);
        out
    }
}

/// The pairs of a document, keys joined with `_` from the top.
pub fn flatten(t: &ConfigTree) -> (r: Vec<(String, String)>)
    ensures
        pair_views(r@) == flatten_pairs(Seq::empty(), *t),
{
    let mut out = Vec::new();
    proof {
        reveal_strlit("");
    }
    flatten_into("", t, &mut out);
    assert(pair_views(out@) =~= Seq::empty() + flatten_pairs(""@, *t));
    assert(""@ =~= Seq::<char>::empty());
    out
}

impl ConfigStore {
    /// Writes the pairs of a document into the store, in document order.
    pub fn load_tree(&mut self, t: &ConfigTree)
        ensures
            final(self)@ == insert_all(old(self)@, flatten_pairs(Seq::empty(), *t)),
    {
        let pairs = flatten(t);
        self.extend(pairs);
    }
}

/// What each kind of leaf contributes under a key: a string its text, a
/// boolean "true" or "false", a JSON number its text, a YAML number its
/// decimal integer or else its float text, a tagged value what it tags; lists
/// and null contribute nothing. Each contributing leaf gives exactly one pair.
pub proof fn lemma_leaf_pairs(key: Seq<char>, s: String, b: bool, n: i64, f: String, inner: ConfigTree, items: Vec<ConfigTree>)
    ensures
        flatten_pairs(key, ConfigTree::Value(s)) == seq![(key, s@)],
        flatten_pairs(key, ConfigTree::Bool(b)) == seq![(key, if b { "true"@ } else { "false"@ })],
        flatten_pairs(key, ConfigTree::Number(s)) == seq![(key, s@)],
        flatten_pairs(key, ConfigTree::YamlNumber(Some(n), Some(f))) == seq![(key, signed_decimal(n as int))],
        flatten_pairs(key, ConfigTree::YamlNumber(Some(n), None)) == seq![(key, signed_decimal(n as int))],
        flatten_pairs(key, ConfigTree::YamlNumber(None, Some(f))) == seq![(key, f@)],
        flatten_pairs(key, ConfigTree::YamlNumber(None, None)) == Seq::<(Seq<char>, Seq<char>)>::empty(),
        flatten_pairs(key, ConfigTree::Tagged(Box::new(inner))) == flatten_pairs(key, inner),
        flatten_pairs(key, ConfigTree::List(items)) == Seq::<(Seq<char>, Seq<char>)>::empty(),
        flatten_pairs(key, ConfigTree::Null) == Seq::<(Seq<char>, Seq<char>)>::empty(),
{
}

/// How a section flattens, entry by entry: a section with no entries gives
/// nothing, and adding an entry at the end adds that entry's pairs at the
/// end, under the section's key joined to the entry's key with `_` (just the
/// entry's key at the top, and "" for a key that is not a string).
pub proof fn lemma_section_pairs(
    prefix: Seq<char>,
    v: Vec<(Option<String>, ConfigTree)>,
    w: Vec<(Option<String>, ConfigTree)>,
    k: Option<String>,
    t: ConfigTree,
)
    requires
        v@ == w@.push((k, t)),
    ensures
        w@.len() == 0 ==> flatten_pairs(prefix, ConfigTree::Section(w)) == Seq::<(Seq<char>, Seq<char>)>::empty(),
        flatten_pairs(prefix, ConfigTree::Section(v)) == flatten_pairs(prefix, ConfigTree::Section(w))
            + flatten_pairs(
            if prefix.len() == 0 {
                match k {
                    Some(name) => name@,
                    None => Seq::empty(),
                }
            } else {
                prefix + "_"@ + match k {
                    Some(name) => name@,
                    None => Seq::empty(),
                }
            },
            t,
        ),
{
    reveal_strlit("_");
    assert("_"@ =~= seq!['_']);
    lemma_entries_prefix(prefix, v@, w@, w@.len());
    assert(flatten_entries(prefix, v@, v@.len()) == flatten_entries(prefix, v@, w@.len())
        + flatten_pairs(join_key(prefix, key_name(v@[w@.len() as int].0)), v@[w@.len() as int].1));
}

/// The first `n` entries of a section flatten the same way in any section
/// that starts with them.
proof fn lemma_entries_prefix(
    prefix: Seq<char>,
    v: Seq<(Option<String>, ConfigTree)>,
    w: Seq<(Option<String>, ConfigTree)>,
    n: nat,
)
    requires
        n <= w.len(),
        w.len() <= v.len(),
        forall|i: int| 0 <= i < w.len() ==> v[i] == w[i],
    ensures
        flatten_entries(prefix, v, n) == flatten_entries(prefix, w, n),
    decreases n,
{
    if n > 0 {
        lemma_entries_prefix(prefix, v, w, (n - 1) as nat);
        assert(v[n - 1] == w[n - 1]);
    }
}

/// A one-entry document with a boolean, loaded into any store, sets that key
/// to "true" or "false" and leaves every other key as it was.
pub proof fn lemma_boolean_entry_loads(
    m: Map<Seq<char>, Seq<char>>,
    v: Vec<(Option<String>, ConfigTree)>,
    k: String,
    b: bool,
)
    requires
        v@ == seq![(Some(k), ConfigTree::Bool(b))],
    ensures
        flatten_pairs(Seq::empty(), ConfigTree::Section(v)) == seq![(k@, if b { "true"@ } else { "false"@ })],
        insert_all(m, flatten_pairs(Seq::empty(), ConfigTree::Section(v))) == m.insert(
            k@,
            if b { "true"@ } else { "false"@ },
        ),
{
    let ps = flatten_pairs(Seq::empty(), ConfigTree::Section(v));
    let e = Seq::<char>::empty();
    assert(v@.len() == 1);
    assert(ps == flatten_entries(e, v@, 1));
    assert(flatten_entries(e, v@, 0) =~= Seq::empty());
    assert(join_key(e, key_name(v@[0].0)) == k@);
    assert(flatten_entries(e, v@, 1) == flatten_entries(e, v@, 0) + flatten_pairs(k@, ConfigTree::Bool(b)));
    assert(ps =~= seq![(k@, if b { "true"@ } else { "false"@ })]);
    assert(ps.drop_last() =~= Seq::empty());
    assert(insert_all(m, ps.drop_last()) == m);
    assert(ps.last() == (k@, if b { "true"@ } else { "false"@ }));
}

} // verus!
