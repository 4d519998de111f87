//! A plain document tree: what rule files and audit records look like once
//! the external serialization layer (YAML or JSON) has been decoded. The
//! codec module reads and writes gateway values against this tree; the
//! serialization crates around the library only bridge their own value types
//! to and from it.

use vstd::prelude::*;

use crate::strutil::str_eq;

verus! {

/// One node of a decoded document: a scalar, a list, or a map with ordered
/// (key, value) entries.
#[derive(Debug, PartialEq)]
pub enum ConfigValue {
    Null,
    Bool(bool),
    Int(i64),
    Str(String),
    List(Vec<ConfigValue>),
    Mapping(Vec<(String, ConfigValue)>),
}

/// The value under the first entry of `entries` whose key is exactly `key`.
pub open spec fn map_get(entries: Seq<(String, ConfigValue)>, key: Seq<char>) -> Option<ConfigValue>
    decreases entries.len(),
{
    if entries.len() == 0 {
        None
    } else if entries[0].0@ == key {
        Some(entries[0].1)
    } else {
        map_get(entries.drop_first(), key)
    }
}


/// When the keys before index `i` differ from `key` and the key at `i` is
/// `key`, the lookup lands on entry `i`.
pub proof fn lemma_map_get_found(entries: Seq<(String, ConfigValue)>, key: Seq<char>, i: int)
    requires
        0 <= i < entries.len(),
        entries[i].0@ == key,
        forall|j: int| 0 <= j < i ==> (#[trigger] entries[j]).0@ != key,
    ensures
        map_get(entries, key) == Some(entries[i].1),
    decreases i,
{
    if i > 0 {
        lemma_map_get_found(entries.drop_first(), key, i - 1);
    }
}

/// Look up `key` among map entries, first match wins.
pub fn entries_get<'a>(entries: &'a Vec<(String, ConfigValue)>, key: &str) -> (r: Option<
    &'a ConfigValue,
>)
    ensures
        match r {
            Some(v) => map_get(entries@, key@) == Some(*v),
            None => map_get(entries@, key@) is None,
        },
{
    let n = entries.len();
    proof {
        assert(entries@.subrange(0, n as int) =~= entries@);
    }
    let mut i: usize = 0;
    while i < n
        invariant
            0 <= i <= n,
            n == entries@.len(),
            map_get(entries@, key@) == map_get(entries@.subrange(i as int, n as int), key@),
        decreases n - i,
    {
        let ghost tail = entries@.subrange(i as int, n as int);
        proof {
            assert(tail[0] == entries@[i as int]);
            assert(tail.drop_first() =~= entries@.subrange(i + 1 as int, n as int));
        }
        if str_eq(entries[i].0.as_str(), key) {
            return Some(&entries[i].1);
        }
        i = i + 1;
    }
    proof {
        assert(entries@.subrange(n as int, n as int) =~= Seq::<(String, ConfigValue)>::empty());
    }
    None
}

} // verus!
