//! Name/value tables. Query parameters and the fields of a decoded JSON
//! object both arrive as a list of pairs keyed by strings; lookup finds
//! the first entry with a given name.

use vstd::prelude::*;
use crate::chars::str_eq;

verus! {

/// The mathematical shape of a table: keys as character sequences, values
/// by their views.
pub open spec fn table_view<V: View>(es: Seq<(String, V)>) -> Seq<(Seq<char>, V::V)> {
    es.map_values(|e: (String, V)| (e.0@, e.1@))
}

/// The value of the first entry named `k`, if any.
pub open spec fn lookup<T>(es: Seq<(Seq<char>, T)>, k: Seq<char>) -> Option<T>
    decreases es.len(),
{
    if es.len() == 0 {
        None
    } else if es[0].0 == k {
        Some(es[0].1)
    } else {
        lookup(es.subrange(1, es.len() as int), k)
    }
}

/// Finds the first entry named `name`.
pub fn get_entry<'a, V: View>(entries: &'a Vec<(String, V)>, name: &str) -> (r: Option<&'a V>)
    ensures
        match r {
            Some(v) => lookup(table_view(entries@), name@) == Some(v@),
            None => lookup(table_view(entries@), name@) is None,
        },
{
    let ghost tv = table_view(entries@);
    assert(tv.subrange(0, tv.len() as int) =~= tv);
    let mut i: usize = 0;
    while i < entries.len()
        invariant
            i <= entries.len(),
            tv == table_view(entries@),
            tv.len() == entries.len(),
            lookup(tv, name@) == lookup(tv.subrange(i as int, tv.len() as int), name@),
        decreases entries.len() - i,
    {
        proof {
            assert(tv[i as int] == (entries@[i as int].0@, entries@[i as int].1@));
            let rest = tv.subrange(i as int, tv.len() as int);
            assert(rest[0] == tv[i as int]);
            assert(rest.subrange(1, rest.len() as int) =~= tv.subrange(i + 1, tv.len() as int));
        }
        let pair = &entries[i];
        if str_eq(pair.0.as_str(), name) {
            return Some(&pair.1);
        }
        i += 1;
    }
    assert(tv.subrange(entries.len() as int, tv.len() as int) =~= Seq::<(Seq<char>, V::V)>::empty());
    None
}

} // verus!
