//! Lists of named entries, read as mappings from names to values.
//!
//! A mapping is written down as the list of its entries. Where a name
//! occurs more than once the last entry of that name counts, and putting
//! a value under a name that is present replaces the entry where it
//! stands.

use vstd::prelude::*;

verus! {

/// A list of entries, each a name with its value.
pub type Entries<T> = Seq<(Seq<char>, T)>;

/// Some entry of `s` goes by the name `key`.
pub open spec fn has_key<T>(s: Entries<T>, key: Seq<char>) -> bool {
    exists|i: int| 0 <= i < s.len() && (#[trigger] s[i]).0 == key
}

/// No name occurs twice in `s`.
pub open spec fn distinct_keys<T>(s: Entries<T>) -> bool {
    forall|i: int, j: int| 0 <= i < j < s.len() ==> (#[trigger] s[i]).0 != (#[trigger] s[j]).0
}

/// Where the last entry of the name `key` stands in `s`.
pub open spec fn position<T>(s: Entries<T>, key: Seq<char>) -> Option<int>
    decreases s.len(),
{
    if s.len() == 0 {
        None
    } else if s.last().0 == key {
        Some(s.len() - 1)
    } else {
        position(s.drop_last(), key)
    }
}

/// The value under `key`: that of the last entry of this name.
pub open spec fn find<T>(s: Entries<T>, key: Seq<char>) -> Option<T> {
    match position(s, key) {
        Some(i) => Some(s[i].1),
        None => None,
    }
}

/// `s` with `value` under `key`: in place of the last entry of this name,
/// or as a new last entry when the name is absent.
pub open spec fn put<T>(s: Entries<T>, key: Seq<char>, value: T) -> Entries<T> {
    match position(s, key) {
        Some(i) => s.update(i, (key, value)),
        None => s.push((key, value)),
    }
}

/// The entries as a map from names to values.
pub open spec fn as_map<T>(s: Entries<T>) -> Map<Seq<char>, T>
    decreases s.len(),
{
    if s.len() == 0 {
        Map::empty()
    } else {
        as_map(s.drop_last()).insert(s.last().0, s.last().1)
    }
}

/// A position is that of an entry of the name which no entry of the
/// same name follows, and there is none only if no entry bears the name.
pub proof fn lemma_position<T>(s: Entries<T>, key: Seq<char>)
    ensures
        match position(s, key) {
            Some(i) => 0 <= i < s.len() && s[i].0 == key && forall|j: int|
                i < j < s.len() ==> (#[trigger] s[j]).0 != key,
            None => !has_key(s, key),
        },
    decreases s.len(),
{
    if s.len() > 0 && s.last().0 != key {
        let front = s.drop_last();
        lemma_position(front, key);
        match position(front, key) {
            Some(i) => {
                assert forall|j: int| i < j < s.len() implies (#[trigger] s[j]).0 != key by {
                    if j < front.len() {
                        assert(front[j].0 != key);
                    }
                }
            },
            None => {
                if has_key(s, key) {
                    let i = choose|i: int| 0 <= i < s.len() && (#[trigger] s[i]).0 == key;
                    assert(front[i].0 == key);
                }
            },
        }
    }
}

/// The entry at `i` is the one found under its name when no later entry
/// bears the name.
pub proof fn lemma_position_at<T>(s: Entries<T>, key: Seq<char>, i: int)
    requires
        0 <= i < s.len(),
        s[i].0 == key,
        forall|j: int| i < j < s.len() ==> (#[trigger] s[j]).0 != key,
    ensures
        position(s, key) == Some(i),
{
    lemma_position(s, key);
    match position(s, key) {
        Some(k) => {
            if k < i {
                assert(s[i].0 != key);
            } else if i < k {
                assert(s[k].0 != key);
            }
        },
        None => {
            assert(s[i].0 == key);
        },
    }
}

/// Putting keeps the names distinct, makes the list longer by one
/// exactly when the name is new, and leaves the value to be found.
pub proof fn lemma_put_distinct<T>(s: Entries<T>, key: Seq<char>, value: T)
    requires
        distinct_keys(s),
    ensures
        distinct_keys(put(s, key, value)),
        put(s, key, value).len() == if has_key(s, key) {
            s.len()
        } else {
            s.len() + 1
        },
        find(put(s, key, value), key) == Some(value),
{
    lemma_position(s, key);
    let t = put(s, key, value);
    match position(s, key) {
        Some(i) => {
            assert(s[i].0 == key);
            assert forall|a: int, b: int| 0 <= a < b < t.len() implies (#[trigger] t[a]).0 != (
            #[trigger] t[b]).0 by {
                assert(s[a].0 != s[b].0);
            }
            lemma_position_at(t, key, i);
        },
        None => {
            assert forall|a: int, b: int| 0 <= a < b < t.len() implies (#[trigger] t[a]).0 != (
            #[trigger] t[b]).0 by {
                if b < s.len() {
                    assert(s[a].0 != s[b].0);
                } else {
                    assert(s[a].0 != key);
                }
            }
            lemma_position_at(t, key, s.len() as int);
        },
    }
}

/// The map of a list has exactly the list's names as its keys and holds
/// under each what `find` gives.
pub proof fn lemma_as_map<T>(s: Entries<T>)
    ensures
        as_map(s).dom().finite(),
        forall|key: Seq<char>| #[trigger] as_map(s).dom().contains(key) <==> has_key(s, key),
        forall|key: Seq<char>| #[trigger]
            as_map(s).dom().contains(key) ==> find(s, key) == Some(as_map(s)[key]),
    decreases s.len(),
{
    if s.len() > 0 {
        let front = s.drop_last();
        lemma_as_map(front);
        assert forall|key: Seq<char>| #[trigger]
            as_map(s).dom().contains(key) <==> has_key(s, key) by {
            if has_key(s, key) {
                let i = choose|i: int| 0 <= i < s.len() && (#[trigger] s[i]).0 == key;
                if i < front.len() {
                    assert(front[i].0 == key);
                }
            }
            if key == s.last().0 {
                assert(s[s.len() - 1].0 == key);
            } else if as_map(s).dom().contains(key) {
                let i = choose|i: int| 0 <= i < front.len() && (#[trigger] front[i]).0 == key;
                assert(s[i].0 == key);
            }
        }
        assert forall|key: Seq<char>| #[trigger]
            as_map(s).dom().contains(key) implies find(s, key) == Some(as_map(s)[key]) by {
            if key != s.last().0 {
                assert(find(front, key) == Some(as_map(front)[key]));
                lemma_position(front, key);
            }
        }
    }
}

/// A list of distinct names maps as many keys as it has entries.
pub proof fn lemma_as_map_len<T>(s: Entries<T>)
    requires
        distinct_keys(s),
    ensures
        as_map(s).dom().finite(),
        as_map(s).dom().len() == s.len(),
    decreases s.len(),
{
    lemma_as_map(s);
    if s.len() > 0 {
        let front = s.drop_last();
        assert forall|i: int, j: int| 0 <= i < j < front.len() implies (#[trigger] front[i]).0 != (
        #[trigger] front[j]).0 by {
            assert(s[i].0 != s[j].0);
        }
        lemma_as_map_len(front);
        lemma_as_map(front);
        assert(!has_key(front, s.last().0)) by {
            if has_key(front, s.last().0) {
                let i = choose|i: int| 0 <= i < front.len() && (#[trigger] front[i]).0 == s.last().0;
                assert(s[i].0 != s[s.len() - 1].0);
            }
        }
        assert(!as_map(front).dom().contains(s.last().0));
    }
}

} // verus!
