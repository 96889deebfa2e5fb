//! Named settings: lists of keyed values. A list that stands for a map holds its keys in ascending
//! order, and what goes through such a list goes through it in that order.

use crate::ordered::{
    placement, precedes, precedes_irreflexive, precedes_total, precedes_transitive, stands_before, Placement,
};
use crate::text::{optional_view, same_text};
use vstd::prelude::*;
use vstd::seq_lib::*;
use vstd::string::*;

verus! {

/// One keyed value of a named list.
#[derive(Debug)]
pub struct Entry<T> {
    /// Its key.
    pub key: String,
    /// Its value.
    pub value: T,
}

/// The keys of a list, in order.
pub open spec fn keys<T>(list: Seq<Entry<T>>) -> Seq<Seq<char>> {
    list.map_values(|entry: Entry<T>| entry.key@)
}

/// The list has `key`.
pub open spec fn has_key<T>(list: Seq<Entry<T>>, key: Seq<char>) -> bool {
    exists|i: int| 0 <= i < list.len() && (#[trigger] list[i]).key@ == key
}

/// No key stands in the list twice.
pub open spec fn distinct_keys<T>(list: Seq<Entry<T>>) -> bool {
    forall|i: int, j: int| 0 <= i < j < list.len() ==> (#[trigger] list[i]).key@ != (#[trigger] list[j]).key@
}

/// Each key stands before all later ones: the list is ordered and holds no key twice.
pub open spec fn ascending_keys<T>(list: Seq<Entry<T>>) -> bool {
    forall|i: int, j: int| 0 <= i < j < list.len() ==> precedes((#[trigger] list[i]).key@, (#[trigger] list[j]).key@)
}

/// The first value of `key`.
pub open spec fn value_of<T>(list: Seq<Entry<T>>, key: Seq<char>) -> Option<T>
    decreases list.len(),
{
    if list.len() == 0 {
        None
    } else if list[0].key@ == key {
        Some(list[0].value)
    } else {
        value_of(list.skip(1), key)
    }
}

/// A key has a value exactly where the list has the key.
pub proof fn value_exists<T>(list: Seq<Entry<T>>, key: Seq<char>)
    ensures
        has_key(list, key) == (value_of(list, key) is Some),
    decreases list.len(),
{
    if list.len() > 0 {
        let rest = list.skip(1);
        value_exists(rest, key);
        if list[0].key@ != key {
            if has_key(list, key) {
                let i = choose|i: int| 0 <= i < list.len() && (#[trigger] list[i]).key@ == key;
                assert(rest[i - 1].key@ == key);
            }
            if has_key(rest, key) {
                let i = choose|i: int| 0 <= i < rest.len() && (#[trigger] rest[i]).key@ == key;
                assert(list[i + 1].key@ == key);
            }
        }
    }
}

/// Replacing the value at the first place of a key changes that key alone.
pub proof fn update_value<T>(list: Seq<Entry<T>>, at: int, entry: Entry<T>, key: Seq<char>)
    requires
        0 <= at < list.len(),
        entry.key@ == list[at].key@,
        forall|j: int| 0 <= j < at ==> (#[trigger] list[j]).key@ != entry.key@,
    ensures
        value_of(list.update(at, entry), key) == if key == entry.key@ {
            Some(entry.value)
        } else {
            value_of(list, key)
        },
        value_of(list, entry.key@) == Some(list[at].value),
    decreases at,
{
    let updated = list.update(at, entry);
    if at == 0 {
        assert(updated.skip(1) =~= list.skip(1));
    } else {
        let rest = list.skip(1);
        assert(updated.skip(1) =~= rest.update(at - 1, entry));
        assert forall|j: int| 0 <= j < at - 1 implies (#[trigger] rest[j]).key@ != entry.key@ by {
            assert(list[j + 1].key@ != entry.key@);
        }
        update_value(rest, at - 1, entry, key);
        assert(list[0].key@ != entry.key@);
    }
}

/// An entry inserted before all others of its key, or where there are none, changes that key alone.
pub proof fn insert_value<T>(list: Seq<Entry<T>>, at: int, entry: Entry<T>, key: Seq<char>)
    requires
        0 <= at <= list.len(),
        forall|j: int| 0 <= j < at ==> (#[trigger] list[j]).key@ != entry.key@,
    ensures
        value_of(list.insert(at, entry), key) == if key == entry.key@ {
            Some(entry.value)
        } else {
            value_of(list, key)
        },
    decreases at,
{
    let longer = list.insert(at, entry);
    if at == 0 {
        assert(longer.skip(1) =~= list);
    } else {
        let rest = list.skip(1);
        assert(longer.skip(1) =~= rest.insert(at - 1, entry));
        assert forall|j: int| 0 <= j < at - 1 implies (#[trigger] rest[j]).key@ != entry.key@ by {
            assert(list[j + 1].key@ != entry.key@);
        }
        insert_value(rest, at - 1, entry, key);
        assert(list[0].key@ != entry.key@);
    }
}

/// An entry of a new key inserted before the first larger key keeps keys distinct and ascending.
pub proof fn insert_keeps_order<T>(list: Seq<Entry<T>>, at: int, entry: Entry<T>)
    requires
        0 <= at <= list.len(),
        !has_key(list, entry.key@),
        forall|j: int| 0 <= j < at ==> precedes((#[trigger] list[j]).key@, entry.key@),
        at < list.len() ==> precedes(entry.key@, list[at].key@),
    ensures
        distinct_keys(list) ==> distinct_keys(list.insert(at, entry)),
        ascending_keys(list) ==> ascending_keys(list.insert(at, entry)),
{
    let longer = list.insert(at, entry);
    assert forall|j: int| 0 <= j < list.len() implies (#[trigger] list[j]).key@ != entry.key@ by {
    }
    if ascending_keys(list) {
        assert forall|i: int, j: int| 0 <= i < j < longer.len() implies precedes(
            (#[trigger] longer[i]).key@,
            (#[trigger] longer[j]).key@,
        ) by {
            let a = if i < at {
                i
            } else {
                i - 1
            };
            let b = if j < at {
                j
            } else {
                j - 1
            };
            if i == at {
                assert(longer[j] == list[b]);
                if b > at {
                    assert(precedes(list[at].key@, list[b].key@));
                    precedes_transitive(entry.key@, list[at].key@, list[b].key@);
                }
            } else if j == at {
                assert(longer[i] == list[a]);
            } else {
                assert(longer[i] == list[a] && longer[j] == list[b]);
            }
        }
    }
}

/// Where a new key comes in an ascending list: before the first larger key.
pub fn place_of<T>(list: &Vec<Entry<T>>, key: &str) -> (at: usize)
    requires
        !has_key(list@, key@),
    ensures
        at <= list@.len(),
        forall|j: int| 0 <= j < at ==> precedes((#[trigger] list@[j]).key@, key@),
        at < list@.len() ==> precedes(key@, list@[at as int].key@),
{
    let mut at: usize = 0;
    while at < list.len()
        invariant
            at <= list@.len(),
            !has_key(list@, key@),
            forall|j: int| 0 <= j < at ==> precedes((#[trigger] list@[j]).key@, key@),
        decreases list@.len() - at,
    {
        proof {
            assert(list@[at as int].key@ != key@);
            precedes_total(list@[at as int].key@, key@);
        }
        match placement(list[at].key.as_str(), key) {
            Placement::Before => {},
            _ => {
                return at;
            },
        }
        at = at + 1;
    }
    at
}

/// In an ascending list no key stands twice.
pub proof fn ascending_keys_differ<T>(list: Seq<Entry<T>>)
    requires
        ascending_keys(list),
    ensures
        distinct_keys(list),
{
    assert forall|i: int, j: int| 0 <= i < j < list.len() implies (#[trigger] list[i]).key@ != (
    #[trigger] list[j]).key@ by {
        precedes_irreflexive(list[i].key@);
    }
}

/// The first value of `key`.
pub fn lookup<'a, T>(list: &'a Vec<Entry<T>>, key: &str) -> (value: Option<&'a T>)
    ensures
        match value {
            Some(found) => value_of(list@, key@) == Some(*found),
            None => value_of(list@, key@) is None,
        },
        value is Some == has_key(list@, key@),
{
    let mut i: usize = 0;
    proof {
        value_exists(list@, key@);
        assert(list@.skip(0) =~= list@);
    }
    while i < list.len()
        invariant
            i <= list@.len(),
            value_of(list@, key@) == value_of(list@.skip(i as int), key@),
            has_key(list@, key@) == (value_of(list@, key@) is Some),
        decreases list@.len() - i,
    {
        if same_text(list[i].key.as_str(), key) {
            return Some(&list[i].value);
        }
        proof {
            assert(list@.skip(i as int).skip(1) =~= list@.skip(i + 1));
        }
        i = i + 1;
    }
    None
}

/// Whether the list has `key`.
pub fn contains_key<T>(list: &Vec<Entry<T>>, key: &str) -> (found: bool)
    ensures
        found == has_key(list@, key@),
{
    lookup(list, key).is_some()
}

/// Gives `key` a value, in place of the one it had. A new key comes before the first larger one, so an
/// ascending list stays ascending.
pub fn put<T>(list: &mut Vec<Entry<T>>, key: String, value: T)
    ensures
        forall|k: Seq<char>|
            #![trigger value_of(final(list)@, k)]
            value_of(final(list)@, k) == if k == key@ {
                Some(value)
            } else {
                value_of(old(list)@, k)
            },
        distinct_keys(old(list)@) ==> distinct_keys(final(list)@),
        ascending_keys(old(list)@) ==> ascending_keys(final(list)@),
{
    let ghost before = list@;
    let mut i: usize = 0;
    while i < list.len()
        invariant
            i <= list@.len(),
            list@ == before,
            before == old(list)@,
            forall|j: int| 0 <= j < i ==> (#[trigger] before[j]).key@ != key@,
        decreases list@.len() - i,
    {
        if same_text(list[i].key.as_str(), key.as_str()) {
            let entry = Entry { key, value };
            proof {
                assert forall|k: Seq<char>|
                    #![trigger value_of(before.update(i as int, entry), k)]
                    value_of(before.update(i as int, entry), k) == if k == entry.key@ {
                        Some(entry.value)
                    } else {
                        value_of(before, k)
                    } by {
                    update_value(before, i as int, entry, k);
                }
            }
            list.set(i, entry);
            return;
        }
        i = i + 1;
    }
    proof {
        assert(!has_key(before, key@));
    }
    let at: usize = place_of(list, key.as_str());
    let entry = Entry { key, value };
    proof {
        insert_keeps_order(before, at as int, entry);
        assert forall|k: Seq<char>|
            #![trigger value_of(before.insert(at as int, entry), k)]
            value_of(before.insert(at as int, entry), k) == if k == entry.key@ {
                Some(entry.value)
            } else {
                value_of(before, k)
            } by {
            insert_value(before, at as int, entry, k);
        }
    }
    list.insert(at, entry);
}

/// Keyed texts as characters.
pub open spec fn text_entries(list: Seq<Entry<String>>) -> Seq<(Seq<char>, Seq<char>)> {
    list.map_values(|entry: Entry<String>| (entry.key@, entry.value@))
}

/// A clone of keyed texts.
pub fn clone_entries(list: &Vec<Entry<String>>) -> (copy: Vec<Entry<String>>)
    ensures
        copy@ == list@,
{
    let mut copy: Vec<Entry<String>> = Vec::new();
    let mut i: usize = 0;
    while i < list.len()
        invariant
            i <= list@.len(),
            copy@ == list@.take(i as int),
        decreases list@.len() - i,
    {
        copy.push(Entry { key: list[i].key.clone(), value: list[i].value.clone() });
        proof {
            assert(list@.take(i + 1) =~= list@.take(i as int).push(list@[i as int]));
        }
        i = i + 1;
    }
    proof {
        assert(list@.take(i as int) =~= list@);
    }
    copy
}

/// Whether two lists hold the same keyed texts in the same order.
pub fn same_entries(left: &Vec<Entry<String>>, right: &Vec<Entry<String>>) -> (same: bool)
    ensures
        same == (text_entries(left@) == text_entries(right@)),
{
    if left.len() != right.len() {
        proof {
            assert(text_entries(left@).len() != text_entries(right@).len());
        }
        return false;
    }
    let mut i: usize = 0;
    while i < left.len()
        invariant
            i <= left@.len() == right@.len(),
            forall|j: int|
                0 <= j < i ==> (#[trigger] left@[j]).key@ == right@[j].key@ && left@[j].value@ == right@[j].value@,
        decreases left@.len() - i,
    {
        if !same_text(left[i].key.as_str(), right[i].key.as_str()) || !same_text(
            left[i].value.as_str(),
            right[i].value.as_str(),
        ) {
            proof {
                assert(text_entries(left@)[i as int] != text_entries(right@)[i as int]);
            }
            return false;
        }
        i = i + 1;
    }
    proof {
        assert(text_entries(left@) =~= text_entries(right@));
    }
    true
}

/// The keys of a list, in order.
pub fn key_list<T>(list: &Vec<Entry<T>>) -> (result: Vec<String>)
    ensures
        result@ == list@.map_values(|entry: Entry<T>| entry.key),
{
    let mut result: Vec<String> = Vec::new();
    let mut i: usize = 0;
    while i < list.len()
        invariant
            i <= list@.len(),
            result@ == list@.take(i as int).map_values(|entry: Entry<T>| entry.key),
        decreases list@.len() - i,
    {
        result.push(list[i].key.clone());
        proof {
            let f = |entry: Entry<T>| entry.key;
            assert(list@.take(i + 1).map_values(f) =~= list@.take(i as int).map_values(f).push(list@[i as int].key));
        }
        i = i + 1;
    }
    proof {
        assert(list@.take(i as int) =~= list@);
    }
    result
}

/// Two lists give every key the same text, in whatever order.
pub open spec fn same_map(left: Seq<Entry<String>>, right: Seq<Entry<String>>) -> bool {
    forall|key: Seq<char>|
        #![trigger value_of(left, key)]
        #![trigger value_of(right, key)]
        optional_view(value_of(left, key)) == optional_view(value_of(right, key))
}

/// Every key of the one list has the same text in the other.
spec fn covered(left: Seq<Entry<String>>, right: Seq<Entry<String>>, end: int) -> bool {
    forall|i: int|
        0 <= i < end ==> optional_view(value_of(right, (#[trigger] left[i]).key@)) == optional_view(
            value_of(left, left[i].key@),
        )
}

fn is_covered(left: &Vec<Entry<String>>, right: &Vec<Entry<String>>) -> (yes: bool)
    ensures
        yes == covered(left@, right@, left@.len() as int),
{
    let mut i: usize = 0;
    while i < left.len()
        invariant
            i <= left@.len(),
            covered(left@, right@, i as int),
        decreases left@.len() - i,
    {
        let key = left[i].key.as_str();
        let same = match (lookup(left, key), lookup(right, key)) {
            (Some(a), Some(b)) => same_text(a.as_str(), b.as_str()),
            (None, None) => true,
            _ => false,
        };
        if !same {
            return false;
        }
        i = i + 1;
    }
    true
}

/// Whether two lists give every key the same text, in whatever order.
pub fn is_same_map(left: &Vec<Entry<String>>, right: &Vec<Entry<String>>) -> (yes: bool)
    ensures
        yes == same_map(left@, right@),
{
    let yes = is_covered(left, right) && is_covered(right, left);
    proof {
        if yes {
            assert forall|key: Seq<char>|
                #![trigger value_of(left@, key)]
                #![trigger value_of(right@, key)]
                optional_view(value_of(left@, key)) == optional_view(value_of(right@, key)) by {
                value_exists(left@, key);
                value_exists(right@, key);
                if has_key(left@, key) {
                    let i = choose|i: int| 0 <= i < left@.len() && (#[trigger] left@[i]).key@ == key;
                    assert(left@[i].key@ == key);
                } else if has_key(right@, key) {
                    let i = choose|i: int| 0 <= i < right@.len() && (#[trigger] right@[i]).key@ == key;
                    assert(right@[i].key@ == key);
                }
            }
        }
        if same_map(left@, right@) {
            assert forall|i: int| 0 <= i < left@.len() implies optional_view(
                value_of(right@, (#[trigger] left@[i]).key@),
            ) == optional_view(value_of(left@, left@[i].key@)) by {
                assert(optional_view(value_of(left@, left@[i].key@)) == optional_view(
                    value_of(right@, left@[i].key@),
                ));
            }
            assert forall|i: int| 0 <= i < right@.len() implies optional_view(
                value_of(left@, (#[trigger] right@[i]).key@),
            ) == optional_view(value_of(right@, right@[i].key@)) by {
                assert(optional_view(value_of(left@, right@[i].key@)) == optional_view(
                    value_of(right@, right@[i].key@),
                ));
            }
            assert(yes);
        }
    }
    yes
}

/// The keyed texts of a list in the order of their keys.
pub fn ordered_entries(list: &Vec<Entry<String>>) -> (ordered: Vec<Entry<String>>)
    ensures
        ascending_keys(ordered@),
        same_map(ordered@, list@),
{
    let mut ordered: Vec<Entry<String>> = Vec::new();
    let mut i: usize = list.len();
    proof {
        assert(list@.skip(i as int) =~= Seq::<Entry<String>>::empty());
        assert(same_map(ordered@, list@.skip(i as int)));
    }
    while i > 0
        invariant
            i <= list@.len(),
            ascending_keys(ordered@),
            same_map(ordered@, list@.skip(i as int)),
        decreases i,
    {
        i = i - 1;
        let ghost before = ordered@;
        put(&mut ordered, list[i].key.clone(), list[i].value.clone());
        proof {
            let rest = list@.skip(i as int);
            assert(rest[0] == list@[i as int]);
            assert(rest.skip(1) =~= list@.skip(i + 1));
            assert forall|key: Seq<char>|
                #![trigger value_of(ordered@, key)]
                #![trigger value_of(rest, key)]
                optional_view(value_of(ordered@, key)) == optional_view(value_of(rest, key)) by {
                assert(optional_view(value_of(before, key)) == optional_view(value_of(rest.skip(1), key)));
            }
        }
    }
    proof {
        assert(list@.skip(0) =~= list@);
    }
    ordered
}

/// A list with one more item, which comes before the first that has a larger key.
pub open spec fn placed_by<T>(list: Seq<T>, item: T, key: spec_fn(T) -> Seq<char>) -> Seq<T>
    decreases list.len(),
{
    if list.len() == 0 || precedes(key(item), key(list[0])) {
        list.insert(0, item)
    } else {
        placed_by(list.skip(1), item, key).insert(0, list[0])
    }
}

/// The items in the order of their keys; those of the same key stay as they came.
pub open spec fn ordered_by<T>(list: Seq<T>, key: spec_fn(T) -> Seq<char>) -> Seq<T>
    decreases list.len(),
{
    if list.len() == 0 {
        list
    } else {
        placed_by(ordered_by(list.drop_last(), key), list.last(), key)
    }
}

/// The key of an entry.
pub open spec fn by_key<T>() -> spec_fn(Entry<T>) -> Seq<char> {
    |entry: Entry<T>| entry.key@
}

/// The first part of a pair.
pub open spec fn by_first<T>() -> spec_fn((Seq<char>, T)) -> Seq<char> {
    |pair: (Seq<char>, T)| pair.0
}

/// Where an item with no smaller key than the first ones, and a smaller one than the next, comes.
proof fn placed_at<T>(list: Seq<T>, item: T, at: int, key: spec_fn(T) -> Seq<char>)
    requires
        0 <= at <= list.len(),
        forall|i: int| 0 <= i < at ==> !precedes(key(item), key(#[trigger] list[i])),
        at < list.len() ==> precedes(key(item), key(list[at])),
    ensures
        placed_by(list, item, key) == list.insert(at, item),
    decreases list.len(),
{
    if at > 0 {
        let rest = list.skip(1);
        assert(!precedes(key(item), key(list[0])));
        assert forall|i: int| 0 <= i < at - 1 implies !precedes(key(item), key(#[trigger] rest[i])) by {
            assert(rest[i] == list[i + 1]);
        }
        placed_at(rest, item, at - 1, key);
        assert(placed_by(list, item, key) =~= list.insert(at, item));
    }
}

/// Every item has a place in a list.
proof fn some_place<T>(list: Seq<T>, item: T, from: int, key: spec_fn(T) -> Seq<char>) -> (at: int)
    requires
        0 <= from <= list.len(),
        forall|i: int| 0 <= i < from ==> !precedes(key(item), key(#[trigger] list[i])),
    ensures
        from <= at <= list.len(),
        forall|i: int| 0 <= i < at ==> !precedes(key(item), key(#[trigger] list[i])),
        at < list.len() ==> precedes(key(item), key(list[at])),
    decreases list.len() - from,
{
    if from == list.len() || precedes(key(item), key(list[from])) {
        from
    } else {
        some_place(list, item, from + 1, key)
    }
}

proof fn placing_commutes<T, U>(
    list: Seq<T>,
    item: T,
    change: spec_fn(T) -> U,
    key: spec_fn(T) -> Seq<char>,
    other: spec_fn(U) -> Seq<char>,
)
    requires
        forall|x: T| other(#[trigger] change(x)) == key(x),
    ensures
        placed_by(list, item, key).map_values(change) == placed_by(list.map_values(change), change(item), other),
    decreases list.len(),
{
    let changed = list.map_values(change);
    if list.len() > 0 {
        assert(changed[0] == change(list[0]));
        assert(other(change(item)) == key(item));
        assert(other(change(list[0])) == key(list[0]));
        assert(changed.skip(1) =~= list.skip(1).map_values(change));
        placing_commutes(list.skip(1), item, change, key, other);
    }
    assert(placed_by(list, item, key).map_values(change) =~= placed_by(changed, change(item), other));
}

/// Items that are changed but keep their keys keep their order.
pub proof fn ordering_commutes<T, U>(
    list: Seq<T>,
    change: spec_fn(T) -> U,
    key: spec_fn(T) -> Seq<char>,
    other: spec_fn(U) -> Seq<char>,
)
    requires
        forall|x: T| other(#[trigger] change(x)) == key(x),
    ensures
        ordered_by(list, key).map_values(change) == ordered_by(list.map_values(change), other),
    decreases list.len(),
{
    let changed = list.map_values(change);
    if list.len() == 0 {
        assert(ordered_by(list, key).map_values(change) =~= ordered_by(changed, other));
    } else {
        assert(changed.drop_last() =~= list.drop_last().map_values(change));
        assert(changed.last() == change(list.last()));
        ordering_commutes(list.drop_last(), change, key, other);
        placing_commutes(ordered_by(list.drop_last(), key), list.last(), change, key, other);
    }
}

/// Ordering keeps every entry, each as often as before, and puts distinct keys in ascending order.
pub proof fn ordering_keeps_entries<T>(list: Seq<Entry<T>>)
    ensures
        ordered_by(list, by_key()).to_multiset() == list.to_multiset(),
        ordered_by(list, by_key()).len() == list.len(),
        distinct_keys(list) ==> ascending_keys(ordered_by(list, by_key())),
    decreases list.len(),
{
    broadcast use group_to_multiset_ensures;

    if list.len() > 0 {
        let rest = list.drop_last();
        let item = list.last();
        let before = ordered_by(rest, by_key());
        ordering_keeps_entries(rest);
        let at = some_place(before, item, 0, by_key());
        placed_at(before, item, at, by_key());
        assert(list =~= rest.push(item));
        assert(before.insert(at, item).to_multiset() =~= before.to_multiset().insert(item));
        if distinct_keys(list) {
            assert forall|i: int, j: int| 0 <= i < j < rest.len() implies (#[trigger] rest[i]).key@ != (
            #[trigger] rest[j]).key@ by {
                assert(list[i].key@ != list[j].key@);
            }
            assert forall|j: int| 0 <= j < before.len() implies (#[trigger] before[j]).key@ != item.key@ by {
                assert(before.to_multiset().contains(before[j]));
                assert(rest.contains(before[j]));
                let k = choose|k: int| 0 <= k < rest.len() && rest[k] == before[j];
                assert(list[k].key@ != list[list.len() - 1].key@);
            }
            assert(!has_key(before, item.key@));
            assert forall|j: int| 0 <= j < at implies precedes((#[trigger] before[j]).key@, item.key@) by {
                precedes_total(before[j].key@, item.key@);
                assert(!precedes(by_key()(item), by_key()(before[j])));
            }
            if at < before.len() {
                assert(precedes(by_key()(item), by_key()(before[at])));
            }
            insert_keeps_order(before, at, item);
        }
    }
}

/// The entries in the order of their keys.
pub fn in_key_order<T>(list: Vec<Entry<T>>) -> (ordered: Vec<Entry<T>>)
    ensures
        ordered@ == ordered_by(list@, by_key()),
{
    let ghost all = list@;
    let mut rest = list;
    let total: usize = rest.len();
    let mut ordered: Vec<Entry<T>> = Vec::new();
    let mut i: usize = 0;
    proof {
        assert(ordered@ =~= ordered_by(all.take(0), by_key()));
    }
    while i < total
        invariant
            i <= total == all.len(),
            all == list@,
            rest@ == all.skip(i as int),
            ordered@ == ordered_by(all.take(i as int), by_key()),
        decreases total - i,
    {
        let item = rest.remove(0);
        proof {
            assert(item == all[i as int]);
            assert(rest@ =~= all.skip(i + 1));
            assert(all.take(i + 1).drop_last() =~= all.take(i as int));
            assert(all.take(i + 1).last() == item);
        }
        let mut at: usize = 0;
        while at < ordered.len() && !stands_before(item.key.as_str(), ordered[at].key.as_str())
            invariant
                at <= ordered@.len(),
                forall|j: int| 0 <= j < at ==> !precedes(item.key@, (#[trigger] ordered@[j]).key@),
            decreases ordered@.len() - at,
        {
            at = at + 1;
        }
        proof {
            assert forall|j: int| 0 <= j < at implies !precedes(by_key()(item), by_key()(#[trigger] ordered@[j])) by {
            }
            placed_at(ordered@, item, at as int, by_key());
        }
        ordered.insert(at, item);
        i = i + 1;
    }
    proof {
        assert(all.take(i as int) =~= all);
    }
    ordered
}

/// A value is found by its key: the first entry of that key gives it, and a list has a key exactly where
/// it has a value for it.
pub proof fn values_are_found_by_key<T>(entry: Entry<T>, list: Seq<Entry<T>>, key: Seq<char>)
    ensures
        value_of(seq![entry] + list, entry.key@) == Some(entry.value),
        key != entry.key@ ==> value_of(seq![entry] + list, key) == value_of(list, key),
        value_of(Seq::<Entry<T>>::empty(), key) is None,
        has_key(seq![entry] + list, key) <==> entry.key@ == key || has_key(list, key),
{
    let all = seq![entry] + list;
    assert(all.skip(1) == list);
    assert(all[0] == entry);
    if has_key(list, key) {
        let i = choose|i: int| 0 <= i < list.len() && (#[trigger] list[i]).key@ == key;
        assert(all[i + 1] == list[i]);
    }
    if has_key(all, key) && entry.key@ != key {
        let i = choose|i: int| 0 <= i < all.len() && (#[trigger] all[i]).key@ == key;
        assert(list[i - 1] == all[i]);
    }
}

/// Entries are viewed one by one, each by its key and its text.
pub proof fn entries_are_viewed_one_by_one(list: Seq<Entry<String>>, at: int)
    requires
        0 <= at < list.len(),
    ensures
        text_entries(list).len() == list.len(),
        text_entries(list)[at] == (list[at].key@, list[at].value@),
        keys(list).len() == list.len(),
        keys(list)[at] == list[at].key@,
{
}

} // verus!
