//! The order of texts, and ordered lists without repetition.

use crate::text::{characters, views};
use vstd::prelude::*;

verus! {

/// `left` and `right` agree before position `at`, and there `left` ends or holds the smaller character.
pub open spec fn precedes_at(left: Seq<char>, right: Seq<char>, at: int) -> bool {
    &&& 0 <= at <= left.len()
    &&& at < right.len()
    &&& forall|j: int| #![trigger left[j]] #![trigger right[j]] 0 <= j < at ==> left[j] == right[j]
    &&& at == left.len() || left[at] < right[at]
}

/// `left` stands before `right` in the order of texts (character by character, a prefix first).
pub open spec fn precedes(left: Seq<char>, right: Seq<char>) -> bool {
    exists|at: int| precedes_at(left, right, at)
}

/// The order of texts is transitive.
pub proof fn precedes_transitive(a: Seq<char>, b: Seq<char>, c: Seq<char>)
    requires
        precedes(a, b),
        precedes(b, c),
    ensures
        precedes(a, c),
{
    let i = choose|at: int| precedes_at(a, b, at);
    let j = choose|at: int| precedes_at(b, c, at);
    if i < j {
        assert(precedes_at(a, c, i));
    } else {
        assert(precedes_at(a, c, j));
    }
}

/// No text stands before itself.
pub proof fn precedes_irreflexive(a: Seq<char>)
    ensures
        !precedes(a, a),
{
}

/// Of two texts that stand in no order, neither differs from the other.
pub proof fn precedes_total(a: Seq<char>, b: Seq<char>)
    ensures
        precedes(a, b) || precedes(b, a) || a == b,
    decreases a.len() + b.len(),
{
    if a.len() == 0 && b.len() == 0 {
        assert(a =~= b);
    } else if a.len() == 0 {
        assert(precedes_at(a, b, 0));
    } else if b.len() == 0 {
        assert(precedes_at(b, a, 0));
    } else {
        let x = a.drop_last();
        let y = b.drop_last();
        precedes_total(x, b);
        precedes_total(a, y);
        if precedes(x, b) {
            let k = choose|at: int| precedes_at(x, b, at);
            if k < x.len() {
                assert(precedes_at(a, b, k));
            } else if a.last() < b[k] {
                assert(precedes_at(a, b, k));
            } else if b[k] < a.last() {
                assert(precedes_at(b, a, k));
            } else if b.len() == k + 1 {
                assert(a =~= b);
            } else {
                assert(precedes_at(a, b, k + 1));
            }
        } else if precedes(b, x) {
            let k = choose|at: int| precedes_at(b, x, at);
            assert(precedes_at(b, a, k));
        } else {
            assert(precedes_at(b, a, b.len() as int));
        }
    }
}

/// How two texts stand to each other.
#[derive(Clone, Copy, Debug, PartialEq, Eq, Structural)]
pub enum Placement {
    Before,
    Same,
    After,
}

/// How `left` stands to `right` in the order of texts.
pub fn placement(left: &str, right: &str) -> (result: Placement)
    ensures
        result is Before == precedes(left@, right@),
        result is Same == (left@ == right@),
        result is After == precedes(right@, left@),
{
    proof {
        precedes_irreflexive(left@);
        if precedes(left@, right@) && precedes(right@, left@) {
            precedes_transitive(left@, right@, left@);
        }
    }
    let a = characters(left);
    let b = characters(right);
    let mut i: usize = 0;
    while i < a.len() && i < b.len()
        invariant
            a@ == left@,
            b@ == right@,
            i <= a@.len(),
            i <= b@.len(),
            forall|j: int| 0 <= j < i ==> a@[j] == b@[j],
            precedes(left@, right@) ==> !precedes(right@, left@),
            !precedes(left@, left@),
        decreases a@.len() - i,
    {
        if a[i] < b[i] {
            proof {
                assert(precedes_at(left@, right@, i as int));
            }
            return Placement::Before;
        }
        if b[i] < a[i] {
            proof {
                assert(precedes_at(right@, left@, i as int));
            }
            return Placement::After;
        }
        i = i + 1;
    }
    if a.len() == b.len() {
        proof {
            assert(left@ =~= right@);
        }
        Placement::Same
    } else if i == a.len() {
        proof {
            assert(precedes_at(left@, right@, i as int));
        }
        Placement::Before
    } else {
        proof {
            assert(precedes_at(right@, left@, i as int));
        }
        Placement::After
    }
}

/// Whether a text stands before another in the order of texts.
pub fn stands_before(left: &str, right: &str) -> (yes: bool)
    ensures
        yes == precedes(left@, right@),
{
    match placement(left, right) {
        Placement::Before => true,
        _ => false,
    }
}

/// Each text stands before all later ones: the list is ordered and holds nothing twice.
pub open spec fn ascending(list: Seq<Seq<char>>) -> bool {
    forall|i: int, j: int| 0 <= i < j < list.len() ==> precedes(#[trigger] list[i], #[trigger] list[j])
}

/// Two ascending lists with the same members are the same list.
pub proof fn ascending_unique(a: Seq<Seq<char>>, b: Seq<Seq<char>>)
    requires
        ascending(a),
        ascending(b),
        forall|x: Seq<char>| a.contains(x) <==> b.contains(x),
    ensures
        a == b,
    decreases a.len() + b.len(),
{
    if a.len() == 0 {
        if b.len() > 0 {
            assert(b.contains(b[0]));
        }
        assert(a =~= b);
    } else if b.len() == 0 {
        assert(a.contains(a[0]));
    } else {
        let x = a.last();
        let y = b.last();
        assert(b.contains(x)) by {
            assert(a.contains(x));
        }
        assert(a.contains(y)) by {
            assert(b.contains(y));
        }
        let i = choose|i: int| 0 <= i < a.len() && a[i] == y;
        let j = choose|j: int| 0 <= j < b.len() && b[j] == x;
        if x != y {
            assert(precedes(y, x));
            assert(precedes(x, y));
            precedes_transitive(x, y, x);
            precedes_irreflexive(x);
        }
        let c = a.drop_last();
        let d = b.drop_last();
        assert forall|t: Seq<char>| c.contains(t) <==> d.contains(t) by {
            if c.contains(t) {
                let k = choose|k: int| 0 <= k < c.len() && c[k] == t;
                assert(a[k] == t);
                assert(a.contains(t));
                let m = choose|m: int| 0 <= m < b.len() && b[m] == t;
                if m == b.len() - 1 {
                    precedes_irreflexive(t);
                    assert(precedes(a[k], a.last()));
                }
                assert(d[m] == t);
            }
            if d.contains(t) {
                let k = choose|k: int| 0 <= k < d.len() && d[k] == t;
                assert(b[k] == t);
                assert(b.contains(t));
                let m = choose|m: int| 0 <= m < a.len() && a[m] == t;
                if m == a.len() - 1 {
                    precedes_irreflexive(t);
                    assert(precedes(b[k], b.last()));
                }
                assert(c[m] == t);
            }
        }
        ascending_unique(c, d);
        assert(a =~= c.push(x));
        assert(b =~= d.push(y));
    }
}

/// Puts `item` into an ascending list, unless it is there already.
pub fn insert_ascending(list: &mut Vec<String>, item: String) -> (added: bool)
    requires
        ascending(views(old(list)@)),
    ensures
        ascending(views(final(list)@)),
        added == !views(old(list)@).contains(item@),
        forall|x: Seq<char>|
            #[trigger] views(final(list)@).contains(x) <==> views(old(list)@).contains(x) || x == item@,
{
    let ghost before = views(list@);
    let mut at: usize = 0;
    while at < list.len()
        invariant
            at <= list@.len(),
            before == views(list@),
            ascending(before),
            list@ == old(list)@,
            forall|j: int| 0 <= j < at ==> precedes(#[trigger] before[j], item@),
        ensures
            at <= list@.len(),
            at < list@.len() ==> precedes(item@, before[at as int]),
        decreases list@.len() - at,
    {
        match placement(list[at].as_str(), item.as_str()) {
            Placement::Before => {
                at = at + 1;
            },
            Placement::Same => {
                proof {
                    assert(before[at as int] == item@);
                }
                return false;
            },
            Placement::After => {
                proof {
                    assert(before[at as int] == list@[at as int]@);
                }
                break ;
            },
        }
    }
    proof {
        if before.contains(item@) {
            let k = choose|k: int| 0 <= k < before.len() && before[k] == item@;
            precedes_irreflexive(item@);
            if k > at {
                precedes_transitive(item@, before[at as int], before[k]);
            }
        }
    }
    let ghost text = item@;
    list.insert(at, item);
    proof {
        let after = views(list@);
        assert(after =~= before.insert(at as int, text));
        assert forall|i: int, j: int| 0 <= i < j < after.len() implies precedes(#[trigger] after[i], #[trigger] after[j]) by {
            if i < at && j == at {
            } else if i == at {
                if j > at + 1 {
                    precedes_transitive(text, before[at as int], before[j - 1]);
                }
            } else if j < at {
                assert(precedes(before[i], before[j]));
            } else if i < at {
                assert(precedes(before[i], before[j - 1]));
            } else {
                assert(precedes(before[i - 1], before[j - 1]));
            }
        }
        assert forall|x: Seq<char>| #[trigger] after.contains(x) <==> before.contains(x) || x == text by {
            if before.contains(x) {
                let k = choose|k: int| 0 <= k < before.len() && before[k] == x;
                if k < at {
                    assert(after[k] == x);
                } else {
                    assert(after[k + 1] == x);
                }
            }
            if x == text {
                assert(after[at as int] == x);
            }
            if after.contains(x) {
                let k = choose|k: int| 0 <= k < after.len() && after[k] == x;
                if k < at {
                    assert(before[k] == x);
                } else if k > at {
                    assert(before[k - 1] == x);
                }
            }
        }
    }
    true
}

/// Texts are ordered as in a dictionary: a text stands after its beginnings, and otherwise the first
/// character in which two texts differ decides.
pub proof fn texts_are_ordered_by_their_characters(shared: Seq<char>, left: Seq<char>, right: Seq<char>)
    ensures
        right.len() > 0 ==> precedes(shared, shared + right),
        left.len() > 0 && right.len() > 0 && left[0] < right[0] ==> precedes(shared + left, shared + right)
            && !precedes(shared + right, shared + left),
        !precedes(shared, shared),
        !precedes(shared, Seq::empty()),
{
    precedes_irreflexive(shared);
    if right.len() > 0 {
        assert(precedes_at(shared, shared + right, shared.len() as int));
        if left.len() > 0 && left[0] < right[0] {
            assert(precedes_at(shared + left, shared + right, shared.len() as int));
            if precedes(shared + right, shared + left) {
                precedes_transitive(shared + left, shared + right, shared + left);
                precedes_irreflexive(shared + left);
            }
        }
    }
}

} // verus!
