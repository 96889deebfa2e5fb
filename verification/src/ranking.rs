//! Lists of search results, best first.

use crate::ordered::{precedes, precedes_irreflexive, precedes_total, precedes_transitive, stands_before};
use crate::text::same_text;
use vstd::prelude::*;
use vstd::seq_lib::*;

verus! {

/// Something that a search found.
pub trait Ranked: Sized {
    /// How well it fits.
    spec fn fit(&self) -> u64;

    /// Where it was found.
    spec fn group(&self) -> Seq<char>;

    /// What it is called.
    spec fn label(&self) -> Seq<char>;

    /// How well it fits.
    fn score_value(&self) -> (score: u64)
        ensures
            score == self.fit(),
    ;

    /// Where it was found.
    fn group_text(&self) -> (text: &str)
        ensures
            text@ == self.group(),
    ;

    /// What it is called.
    fn label_text(&self) -> (text: &str)
        ensures
            text@ == self.label(),
    ;
}

/// `left` stands before `right`: it fits better, or as well and is smaller by where it was found, if
/// that matters, and then by what it is called.
pub open spec fn ranks_before<T: Ranked>(left: T, right: T, grouped: bool) -> bool {
    left.fit() > right.fit() || (left.fit() == right.fit() && if grouped && left.group() != right.group() {
        precedes(left.group(), right.group())
    } else {
        precedes(left.label(), right.label())
    })
}

/// Whether `left` stands before `right`.
fn comes_before<T: Ranked>(left: &T, right: &T, grouped: bool) -> (yes: bool)
    ensures
        yes == ranks_before(*left, *right, grouped),
{
    if left.score_value() != right.score_value() {
        return left.score_value() > right.score_value();
    }
    if grouped && !same_text(left.group_text(), right.group_text()) {
        return stands_before(left.group_text(), right.group_text());
    }
    stands_before(left.label_text(), right.label_text())
}

/// A list with one more item, which comes before the first that it stands before.
pub open spec fn inserted<T: Ranked>(list: Seq<T>, item: T, grouped: bool) -> Seq<T>
    decreases list.len(),
{
    if list.len() == 0 || ranks_before(item, list[0], grouped) {
        list.insert(0, item)
    } else {
        inserted(list.skip(1), item, grouped).insert(0, list[0])
    }
}

/// The items in order; equal ones stay as they came.
pub open spec fn ranked<T: Ranked>(items: Seq<T>, grouped: bool) -> Seq<T>
    decreases items.len(),
{
    if items.len() == 0 {
        items
    } else {
        inserted(ranked(items.drop_last(), grouped), items.last(), grouped)
    }
}

/// No item stands before an earlier one.
pub open spec fn in_order<T: Ranked>(list: Seq<T>, grouped: bool) -> bool {
    forall|i: int, j: int| 0 <= i < j < list.len() ==> !ranks_before(#[trigger] list[j], #[trigger] list[i], grouped)
}

/// The order of search results is transitive.
proof fn ranks_transitive<T: Ranked>(a: T, b: T, c: T, grouped: bool)
    requires
        ranks_before(a, b, grouped),
        ranks_before(b, c, grouped),
    ensures
        ranks_before(a, c, grouped),
{
    if a.fit() == b.fit() && b.fit() == c.fit() {
        if grouped {
            if a.group() != b.group() && b.group() != c.group() {
                precedes_transitive(a.group(), b.group(), c.group());
            } else if a.group() == b.group() && b.group() == c.group() {
                precedes_transitive(a.label(), b.label(), c.label());
            }
        } else {
            precedes_transitive(a.label(), b.label(), c.label());
        }
    }
}

/// Where an item that stands before none of the first ones, and before the next, comes.
proof fn inserted_at<T: Ranked>(list: Seq<T>, item: T, at: int, grouped: bool)
    requires
        0 <= at <= list.len(),
        forall|i: int| 0 <= i < at ==> !ranks_before(item, #[trigger] list[i], grouped),
        at < list.len() ==> ranks_before(item, list[at], grouped),
    ensures
        inserted(list, item, grouped) == list.insert(at, item),
    decreases list.len(),
{
    if at > 0 {
        let rest = list.skip(1);
        assert(!ranks_before(item, list[0], grouped));
        assert forall|i: int| 0 <= i < at - 1 implies !ranks_before(item, #[trigger] rest[i], grouped) by {
            assert(rest[i] == list[i + 1]);
        }
        inserted_at(rest, item, at - 1, grouped);
        assert(inserted(list, item, grouped) =~= list.insert(at, item));
    }
}

/// Every item has a place in a list.
proof fn place<T: Ranked>(list: Seq<T>, item: T, from: int, grouped: bool) -> (at: int)
    requires
        0 <= from <= list.len(),
        forall|i: int| 0 <= i < from ==> !ranks_before(item, #[trigger] list[i], grouped),
    ensures
        from <= at <= list.len(),
        forall|i: int| 0 <= i < at ==> !ranks_before(item, #[trigger] list[i], grouped),
        at < list.len() ==> ranks_before(item, list[at], grouped),
    decreases list.len() - from,
{
    if from == list.len() || ranks_before(item, list[from], grouped) {
        from
    } else {
        place(list, item, from + 1, grouped)
    }
}

/// Puts an item into a list: before the first that it stands before.
pub fn insert_ranked<T: Ranked>(list: &mut Vec<T>, item: T, grouped: bool)
    ensures
        final(list)@ == inserted(old(list)@, item, grouped),
{
    let mut at: usize = 0;
    while at < list.len() && !comes_before(&item, &list[at], grouped)
        invariant
            at <= list@.len(),
            list@ == old(list)@,
            forall|i: int| 0 <= i < at ==> !ranks_before(item, #[trigger] list@[i], grouped),
        decreases list@.len() - at,
    {
        at = at + 1;
    }
    proof {
        inserted_at(list@, item, at as int, grouped);
    }
    list.insert(at, item);
}

/// An item put into a list in order leaves it in order.
pub proof fn inserting_keeps_order<T: Ranked>(list: Seq<T>, item: T, grouped: bool)
    requires
        in_order(list, grouped),
    ensures
        in_order(inserted(list, item, grouped), grouped),
{
    let at = place(list, item, 0, grouped);
    inserted_at(list, item, at, grouped);
    let longer = list.insert(at, item);
    assert forall|i: int, j: int| 0 <= i < j < longer.len() implies !ranks_before(
        #[trigger] longer[j],
        #[trigger] longer[i],
        grouped,
    ) by {
        if j < at {
            assert(longer[i] == list[i] && longer[j] == list[j]);
        } else if j == at {
            assert(longer[i] == list[i]);
        } else {
            assert(longer[j] == list[j - 1]);
            if i < at {
                assert(longer[i] == list[i]);
            } else if i > at {
                assert(longer[i] == list[i - 1]);
            } else {
                if ranks_before(list[j - 1], item, grouped) {
                    ranks_transitive(list[j - 1], item, list[at], grouped);
                    if j - 1 == at {
                        never_before_itself(list[at], grouped);
                    }
                }
            }
        }
    }
}

proof fn never_before_itself<T: Ranked>(item: T, grouped: bool)
    ensures
        !ranks_before(item, item, grouped),
{
    precedes_irreflexive(item.label());
}

/// Ranked items are in order, and they are the same items, each as often as before.
pub proof fn ranking_orders_all_items<T: Ranked>(items: Seq<T>, grouped: bool)
    ensures
        in_order(ranked(items, grouped), grouped),
        ranked(items, grouped).to_multiset() == items.to_multiset(),
        ranked(items, grouped).len() == items.len(),
    decreases items.len(),
{
    broadcast use group_to_multiset_ensures;

    if items.len() > 0 {
        let before = ranked(items.drop_last(), grouped);
        ranking_orders_all_items(items.drop_last(), grouped);
        inserting_keeps_order(before, items.last(), grouped);
        let at = place(before, items.last(), 0, grouped);
        inserted_at(before, items.last(), at, grouped);
        assert(items =~= items.drop_last().push(items.last()));
        assert(before.insert(at, items.last()).to_multiset() =~= before.to_multiset().insert(items.last()));
    }
}

/// The first items of a list.
pub open spec fn first_items<T>(list: Seq<T>, limit: nat) -> Seq<T> {
    if list.len() <= limit {
        list
    } else {
        list.take(limit as int)
    }
}

/// What does not stand behind a second item, which does not stand behind a third, does not stand
/// behind the third.
proof fn ranks_weakly<T: Ranked>(a: T, b: T, c: T, grouped: bool)
    requires
        !ranks_before(b, a, grouped),
        !ranks_before(c, b, grouped),
    ensures
        !ranks_before(c, a, grouped),
{
    if ranks_before(c, a, grouped) && a.fit() == b.fit() && b.fit() == c.fit() {
        precedes_total(a.group(), b.group());
        precedes_total(b.group(), c.group());
        precedes_total(a.label(), b.label());
        precedes_total(b.label(), c.label());
        if ranks_before(a, b, grouped) {
            ranks_transitive(c, a, b, grouped);
        } else if ranks_before(b, c, grouped) {
            ranks_transitive(b, c, a, grouped);
        }
    }
}

/// What an item put into a list leaves at its front depends on the front of the list alone.
pub proof fn inserting_into_the_front<T: Ranked>(list: Seq<T>, item: T, limit: nat, grouped: bool)
    ensures
        first_items(inserted(first_items(list, limit), item, grouped), limit) == first_items(
            inserted(list, item, grouped),
            limit,
        ),
{
    let at = place(list, item, 0, grouped);
    inserted_at(list, item, at, grouped);
    let front = first_items(list, limit);
    if at <= front.len() {
        inserted_at(front, item, at, grouped);
        assert(first_items(front.insert(at, item), limit) =~= first_items(list.insert(at, item), limit));
    } else {
        inserted_at(front, item, front.len() as int, grouped);
        assert(first_items(front.insert(front.len() as int, item), limit) =~= first_items(
            list.insert(at, item),
            limit,
        ));
    }
}

/// The best items found so far, of which only the best of those before were kept.
pub proof fn the_best_need_only_the_best<T: Ranked>(items: Seq<T>, item: T, limit: nat, grouped: bool)
    ensures
        first_items(inserted(first_items(ranked(items, grouped), limit), item, grouped), limit) == first_items(
            ranked(items.push(item), grouped),
            limit,
        ),
{
    assert(items.push(item).drop_last() =~= items);
    inserting_into_the_front(ranked(items, grouped), item, limit, grouped);
}

/// So many of the first items do not stand behind another item.
spec fn ahead<T: Ranked>(list: Seq<T>, count: int, item: T, grouped: bool) -> bool {
    &&& count <= list.len()
    &&& forall|i: int| 0 <= i < count ==> !ranks_before(item, #[trigger] list[i], grouped)
}

/// Of items in order, as many as the limit put as many ahead of every later one.
proof fn earlier_items_stay_ahead<T: Ranked>(
    items: Seq<T>,
    hits: Seq<T>,
    count: int,
    later: int,
    limit: nat,
    grouped: bool,
)
    requires
        in_order(hits, grouped),
        0 <= count <= limit,
        count <= later < hits.len(),
    ensures
        ahead(first_items(ranked(items + hits.take(count), grouped), limit), count, hits[later], grouped),
    decreases count,
{
    if count > 0 {
        let item = hits[count - 1];
        earlier_items_stay_ahead(items, hits, count - 1, later, limit, grouped);
        let shorter = items + hits.take(count - 1);
        assert(items + hits.take(count) =~= shorter.push(item));
        the_best_need_only_the_best(shorter, item, limit, grouped);
        let front = first_items(ranked(shorter, grouped), limit);
        let at = place(front, item, 0, grouped);
        inserted_at(front, item, at, grouped);
        let longer = front.insert(at, item);
        assert(!ranks_before(hits[later], item, grouped));
        assert forall|i: int| 0 <= i < count implies !ranks_before(hits[later], #[trigger] longer[i], grouped) by {
            if i < at {
                assert(longer[i] == front[i]);
                if i == count - 1 {
                    ranks_weakly(front[i], item, hits[later], grouped);
                }
            } else if i > at {
                assert(longer[i] == front[i - 1]);
            }
        }
        assert(first_items(longer, limit).len() >= count);
        assert forall|i: int| 0 <= i < count implies !ranks_before(
            hits[later],
            #[trigger] first_items(longer, limit)[i],
            grouped,
        ) by {
            assert(first_items(longer, limit)[i] == longer[i]);
        }
    }
}

/// Of items in order, those beyond the limit change nothing of the best.
pub proof fn later_items_do_not_count<T: Ranked>(items: Seq<T>, hits: Seq<T>, kept: nat, limit: nat, grouped: bool)
    requires
        in_order(hits, grouped),
        limit <= kept,
    ensures
        first_items(ranked(items + first_items(hits, kept), grouped), limit) == first_items(
            ranked(items + hits, grouped),
            limit,
        ),
    decreases hits.len(),
{
    if hits.len() > kept {
        let last = hits.len() - 1;
        let shorter = hits.drop_last();
        assert forall|i: int, j: int| 0 <= i < j < shorter.len() implies !ranks_before(
            #[trigger] shorter[j],
            #[trigger] shorter[i],
            grouped,
        ) by {
            assert(shorter[j] == hits[j] && shorter[i] == hits[i]);
        }
        later_items_do_not_count(items, shorter, kept, limit, grouped);
        assert(first_items(shorter, kept) =~= first_items(hits, kept));
        earlier_items_stay_ahead(items, hits, limit as int, last, limit, grouped);
        later_items_do_not_count(items, shorter, limit, limit, grouped);
        assert(hits.take(limit as int) =~= first_items(shorter, limit));
        let front = first_items(ranked(items + shorter, grouped), limit);
        assert(items + hits =~= (items + shorter).push(hits[last]));
        the_best_need_only_the_best(items + shorter, hits[last], limit, grouped);
        inserted_at(front, hits[last], limit as int, grouped);
        assert(first_items(front.insert(limit as int, hits[last]), limit) =~= front);
    }
}

/// What comes after equally good beginnings ends equally good.
pub proof fn equal_fronts_stay_equal<T: Ranked>(left: Seq<T>, right: Seq<T>, hits: Seq<T>, limit: nat, grouped: bool)
    requires
        first_items(ranked(left, grouped), limit) == first_items(ranked(right, grouped), limit),
    ensures
        first_items(ranked(left + hits, grouped), limit) == first_items(ranked(right + hits, grouped), limit),
    decreases hits.len(),
{
    if hits.len() == 0 {
        assert(left + hits =~= left);
        assert(right + hits =~= right);
    } else {
        let shorter = hits.drop_last();
        equal_fronts_stay_equal(left, right, shorter, limit, grouped);
        assert(left + hits =~= (left + shorter).push(hits.last()));
        assert(right + hits =~= (right + shorter).push(hits.last()));
        the_best_need_only_the_best(left + shorter, hits.last(), limit, grouped);
        the_best_need_only_the_best(right + shorter, hits.last(), limit, grouped);
    }
}

/// What fits better stands before; among equals the group decides where it counts, and the name last.
pub proof fn better_fits_stand_before<T: Ranked>(left: T, right: T, grouped: bool)
    ensures
        left.fit() > right.fit() ==> ranks_before(left, right, grouped) && !ranks_before(right, left, grouped),
        left.fit() == right.fit() && grouped && precedes(left.group(), right.group()) ==> ranks_before(
            left,
            right,
            grouped,
        ),
        left.fit() == right.fit() && (!grouped || left.group() == right.group()) ==> (ranks_before(
            left,
            right,
            grouped,
        ) <==> precedes(left.label(), right.label())),
{
    if precedes(left.group(), right.group()) {
        precedes_irreflexive(left.group());
    }
}

/// The first items of a list are its beginning, as many as the limit lets be.
pub proof fn the_first_items_are_kept<T>(list: Seq<T>, limit: nat)
    ensures
        first_items(list, limit).is_prefix_of(list),
        first_items(list, limit).len() == if list.len() < limit {
            list.len()
        } else {
            limit
        },
{
}

} // verus!
