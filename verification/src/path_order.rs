//! The order of paths: component by component.

use crate::config::Platform;
use crate::ordered::{placement, precedes, precedes_irreflexive, precedes_transitive, Placement};
use crate::paths::{component_list, component_views, components, Component, ComponentView, PrefixKind};
use crate::text::views;
use vstd::prelude::*;
use vstd::string::*;

verus! {

/// The place of a kind of prefix in their order.
pub open spec fn kind_rank(kind: PrefixKind) -> int {
    match kind {
        PrefixKind::Verbatim => 0,
        PrefixKind::VerbatimShare => 1,
        PrefixKind::VerbatimDisk => 2,
        PrefixKind::Device => 3,
        PrefixKind::Share => 4,
        PrefixKind::Disk => 5,
    }
}

fn place_of_kind(kind: PrefixKind) -> (rank: u8)
    ensures
        rank == kind_rank(kind),
{
    match kind {
        PrefixKind::Verbatim => 0,
        PrefixKind::VerbatimShare => 1,
        PrefixKind::VerbatimDisk => 2,
        PrefixKind::Device => 3,
        PrefixKind::Share => 4,
        PrefixKind::Disk => 5,
    }
}

/// The place of a kind of component in their order.
pub open spec fn component_rank(item: ComponentView) -> int {
    match item {
        ComponentView::Prefix { .. } => 0,
        ComponentView::Root => 1,
        ComponentView::Here => 2,
        ComponentView::Up => 3,
        ComponentView::Name(_) => 4,
    }
}

fn place_of_component(item: &Component) -> (rank: u8)
    ensures
        rank == component_rank(item@),
{
    match item {
        Component::Prefix { .. } => 0,
        Component::Root => 1,
        Component::Here => 2,
        Component::Up => 3,
        Component::Name(_) => 4,
    }
}

/// `left` stands before `right` in the order of components: by kind, then by what they name.
pub open spec fn component_precedes(left: ComponentView, right: ComponentView) -> bool {
    match (left, right) {
        (
            ComponentView::Prefix { kind, first, second },
            ComponentView::Prefix { kind: other, first: other_first, second: other_second },
        ) => kind_rank(kind) < kind_rank(other) || (kind == other && (precedes(first, other_first) || (first
            == other_first && precedes(second, other_second)))),
        (ComponentView::Name(name), ComponentView::Name(other)) => precedes(name, other),
        _ => component_rank(left) < component_rank(right),
    }
}

proof fn component_transitive(a: ComponentView, b: ComponentView, c: ComponentView)
    requires
        component_precedes(a, b),
        component_precedes(b, c),
    ensures
        component_precedes(a, c),
{
    match (a, b, c) {
        (ComponentView::Name(x), ComponentView::Name(y), ComponentView::Name(z)) => {
            precedes_transitive(x, y, z);
        },
        (
            ComponentView::Prefix { kind: k, first: f, second: s },
            ComponentView::Prefix { kind: l, first: g, second: t },
            ComponentView::Prefix { kind: m, first: h, second: u },
        ) => {
            if k == l && l == m {
                if precedes(f, g) && precedes(g, h) {
                    precedes_transitive(f, g, h);
                } else if f == g && g == h {
                    precedes_transitive(s, t, u);
                }
            }
        },
        _ => {},
    }
}

proof fn component_irreflexive(a: ComponentView)
    ensures
        !component_precedes(a, a),
{
    match a {
        ComponentView::Name(x) => {
            precedes_irreflexive(x);
        },
        ComponentView::Prefix { kind: _, first, second } => {
            precedes_irreflexive(first);
            precedes_irreflexive(second);
        },
        _ => {},
    }
}

/// How `left` stands to `right` in the order of components.
fn component_placement(left: &Component, right: &Component) -> (result: Placement)
    ensures
        result is Before == component_precedes(left@, right@),
        result is Same == (left@ == right@),
        result is After == component_precedes(right@, left@),
{
    proof {
        component_irreflexive(left@);
        if component_precedes(left@, right@) && component_precedes(right@, left@) {
            component_transitive(left@, right@, left@);
        }
    }
    match (left, right) {
        (
            Component::Prefix { kind, first, second },
            Component::Prefix { kind: other, first: other_first, second: other_second },
        ) => {
            let (a, b) = (place_of_kind(*kind), place_of_kind(*other));
            if a < b {
                Placement::Before
            } else if b < a {
                Placement::After
            } else {
                match placement(first.as_str(), other_first.as_str()) {
                    Placement::Same => placement(second.as_str(), other_second.as_str()),
                    other => other,
                }
            }
        },
        (Component::Name(name), Component::Name(other)) => placement(name.as_str(), other.as_str()),
        _ => {
            let (a, b) = (place_of_component(left), place_of_component(right));
            if a < b {
                Placement::Before
            } else if b < a {
                Placement::After
            } else {
                Placement::Same
            }
        },
    }
}

/// `left` and `right` agree before position `at`, and there `left` ends or holds the smaller component.
pub open spec fn list_precedes_at(left: Seq<ComponentView>, right: Seq<ComponentView>, at: int) -> bool {
    &&& 0 <= at <= left.len()
    &&& at < right.len()
    &&& forall|j: int| #![trigger left[j]] #![trigger right[j]] 0 <= j < at ==> left[j] == right[j]
    &&& at == left.len() || component_precedes(left[at], right[at])
}

/// `left` stands before `right` in the order of lists of components.
pub open spec fn list_precedes(left: Seq<ComponentView>, right: Seq<ComponentView>) -> bool {
    exists|at: int| list_precedes_at(left, right, at)
}

proof fn list_transitive(a: Seq<ComponentView>, b: Seq<ComponentView>, c: Seq<ComponentView>)
    requires
        list_precedes(a, b),
        list_precedes(b, c),
    ensures
        list_precedes(a, c),
{
    let i = choose|at: int| list_precedes_at(a, b, at);
    let j = choose|at: int| list_precedes_at(b, c, at);
    if i < j {
        assert(list_precedes_at(a, c, i));
    } else if j < i {
        assert(list_precedes_at(a, c, j));
    } else {
        if i < a.len() {
            component_transitive(a[i], b[i], c[i]);
        }
        assert(list_precedes_at(a, c, i));
    }
}

proof fn list_irreflexive(a: Seq<ComponentView>)
    ensures
        !list_precedes(a, a),
{
    if list_precedes(a, a) {
        let i = choose|at: int| list_precedes_at(a, a, at);
        component_irreflexive(a[i]);
    }
}

/// `left` stands before `right` in the order of paths.
pub open spec fn path_precedes(platform: Platform, left: Seq<char>, right: Seq<char>) -> bool {
    list_precedes(components(platform, left), components(platform, right))
}

/// How `left` stands to `right` in the order of paths.
pub fn path_placement(platform: Platform, left: &str, right: &str) -> (result: Placement)
    ensures
        result is Before == path_precedes(platform, left@, right@),
        result is Same == (components(platform, left@) == components(platform, right@)),
        result is After == path_precedes(platform, right@, left@),
{
    let a = component_list(platform, left);
    let b = component_list(platform, right);
    let ghost x = components(platform, left@);
    let ghost y = components(platform, right@);
    proof {
        list_irreflexive(x);
        if list_precedes(x, y) && list_precedes(y, x) {
            list_transitive(x, y, x);
        }
    }
    let mut i: usize = 0;
    while i < a.len() && i < b.len()
        invariant
            component_views(a@) == x,
            component_views(b@) == y,
            x == components(platform, left@),
            y == components(platform, right@),
            i <= a@.len(),
            i <= b@.len(),
            forall|j: int| 0 <= j < i ==> x[j] == y[j],
            list_precedes(x, y) ==> !list_precedes(y, x),
            !list_precedes(x, x),
        decreases a@.len() - i,
    {
        proof {
            assert(x[i as int] == a@[i as int]@);
            assert(y[i as int] == b@[i as int]@);
        }
        match component_placement(&a[i], &b[i]) {
            Placement::Before => {
                proof {
                    assert(list_precedes_at(x, y, i as int));
                }
                return Placement::Before;
            },
            Placement::After => {
                proof {
                    assert(list_precedes_at(y, x, i as int));
                }
                return Placement::After;
            },
            Placement::Same => {},
        }
        i = i + 1;
    }
    if a.len() == b.len() {
        proof {
            assert(x =~= y);
        }
        Placement::Same
    } else if i == a.len() {
        proof {
            assert(list_precedes_at(x, y, i as int));
        }
        Placement::Before
    } else {
        proof {
            assert(list_precedes_at(y, x, i as int));
        }
        Placement::After
    }
}

/// Each path stands before all later ones: the list is ordered and holds no path twice.
pub open spec fn path_ascending(platform: Platform, list: Seq<Seq<char>>) -> bool {
    forall|i: int, j: int| 0 <= i < j < list.len() ==> path_precedes(platform, #[trigger] list[i], #[trigger] list[j])
}

/// The list holds a path with the components of `path`.
pub open spec fn holds_path(platform: Platform, list: Seq<Seq<char>>, path: Seq<char>) -> bool {
    exists|i: int| 0 <= i < list.len() && components(platform, #[trigger] list[i]) == components(platform, path)
}

/// Puts `item` into an ascending list of paths, unless it is there already.
pub fn insert_path(platform: Platform, list: &mut Vec<String>, item: String)
    requires
        path_ascending(platform, views(old(list)@)),
    ensures
        path_ascending(platform, views(final(list)@)),
        forall|x: Seq<char>|
            #[trigger] holds_path(
                platform,
                views(final(list)@),
                x,
            ) <==> holds_path(platform, views(old(list)@), x) || components(platform, x)
                == components(platform, item@),
        forall|x: Seq<char>|
            #[trigger] views(final(list)@).contains(x) ==> views(old(list)@).contains(x) || x == item@,
{
    let ghost before = views(list@);
    let mut at: usize = 0;
    while at < list.len()
        invariant
            at <= list@.len(),
            before == views(list@),
            path_ascending(platform, before),
            list@ == old(list)@,
            forall|j: int| 0 <= j < at ==> path_precedes(platform, #[trigger] before[j], item@),
        ensures
            at <= list@.len(),
            at < list@.len() ==> path_precedes(platform, item@, before[at as int]),
        decreases list@.len() - at,
    {
        match path_placement(platform, list[at].as_str(), item.as_str()) {
            Placement::Before => {
                at = at + 1;
            },
            Placement::Same => {
                proof {
                    assert(before[at as int] == list@[at as int]@);
                    assert forall|x: Seq<char>| components(platform, x) == components(platform, item@) implies #[trigger] holds_path(platform, before, x) by {
                        assert(components(platform, before[at as int]) == components(platform, x));
                    }
                }
                return ;
            },
            Placement::After => {
                proof {
                    assert(before[at as int] == list@[at as int]@);
                }
                break ;
            },
        }
    }
    let ghost text = item@;
    list.insert(at, item);
    proof {
        let after = views(list@);
        assert(after =~= before.insert(at as int, text));
        assert forall|i: int, j: int| 0 <= i < j < after.len() implies path_precedes(platform, #[trigger] after[i], #[trigger] after[j]) by {
            if i < at && j == at {
            } else if i == at {
                if j > at + 1 {
                    list_transitive(
                        components(platform, text),
                        components(platform, before[at as int]),
                        components(platform, before[j - 1]),
                    );
                }
            } else if j < at {
                assert(path_precedes(platform, before[i], before[j]));
            } else if i < at {
                assert(path_precedes(platform, before[i], before[j - 1]));
            } else {
                assert(path_precedes(platform, before[i - 1], before[j - 1]));
            }
        }
        assert forall|x: Seq<char>| #[trigger] holds_path(
            platform,
            after,
            x,
        ) <==> holds_path(platform, before, x) || components(platform, x)
            == components(platform, text) by {
            if holds_path(platform, before, x) {
                let k = choose|k: int| 0 <= k < before.len() && components(
                    platform,
                    #[trigger] before[k],
                ) == components(platform, x);
                if k < at {
                    assert(after[k] == before[k]);
                } else {
                    assert(after[k + 1] == before[k]);
                }
            }
            if components(platform, x) == components(platform, text) {
                assert(after[at as int] == text);
            }
            if holds_path(platform, after, x) {
                let k = choose|k: int| 0 <= k < after.len() && components(
                    platform,
                    #[trigger] after[k],
                ) == components(platform, x);
                if k < at {
                    assert(before[k] == after[k]);
                } else if k > at {
                    assert(before[k - 1] == after[k]);
                }
            }
        }
        assert forall|x: Seq<char>| #[trigger] after.contains(x) implies before.contains(x) || x == text by {
            let k = choose|k: int| 0 <= k < after.len() && after[k] == x;
            if k < at {
                assert(before[k] == x);
            } else if k > at {
                assert(before[k - 1] == x);
            }
        }
    }
}

/// Paths are ordered by their components: a directory stands before what is in it, no path before
/// itself, and the order is transitive.
pub proof fn directories_stand_before_their_contents(
    platform: Platform,
    first: Seq<char>,
    second: Seq<char>,
    third: Seq<char>,
)
    ensures
        components(platform, first).is_prefix_of(components(platform, second)) && components(platform, first).len()
            < components(platform, second).len() ==> path_precedes(platform, first, second),
        !path_precedes(platform, first, first),
        path_precedes(platform, first, second) && path_precedes(platform, second, third) ==> path_precedes(
            platform,
            first,
            third,
        ),
        path_precedes(platform, first, second) ==> !path_precedes(platform, second, first),
{
    let a = components(platform, first);
    let b = components(platform, second);
    let c = components(platform, third);
    list_irreflexive(a);
    if a.is_prefix_of(b) && a.len() < b.len() {
        assert forall|j: int| #![trigger a[j]] #![trigger b[j]] 0 <= j < a.len() implies a[j] == b[j] by {}
        assert(list_precedes_at(a, b, a.len() as int));
    }
    if list_precedes(a, b) && list_precedes(b, c) {
        list_transitive(a, b, c);
    }
    if list_precedes(a, b) && list_precedes(b, a) {
        list_transitive(a, b, a);
    }
}

} // verus!
