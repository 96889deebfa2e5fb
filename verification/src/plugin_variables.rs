//! The variables that plugin manifests may use.

use crate::text::{characters, has_prefix, matches_at, occurs_at};
use vstd::prelude::*;
use vstd::string::*;

verus! {

/// `value` with every `${PLUGIN_ROOT}` replaced by `root` and every `${PLUGIN_DATA}` by `data`, in
/// one pass from the left: what was inserted is not looked at again.
pub open spec fn expansion(value: Seq<char>, root: Seq<char>, data: Seq<char>) -> Seq<char>
    decreases value.len(),
{
    proof {
        reveal_strlit("${PLUGIN_ROOT}");
        reveal_strlit("${PLUGIN_DATA}");
    }
    if value.len() == 0 {
        Seq::empty()
    } else if has_prefix(value, "${PLUGIN_ROOT}"@) {
        root + expansion(value.skip("${PLUGIN_ROOT}"@.len() as int), root, data)
    } else if has_prefix(value, "${PLUGIN_DATA}"@) {
        data + expansion(value.skip("${PLUGIN_DATA}"@.len() as int), root, data)
    } else {
        seq![value[0]] + expansion(value.skip(1), root, data)
    }
}

/// `value` with every `${PLUGIN_ROOT}` and `${PLUGIN_DATA}` replaced, in one pass.
pub fn expand_plugin_variables(value: &str, root: &str, data: &str) -> (expanded: String)
    ensures
        expanded@ == expansion(value@, root@, data@),
{
    let list = characters(value);
    let root_variable = characters("${PLUGIN_ROOT}");
    let data_variable = characters("${PLUGIN_DATA}");
    proof {
        reveal_strlit("${PLUGIN_ROOT}");
        reveal_strlit("${PLUGIN_DATA}");
    }
    let mut expanded = String::new();
    let mut i: usize = 0;
    proof {
        assert(value@.skip(0) =~= value@);
        assert(expanded@ + expansion(value@, root@, data@) =~= expansion(value@, root@, data@));
    }
    while i < list.len()
        invariant
            list@ == value@,
            root_variable@ == "${PLUGIN_ROOT}"@,
            data_variable@ == "${PLUGIN_DATA}"@,
            root_variable@.len() == 14,
            data_variable@.len() == 14,
            i <= list@.len(),
            expansion(value@, root@, data@) == expanded@ + expansion(value@.skip(i as int), root@, data@),
        decreases list@.len() - i,
    {
        let ghost rest = value@.skip(i as int);
        let ghost before = expanded@;
        let at_root = matches_at(&list, &root_variable, i);
        let at_data = matches_at(&list, &data_variable, i);
        proof {
            if i + 14 <= value@.len() {
                assert(rest.subrange(0, 14) =~= value@.subrange(i as int, i + 14));
            }
            assert(has_prefix(rest, "${PLUGIN_ROOT}"@) == occurs_at(value@, "${PLUGIN_ROOT}"@, i as int));
            assert(has_prefix(rest, "${PLUGIN_DATA}"@) == occurs_at(value@, "${PLUGIN_DATA}"@, i as int));
        }
        if at_root {
            expanded.append(root);
            proof {
                assert(rest.skip(14) =~= value@.skip(i + 14));
                assert(expanded@ + expansion(
                    value@.skip(i + 14),
                    root@,
                    data@,
                ) =~= before + expansion(rest, root@, data@));
            }
            i = i + 14;
        } else if at_data {
            expanded.append(data);
            proof {
                assert(rest.skip(14) =~= value@.skip(i + 14));
                assert(expanded@ + expansion(
                    value@.skip(i + 14),
                    root@,
                    data@,
                ) =~= before + expansion(rest, root@, data@));
            }
            i = i + 14;
        } else {
            expanded.push(list[i]);
            proof {
                assert(rest.skip(1) =~= value@.skip(i + 1));
                assert(expanded@ + expansion(
                    value@.skip(i + 1),
                    root@,
                    data@,
                ) =~= before + expansion(rest, root@, data@));
            }
            i = i + 1;
        }
    }
    proof {
        assert(value@.skip(i as int).len() == 0);
        assert(expanded@ =~= expanded@ + expansion(value@.skip(i as int), root@, data@));
    }
    expanded
}

/// The text holds neither variable.
pub open spec fn without_variables(value: Seq<char>) -> bool {
    forall|i: int|
        0 <= i < value.len() ==> !has_prefix(#[trigger] value.skip(i), "${PLUGIN_ROOT}"@) && !has_prefix(
            value.skip(i),
            "${PLUGIN_DATA}"@,
        )
}

/// A text that holds neither variable stays as it is.
pub proof fn expansion_keeps_plain_text(value: Seq<char>, root: Seq<char>, data: Seq<char>)
    requires
        without_variables(value),
    ensures
        expansion(value, root, data) == value,
    decreases value.len(),
{
    if value.len() > 0 {
        assert(value.skip(0) =~= value);
        let rest = value.skip(1);
        assert forall|i: int| 0 <= i < rest.len() implies !has_prefix(#[trigger] rest.skip(i), "${PLUGIN_ROOT}"@)
            && !has_prefix(rest.skip(i), "${PLUGIN_DATA}"@) by {
            assert(rest.skip(i) =~= value.skip(i + 1));
        }
        expansion_keeps_plain_text(rest, root, data);
        assert(seq![value[0]] + rest =~= value);
    } else {
        assert(expansion(value, root, data) =~= value);
    }
}

/// Expansion splits at a variable: what stands before it and behind it is expanded on its own, and
/// what stands in its place is not looked at again.
pub proof fn expansion_splits_at_a_variable(before: Seq<char>, after: Seq<char>, root: Seq<char>, data: Seq<char>)
    ensures
        expansion(before + "${PLUGIN_ROOT}"@ + after, root, data) == expansion(before, root, data) + root + expansion(
            after,
            root,
            data,
        ),
        expansion(before + "${PLUGIN_DATA}"@ + after, root, data) == expansion(before, root, data) + data + expansion(
            after,
            root,
            data,
        ),
{
    reveal_strlit("${PLUGIN_ROOT}");
    reveal_strlit("${PLUGIN_DATA}");
    assert("${PLUGIN_ROOT}"@[9] != "${PLUGIN_DATA}"@[9]);
    splits_at(before, "${PLUGIN_ROOT}"@, after, root, data);
    splits_at(before, "${PLUGIN_DATA}"@, after, root, data);
}

/// What a variable stands for.
spec fn stands_for(variable: Seq<char>, root: Seq<char>, data: Seq<char>) -> Seq<char> {
    if variable == "${PLUGIN_ROOT}"@ {
        root
    } else {
        data
    }
}

proof fn splits_at(before: Seq<char>, variable: Seq<char>, after: Seq<char>, root: Seq<char>, data: Seq<char>)
    requires
        variable == "${PLUGIN_ROOT}"@ || variable == "${PLUGIN_DATA}"@,
    ensures
        expansion(before + variable + after, root, data) == expansion(before, root, data) + stands_for(
            variable,
            root,
            data,
        ) + expansion(after, root, data),
    decreases before.len(),
{
    reveal_strlit("${PLUGIN_ROOT}");
    reveal_strlit("${PLUGIN_DATA}");
    let whole = before + variable + after;
    let value = stands_for(variable, root, data);
    if before.len() == 0 {
        assert(whole =~= variable + after);
        assert(whole.subrange(0, 14) =~= variable);
        assert("${PLUGIN_ROOT}"@[9] == 'R' && "${PLUGIN_DATA}"@[9] == 'D');
        assert(whole.skip(14) =~= after);
        assert(expansion(before, root, data) =~= Seq::<char>::empty());
        assert(expansion(before, root, data) + value + expansion(after, root, data) =~= value + expansion(
            after,
            root,
            data,
        ));
    } else {
        begins_alike(before, variable, after, "${PLUGIN_ROOT}"@);
        begins_alike(before, variable, after, "${PLUGIN_DATA}"@);
        if has_prefix(before, "${PLUGIN_ROOT}"@) || has_prefix(before, "${PLUGIN_DATA}"@) {
            splits_at(before.skip(14), variable, after, root, data);
            assert(whole.skip(14) =~= before.skip(14) + variable + after);
        } else {
            splits_at(before.skip(1), variable, after, root, data);
            assert(whole.skip(1) =~= before.skip(1) + variable + after);
        }
        assert(expansion(whole, root, data) =~= expansion(before, root, data) + value + expansion(after, root, data));
    }
}

/// No variable begins before another one and ends inside it.
proof fn begins_alike(before: Seq<char>, variable: Seq<char>, after: Seq<char>, sought: Seq<char>)
    requires
        before.len() > 0,
        variable == "${PLUGIN_ROOT}"@ || variable == "${PLUGIN_DATA}"@,
        sought == "${PLUGIN_ROOT}"@ || sought == "${PLUGIN_DATA}"@,
    ensures
        has_prefix(before + variable + after, sought) == has_prefix(before, sought),
{
    reveal_strlit("${PLUGIN_ROOT}");
    reveal_strlit("${PLUGIN_DATA}");
    let whole = before + variable + after;
    if before.len() >= 14 {
        assert(whole.subrange(0, 14) =~= before.subrange(0, 14));
    } else if has_prefix(whole, sought) {
        let at = before.len() as int;
        assert(whole.subrange(0, 14)[at] == whole[at]);
        assert(whole[at] == variable[0]);
        assert(sought[at] == '$');
    }
}

} // verus!
