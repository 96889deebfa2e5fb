//! The plugins of a run: where they come from and what identifies them.

use crate::entries::{ascending_keys, is_same_map, put, same_map, value_of, Entry};
use crate::error::{config_error, is_config_error, RuntimeError};
use crate::plugin_extensions::{diagnostic_views, DiagnosticView, PluginDiagnostic, PluginRecord};
use crate::text::{optional_view, same_text, views};
use vstd::prelude::*;
use vstd::string::*;

verus! {

/// The digest of a plugin by its name: that of the last record of the name.
pub open spec fn digest_of(records: Seq<PluginRecord>, name: Seq<char>) -> Option<Seq<char>>
    decreases records.len(),
{
    if records.len() == 0 {
        None
    } else if records.last().name@ == name {
        Some(records.last().digest@)
    } else {
        digest_of(records.drop_last(), name)
    }
}

/// The digests of plugins by their names, in the order of the names.
pub fn digests(records: &Vec<PluginRecord>) -> (list: Vec<Entry<String>>)
    ensures
        forall|name: Seq<char>|
            #![trigger value_of(list@, name)]
            optional_view(value_of(list@, name)) == digest_of(records@, name),
        ascending_keys(list@),
{
    let mut list: Vec<Entry<String>> = Vec::new();
    let mut i: usize = 0;
    while i < records.len()
        invariant
            i <= records@.len(),
            ascending_keys(list@),
            forall|name: Seq<char>|
                #![trigger value_of(list@, name)]
                optional_view(value_of(list@, name)) == digest_of(records@.take(i as int), name),
        decreases records@.len() - i,
    {
        let ghost before = list@;
        put(&mut list, records[i].name.clone(), records[i].digest.clone());
        proof {
            assert(records@.take(i + 1).drop_last() =~= records@.take(i as int));
            assert(records@.take(i + 1).last() == records@[i as int]);
            assert forall|name: Seq<char>|
                #![trigger value_of(list@, name)]
                optional_view(value_of(list@, name)) == digest_of(records@.take(i + 1), name) by {
                assert(optional_view(value_of(before, name)) == digest_of(records@.take(i as int), name));
            }
        }
        i = i + 1;
    }
    proof {
        assert(records@.take(i as int) =~= records@);
    }
    list
}

/// Where the plugins of a run come from.
#[derive(Clone, Copy, Debug, PartialEq, Eq, Structural)]
pub enum CatalogSource {
    /// The run that is active already.
    Active,
    /// The plugin store.
    Store,
    /// There are none.
    Empty,
}

/// Where a new run takes its plugins from.
pub fn capture_source(active: bool, has_store: bool, enabled: bool) -> (source: CatalogSource)
    ensures
        source == if active {
            CatalogSource::Active
        } else if has_store && enabled {
            CatalogSource::Store
        } else {
            CatalogSource::Empty
        },
{
    if active {
        CatalogSource::Active
    } else if has_store && enabled {
        CatalogSource::Store
    } else {
        CatalogSource::Empty
    }
}

/// Where a run that is restored takes exactly its plugins from.
pub fn restore_source(
    active: &Option<Vec<Entry<String>>>,
    captured: &Vec<Entry<String>>,
    has_store: bool,
) -> (result: Result<
    CatalogSource,
    RuntimeError,
>)
    ensures
        if *active matches Some(digests) && same_map(digests@, captured@) {
            result == Ok::<CatalogSource, RuntimeError>(CatalogSource::Active)
        } else if captured@.len() == 0 {
            result == Ok::<CatalogSource, RuntimeError>(CatalogSource::Empty)
        } else if !has_store {
            is_config_error(result, "captured plugins require their original Colossus home"@)
        } else {
            result == Ok::<CatalogSource, RuntimeError>(CatalogSource::Store)
        },
{
    if let Some(digests) = active {
        if is_same_map(digests, captured) {
            return Ok(CatalogSource::Active);
        }
    }
    if captured.len() == 0 {
        return Ok(CatalogSource::Empty);
    }
    if !has_store {
        return config_error("captured plugins require their original Colossus home");
    }
    Ok(CatalogSource::Store)
}

/// The diagnostics of one plugin.
pub open spec fn diagnostics_of(list: Seq<PluginDiagnostic>, plugin: Seq<char>) -> Seq<DiagnosticView>
    decreases list.len(),
{
    if list.len() == 0 {
        Seq::empty()
    } else if list.last().plugin@ == plugin {
        diagnostics_of(list.drop_last(), plugin).push(list.last()@)
    } else {
        diagnostics_of(list.drop_last(), plugin)
    }
}

/// The diagnostics of one plugin, in order.
pub fn plugin_diagnostics(list: &Vec<PluginDiagnostic>, plugin: &str) -> (found: Vec<PluginDiagnostic>)
    ensures
        diagnostic_views(found@) == diagnostics_of(list@, plugin@),
{
    let mut found: Vec<PluginDiagnostic> = Vec::new();
    let mut i: usize = 0;
    proof {
        assert(diagnostic_views(found@) =~= diagnostics_of(list@.take(0), plugin@));
    }
    while i < list.len()
        invariant
            i <= list@.len(),
            diagnostic_views(found@) == diagnostics_of(list@.take(i as int), plugin@),
        decreases list@.len() - i,
    {
        let item = &list[i];
        let ghost before = found@;
        proof {
            assert(list@.take(i + 1).drop_last() =~= list@.take(i as int));
            assert(list@.take(i + 1).last() == *item);
        }
        if same_text(item.plugin.as_str(), plugin) {
            let copy = PluginDiagnostic {
                plugin: item.plugin.clone(),
                server: item.server.clone(),
                code: item.code.clone(),
                detail: item.detail.clone(),
            };
            found.push(copy);
            proof {
                assert(diagnostic_views(found@) =~= diagnostic_views(before).push(item@));
            }
        }
        i = i + 1;
    }
    proof {
        assert(list@.take(i as int) =~= list@);
    }
    found
}

/// The root of the plugin that a skill belongs to: that of the last record that holds the skill.
pub open spec fn root_of(records: Seq<PluginRecord>, skill: Seq<char>) -> Option<Seq<char>>
    decreases records.len(),
{
    if records.len() == 0 {
        None
    } else if views(records.last().skills@).contains(skill) {
        Some(records.last().root@)
    } else {
        root_of(records.drop_last(), skill)
    }
}

fn put_skills(list: &mut Vec<Entry<String>>, record: &PluginRecord)
    ensures
        forall|skill: Seq<char>|
            #![trigger value_of(final(list)@, skill)]
            optional_view(value_of(final(list)@, skill)) == if views(record.skills@).contains(skill) {
                Some(record.root@)
            } else {
                optional_view(value_of(old(list)@, skill))
            },
        ascending_keys(old(list)@) ==> ascending_keys(final(list)@),
{
    let ghost start = list@;
    let mut i: usize = 0;
    proof {
        assert(views(record.skills@.take(0)) =~= Seq::<Seq<char>>::empty());
    }
    while i < record.skills.len()
        invariant
            i <= record.skills@.len(),
            start == old(list)@,
            ascending_keys(start) ==> ascending_keys(list@),
            forall|skill: Seq<char>|
                #![trigger value_of(list@, skill)]
                optional_view(value_of(list@, skill)) == if views(record.skills@.take(i as int)).contains(skill) {
                    Some(record.root@)
                } else {
                    optional_view(value_of(start, skill))
                },
        decreases record.skills@.len() - i,
    {
        let ghost before = list@;
        put(list, record.skills[i].clone(), record.root.clone());
        proof {
            let name = record.skills@[i as int]@;
            let short = views(record.skills@.take(i as int));
            let long = views(record.skills@.take(i + 1));
            assert(record.skills@.take(i + 1) =~= record.skills@.take(i as int).push(record.skills@[i as int]));
            assert(long =~= short.push(name));
            assert forall|skill: Seq<char>|
                #![trigger value_of(list@, skill)]
                optional_view(value_of(list@, skill)) == if long.contains(skill) {
                    Some(record.root@)
                } else {
                    optional_view(value_of(start, skill))
                } by {
                assert(optional_view(value_of(before, skill)) == if short.contains(skill) {
                    Some(record.root@)
                } else {
                    optional_view(value_of(start, skill))
                });
                if skill == name {
                    assert(long[short.len() as int] == skill);
                } else if short.contains(skill) {
                    let k = choose|k: int| 0 <= k < short.len() && short[k] == skill;
                    assert(long[k] == skill);
                } else if long.contains(skill) {
                    let k = choose|k: int| 0 <= k < long.len() && long[k] == skill;
                    assert(short[k] == skill);
                }
            }
        }
        i = i + 1;
    }
    proof {
        assert(record.skills@.take(i as int) =~= record.skills@);
    }
}

/// The roots of the plugins that skills belong to, by the skills' identifiers and in their order.
pub fn skill_roots(records: &Vec<PluginRecord>) -> (list: Vec<Entry<String>>)
    ensures
        forall|skill: Seq<char>|
            #![trigger value_of(list@, skill)]
            optional_view(value_of(list@, skill)) == root_of(records@, skill),
        ascending_keys(list@),
{
    let mut list: Vec<Entry<String>> = Vec::new();
    let mut i: usize = 0;
    while i < records.len()
        invariant
            i <= records@.len(),
            ascending_keys(list@),
            forall|skill: Seq<char>|
                #![trigger value_of(list@, skill)]
                optional_view(value_of(list@, skill)) == root_of(records@.take(i as int), skill),
        decreases records@.len() - i,
    {
        let ghost before = list@;
        put_skills(&mut list, &records[i]);
        proof {
            assert(records@.take(i + 1).drop_last() =~= records@.take(i as int));
            assert(records@.take(i + 1).last() == records@[i as int]);
            assert forall|skill: Seq<char>|
                #![trigger value_of(list@, skill)]
                optional_view(value_of(list@, skill)) == root_of(records@.take(i + 1), skill) by {
                assert(optional_view(value_of(before, skill)) == root_of(records@.take(i as int), skill));
            }
        }
        i = i + 1;
    }
    proof {
        assert(records@.take(i as int) =~= records@);
    }
    list
}

/// Requires the connected servers of a captured catalog.
pub fn require_mcp_snapshot(available: bool) -> (result: Result<(), RuntimeError>)
    ensures
        if available {
            result is Ok
        } else {
            is_config_error(result, "MCP snapshot is unavailable"@)
        },
{
    if available {
        Ok(())
    } else {
        config_error("MCP snapshot is unavailable")
    }
}

/// A catalog gives the digest of the last record of a name, and the root of the last plugin that has a
/// skill; what no record has it does not give.
pub proof fn the_last_record_counts(records: Seq<PluginRecord>, record: PluginRecord, name: Seq<char>)
    ensures
        digest_of(records.push(record), record.name@) == Some(record.digest@),
        name != record.name@ ==> digest_of(records.push(record), name) == digest_of(records, name),
        digest_of(Seq::empty(), name) is None,
        views(record.skills@).contains(name) ==> root_of(records.push(record), name) == Some(record.root@),
        !views(record.skills@).contains(name) ==> root_of(records.push(record), name) == root_of(records, name),
        root_of(Seq::empty(), name) is None,
{
    assert(records.push(record).drop_last() == records);
}

/// A plugin's diagnostics are all that name it, in their order, and no other.
pub proof fn diagnostics_belong_to_their_plugin(list: Seq<PluginDiagnostic>, one: PluginDiagnostic, plugin: Seq<char>)
    ensures
        one.plugin@ == plugin ==> diagnostics_of(list.push(one), plugin) == diagnostics_of(list, plugin).push(one@),
        one.plugin@ != plugin ==> diagnostics_of(list.push(one), plugin) == diagnostics_of(list, plugin),
        diagnostics_of(Seq::empty(), plugin).len() == 0,
{
    assert(list.push(one).drop_last() == list);
}

} // verus!
