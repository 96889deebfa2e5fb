//! The plan of built-in policy: what transfers may reach and how long effects may take.

use crate::composition::{research_run_timeout_ms, research_time, saturated};
use crate::config::{
    extend_grants, grant, grant_views, FilesystemGrant, GrantView, PluginRegistryProfile, ProviderProfileConfig,
    RegistryAuthConfig, SandboxConfig,
};
use crate::entries::{
    ascending_keys, has_key, insert_keeps_order, insert_value, place_of, put, update_value, value_exists, value_of, Entry,
};
use crate::error::RuntimeError;
use crate::ordered::{ascending, insert_ascending};
use crate::text::{clone_texts, same_text, views};
use vstd::prelude::*;
use vstd::string::*;

verus! {

/// An origin that some registry may be reached at.
pub open spec fn registry_origin(list: Seq<Entry<PluginRegistryProfile>>, origin: Seq<char>) -> bool {
    exists|i: int|
        0 <= i < list.len() && ((#[trigger] list[i]).value.origin@ == origin || views(
            list[i].value.token_origins@,
        ).contains(origin) || views(list[i].value.blob_redirect_origins@).contains(origin))
}

fn insert_all(list: &mut Vec<String>, more: &Vec<String>)
    requires
        ascending(views(old(list)@)),
    ensures
        ascending(views(final(list)@)),
        forall|x: Seq<char>|
            #[trigger] views(final(list)@).contains(x) <==> views(old(list)@).contains(x) || views(more@).contains(x),
{
    let mut i: usize = 0;
    while i < more.len()
        invariant
            i <= more@.len(),
            ascending(views(list@)),
            forall|x: Seq<char>|
                #[trigger] views(list@).contains(x) <==> views(old(list)@).contains(x) || views(more@).take(
                    i as int,
                ).contains(x),
        decreases more@.len() - i,
    {
        let ghost before = views(list@);
        let added = insert_ascending(list, more[i].clone());
        proof {
            let texts = views(more@);
            assert forall|x: Seq<char>| #[trigger] views(list@).contains(x) <==> views(old(list)@).contains(x)
                || texts.take(i + 1).contains(x) by {
                if texts.take(i as int).contains(x) {
                    let short = texts.take(i as int);
                    let k = choose|k: int| 0 <= k < short.len() && short[k] == x;
                    assert(texts.take(i + 1)[k] == x);
                }
                if x == more@[i as int]@ {
                    assert(texts.take(i + 1)[i as int] == x);
                }
                if texts.take(i + 1).contains(x) {
                    let long = texts.take(i + 1);
                    let k = choose|k: int| 0 <= k < long.len() && long[k] == x;
                    if k < i {
                        assert(texts.take(i as int)[k] == x);
                    }
                }
            }
        }
        i = i + 1;
    }
    proof {
        assert(views(more@).take(i as int) =~= views(more@));
    }
}

/// The origins of all registries, ordered and each once.
pub fn registry_destinations(list: &Vec<Entry<PluginRegistryProfile>>) -> (origins: Vec<String>)
    ensures
        ascending(views(origins@)),
        forall|x: Seq<char>| #[trigger] views(origins@).contains(x) <==> registry_origin(list@, x),
{
    let mut origins: Vec<String> = Vec::new();
    let mut i: usize = 0;
    while i < list.len()
        invariant
            i <= list@.len(),
            ascending(views(origins@)),
            forall|x: Seq<char>|
                #[trigger] views(origins@).contains(x) <==> registry_origin(list@.take(i as int), x),
        decreases list@.len() - i,
    {
        let ghost before = views(origins@);
        let registry = &list[i].value;
        let added = insert_ascending(&mut origins, registry.origin.clone());
        insert_all(&mut origins, &registry.token_origins);
        insert_all(&mut origins, &registry.blob_redirect_origins);
        proof {
            let short = list@.take(i as int);
            let long = list@.take(i + 1);
            assert forall|x: Seq<char>| #[trigger] views(origins@).contains(x) <==> registry_origin(long, x) by {
                if before.contains(x) {
                    let k = choose|k: int|
                        0 <= k < short.len() && ((#[trigger] short[k]).value.origin@ == x || views(
                            short[k].value.token_origins@,
                        ).contains(x) || views(short[k].value.blob_redirect_origins@).contains(x));
                    assert(long[k] == short[k]);
                }
                assert(long[i as int] == list@[i as int]);
                if registry_origin(long, x) {
                    let k = choose|k: int|
                        0 <= k < long.len() && ((#[trigger] long[k]).value.origin@ == x || views(
                            long[k].value.token_origins@,
                        ).contains(x) || views(long[k].value.blob_redirect_origins@).contains(x));
                    if k < i {
                        assert(short[k] == long[k]);
                        assert(registry_origin(short, x));
                    }
                }
            }
        }
        i = i + 1;
    }
    proof {
        assert(list@.take(i as int) =~= list@);
    }
    origins
}

/// A read grant of every path.
pub open spec fn read_grants(paths: Seq<Seq<char>>) -> Seq<GrantView> {
    paths.map_values(|path: Seq<char>| GrantView { root: path, mode: "read"@ })
}

/// The values of keyed texts.
pub open spec fn entry_values(list: Seq<Entry<String>>) -> Seq<Seq<char>> {
    list.map_values(|entry: Entry<String>| entry.value@)
}

/// The CA bundle files of one registry.
pub open spec fn bundle_files(registry: PluginRegistryProfile) -> Seq<Seq<char>> {
    (match registry.ca_bundle_path {
        Some(path) => seq![path@],
        None => Seq::empty(),
    }) + entry_values(registry.token_ca_bundle_paths@) + entry_values(registry.blob_redirect_ca_bundle_paths@)
}

/// The CA bundle files of all registries, in order.
pub open spec fn all_bundle_files(list: Seq<Entry<PluginRegistryProfile>>) -> Seq<Seq<char>>
    decreases list.len(),
{
    if list.len() == 0 {
        Seq::empty()
    } else {
        all_bundle_files(list.drop_last()) + bundle_files(list.last().value)
    }
}

/// Appends the values of keyed texts.
pub fn push_values(files: &mut Vec<String>, list: &Vec<Entry<String>>)
    ensures
        views(final(files)@) == views(old(files)@) + entry_values(list@),
{
    let mut i: usize = 0;
    proof {
        assert(views(files@) =~= views(old(files)@) + entry_values(list@).take(0));
    }
    while i < list.len()
        invariant
            i <= list@.len(),
            views(files@) == views(old(files)@) + entry_values(list@).take(i as int),
        decreases list@.len() - i,
    {
        let ghost before = files@;
        files.push(list[i].value.clone());
        proof {
            assert(views(files@) =~= views(before).push(list@[i as int].value@));
            assert(entry_values(list@).take(i + 1) =~= entry_values(list@).take(i as int).push(list@[i as int].value@));
            assert(views(files@) =~= views(old(files)@) + entry_values(list@).take(i + 1));
        }
        i = i + 1;
    }
    proof {
        assert(entry_values(list@).take(i as int) =~= entry_values(list@));
    }
}

/// The CA bundle files of all registries, in order.
pub fn registry_bundle_files(list: &Vec<Entry<PluginRegistryProfile>>) -> (files: Vec<String>)
    ensures
        views(files@) == all_bundle_files(list@),
{
    let mut files: Vec<String> = Vec::new();
    let mut i: usize = 0;
    proof {
        assert(views(files@) =~= all_bundle_files(list@.take(0)));
    }
    while i < list.len()
        invariant
            i <= list@.len(),
            views(files@) == all_bundle_files(list@.take(i as int)),
        decreases list@.len() - i,
    {
        proof {
            assert(list@.take(i + 1).drop_last() =~= list@.take(i as int));
        }
        let ghost before = views(files@);
        let registry = &list[i].value;
        if let Some(path) = &registry.ca_bundle_path {
            files.push(path.clone());
            proof {
                assert(views(files@) =~= before + seq![path@]);
            }
        } else {
            proof {
                assert(views(files@) =~= before + Seq::<Seq<char>>::empty());
            }
        }
        push_values(&mut files, &registry.token_ca_bundle_paths);
        push_values(&mut files, &registry.blob_redirect_ca_bundle_paths);
        proof {
            assert(views(files@) =~= before + bundle_files(*registry));
        }
        i = i + 1;
    }
    proof {
        assert(list@.take(i as int) =~= list@);
    }
    files
}

/// A restriction of what effects of one action may reach.
#[derive(Debug)]
pub struct ActionRestriction {
    /// The action.
    pub action: String,
    /// Filesystem grants.
    pub filesystem: Vec<FilesystemGrant>,
    /// Environment variables.
    pub allowed_environment: Vec<String>,
    /// Network destinations.
    pub network_destinations: Vec<String>,
}

/// A restriction as characters.
pub ghost struct RestrictionView {
    pub action: Seq<char>,
    pub filesystem: Seq<GrantView>,
    pub allowed_environment: Seq<Seq<char>>,
    pub network_destinations: Seq<Seq<char>>,
}

impl View for ActionRestriction {
    type V = RestrictionView;

    open spec fn view(&self) -> RestrictionView {
        RestrictionView {
            action: self.action@,
            filesystem: grant_views(self.filesystem@),
            allowed_environment: views(self.allowed_environment@),
            network_destinations: views(self.network_destinations@),
        }
    }
}

/// Restrictions as characters.
pub open spec fn restriction_views(list: Seq<ActionRestriction>) -> Seq<RestrictionView> {
    list.map_values(|restriction: ActionRestriction| restriction@)
}

/// `workspace` with `mode`, then the files for reading.
pub open spec fn transfer_grants(workspace: Seq<char>, mode: Seq<char>, files: Seq<Seq<char>>) -> Seq<GrantView> {
    seq![GrantView { root: workspace, mode }] + read_grants(files)
}

fn transfer_grant_list(workspace: &str, mode: &str, files: &Vec<String>) -> (list: Vec<FilesystemGrant>)
    ensures
        grant_views(list@) == transfer_grants(workspace@, mode@, views(files@)),
{
    let mut list: Vec<FilesystemGrant> = Vec::new();
    list.push(grant(workspace, mode));
    let mut i: usize = 0;
    let ghost first = seq![GrantView { root: workspace@, mode: mode@ }];
    proof {
        assert(grant_views(list@) =~= first + read_grants(views(files@).take(0)));
    }
    while i < files.len()
        invariant
            i <= files@.len(),
            first == seq![GrantView { root: workspace@, mode: mode@ }],
            grant_views(list@) == first + read_grants(views(files@).take(i as int)),
        decreases files@.len() - i,
    {
        let ghost before = list@;
        list.push(grant(files[i].as_str(), "read"));
        proof {
            let shown = GrantView { root: files@[i as int]@, mode: "read"@ };
            assert(grant_views(list@) =~= grant_views(before).push(shown));
            assert(read_grants(views(files@).take(i + 1)) =~= read_grants(views(files@).take(i as int)).push(shown));
            assert(grant_views(list@) =~= first + read_grants(views(files@).take(i + 1)));
        }
        i = i + 1;
    }
    proof {
        assert(views(files@).take(i as int) =~= views(files@));
    }
    list
}

/// An execute grant of every credential helper of one registry.
pub open spec fn helper_executes(auth: RegistryAuthConfig) -> Seq<GrantView> {
    match auth {
        RegistryAuthConfig::Docker { helper_executables, .. } => entry_values(helper_executables@).map_values(
            |path: Seq<char>| GrantView { root: path, mode: "execute"@ },
        ),
        RegistryAuthConfig::Other => Seq::empty(),
    }
}

/// An execute grant of every credential helper, in order.
pub open spec fn all_helper_executes(list: Seq<Entry<PluginRegistryProfile>>) -> Seq<GrantView>
    decreases list.len(),
{
    if list.len() == 0 {
        Seq::empty()
    } else {
        all_helper_executes(list.drop_last()) + helper_executes(list.last().value.auth)
    }
}

fn push_helpers(list: &mut Vec<FilesystemGrant>, helpers: &Vec<Entry<String>>)
    ensures
        grant_views(final(list)@) == grant_views(old(list)@) + entry_values(helpers@).map_values(
            |path: Seq<char>| GrantView { root: path, mode: "execute"@ },
        ),
{
    let ghost f = |path: Seq<char>| GrantView { root: path, mode: "execute"@ };
    let ghost all = entry_values(helpers@).map_values(f);
    let mut i: usize = 0;
    proof {
        assert(grant_views(list@) =~= grant_views(old(list)@) + all.take(0));
    }
    while i < helpers.len()
        invariant
            i <= helpers@.len(),
            f == (|path: Seq<char>| GrantView { root: path, mode: "execute"@ }),
            all == entry_values(helpers@).map_values(f),
            grant_views(list@) == grant_views(old(list)@) + all.take(i as int),
        decreases helpers@.len() - i,
    {
        let ghost before = list@;
        list.push(grant(helpers[i].value.as_str(), "execute"));
        proof {
            let shown = GrantView { root: helpers@[i as int].value@, mode: "execute"@ };
            assert(all[i as int] == shown);
            assert(grant_views(list@) =~= grant_views(before).push(shown));
            assert(all.take(i + 1) =~= all.take(i as int).push(shown));
            assert(grant_views(list@) =~= grant_views(old(list)@) + all.take(i + 1));
        }
        i = i + 1;
    }
    proof {
        assert(all.take(i as int) =~= all);
    }
}

fn helper_grant_list(workspace: &str, registries: &Vec<Entry<PluginRegistryProfile>>) -> (list: Vec<FilesystemGrant>)
    ensures
        grant_views(list@) == seq![GrantView { root: workspace@, mode: "read"@ }] + all_helper_executes(registries@),
{
    let mut list: Vec<FilesystemGrant> = Vec::new();
    list.push(grant(workspace, "read"));
    let ghost first = seq![GrantView { root: workspace@, mode: "read"@ }];
    let mut i: usize = 0;
    proof {
        assert(grant_views(list@) =~= first + all_helper_executes(registries@.take(0)));
    }
    while i < registries.len()
        invariant
            i <= registries@.len(),
            first == seq![GrantView { root: workspace@, mode: "read"@ }],
            grant_views(list@) == first + all_helper_executes(registries@.take(i as int)),
        decreases registries@.len() - i,
    {
        proof {
            assert(registries@.take(i + 1).drop_last() =~= registries@.take(i as int));
        }
        let ghost before = grant_views(list@);
        match &registries[i].value.auth {
            RegistryAuthConfig::Docker { helper_executables, .. } => {
                push_helpers(&mut list, helper_executables);
            },
            RegistryAuthConfig::Other => {},
        }
        proof {
            assert(grant_views(list@) =~= before + helper_executes(registries@[i as int].value.auth));
            assert(grant_views(list@) =~= first + all_helper_executes(registries@.take(i + 1)));
        }
        i = i + 1;
    }
    proof {
        assert(registries@.take(i as int) =~= registries@);
    }
    list
}

/// The restrictions of plugin transfers: pulling writes the workspace, pushing reads it, both read
/// the CA bundles and reach the registries; credential helpers only run.
pub open spec fn transfer_restrictions(
    workspace: Seq<char>,
    registries: Seq<Entry<PluginRegistryProfile>>,
    destinations: Seq<Seq<char>>,
) -> Seq<RestrictionView> {
    let files = all_bundle_files(registries);
    seq![
        RestrictionView {
            action: "plugin.pull"@,
            filesystem: transfer_grants(workspace, "write"@, files),
            allowed_environment: Seq::empty(),
            network_destinations: destinations,
        },
        RestrictionView {
            action: "plugin.push"@,
            filesystem: transfer_grants(workspace, "read"@, files),
            allowed_environment: Seq::empty(),
            network_destinations: destinations,
        },
        RestrictionView {
            action: "plugin.registry.credential_helper"@,
            filesystem: seq![GrantView { root: workspace, mode: "read"@ }] + all_helper_executes(registries),
            allowed_environment: Seq::empty(),
            network_destinations: Seq::empty(),
        },
    ]
}

/// The restrictions of plugin transfers.
pub fn registry_restrictions(workspace: &str, registries: &Vec<Entry<PluginRegistryProfile>>) -> (list: Vec<
    ActionRestriction,
>)
    ensures
        exists|destinations: Seq<Seq<char>>|
            #![trigger ascending(destinations)]
            ascending(destinations) && (forall|x: Seq<char>|
                #[trigger] destinations.contains(x) <==> registry_origin(registries@, x)) && restriction_views(list@)
                == transfer_restrictions(workspace@, registries@, destinations),
{
    let destinations = registry_destinations(registries);
    let files = registry_bundle_files(registries);
    let mut list: Vec<ActionRestriction> = Vec::new();
    list.push(
        ActionRestriction {
            action: "plugin.pull".to_owned(),
            filesystem: transfer_grant_list(workspace, "write", &files),
            allowed_environment: Vec::new(),
            network_destinations: clone_texts(&destinations),
        },
    );
    list.push(
        ActionRestriction {
            action: "plugin.push".to_owned(),
            filesystem: transfer_grant_list(workspace, "read", &files),
            allowed_environment: Vec::new(),
            network_destinations: clone_texts(&destinations),
        },
    );
    list.push(
        ActionRestriction {
            action: "plugin.registry.credential_helper".to_owned(),
            filesystem: helper_grant_list(workspace, registries),
            allowed_environment: Vec::new(),
            network_destinations: Vec::new(),
        },
    );
    proof {
        let empty = Seq::<Seq<char>>::empty();
        assert(views(list@[0].allowed_environment@) =~= empty);
        assert(views(list@[1].allowed_environment@) =~= empty);
        assert(views(list@[2].allowed_environment@) =~= empty);
        assert(views(list@[2].network_destinations@) =~= empty);
        assert(restriction_views(list@) =~= transfer_restrictions(workspace@, registries@, views(destinations@)));
    }
    list
}

/// The larger of two values.
pub open spec fn larger(a: u64, b: u64) -> u64 {
    if a > b {
        a
    } else {
        b
    }
}

/// The effect time that a provider profile asks of one action: its generation action takes the
/// generation ceiling and the cleanup reserve, listing models takes the transport timeout.
pub open spec fn requested_timeout(
    profile: ProviderProfileConfig,
    generation_action: Seq<char>,
    reserve: u64,
    action: Seq<char>,
) -> Option<u64> {
    let generation = saturated(profile.generation_timeout_in_force() as nat + reserve as nat);
    let models = profile.timeout_in_force();
    if action == generation_action && action == "provider.models"@ {
        Some(larger(generation, models))
    } else if action == generation_action {
        Some(generation)
    } else if action == "provider.models"@ {
        Some(models)
    } else {
        None
    }
}

/// The larger of two optional values.
pub open spec fn larger_optional(a: Option<u64>, b: Option<u64>) -> Option<u64> {
    match (a, b) {
        (Some(x), Some(y)) => Some(larger(x, y)),
        (Some(x), None) => Some(x),
        (None, other) => other,
    }
}

/// The largest effect time that the profiles ask of one action.
pub open spec fn provider_timeout(
    profiles: Seq<Entry<ProviderProfileConfig>>,
    actions: Seq<String>,
    reserve: u64,
    action: Seq<char>,
) -> Option<u64>
    decreases profiles.len(),
{
    if profiles.len() == 0 {
        None
    } else {
        larger_optional(
            provider_timeout(profiles.drop_last(), actions.drop_last(), reserve, action),
            requested_timeout(profiles.last().value, actions.last()@, reserve, action),
        )
    }
}

/// The largest value of a list; none where it is empty.
pub open spec fn largest(list: Seq<Entry<u64>>) -> Option<u64>
    decreases list.len(),
{
    if list.len() == 0 {
        None
    } else {
        larger_optional(largest(list.drop_last()), Some(list.last().value))
    }
}

fn largest_value(list: &Vec<Entry<u64>>) -> (value: Option<u64>)
    ensures
        value == largest(list@),
{
    let mut value: Option<u64> = None;
    let mut i: usize = 0;
    while i < list.len()
        invariant
            i <= list@.len(),
            value == largest(list@.take(i as int)),
        decreases list@.len() - i,
    {
        proof {
            assert(list@.take(i + 1).drop_last() =~= list@.take(i as int));
        }
        value = match value {
            Some(known) => if known > list[i].value {
                Some(known)
            } else {
                Some(list[i].value)
            },
            None => Some(list[i].value),
        };
        i = i + 1;
    }
    proof {
        assert(list@.take(i as int) =~= list@);
    }
    value
}

/// Every value of the list is at most `bound`, and some value reaches it.
spec fn bounded_by(list: Seq<Entry<u64>>, bound: Option<u64>) -> bool {
    match bound {
        None => list.len() == 0,
        Some(most) => (forall|i: int| 0 <= i < list.len() ==> (#[trigger] list[i]).value <= most) && exists|i: int|
            0 <= i < list.len() && (#[trigger] list[i]).value == most,
    }
}

proof fn largest_bounds(list: Seq<Entry<u64>>)
    ensures
        bounded_by(list, largest(list)),
    decreases list.len(),
{
    if list.len() > 0 {
        let rest = list.drop_last();
        largest_bounds(rest);
        let most = largest(list)->0;
        assert forall|i: int| 0 <= i < list.len() implies (#[trigger] list[i]).value <= most by {
            if i < rest.len() {
                assert(rest[i].value <= largest(rest)->0);
            }
        }
        if rest.len() > 0 && largest(rest)->0 > list.last().value {
            let i = choose|i: int| 0 <= i < rest.len() && (#[trigger] rest[i]).value == largest(rest)->0;
            assert(list[i].value == most);
        } else {
            assert(list[list.len() - 1].value == most);
        }
    }
}

proof fn bound_is_largest(list: Seq<Entry<u64>>, bound: Option<u64>)
    requires
        bounded_by(list, bound),
    ensures
        largest(list) == bound,
{
    largest_bounds(list);
    if list.len() > 0 {
        let most = largest(list)->0;
        let i = choose|i: int| 0 <= i < list.len() && (#[trigger] list[i]).value == most;
        assert(list[i].value <= bound->0);
        let j = choose|j: int| 0 <= j < list.len() && (#[trigger] list[j]).value == bound->0;
        assert(list[j].value <= most);
    }
}

/// Raises the time of one action to at least `timeout`.
pub fn raise_timeout(list: &mut Vec<Entry<u64>>, action: &str, timeout: u64)
    ensures
        forall|a: Seq<char>|
            #[trigger] value_of(final(list)@, a) == if a == action@ {
                larger_optional(value_of(old(list)@, a), Some(timeout))
            } else {
                value_of(old(list)@, a)
            },
        largest(final(list)@) == larger_optional(largest(old(list)@), Some(timeout)),
        ascending_keys(old(list)@) ==> ascending_keys(final(list)@),
{
    let ghost before = list@;
    let ghost bound = largest(before);
    proof {
        largest_bounds(before);
    }
    let mut i: usize = 0;
    while i < list.len()
        invariant
            i <= list@.len(),
            list@ == before,
            before == old(list)@,
            bound == largest(before),
            bounded_by(before, bound),
            forall|j: int| 0 <= j < i ==> (#[trigger] list@[j]).key@ != action@,
        decreases list@.len() - i,
    {
        if same_text(list[i].key.as_str(), action) {
            let raised: u64 = if list[i].value > timeout {
                list[i].value
            } else {
                timeout
            };
            let key = list[i].key.clone();
            list.set(i, Entry { key, value: raised });
            proof {
                assert forall|a: Seq<char>| #[trigger] value_of(list@, a) == if a == action@ {
                    larger_optional(value_of(before, a), Some(timeout))
                } else {
                    value_of(before, a)
                } by {
                    update_value(before, i as int, list@[i as int], a);
                }
                let most = larger(bound->0, timeout);
                assert(before[i as int].value <= bound->0);
                assert forall|j: int| 0 <= j < list@.len() implies (#[trigger] list@[j]).value <= most by {
                    assert(before[j].value <= bound->0);
                }
                if timeout >= bound->0 {
                    assert(list@[i as int].value == most);
                } else {
                    let k = choose|k: int| 0 <= k < before.len() && (#[trigger] before[k]).value == bound->0;
                    if k == i {
                        assert(list@[i as int].value == most);
                    } else {
                        assert(list@[k].value == most);
                    }
                }
                bound_is_largest(list@, Some(most));
            }
            return ;
        }
        i = i + 1;
    }
    proof {
        assert(!has_key(before, action@));
    }
    let at: usize = place_of(list, action);
    let entry = Entry { key: action.to_owned(), value: timeout };
    list.insert(at, entry);
    proof {
        insert_keeps_order(before, at as int, entry);
        assert forall|a: Seq<char>| #[trigger] value_of(list@, a) == if a == action@ {
            larger_optional(value_of(before, a), Some(timeout))
        } else {
            value_of(before, a)
        } by {
            insert_value(before, at as int, entry, a);
            value_exists(before, a);
        }
        let most = match bound {
            Some(known) => larger(known, timeout),
            None => timeout,
        };
        assert(list@[at as int].value == timeout);
        assert forall|j: int| 0 <= j < list@.len() implies (#[trigger] list@[j]).value <= most by {
            if j < at {
                assert(list@[j] == before[j]);
            } else if j > at {
                assert(list@[j] == before[j - 1]);
            }
        }
        if most != timeout {
            let k = choose|k: int| 0 <= k < before.len() && (#[trigger] before[k]).value == bound->0;
            if k < at {
                assert(list@[k].value == most);
            } else {
                assert(list@[k + 1].value == most);
            }
        }
        bound_is_largest(list@, Some(most));
    }
}

/// The largest effect time that any profile asks of any action.
pub open spec fn slowest_provider(profiles: Seq<Entry<ProviderProfileConfig>>, reserve: u64) -> Option<u64>
    decreases profiles.len(),
{
    if profiles.len() == 0 {
        None
    } else {
        let profile = profiles.last().value;
        let generation = saturated(profile.generation_timeout_in_force() as nat + reserve as nat);
        larger_optional(
            slowest_provider(profiles.drop_last(), reserve),
            Some(larger(generation, profile.timeout_in_force())),
        )
    }
}

/// The bounds that action timeouts are made of.
#[derive(Clone, Copy, Debug, PartialEq, Eq, Structural)]
pub struct TimeoutBounds {
    /// Time that a provider stream needs to clean up.
    pub cleanup_reserve_ms: u64,
    /// Time of a sandboxed effect.
    pub sandbox_timeout_ms: u64,
    /// Most research sources.
    pub max_sources: usize,
    /// Most research workers.
    pub max_workers: usize,
}

/// The time of one action: the research deadline, else the largest that a profile asks.
pub open spec fn action_timeout(
    profiles: Seq<Entry<ProviderProfileConfig>>,
    actions: Seq<String>,
    bounds: TimeoutBounds,
    action: Seq<char>,
) -> Option<u64> {
    if action == "research.run"@ {
        let provider = match slowest_provider(profiles, bounds.cleanup_reserve_ms) {
            Some(timeout) => timeout,
            None => bounds.sandbox_timeout_ms,
        };
        Some(saturated(research_time(provider, bounds.sandbox_timeout_ms, bounds.max_sources, bounds.max_workers)))
    } else {
        provider_timeout(profiles, actions, bounds.cleanup_reserve_ms, action)
    }
}

/// The times of actions: each provider action as long as the slowest profile asks, and a research run
/// as long as all that it contains. `actions` holds the generation action of each profile.
pub fn action_timeouts(
    profiles: &Vec<Entry<ProviderProfileConfig>>,
    actions: &Vec<String>,
    bounds: TimeoutBounds,
) -> (list: Vec<Entry<u64>>)
    requires
        profiles@.len() == actions@.len(),
    ensures
        forall|action: Seq<char>|
            #[trigger] value_of(list@, action) == action_timeout(profiles@, actions@, bounds, action),
        ascending_keys(list@),
{
    let mut list: Vec<Entry<u64>> = Vec::new();
    let mut i: usize = 0;
    while i < profiles.len()
        invariant
            i <= profiles@.len(),
            profiles@.len() == actions@.len(),
            ascending_keys(list@),
            forall|a: Seq<char>|
                #[trigger] value_of(list@, a) == provider_timeout(
                    profiles@.take(i as int),
                    actions@.take(i as int),
                    bounds.cleanup_reserve_ms,
                    a,
                ),
            largest(list@) == slowest_provider(profiles@.take(i as int), bounds.cleanup_reserve_ms),
        decreases profiles@.len() - i,
    {
        let ghost before = list@;
        let profile = &profiles[i].value;
        let transport: u64 = profile.effective_timeout_ms();
        let ceiling: u64 = profile.effective_generation_timeout_ms();
        let generation: u64 = match ceiling.checked_add(bounds.cleanup_reserve_ms) {
            Some(sum) => sum,
            None => u64::MAX,
        };
        raise_timeout(&mut list, actions[i].as_str(), generation);
        let ghost middle = list@;
        raise_timeout(&mut list, "provider.models", transport);
        proof {
            let p = profiles@.take(i + 1);
            let n = actions@.take(i + 1);
            assert(p.drop_last() =~= profiles@.take(i as int));
            assert(n.drop_last() =~= actions@.take(i as int));
            assert(generation == saturated(
                profile.generation_timeout_in_force() as nat + bounds.cleanup_reserve_ms as nat,
            ));
            assert forall|a: Seq<char>| #[trigger] value_of(list@, a) == provider_timeout(
                p,
                n,
                bounds.cleanup_reserve_ms,
                a,
            ) by {
                assert(value_of(middle, a) == if a == actions@[i as int]@ {
                    larger_optional(value_of(before, a), Some(generation))
                } else {
                    value_of(before, a)
                });
            }
        }
        i = i + 1;
    }
    proof {
        assert(profiles@.take(i as int) =~= profiles@);
        assert(actions@.take(i as int) =~= actions@);
    }
    let provider: u64 = match largest_value(&list) {
        Some(timeout) => timeout,
        None => bounds.sandbox_timeout_ms,
    };
    let research: u64 = research_run_timeout_ms(
        provider,
        bounds.sandbox_timeout_ms,
        bounds.max_sources,
        bounds.max_workers,
    );
    put(&mut list, "research.run".to_owned(), research);
    list
}

/// What the host answered for a path: its canonical form, or why there is none.
pub type CanonicalPath = Result<String, String>;

/// A grant for each canonical root with the mode it is configured with, or the first failure.
pub open spec fn canonical_grants(grants: Seq<FilesystemGrant>, roots: Seq<CanonicalPath>) -> Result<
    Seq<GrantView>,
    Seq<char>,
>
    decreases grants.len(),
{
    if grants.len() == 0 {
        Ok(Seq::empty())
    } else {
        match canonical_grants(grants.drop_last(), roots.drop_last()) {
            Err(text) => Err(text),
            Ok(before) => match roots.last() {
                Err(text) => Err(text@),
                Ok(root) => Ok(before.push(GrantView { root: root@, mode: grants.last().mode@ })),
            },
        }
    }
}

/// An execute grant for each executable: as configured inside an image, else by its canonical path.
pub open spec fn execute_grants(executables: Seq<String>, paths: Seq<CanonicalPath>, oci: bool) -> Result<
    Seq<GrantView>,
    Seq<char>,
>
    decreases executables.len(),
{
    if executables.len() == 0 {
        Ok(Seq::empty())
    } else {
        match execute_grants(executables.drop_last(), paths.drop_last(), oci) {
            Err(text) => Err(text),
            Ok(before) => if oci {
                Ok(before.push(GrantView { root: executables.last()@, mode: "execute"@ }))
            } else {
                match paths.last() {
                    Err(text) => Err(text@),
                    Ok(path) => Ok(before.push(GrantView { root: path@, mode: "execute"@ })),
                }
            },
        }
    }
}

/// The first part, then the second, or the first failure.
pub open spec fn then_grants(
    first: Result<Seq<GrantView>, Seq<char>>,
    second: Result<Seq<GrantView>, Seq<char>>,
) -> Result<
    Seq<GrantView>,
    Seq<char>,
> {
    match (first, second) {
        (Err(text), _) => Err(text),
        (_, Err(text)) => Err(text),
        (Ok(a), Ok(b)) => Ok(a + b),
    }
}

/// `result` is the grants, or an I/O failure with the text.
pub open spec fn gives_grants(result: Result<Vec<FilesystemGrant>, RuntimeError>, expected: Result<
    Seq<GrantView>,
    Seq<char>,
>) -> bool {
    match expected {
        Ok(grants) => result matches Ok(list) && grant_views(list@) == grants,
        Err(text) => result matches Err(RuntimeError::Io(message)) && message@ == text,
    }
}

proof fn canonical_failure_stays(grants: Seq<FilesystemGrant>, roots: Seq<CanonicalPath>, at: int)
    requires
        0 <= at <= grants.len(),
        grants.len() == roots.len(),
        canonical_grants(grants.take(at), roots.take(at)) is Err,
    ensures
        canonical_grants(grants, roots) == canonical_grants(grants.take(at), roots.take(at)),
    decreases grants.len(),
{
    if at == grants.len() {
        assert(grants.take(at) =~= grants);
        assert(roots.take(at) =~= roots);
    } else {
        assert(grants.drop_last().take(at) =~= grants.take(at));
        assert(roots.drop_last().take(at) =~= roots.take(at));
        canonical_failure_stays(grants.drop_last(), roots.drop_last(), at);
    }
}

proof fn execute_failure_stays(executables: Seq<String>, paths: Seq<CanonicalPath>, oci: bool, at: int)
    requires
        0 <= at <= executables.len(),
        executables.len() == paths.len(),
        execute_grants(executables.take(at), paths.take(at), oci) is Err,
    ensures
        execute_grants(executables, paths, oci) == execute_grants(executables.take(at), paths.take(at), oci),
    decreases executables.len(),
{
    if at == executables.len() {
        assert(executables.take(at) =~= executables);
        assert(paths.take(at) =~= paths);
    } else {
        assert(executables.drop_last().take(at) =~= executables.take(at));
        assert(paths.drop_last().take(at) =~= paths.take(at));
        execute_failure_stays(executables.drop_last(), paths.drop_last(), oci, at);
    }
}

/// The filesystem roots of built-in policy: the configured grants by their canonical roots, then the
/// executables. `roots` and `paths` hold what the host answered for each, in order.
pub fn policy_roots(sandbox: &SandboxConfig, roots: &Vec<CanonicalPath>, paths: &Vec<CanonicalPath>) -> (result: Result<
    Vec<FilesystemGrant>,
    RuntimeError,
>)
    requires
        roots@.len() == sandbox.filesystem@.len(),
        paths@.len() == sandbox.executables@.len(),
    ensures
        gives_grants(
            result,
            then_grants(
                canonical_grants(sandbox.filesystem@, roots@),
                execute_grants(sandbox.executables@, paths@, sandbox.backend@ == "oci"@),
            ),
        ),
{
    let mut list: Vec<FilesystemGrant> = Vec::new();
    let mut i: usize = 0;
    proof {
        assert(grant_views(list@) =~= Seq::<GrantView>::empty());
    }
    while i < sandbox.filesystem.len()
        invariant
            i <= sandbox.filesystem@.len(),
            roots@.len() == sandbox.filesystem@.len(),
            canonical_grants(sandbox.filesystem@.take(i as int), roots@.take(i as int)) == Ok::<
                Seq<GrantView>,
                Seq<char>,
            >(grant_views(list@)),
        decreases sandbox.filesystem@.len() - i,
    {
        proof {
            assert(sandbox.filesystem@.take(i + 1).drop_last() =~= sandbox.filesystem@.take(i as int));
            assert(roots@.take(i + 1).drop_last() =~= roots@.take(i as int));
        }
        let ghost before = grant_views(list@);
        match &roots[i] {
            Err(text) => {
                proof {
                    canonical_failure_stays(sandbox.filesystem@, roots@, i + 1);
                }
                return Err(RuntimeError::Io(text.clone()));
            },
            Ok(root) => {
                list.push(grant(root.as_str(), sandbox.filesystem[i].mode.as_str()));
                proof {
                    assert(grant_views(list@) =~= before.push(
                        GrantView { root: root@, mode: sandbox.filesystem@[i as int].mode@ },
                    ));
                }
            },
        }
        i = i + 1;
    }
    proof {
        assert(sandbox.filesystem@.take(i as int) =~= sandbox.filesystem@);
        assert(roots@.take(i as int) =~= roots@);
    }
    let ghost configured = grant_views(list@);
    let oci: bool = same_text(sandbox.backend.as_str(), "oci");
    let mut k: usize = 0;
    proof {
        assert(grant_views(list@) =~= configured + Seq::<GrantView>::empty());
    }
    let ghost mut executed = Seq::<GrantView>::empty();
    while k < sandbox.executables.len()
        invariant
            k <= sandbox.executables@.len(),
            paths@.len() == sandbox.executables@.len(),
            oci == (sandbox.backend@ == "oci"@),
            canonical_grants(sandbox.filesystem@, roots@) == Ok::<Seq<GrantView>, Seq<char>>(configured),
            execute_grants(sandbox.executables@.take(k as int), paths@.take(k as int), oci) == Ok::<
                Seq<GrantView>,
                Seq<char>,
            >(executed),
            grant_views(list@) == configured + executed,
        decreases sandbox.executables@.len() - k,
    {
        proof {
            assert(sandbox.executables@.take(k + 1).drop_last() =~= sandbox.executables@.take(k as int));
            assert(paths@.take(k + 1).drop_last() =~= paths@.take(k as int));
        }
        let ghost before = grant_views(list@);
        if oci {
            list.push(grant(sandbox.executables[k].as_str(), "execute"));
            proof {
                let shown = GrantView { root: sandbox.executables@[k as int]@, mode: "execute"@ };
                assert(grant_views(list@) =~= before.push(shown));
                executed = executed.push(shown);
                assert(grant_views(list@) =~= configured + executed);
            }
        } else {
            match &paths[k] {
                Err(text) => {
                    proof {
                        execute_failure_stays(sandbox.executables@, paths@, oci, k + 1);
                    }
                    return Err(RuntimeError::Io(text.clone()));
                },
                Ok(path) => {
                    list.push(grant(path.as_str(), "execute"));
                    proof {
                        let shown = GrantView { root: path@, mode: "execute"@ };
                        assert(grant_views(list@) =~= before.push(shown));
                        executed = executed.push(shown);
                        assert(grant_views(list@) =~= configured + executed);
                    }
                },
            }
        }
        k = k + 1;
    }
    proof {
        assert(sandbox.executables@.take(k as int) =~= sandbox.executables@);
        assert(paths@.take(k as int) =~= paths@);
    }
    Ok(list)
}

/// Restrictions in order; one of reading files also restricts reading run inputs.
pub open spec fn with_run_input(list: Seq<RestrictionView>, run_input_action: Seq<char>) -> Seq<RestrictionView>
    decreases list.len(),
{
    if list.len() == 0 {
        list
    } else {
        let before = with_run_input(list.drop_last(), run_input_action);
        if list.last().action == "filesystem.read"@ {
            before.push(list.last()).push(RestrictionView { action: run_input_action, ..list.last() })
        } else {
            before.push(list.last())
        }
    }
}

/// A copy of a restriction for another action.
pub fn restriction_for(restriction: &ActionRestriction, action: &str) -> (copy: ActionRestriction)
    ensures
        copy@ == (RestrictionView { action: action@, ..restriction@ }),
{
    let mut filesystem: Vec<FilesystemGrant> = Vec::new();
    extend_grants(&mut filesystem, &restriction.filesystem);
    proof {
        assert(filesystem@ =~= restriction.filesystem@);
    }
    ActionRestriction {
        action: action.to_owned(),
        filesystem,
        allowed_environment: clone_texts(&restriction.allowed_environment),
        network_destinations: clone_texts(&restriction.network_destinations),
    }
}

/// The restrictions of plugin actions; one of reading files also restricts reading run inputs.
pub fn plugin_restrictions(list: &Vec<ActionRestriction>, run_input_action: &str) -> (result: Vec<ActionRestriction>)
    ensures
        restriction_views(result@) == with_run_input(restriction_views(list@), run_input_action@),
{
    let mut result: Vec<ActionRestriction> = Vec::new();
    let ghost all = restriction_views(list@);
    let mut i: usize = 0;
    proof {
        assert(restriction_views(result@) =~= with_run_input(all.take(0), run_input_action@));
    }
    while i < list.len()
        invariant
            i <= list@.len(),
            all == restriction_views(list@),
            restriction_views(result@) == with_run_input(all.take(i as int), run_input_action@),
        decreases list@.len() - i,
    {
        proof {
            assert(all.take(i + 1).drop_last() =~= all.take(i as int));
            assert(all[i as int] == list@[i as int]@);
        }
        let ghost before = restriction_views(result@);
        result.push(restriction_for(&list[i], list[i].action.as_str()));
        proof {
            assert(restriction_views(result@) =~= before.push(all[i as int]));
        }
        if same_text(list[i].action.as_str(), "filesystem.read") {
            result.push(restriction_for(&list[i], run_input_action));
            proof {
                assert(restriction_views(result@) =~= before.push(all[i as int]).push(
                    RestrictionView { action: run_input_action@, ..all[i as int] },
                ));
            }
        }
        i = i + 1;
    }
    proof {
        assert(all.take(i as int) =~= all);
    }
    result
}

/// Whatever restricts reading files restricts reading run inputs in the same way.
pub proof fn run_inputs_are_restricted_like_files(
    list: Seq<RestrictionView>,
    run_input_action: Seq<char>,
    restriction: RestrictionView,
)
    requires
        list.contains(restriction),
        restriction.action == "filesystem.read"@,
    ensures
        with_run_input(list, run_input_action).contains(RestrictionView { action: run_input_action, ..restriction }),
    decreases list.len(),
{
    let copy = RestrictionView { action: run_input_action, ..restriction };
    let all = with_run_input(list, run_input_action);
    if list.last() == restriction {
        assert(all.last() == copy);
        assert(all[all.len() - 1] == copy);
    } else {
        let k = choose|k: int| 0 <= k < list.len() && list[k] == restriction;
        assert(list.drop_last()[k] == restriction);
        run_inputs_are_restricted_like_files(list.drop_last(), run_input_action, restriction);
        let before = with_run_input(list.drop_last(), run_input_action);
        let j = choose|j: int| 0 <= j < before.len() && before[j] == copy;
        assert(all[j] == copy);
    }
}

/// A registry's own origin, its token origins and its redirect origins are all its origins, and a further
/// registry takes none away.
pub proof fn registries_reach_their_own_origins(
    list: Seq<Entry<PluginRegistryProfile>>,
    entry: Entry<PluginRegistryProfile>,
    origin: Seq<char>,
)
    ensures
        registry_origin(list.push(entry), entry.value.origin@),
        views(entry.value.token_origins@).contains(origin) ==> registry_origin(list.push(entry), origin),
        views(entry.value.blob_redirect_origins@).contains(origin) ==> registry_origin(list.push(entry), origin),
        registry_origin(list, origin) ==> registry_origin(list.push(entry), origin),
        !registry_origin(Seq::empty(), origin),
        registry_origin(list.push(entry), origin) ==> registry_origin(list, origin) || entry.value.origin@ == origin
            || views(entry.value.token_origins@).contains(origin) || views(
            entry.value.blob_redirect_origins@,
        ).contains(origin),
{
    let all = list.push(entry);
    assert(all[list.len() as int] == entry);
    if registry_origin(list, origin) {
        let i = choose|i: int|
            0 <= i < list.len() && ((#[trigger] list[i]).value.origin@ == origin || views(
                list[i].value.token_origins@,
            ).contains(origin) || views(list[i].value.blob_redirect_origins@).contains(origin));
        assert(all[i] == list[i]);
    }
    if registry_origin(all, origin) {
        let i = choose|i: int|
            0 <= i < all.len() && ((#[trigger] all[i]).value.origin@ == origin || views(
                all[i].value.token_origins@,
            ).contains(origin) || views(all[i].value.blob_redirect_origins@).contains(origin));
        if i < list.len() {
            assert(all[i] == list[i]);
        }
    }
}

/// Every certificate file of every registry may be read in a transfer.
pub proof fn every_certificate_is_listed(
    list: Seq<Entry<PluginRegistryProfile>>,
    at: int,
    file: Seq<char>,
)
    requires
        0 <= at < list.len(),
        bundle_files(list[at].value).contains(file),
    ensures
        all_bundle_files(list).contains(file),
    decreases list.len(),
{
    let front = all_bundle_files(list.drop_last());
    let last = bundle_files(list.last().value);
    if at < list.len() - 1 {
        every_certificate_is_listed(list.drop_last(), at, file);
        let i = choose|i: int| 0 <= i < front.len() && front[i] == file;
        assert((front + last)[i] == file);
    } else {
        let i = choose|i: int| 0 <= i < last.len() && last[i] == file;
        assert((front + last)[front.len() + i] == file);
    }
}

/// The certificate files of a registry are its own, its tokens' and its redirects'.
pub proof fn certificate_files_are_the_configured_ones(registry: PluginRegistryProfile, at: int)
    ensures
        registry.ca_bundle_path matches Some(path) ==> bundle_files(registry).contains(path@),
        0 <= at < registry.token_ca_bundle_paths@.len() ==> bundle_files(registry).contains(
            registry.token_ca_bundle_paths@[at].value@,
        ),
        0 <= at < registry.blob_redirect_ca_bundle_paths@.len() ==> bundle_files(registry).contains(
            registry.blob_redirect_ca_bundle_paths@[at].value@,
        ),
{
    let all = bundle_files(registry);
    let own: int = if registry.ca_bundle_path is Some {
        1
    } else {
        0
    };
    if registry.ca_bundle_path is Some {
        assert(all[0] == registry.ca_bundle_path->0@);
    }
    if 0 <= at < registry.token_ca_bundle_paths@.len() {
        assert(all[own + at] == registry.token_ca_bundle_paths@[at].value@);
    }
    if 0 <= at < registry.blob_redirect_ca_bundle_paths@.len() {
        assert(all[own + registry.token_ca_bundle_paths@.len() + at]
            == registry.blob_redirect_ca_bundle_paths@[at].value@);
    }
}

/// Pulling may write the workspace and pushing only read it; both read the certificates, reach the
/// registries' destinations and see no variable. The credential helper reaches nothing, and runs the
/// configured helpers alone.
pub proof fn transfers_are_restricted(
    workspace: Seq<char>,
    registries: Seq<Entry<PluginRegistryProfile>>,
    destinations: Seq<Seq<char>>,
)
    ensures
        ({
            let list = transfer_restrictions(workspace, registries, destinations);
            &&& list.len() == 3
            &&& list[0].action == "plugin.pull"@ && list[1].action == "plugin.push"@ && list[2].action
                == "plugin.registry.credential_helper"@
            &&& list[0].filesystem[0] == (GrantView { root: workspace, mode: "write"@ })
            &&& list[1].filesystem[0] == (GrantView { root: workspace, mode: "read"@ })
            &&& list[2].filesystem[0] == (GrantView { root: workspace, mode: "read"@ })
            &&& list[0].filesystem.len() == all_bundle_files(registries).len() + 1
            &&& list[1].filesystem.len() == all_bundle_files(registries).len() + 1
            &&& forall|i: int|
                0 < i < list[0].filesystem.len() ==> (#[trigger] list[0].filesystem[i]).mode == "read"@
                    && list[0].filesystem[i].root == all_bundle_files(registries)[i - 1]
            &&& forall|i: int|
                0 < i < list[1].filesystem.len() ==> (#[trigger] list[1].filesystem[i]).mode == "read"@
            &&& list[0].network_destinations == destinations && list[1].network_destinations == destinations
            &&& list[2].network_destinations.len() == 0
            &&& list[0].allowed_environment.len() == 0 && list[1].allowed_environment.len() == 0
                && list[2].allowed_environment.len() == 0
        }),
{
}

/// Docker's helpers may be run and nothing else; other authentication runs nothing.
pub proof fn only_configured_helpers_are_run(auth: RegistryAuthConfig, at: int)
    ensures
        auth is Other ==> helper_executes(auth).len() == 0,
        auth matches RegistryAuthConfig::Docker { helper_executables, .. } ==> {
            &&& helper_executes(auth).len() == helper_executables@.len()
            &&& 0 <= at < helper_executables@.len() ==> helper_executes(auth)[at] == (GrantView {
                root: helper_executables@[at].value@,
                mode: "execute"@,
            })
        },
{
}

/// The larger of two deadlines is one of them and no smaller than either; where one is missing the
/// other holds.
pub proof fn the_larger_deadline_holds(a: u64, b: u64, other: Option<u64>)
    ensures
        larger(a, b) >= a && larger(a, b) >= b,
        larger(a, b) == a || larger(a, b) == b,
        larger_optional(None, other) == other,
        larger_optional(other, None) == other,
        larger_optional(Some(a), Some(b)) == Some(larger(a, b)),
{
}

/// A generation waits as long as its provider's profile says and the reserve beside, and a listing of
/// models as long as a request; no other action of the provider has a deadline of its own.
pub proof fn providers_are_waited_for(
    profile: ProviderProfileConfig,
    generation_action: Seq<char>,
    reserve: u64,
    action: Seq<char>,
)
    ensures
        action == generation_action ==> requested_timeout(profile, generation_action, reserve, action) is Some
            && requested_timeout(profile, generation_action, reserve, action)->0
            >= profile.generation_timeout_in_force(),
        action == "provider.models"@ ==> requested_timeout(profile, generation_action, reserve, action) is Some
            && requested_timeout(profile, generation_action, reserve, action)->0 >= profile.timeout_in_force(),
        action == generation_action && action != "provider.models"@ && profile.generation_timeout_in_force() + reserve
            <= u64::MAX ==> requested_timeout(profile, generation_action, reserve, action)->0
            == profile.generation_timeout_in_force() + reserve,
        action != generation_action && action != "provider.models"@ ==> requested_timeout(
            profile,
            generation_action,
            reserve,
            action,
        ) is None,
        action == "provider.models"@ && action != generation_action ==> requested_timeout(
            profile,
            generation_action,
            reserve,
            action,
        ) == Some(profile.timeout_in_force()),
{
}

/// An action that several providers share waits for the slowest of them.
pub proof fn the_slowest_provider_is_waited_for(
    profiles: Seq<Entry<ProviderProfileConfig>>,
    actions: Seq<String>,
    reserve: u64,
    action: Seq<char>,
    at: int,
)
    requires
        profiles.len() == actions.len(),
        0 <= at < profiles.len(),
        requested_timeout(profiles[at].value, actions[at]@, reserve, action) is Some,
    ensures
        provider_timeout(profiles, actions, reserve, action) is Some,
        provider_timeout(profiles, actions, reserve, action)->0 >= requested_timeout(
            profiles[at].value,
            actions[at]@,
            reserve,
            action,
        )->0,
    decreases profiles.len(),
{
    if at < profiles.len() - 1 {
        the_slowest_provider_is_waited_for(profiles.drop_last(), actions.drop_last(), reserve, action, at);
    }
}

/// Research waits for the slowest of all providers, whatever they are asked for.
pub proof fn research_waits_for_every_provider(profiles: Seq<Entry<ProviderProfileConfig>>, reserve: u64, at: int)
    requires
        0 <= at < profiles.len(),
    ensures
        slowest_provider(profiles, reserve) is Some,
        slowest_provider(profiles, reserve)->0 >= profiles[at].value.generation_timeout_in_force(),
        slowest_provider(profiles, reserve)->0 >= profiles[at].value.timeout_in_force(),
    decreases profiles.len(),
{
    if at < profiles.len() - 1 {
        research_waits_for_every_provider(profiles.drop_last(), reserve, at);
    }
}

/// The largest value of a list is none of an empty one, and otherwise no smaller than any.
pub proof fn no_value_is_larger_than_the_largest(list: Seq<Entry<u64>>, at: int)
    requires
        0 <= at < list.len(),
    ensures
        largest(list) is Some && largest(list)->0 >= list[at].value,
    decreases list.len(),
{
    if at < list.len() - 1 {
        no_value_is_larger_than_the_largest(list.drop_last(), at);
    }
}

/// Grants keep their modes on the real roots, one for one and in their order, and fail where a root
/// could not be resolved.
pub proof fn grants_keep_their_modes(grants: Seq<FilesystemGrant>, roots: Seq<CanonicalPath>, at: int)
    requires
        grants.len() == roots.len(),
    ensures
        canonical_grants(grants, roots) is Ok <==> forall|i: int| 0 <= i < roots.len() ==> (#[trigger] roots[i]) is Ok,
        canonical_grants(grants, roots) matches Ok(list) ==> {
            &&& list.len() == grants.len()
            &&& 0 <= at < grants.len() ==> list[at].mode == grants[at].mode@ && list[at].root == roots[at]->Ok_0@
        },
    decreases grants.len(),
{
    if grants.len() > 0 {
        let front = roots.drop_last();
        grants_keep_their_modes(grants.drop_last(), front, at);
        if canonical_grants(grants, roots) is Ok {
            assert forall|i: int| 0 <= i < roots.len() implies (#[trigger] roots[i]) is Ok by {
                if i < front.len() {
                    assert(front[i] == roots[i]);
                }
            }
        }
        if forall|i: int| 0 <= i < roots.len() ==> (#[trigger] roots[i]) is Ok {
            assert forall|i: int| 0 <= i < front.len() implies (#[trigger] front[i]) is Ok by {
                assert(front[i] == roots[i]);
            }
            assert(roots[roots.len() - 1] is Ok);
        }
    }
}

/// Executables are granted to be run: by their real paths, and under a container by the paths that are
/// configured, which need not exist on this machine.
pub proof fn executables_are_granted_to_run(executables: Seq<String>, paths: Seq<CanonicalPath>, oci: bool, at: int)
    requires
        executables.len() == paths.len(),
    ensures
        oci ==> execute_grants(executables, paths, oci) is Ok,
        execute_grants(executables, paths, oci) matches Ok(list) ==> {
            &&& list.len() == executables.len()
            &&& 0 <= at < executables.len() ==> list[at].mode == "execute"@ && list[at].root == if oci {
                executables[at]@
            } else {
                paths[at]->Ok_0@
            }
        },
    decreases executables.len(),
{
    if executables.len() > 0 {
        executables_are_granted_to_run(executables.drop_last(), paths.drop_last(), oci, at);
    }
}

/// Grants follow one another, and fail where either failed.
pub proof fn grants_follow_one_another(
    first: Result<Seq<GrantView>, Seq<char>>,
    second: Result<Seq<GrantView>, Seq<char>>,
)
    ensures
        then_grants(first, second) is Ok <==> first is Ok && second is Ok,
        first is Ok && second is Ok ==> then_grants(first, second)->Ok_0 == first->Ok_0 + second->Ok_0,
{
}

/// Every restriction stays in force, and only the one on reading files is given to run inputs as well.
pub proof fn restrictions_stay_in_force(first: Seq<RestrictionView>, one: RestrictionView, run_input_action: Seq<char>)
    ensures
        one.action != "filesystem.read"@ ==> with_run_input(first.push(one), run_input_action) == with_run_input(
            first,
            run_input_action,
        ).push(one),
        one.action == "filesystem.read"@ ==> with_run_input(first.push(one), run_input_action) == with_run_input(
            first,
            run_input_action,
        ).push(one).push(RestrictionView { action: run_input_action, ..one }),
        with_run_input(Seq::<RestrictionView>::empty(), run_input_action).len() == 0,
{
    assert(first.push(one).drop_last() =~= first);
}

/// Research is waited for as long as its slowest provider takes, or as the sandbox allows where there is
/// none; every other action as long as its own provider asks for.
pub proof fn actions_are_waited_for(
    profiles: Seq<Entry<ProviderProfileConfig>>,
    actions: Seq<String>,
    bounds: TimeoutBounds,
    action: Seq<char>,
)
    ensures
        action != "research.run"@ ==> action_timeout(profiles, actions, bounds, action) == provider_timeout(
            profiles,
            actions,
            bounds.cleanup_reserve_ms,
            action,
        ),
        action == "research.run"@ && slowest_provider(profiles, bounds.cleanup_reserve_ms) is Some ==> action_timeout(
            profiles,
            actions,
            bounds,
            action,
        ) == Some(
            saturated(
                research_time(
                    slowest_provider(profiles, bounds.cleanup_reserve_ms)->0,
                    bounds.sandbox_timeout_ms,
                    bounds.max_sources,
                    bounds.max_workers,
                ),
            ),
        ),
        action == "research.run"@ && profiles.len() == 0 ==> action_timeout(profiles, actions, bounds, action) == Some(
            saturated(
                research_time(
                    bounds.sandbox_timeout_ms,
                    bounds.sandbox_timeout_ms,
                    bounds.max_sources,
                    bounds.max_workers,
                ),
            ),
        ),
{
}

/// The roots of a policy are the expected grants, or the failure that stood in their way.
pub proof fn roots_are_the_expected_grants(result: Result<Vec<FilesystemGrant>, RuntimeError>, expected: Result<
    Seq<GrantView>,
    Seq<char>,
>)
    requires
        gives_grants(result, expected),
    ensures
        result is Ok <==> expected is Ok,
        result matches Ok(list) ==> grant_views(list@) == expected->Ok_0,
        result matches Err(error) ==> error is Io,
{
}

} // verus!
