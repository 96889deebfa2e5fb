//! Operator management of plugins: which requests are carried out, where, and on which paths.

use crate::config::{FilesystemGrant, Platform, PluginTrustProfile, PluginsConfig, ResourceAuthority};
use crate::effects::{execution_failure, fails, ExecutionError};
use crate::entries::{contains_key, has_key, lookup, value_of};
use crate::error::{config_error, is_config_error, RuntimeError};
use crate::paths::{
    absolute, component_list, component_views, components, file_name, is_absolute, join_path, joined_path, parent_path,
    path_file_name, path_parent, starts_with_path, within, Component, ComponentView,
};
use crate::text::{characters, concat2, concat3, has_prefix, optional_view, same_text, strip_prefix, views};
use vstd::prelude::*;
use vstd::string::*;

verus! {

/// Where a plugin is installed from.
#[derive(Debug)]
pub enum PluginInstallSource {
    Directory { path: String },
    Layout { path: String, digest: Option<String> },
    Archive { path: String, digest: Option<String> },
    Reference { registry: String, reference: String },
}

/// What an operator asks of the plugins.
#[derive(Debug)]
pub enum PluginManagementRequest {
    Inventory,
    Show { name: String },
    SkillRead { skill_id: String, digest: String },
    ResourceList { skill_id: String, digest: String },
    ResourceRead { skill_id: String, digest: String, path: String },
    VerifyInstalled { name: String, digest: String },
    Validate { path: String },
    Verify { path: String, digest: Option<String>, trust_profile: String },
    Install { source: PluginInstallSource, trust_profile: String },
    Enable { name: String, digest: String, allow_untrusted: bool },
    Disable { name: String },
    Uninstall { name: String, digest: String, purge_data: bool },
    Gc,
    Package { directory: String, output: String },
    Export { name: String, output: String },
    Pull { registry: String, reference: String, output: String },
    Push { registry: String, reference: String, layout: String },
    Update { name: String, registry: String, reference: String },
}

/// How a request is carried out.
#[derive(Debug)]
pub enum ManagementRoute {
    /// As one effect on this machine, its paths made absolute.
    Local(PluginManagementRequest),
    Pull { registry: String, reference: String, output: String },
    Push { registry: String, reference: String, layout: String },
    /// By installing from a registry, as an update of `name` where it is given.
    InstallReference { registry: String, reference: String, name: Option<String> },
}

/// Why a request is not carried out, if so.
pub open spec fn route_refusal(operation: PluginManagementRequest, enforced: Result<String, RuntimeError>) -> Option<
    Result<Seq<char>, RuntimeError>,
> {
    match operation {
        PluginManagementRequest::Install {
            source: PluginInstallSource::Reference { registry, .. },
            trust_profile,
        } => match enforced {
            Err(error) => Some(Err(error)),
            Ok(profile) => if trust_profile@ != "default"@ && trust_profile@ != profile@ {
                Some(
                    Ok(
                        "Registry "@ + registry@ + " enforces trust profile "@ + profile@
                            + "; use that profile or explicitly reconfigure the registry. Offline trust overrides do not weaken registry policy."@,
                    ),
                )
            } else {
                None
            },
        },
        PluginManagementRequest::Update { name, .. } => if name@ == "colossus"@ {
            Some(Ok("colossus is bundled with Colossus; update the executable to change its version"@))
        } else {
            None
        },
        _ => None,
    }
}

/// The route is exactly the one of the request.
pub open spec fn routes(
    platform: Platform,
    route: ManagementRoute,
    operation: PluginManagementRequest,
    workspace: Seq<char>,
) -> bool {
    match operation {
        PluginManagementRequest::Validate { path } => route matches ManagementRoute::Local(
            PluginManagementRequest::Validate { path: kept },
        ) && kept@ == joined_path(platform, workspace, path@),
        PluginManagementRequest::Verify { path, digest, trust_profile } => route matches ManagementRoute::Local(
            PluginManagementRequest::Verify { path: kept, digest: d, trust_profile: t },
        ) && kept@ == joined_path(platform, workspace, path@) && d == digest && t == trust_profile,
        PluginManagementRequest::Install { source, trust_profile } => match source {
            PluginInstallSource::Directory { path } => route matches ManagementRoute::Local(
                PluginManagementRequest::Install {
                    source: PluginInstallSource::Directory { path: kept },
                    trust_profile: t,
                },
            ) && kept@ == joined_path(platform, workspace, path@) && t == trust_profile,
            PluginInstallSource::Layout { path, digest } => route matches ManagementRoute::Local(
                PluginManagementRequest::Install {
                    source: PluginInstallSource::Layout { path: kept, digest: d },
                    trust_profile: t,
                },
            ) && kept@ == joined_path(platform, workspace, path@) && d == digest && t == trust_profile,
            PluginInstallSource::Archive { path, digest } => route matches ManagementRoute::Local(
                PluginManagementRequest::Install {
                    source: PluginInstallSource::Archive { path: kept, digest: d },
                    trust_profile: t,
                },
            ) && kept@ == joined_path(platform, workspace, path@) && d == digest && t == trust_profile,
            PluginInstallSource::Reference { registry, reference } => route == (ManagementRoute::InstallReference {
                registry,
                reference,
                name: None,
            }),
        },
        PluginManagementRequest::Package { directory, output } => route matches ManagementRoute::Local(
            PluginManagementRequest::Package { directory: d, output: o },
        ) && d@ == joined_path(platform, workspace, directory@) && o@ == joined_path(platform, workspace, output@),
        PluginManagementRequest::Export { name, output } => route matches ManagementRoute::Local(
            PluginManagementRequest::Export { name: n, output: o },
        ) && n == name && o@ == joined_path(platform, workspace, output@),
        PluginManagementRequest::Pull { registry, reference, output } => route == (ManagementRoute::Pull {
            registry,
            reference,
            output,
        }),
        PluginManagementRequest::Push { registry, reference, layout } => route == (ManagementRoute::Push {
            registry,
            reference,
            layout,
        }),
        PluginManagementRequest::Update { name, registry, reference } => route == (ManagementRoute::InstallReference {
            registry,
            reference,
            name: Some(name),
        }),
        _ => route == ManagementRoute::Local(operation),
    }
}

/// How an operator's request is carried out. `enforced` is the trust profile that the registry of an
/// installation enforces.
pub fn manage_plugin(
    platform: Platform,
    operation: PluginManagementRequest,
    workspace: &str,
    enforced: &Result<String, RuntimeError>,
) -> (result: Result<
    ManagementRoute,
    RuntimeError,
>)
    ensures
        match route_refusal(operation, *enforced) {
            Some(Ok(text)) => is_config_error(result, text),
            Some(Err(error)) => result == Err::<ManagementRoute, RuntimeError>(error),
            None => result matches Ok(route) && routes(platform, route, operation, workspace@),
        },
{
    let local = match operation {
        PluginManagementRequest::Validate { path } => PluginManagementRequest::Validate {
            path: join_path(platform, workspace, path.as_str()),
        },
        PluginManagementRequest::Verify { path, digest, trust_profile } => PluginManagementRequest::Verify {
            path: join_path(platform, workspace, path.as_str()),
            digest,
            trust_profile,
        },
        PluginManagementRequest::Install { source, trust_profile } => {
            let source = match source {
                PluginInstallSource::Directory { path } => PluginInstallSource::Directory {
                    path: join_path(platform, workspace, path.as_str()),
                },
                PluginInstallSource::Layout { path, digest } => PluginInstallSource::Layout {
                    path: join_path(platform, workspace, path.as_str()),
                    digest,
                },
                PluginInstallSource::Archive { path, digest } => PluginInstallSource::Archive {
                    path: join_path(platform, workspace, path.as_str()),
                    digest,
                },
                PluginInstallSource::Reference { registry, reference } => {
                    match enforced {
                        Err(error) => {
                            return Err(error.clone());
                        },
                        Ok(profile) => {
                            if !same_text(trust_profile.as_str(), "default") && !same_text(
                                trust_profile.as_str(),
                                profile.as_str(),
                            ) {
                                let mut text = concat3("Registry ", registry.as_str(), " enforces trust profile ");
                                text.append(profile.as_str());
                                text.append(
                                    "; use that profile or explicitly reconfigure the registry. Offline trust overrides do not weaken registry policy.",
                                );
                                return config_error(text.as_str());
                            }
                        },
                    }
                    return Ok(ManagementRoute::InstallReference { registry, reference, name: None });
                },
            };
            PluginManagementRequest::Install { source, trust_profile }
        },
        PluginManagementRequest::Package { directory, output } => PluginManagementRequest::Package {
            directory: join_path(platform, workspace, directory.as_str()),
            output: join_path(platform, workspace, output.as_str()),
        },
        PluginManagementRequest::Export { name, output } => PluginManagementRequest::Export {
            name,
            output: join_path(platform, workspace, output.as_str()),
        },
        PluginManagementRequest::Pull { registry, reference, output } => {
            return Ok(ManagementRoute::Pull { registry, reference, output });
        },
        PluginManagementRequest::Push { registry, reference, layout } => {
            return Ok(ManagementRoute::Push { registry, reference, layout });
        },
        PluginManagementRequest::Update { name, registry, reference } => {
            if same_text(name.as_str(), "colossus") {
                return config_error(
                    "colossus is bundled with Colossus; update the executable to change its version",
                );
            }
            return Ok(ManagementRoute::InstallReference { registry, reference, name: Some(name) });
        },
        other => other,
    };
    Ok(ManagementRoute::Local(local))
}

/// A path that a request reads or writes.
#[derive(Debug)]
pub struct ManagedPath {
    pub path: String,
    pub write: bool,
}

/// Paths as characters.
pub open spec fn managed_views(list: Seq<ManagedPath>) -> Seq<(Seq<char>, bool)> {
    list.map_values(|item: ManagedPath| (item.path@, item.write))
}

/// The trust policy of an installed plugin.
#[derive(Debug)]
pub struct InstalledTrust {
    /// Whether the plugin came with the executable.
    pub bundled: bool,
    pub profile: Option<String>,
}

/// Files for reading.
pub open spec fn read_paths(files: Seq<Seq<char>>) -> Seq<(Seq<char>, bool)> {
    files.map_values(|file: Seq<char>| (file, false))
}

/// The files of a trust profile: its keys, then its trust root.
pub open spec fn profile_files(profile: PluginTrustProfile) -> Seq<Seq<char>> {
    match profile.trust_root_path {
        Some(path) => views(profile.public_keys@).push(path@),
        None => views(profile.public_keys@),
    }
}

/// The files of a trust profile by its name; none where there is no such profile.
pub open spec fn trust_files(config: PluginsConfig, name: Seq<char>) -> Seq<Seq<char>> {
    match value_of(config.trust_profiles@, name) {
        Some(profile) => profile_files(profile),
        None => Seq::empty(),
    }
}

/// The trust profile that an installed plugin is verified by: none for one that came with the
/// executable.
pub open spec fn installed_profile(trust: InstalledTrust) -> Option<Seq<char>> {
    if trust.bundled {
        None
    } else {
        match trust.profile {
            Some(name) => Some(name@),
            None => Some("default"@),
        }
    }
}

/// The paths that a request reads or writes, the files of its trust policy among them.
pub open spec fn paths_of(
    operation: PluginManagementRequest,
    config: PluginsConfig,
    installed: Option<InstalledTrust>,
) -> Seq<
    (Seq<char>, bool),
> {
    match operation {
        PluginManagementRequest::Validate { path } => seq![(path@, false)],
        PluginManagementRequest::Verify { path, trust_profile, .. } => seq![(path@, false)] + read_paths(
            trust_files(config, trust_profile@),
        ),
        PluginManagementRequest::Install { source, trust_profile } => match source {
            PluginInstallSource::Directory { path } => seq![(path@, false)] + read_paths(
                trust_files(config, trust_profile@),
            ),
            PluginInstallSource::Layout { path, .. } => seq![(path@, false)] + read_paths(
                trust_files(config, trust_profile@),
            ),
            PluginInstallSource::Archive { path, .. } => seq![(path@, false)] + read_paths(
                trust_files(config, trust_profile@),
            ),
            PluginInstallSource::Reference { .. } => Seq::empty(),
        },
        PluginManagementRequest::VerifyInstalled { .. } => match installed {
            Some(trust) => match installed_profile(trust) {
                Some(name) => read_paths(trust_files(config, name)),
                None => Seq::empty(),
            },
            None => Seq::empty(),
        },
        PluginManagementRequest::Package { directory, output } => seq![(directory@, false), (output@, true)],
        PluginManagementRequest::Export { output, .. } => seq![(output@, true)],
        PluginManagementRequest::Pull { output, .. } => seq![(output@, true)],
        PluginManagementRequest::Push { layout, .. } => seq![(layout@, false)],
        _ => Seq::empty(),
    }
}

fn push_path(list: &mut Vec<ManagedPath>, path: &String, write: bool)
    ensures
        managed_views(final(list)@) == managed_views(old(list)@).push((path@, write)),
{
    let ghost before = list@;
    list.push(ManagedPath { path: path.clone(), write });
    proof {
        assert(managed_views(list@) =~= managed_views(before).push((path@, write)));
    }
}

fn push_trust_files(list: &mut Vec<ManagedPath>, config: &PluginsConfig, name: &str)
    ensures
        managed_views(final(list)@) == managed_views(old(list)@) + read_paths(trust_files(*config, name@)),
{
    let ghost before = managed_views(list@);
    match lookup(&config.trust_profiles, name) {
        None => {
            proof {
                assert(before + read_paths(Seq::empty()) =~= before);
            }
        },
        Some(profile) => {
            let ghost files = views(profile.public_keys@);
            let mut i: usize = 0;
            proof {
                assert(before + read_paths(files.take(0)) =~= before);
            }
            while i < profile.public_keys.len()
                invariant
                    i <= profile.public_keys@.len(),
                    files == views(profile.public_keys@),
                    managed_views(list@) == before + read_paths(files.take(i as int)),
                decreases profile.public_keys@.len() - i,
            {
                push_path(list, &profile.public_keys[i], false);
                proof {
                    assert(before + read_paths(files.take(i + 1)) =~= (before + read_paths(files.take(i as int))).push(
                        (files[i as int], false),
                    ));
                }
                i = i + 1;
            }
            proof {
                assert(files.take(i as int) =~= files);
            }
            if let Some(path) = &profile.trust_root_path {
                push_path(list, path, false);
                proof {
                    assert(before + read_paths(files.push(path@)) =~= (before + read_paths(files)).push((path@, false)));
                }
            }
        },
    }
}

/// The paths that a request reads or writes, the files of its trust policy among them. `installed`
/// is the trust policy of the plugin that is to be verified.
pub fn management_paths(
    operation: &PluginManagementRequest,
    config: &PluginsConfig,
    installed: &Option<InstalledTrust>,
) -> (list: Vec<
    ManagedPath,
>)
    ensures
        managed_views(list@) == paths_of(*operation, *config, *installed),
{
    let mut list: Vec<ManagedPath> = Vec::new();
    proof {
        assert(managed_views(list@) =~= Seq::empty());
    }
    match operation {
        PluginManagementRequest::Validate { path } => {
            push_path(&mut list, path, false);
            proof {
                assert(managed_views(list@) =~= seq![(path@, false)]);
            }
        },
        PluginManagementRequest::Verify { path, trust_profile, .. } => {
            push_path(&mut list, path, false);
            proof {
                assert(managed_views(list@) =~= seq![(path@, false)]);
            }
            push_trust_files(&mut list, config, trust_profile.as_str());
        },
        PluginManagementRequest::Install { source, trust_profile } => match source {
            PluginInstallSource::Directory { path } | PluginInstallSource::Layout { path, .. }
            | PluginInstallSource::Archive { path, .. } => {
                push_path(&mut list, path, false);
                proof {
                    assert(managed_views(list@) =~= seq![(path@, false)]);
                }
                push_trust_files(&mut list, config, trust_profile.as_str());
            },
            PluginInstallSource::Reference { .. } => {},
        },
        PluginManagementRequest::VerifyInstalled { .. } => {
            if let Some(trust) = installed {
                if !trust.bundled {
                    match &trust.profile {
                        Some(name) => {
                            push_trust_files(&mut list, config, name.as_str());
                        },
                        None => {
                            push_trust_files(&mut list, config, "default");
                        },
                    }
                    proof {
                        let files = read_paths(trust_files(*config, installed_profile(*trust)->0));
                        assert(Seq::<(Seq<char>, bool)>::empty() + files =~= files);
                    }
                }
            }
        },
        PluginManagementRequest::Package { directory, output } => {
            push_path(&mut list, directory, false);
            push_path(&mut list, output, true);
            proof {
                assert(managed_views(list@) =~= seq![(directory@, false), (output@, true)]);
            }
        },
        PluginManagementRequest::Export { output, .. } | PluginManagementRequest::Pull { output, .. } => {
            push_path(&mut list, output, true);
            proof {
                assert(managed_views(list@) =~= seq![(output@, true)]);
            }
        },
        PluginManagementRequest::Push { layout, .. } => {
            push_path(&mut list, layout, false);
            proof {
                assert(managed_views(list@) =~= seq![(layout@, false)]);
            }
        },
        _ => {},
    }
    list
}

/// What a permit allows.
#[derive(Debug)]
pub struct Permit {
    pub authority: ResourceAuthority,
    pub filesystem: Vec<FilesystemGrant>,
    pub network_destinations: Vec<String>,
}

/// A grant lets a path be read, or written.
pub open spec fn admits(platform: Platform, grant: FilesystemGrant, path: Seq<char>, write: bool) -> bool {
    (grant.mode@ == "write"@ || (!write && grant.mode@ == "read"@)) && within(platform, path, grant.root@)
}

/// Some grant lets a path be read, or written.
pub open spec fn granted(platform: Platform, grants: Seq<FilesystemGrant>, path: Seq<char>, write: bool) -> bool {
    exists|i: int| 0 <= i < grants.len() && admits(platform, #[trigger] grants[i], path, write)
}

/// Whether some grant lets a path be read, or written.
pub fn is_granted(platform: Platform, grants: &Vec<FilesystemGrant>, path: &str, write: bool) -> (yes: bool)
    ensures
        yes == granted(platform, grants@, path@, write),
{
    let mut i: usize = 0;
    while i < grants.len()
        invariant
            i <= grants@.len(),
            forall|j: int| 0 <= j < i ==> !admits(platform, #[trigger] grants@[j], path@, write),
        decreases grants@.len() - i,
    {
        let item = &grants[i];
        if (same_text(item.mode.as_str(), "write") || (!write && same_text(item.mode.as_str(), "read")))
            && starts_with_path(platform, path, item.root.as_str()) {
            proof {
                assert(admits(platform, grants@[i as int], path@, write));
            }
            return true;
        }
        i = i + 1;
    }
    false
}

/// The path is absolute and no component of it leads upwards.
pub open spec fn normalized(platform: Platform, path: Seq<char>) -> bool {
    absolute(platform, path) && !components(platform, path).contains(ComponentView::Up)
}

/// What a path of a request resolves to, as the host found it.
#[derive(Debug)]
pub struct PathLookup {
    /// Whether there is anything at the path.
    pub exists: bool,
    /// The canonical path: of the parent where an output does not exist yet, else of the path.
    pub canonical: Result<String, String>,
}

/// The canonical path of a request's path, or the failure.
pub open spec fn managed_target(
    platform: Platform,
    path: Seq<char>,
    write: bool,
    lookup: PathLookup,
) -> Result<Seq<char>, Seq<char>> {
    if !normalized(platform, path) {
        Err("plugin management paths must be absolute and normalized"@)
    } else if write && !lookup.exists {
        if parent_path(platform, path) is None {
            Err("plugin output needs an existing parent"@)
        } else {
            match lookup.canonical {
                Err(text) => Err(text@),
                Ok(parent) => match file_name(platform, path) {
                    None => Err("invalid plugin output"@),
                    Some(name) => Ok(joined_path(platform, parent@, name)),
                },
            }
        }
    } else {
        match lookup.canonical {
            Err(text) => Err(text@),
            Ok(canonical) => Ok(canonical@),
        }
    }
}

fn leads_upwards(platform: Platform, path: &str) -> (yes: bool)
    ensures
        yes == components(platform, path@).contains(ComponentView::Up),
{
    let list = component_list(platform, path);
    let ghost all = components(platform, path@);
    let mut i: usize = 0;
    while i < list.len()
        invariant
            i <= list@.len(),
            component_views(list@) == all,
            all == components(platform, path@),
            forall|j: int| 0 <= j < i ==> #[trigger] all[j] != ComponentView::Up,
        decreases list@.len() - i,
    {
        proof {
            assert(all[i as int] == list@[i as int]@);
        }
        if let Component::Up = &list[i] {
            return true;
        }
        i = i + 1;
    }
    false
}

/// Whether a permit lets a request use a path.
pub fn enforce_management_path(
    platform: Platform,
    path: &str,
    write: bool,
    lookup: &PathLookup,
    permit: &Permit,
) -> (result: Result<
    (),
    ExecutionError,
>)
    ensures
        match managed_target(platform, path@, write, *lookup) {
            Err(text) => fails(result, text),
            Ok(canonical) => if permit.authority == ResourceAuthority::Ambient || granted(
                platform,
                permit.filesystem@,
                canonical,
                write,
            ) {
                result is Ok
            } else {
                fails(result, "plugin path is outside the permit's authorized filesystem roots"@)
            },
        },
{
    if !is_absolute(platform, path) || leads_upwards(platform, path) {
        return execution_failure("plugin management paths must be absolute and normalized");
    }
    let canonical = if write && !lookup.exists {
        if path_parent(platform, path).is_none() {
            return execution_failure("plugin output needs an existing parent");
        }
        match &lookup.canonical {
            Err(text) => {
                return execution_failure(text.as_str());
            },
            Ok(parent) => match path_file_name(platform, path) {
                None => {
                    return execution_failure("invalid plugin output");
                },
                Some(name) => join_path(platform, parent.as_str(), name.as_str()),
            },
        }
    } else {
        match &lookup.canonical {
            Err(text) => {
                return execution_failure(text.as_str());
            },
            Ok(canonical) => canonical.clone(),
        }
    };
    if permit.authority != ResourceAuthority::Ambient && !is_granted(
        platform,
        &permit.filesystem,
        canonical.as_str(),
        write,
    ) {
        return execution_failure("plugin path is outside the permit's authorized filesystem roots");
    }
    Ok(())
}

/// Whether a request is the operator's own and the one that was authorized.
pub fn accept_management_request(
    action: &str,
    resource: &str,
    by_user: bool,
    operation_action: &str,
    operation_resource: &str,
) -> (result: Result<(), ExecutionError>)
    ensures
        if action@ == operation_action@ && resource@ == operation_resource@ && by_user {
            result is Ok
        } else {
            fails(result, "operator plugin request does not match its authorized effect"@)
        },
{
    if !same_text(action, operation_action) || !same_text(resource, operation_resource) || !by_user {
        return execution_failure("operator plugin request does not match its authorized effect");
    }
    Ok(())
}

/// An installation of a plugin.
#[derive(Debug)]
pub struct Installation {
    pub name: String,
    pub digest: String,
    pub bundled: bool,
    pub trusted: bool,
    pub trust_profile: Option<String>,
}

/// The first installation of a plugin with a digest.
pub open spec fn installation_of(list: Seq<Installation>, name: Seq<char>, digest: Seq<char>) -> Option<Installation>
    decreases list.len(),
{
    if list.len() == 0 {
        None
    } else if list[0].name@ == name && list[0].digest@ == digest {
        Some(list[0])
    } else {
        installation_of(list.skip(1), name, digest)
    }
}

fn find_installation<'a>(list: &'a Vec<Installation>, name: &str, digest: &str) -> (found: Option<&'a Installation>)
    ensures
        match found {
            Some(item) => installation_of(list@, name@, digest@) == Some(*item),
            None => installation_of(list@, name@, digest@) is None,
        },
{
    let mut i: usize = 0;
    proof {
        assert(list@.skip(0) =~= list@);
    }
    while i < list.len()
        invariant
            i <= list@.len(),
            installation_of(list@, name@, digest@) == installation_of(list@.skip(i as int), name@, digest@),
        decreases list@.len() - i,
    {
        proof {
            assert(list@.skip(i as int)[0] == list@[i as int]);
            assert(list@.skip(i as int).skip(1) =~= list@.skip(i + 1));
        }
        if same_text(list[i].name.as_str(), name) && same_text(list[i].digest.as_str(), digest) {
            return Some(&list[i]);
        }
        i = i + 1;
    }
    None
}

/// What the host found for a request that is carried out on this machine.
#[derive(Debug)]
pub struct LocalFindings {
    /// Whether there is a home directory with a plugin store.
    pub has_store: bool,
    /// The installations that the store lists.
    pub installations: Vec<Installation>,
    /// The digest of the content that came with the executable.
    pub embedded_digest: Result<String, String>,
    /// Whether the layout that is to be verified is sound and its signature bundles can be read: the
    /// kept layout of an installation, or the one that the request names.
    pub layout: Result<(), String>,
    /// Whether the request was approved.
    pub approved: bool,
}

/// Which part of a skill is read.
#[derive(Debug)]
pub enum SkillPart {
    Instructions,
    Resources,
    Resource { path: String },
}

/// The work that carries a request out.
#[derive(Debug)]
pub enum LocalWork {
    /// List installed plugins, those of one name where it is given.
    List { name: Option<String> },
    ReadSkill { plugin: String, digest: String, skill_id: String, part: SkillPart },
    /// The content is the one that came with the executable.
    VerifiedBundle { name: String, digest: String },
    /// Verify the kept layout `sha256/<layout>` by a trust profile.
    VerifyLayout { layout: String, digest: String, profile: String },
    /// Anything else, as it was asked for.
    Perform(PluginManagementRequest),
}

/// The plugin of a qualified skill identifier.
pub open spec fn skill_plugin(skill_id: Seq<char>) -> Option<Seq<char>>
    decreases skill_id.len(),
{
    if skill_id.len() == 0 {
        None
    } else if skill_id[0] == '/' {
        Some(Seq::empty())
    } else {
        match skill_plugin(skill_id.skip(1)) {
            Some(rest) => Some(seq![skill_id[0]] + rest),
            None => None,
        }
    }
}

fn plugin_of(skill_id: &str) -> (plugin: Option<String>)
    ensures
        optional_view(plugin) == skill_plugin(skill_id@),
{
    let list = characters(skill_id);
    let mut name = String::new();
    let mut i: usize = 0;
    proof {
        assert(skill_id@.skip(0) =~= skill_id@);
        assert(forall|rest: Seq<char>| #[trigger] (name@ + rest) =~= rest);
    }
    while i < list.len()
        invariant
            list@ == skill_id@,
            i <= list@.len(),
            skill_plugin(skill_id@) == match skill_plugin(skill_id@.skip(i as int)) {
                Some(rest) => Some(name@ + rest),
                None => None,
            },
        decreases list@.len() - i,
    {
        let ghost rest = skill_id@.skip(i as int);
        let ghost before = name@;
        let c: char = list[i];
        proof {
            assert(rest[0] == c);
            assert(rest.skip(1) =~= skill_id@.skip(i + 1));
        }
        if c == '/' {
            proof {
                assert(name@ + Seq::<char>::empty() =~= name@);
            }
            return Some(name);
        }
        name.push(c);
        proof {
            assert(forall|more: Seq<char>| #[trigger] (before + (seq![c] + more)) =~= before.push(c) + more);
        }
        i = i + 1;
    }
    None
}

/// A failure without a plugin store.
pub open spec fn no_store() -> Seq<char> {
    "plugin lifecycle requires an explicit Colossus home"@
}

/// Why a request is not carried out on this machine, if so.
pub open spec fn local_failure(
    operation: PluginManagementRequest,
    config: PluginsConfig,
    found: LocalFindings,
) -> Option<
    Seq<char>,
> {
    match operation {
        PluginManagementRequest::Inventory | PluginManagementRequest::Show { .. }
        | PluginManagementRequest::Disable { .. } | PluginManagementRequest::Uninstall { .. }
        | PluginManagementRequest::Gc | PluginManagementRequest::Export { .. } => if found.has_store {
            None
        } else {
            Some(no_store())
        },
        PluginManagementRequest::SkillRead { skill_id, .. } | PluginManagementRequest::ResourceList { skill_id, .. }
        | PluginManagementRequest::ResourceRead { skill_id, .. } => if skill_plugin(skill_id@) is None {
            Some("select a qualified plugin/skill identifier"@)
        } else if !found.has_store {
            Some(no_store())
        } else {
            None
        },
        PluginManagementRequest::VerifyInstalled { name, digest } => if !found.has_store {
            Some(no_store())
        } else {
            match installation_of(found.installations@, name@, digest@) {
                None => Some("plugin is not installed"@),
                Some(installation) => if installation.bundled {
                    match found.embedded_digest {
                        Err(text) => Some(text@),
                        Ok(embedded) => if embedded@ != digest@ {
                            Some(
                                "bundled content is managed by another Colossus version; restart this executable"@,
                            )
                        } else {
                            None
                        },
                    }
                } else if !has_prefix(digest@, "sha256:"@) {
                    Some("invalid plugin digest"@)
                } else if found.layout is Err {
                    Some(found.layout->Err_0@)
                } else if !has_key(config.trust_profiles@, verified_by(installation)) {
                    Some("plugin trust profile not found: "@ + verified_by(installation))
                } else {
                    None
                },
            }
        },
        PluginManagementRequest::Verify { trust_profile, .. } => if found.layout is Err {
            Some(found.layout->Err_0@)
        } else if has_key(config.trust_profiles@, trust_profile@) {
            None
        } else {
            Some("plugin trust profile not found: "@ + trust_profile@)
        },
        PluginManagementRequest::Install { source, trust_profile } => if !has_key(
            config.trust_profiles@,
            trust_profile@,
        ) {
            Some("plugin trust profile not found: "@ + trust_profile@)
        } else if source is Reference {
            Some("registry installation requires the registry effect boundary"@)
        } else if !found.has_store {
            Some(no_store())
        } else {
            None
        },
        PluginManagementRequest::Enable { name, digest, allow_untrusted } => if !found.has_store {
            Some(no_store())
        } else {
            match installation_of(found.installations@, name@, digest@) {
                None => Some("selected plugin digest is not installed"@),
                Some(installation) => if !installation.bundled && !installation.trusted && !(allow_untrusted
                    && found.approved) {
                    Some("untrusted enablement requires a request-bound approval, not only allow_untrusted"@)
                } else {
                    None
                },
            }
        },
        PluginManagementRequest::Validate { .. } | PluginManagementRequest::Package { .. } => None,
        PluginManagementRequest::Pull { .. } | PluginManagementRequest::Push { .. }
        | PluginManagementRequest::Update { .. } => Some(
            "registry operation requires the registry effect boundary"@,
        ),
    }
}

/// The trust profile that an installation is verified by.
pub open spec fn verified_by(installation: Installation) -> Seq<char> {
    match installation.trust_profile {
        Some(name) => name@,
        None => "default"@,
    }
}

/// The work is exactly what the request asks for.
pub open spec fn works(work: LocalWork, operation: PluginManagementRequest, found: LocalFindings) -> bool {
    match operation {
        PluginManagementRequest::Inventory => work == (LocalWork::List { name: None }),
        PluginManagementRequest::Show { name } => work == (LocalWork::List { name: Some(name) }),
        PluginManagementRequest::SkillRead { skill_id, digest } => work matches LocalWork::ReadSkill {
            plugin,
            digest: d,
            skill_id: s,
            part,
        } && Some(plugin@) == skill_plugin(skill_id@) && d == digest && s == skill_id && part is Instructions,
        PluginManagementRequest::ResourceList { skill_id, digest } => work matches LocalWork::ReadSkill {
            plugin,
            digest: d,
            skill_id: s,
            part,
        } && Some(plugin@) == skill_plugin(skill_id@) && d == digest && s == skill_id && part is Resources,
        PluginManagementRequest::ResourceRead { skill_id, digest, path } => work matches LocalWork::ReadSkill {
            plugin,
            digest: d,
            skill_id: s,
            part,
        } && Some(plugin@) == skill_plugin(skill_id@) && d == digest && s == skill_id && part == (
        SkillPart::Resource { path }),
        PluginManagementRequest::VerifyInstalled { name, digest } => {
            let installation = installation_of(found.installations@, name@, digest@)->0;
            if installation.bundled {
                work == (LocalWork::VerifiedBundle { name, digest })
            } else {
                work matches LocalWork::VerifyLayout { layout, digest: d, profile } && layout@ == digest@.skip(
                    "sha256:"@.len() as int,
                ) && d == digest && profile@ == verified_by(installation)
            }
        },
        _ => work == LocalWork::Perform(operation),
    }
}

/// The work that carries a request out on this machine.
pub fn plan_local(operation: PluginManagementRequest, config: &PluginsConfig, found: &LocalFindings) -> (result: Result<
    LocalWork,
    ExecutionError,
>)
    ensures
        match local_failure(operation, *config, *found) {
            Some(text) => fails(result, text),
            None => result matches Ok(work) && works(work, operation, *found),
        },
{
    let lifecycle = "plugin lifecycle requires an explicit Colossus home";
    match operation {
        PluginManagementRequest::Inventory => {
            if !found.has_store {
                return execution_failure(lifecycle);
            }
            Ok(LocalWork::List { name: None })
        },
        PluginManagementRequest::Show { name } => {
            if !found.has_store {
                return execution_failure(lifecycle);
            }
            Ok(LocalWork::List { name: Some(name) })
        },
        PluginManagementRequest::SkillRead { skill_id, digest } => plan_skill(
            skill_id,
            digest,
            SkillPart::Instructions,
            found.has_store,
        ),
        PluginManagementRequest::ResourceList { skill_id, digest } => plan_skill(
            skill_id,
            digest,
            SkillPart::Resources,
            found.has_store,
        ),
        PluginManagementRequest::ResourceRead { skill_id, digest, path } => plan_skill(
            skill_id,
            digest,
            SkillPart::Resource { path },
            found.has_store,
        ),
        PluginManagementRequest::VerifyInstalled { name, digest } => {
            if !found.has_store {
                return execution_failure(lifecycle);
            }
            match find_installation(&found.installations, name.as_str(), digest.as_str()) {
                None => execution_failure("plugin is not installed"),
                Some(installation) => {
                    if installation.bundled {
                        return match &found.embedded_digest {
                            Err(text) => execution_failure(text.as_str()),
                            Ok(embedded) => if same_text(embedded.as_str(), digest.as_str()) {
                                Ok(LocalWork::VerifiedBundle { name, digest })
                            } else {
                                execution_failure(
                                    "bundled content is managed by another Colossus version; restart this executable",
                                )
                            },
                        };
                    }
                    let profile = match &installation.trust_profile {
                        Some(name) => name.clone(),
                        None => "default".to_owned(),
                    };
                    match strip_prefix(digest.as_str(), "sha256:") {
                        None => execution_failure("invalid plugin digest"),
                        Some(layout) => {
                            if let Err(text) = &found.layout {
                                return execution_failure(text.as_str());
                            }
                            if !contains_key(&config.trust_profiles, profile.as_str()) {
                                let text = concat2("plugin trust profile not found: ", profile.as_str());
                                return execution_failure(text.as_str());
                            }
                            Ok(LocalWork::VerifyLayout { layout, digest, profile })
                        },
                    }
                },
            }
        },
        PluginManagementRequest::Verify { path, digest, trust_profile } => {
            if let Err(text) = &found.layout {
                return execution_failure(text.as_str());
            }
            if !contains_key(&config.trust_profiles, trust_profile.as_str()) {
                let text = concat2("plugin trust profile not found: ", trust_profile.as_str());
                return execution_failure(text.as_str());
            }
            Ok(LocalWork::Perform(PluginManagementRequest::Verify { path, digest, trust_profile }))
        },
        PluginManagementRequest::Install { source, trust_profile } => {
            if !contains_key(&config.trust_profiles, trust_profile.as_str()) {
                let text = concat2("plugin trust profile not found: ", trust_profile.as_str());
                return execution_failure(text.as_str());
            }
            if matches!(source, PluginInstallSource::Reference { .. }) {
                return execution_failure("registry installation requires the registry effect boundary");
            }
            if !found.has_store {
                return execution_failure(lifecycle);
            }
            Ok(LocalWork::Perform(PluginManagementRequest::Install { source, trust_profile }))
        },
        PluginManagementRequest::Enable { name, digest, allow_untrusted } => {
            if !found.has_store {
                return execution_failure(lifecycle);
            }
            match find_installation(&found.installations, name.as_str(), digest.as_str()) {
                None => execution_failure("selected plugin digest is not installed"),
                Some(installation) => {
                    if !installation.bundled && !installation.trusted && (!allow_untrusted || !found.approved) {
                        return execution_failure(
                            "untrusted enablement requires a request-bound approval, not only allow_untrusted",
                        );
                    }
                    Ok(LocalWork::Perform(PluginManagementRequest::Enable { name, digest, allow_untrusted }))
                },
            }
        },
        PluginManagementRequest::Pull { .. } | PluginManagementRequest::Push { .. }
        | PluginManagementRequest::Update { .. } => execution_failure(
            "registry operation requires the registry effect boundary",
        ),
        PluginManagementRequest::Validate { path } => Ok(
            LocalWork::Perform(PluginManagementRequest::Validate { path }),
        ),
        PluginManagementRequest::Package { directory, output } => Ok(
            LocalWork::Perform(PluginManagementRequest::Package { directory, output }),
        ),
        other => {
            if !found.has_store {
                return execution_failure(lifecycle);
            }
            Ok(LocalWork::Perform(other))
        },
    }
}

fn plan_skill(skill_id: String, digest: String, part: SkillPart, has_store: bool) -> (result: Result<
    LocalWork,
    ExecutionError,
>)
    ensures
        if skill_plugin(skill_id@) is None {
            fails(result, "select a qualified plugin/skill identifier"@)
        } else if !has_store {
            fails(result, no_store())
        } else {
            result matches Ok(LocalWork::ReadSkill { plugin, digest: d, skill_id: s, part: p }) && Some(plugin@)
                == skill_plugin(skill_id@) && d == digest && s == skill_id && p == part
        },
{
    match plugin_of(skill_id.as_str()) {
        None => execution_failure("select a qualified plugin/skill identifier"),
        Some(plugin) => {
            if !has_store {
                return execution_failure("plugin lifecycle requires an explicit Colossus home");
            }
            Ok(LocalWork::ReadSkill { plugin, digest, skill_id, part })
        },
    }
}

/// The place of the selected skill among those of the leased plugins.
pub fn select_skill(skills: &Vec<String>, skill_id: &str) -> (result: Result<usize, ExecutionError>)
    ensures
        match result {
            Ok(at) => at < skills@.len() && skills@[at as int]@ == skill_id@ && forall|j: int|
                0 <= j < at ==> (#[trigger] skills@[j])@ != skill_id@,
            Err(_) => fails(result, "selected skill is unavailable"@) && !views(skills@).contains(skill_id@),
        },
{
    let mut i: usize = 0;
    while i < skills.len()
        invariant
            i <= skills@.len(),
            forall|j: int| 0 <= j < i ==> (#[trigger] skills@[j])@ != skill_id@,
        decreases skills@.len() - i,
    {
        if same_text(skills[i].as_str(), skill_id) {
            return Ok(i);
        }
        i = i + 1;
    }
    proof {
        assert forall|j: int| 0 <= j < views(skills@).len() implies views(skills@)[j] != skill_id@ by {
            assert(views(skills@)[j] == skills@[j]@);
        }
    }
    execution_failure("selected skill is unavailable")
}

/// Content that is neither trusted nor came with the executable is enabled only by a request that
/// says so and was approved for it.
pub proof fn untrusted_content_needs_approval(
    name: String,
    digest: String,
    allow_untrusted: bool,
    config: PluginsConfig,
    found: LocalFindings,
)
    requires
        local_failure(
            (PluginManagementRequest::Enable { name, digest, allow_untrusted }),
            config,
            found,
        ) is None,
    ensures
        installation_of(found.installations@, name@, digest@) matches Some(installation) && (installation.bundled
            || installation.trusted || (allow_untrusted && found.approved)),
{
}

/// Work on trust reads the files of its trust policy: for a request that verifies or installs from
/// this machine, every file of its trust profile is among the paths that the permit has to allow.
pub proof fn trust_files_are_enforced(operation: PluginManagementRequest, config: PluginsConfig, file: Seq<char>)
    requires
        match operation {
            PluginManagementRequest::Verify { trust_profile, .. } => trust_files(config, trust_profile@).contains(file),
            PluginManagementRequest::Install { source, trust_profile } => !(source is Reference) && trust_files(
                config,
                trust_profile@,
            ).contains(file),
            _ => false,
        },
    ensures
        paths_of(operation, config, None).contains((file, false)),
{
    let name = match operation {
        PluginManagementRequest::Verify { trust_profile, .. } => trust_profile@,
        PluginManagementRequest::Install { trust_profile, .. } => trust_profile@,
        _ => Seq::empty(),
    };
    let files = trust_files(config, name);
    let i = choose|i: int| 0 <= i < files.len() && files[i] == file;
    let all = paths_of(operation, config, None);
    assert(all[i + 1] == (file, false));
}

/// A registry's own trust profile is enforced: an installation from it takes that profile or the
/// default, and no other; the bundled plugin is never updated. Nothing else is refused here.
pub proof fn registries_enforce_their_trust(operation: PluginManagementRequest, enforced: Result<String, RuntimeError>)
    ensures
        operation matches PluginManagementRequest::Install {
            source: PluginInstallSource::Reference { registry, reference },
            trust_profile,
        } ==> (route_refusal(operation, enforced) is None <==> enforced is Ok && (trust_profile@ == "default"@
            || trust_profile@ == enforced->Ok_0@)),
        operation matches PluginManagementRequest::Update { name, .. } ==> (route_refusal(operation, enforced) is None
            <==> name@ != "colossus"@),
        !(operation is Update) && !(operation is Install) ==> route_refusal(operation, enforced) is None,
        operation matches PluginManagementRequest::Install { source, .. } ==> !(source is Reference) ==> route_refusal(
            operation,
            enforced,
        ) is None,
{
}

/// Requests are carried out as they were made: registries handle what names a reference, and everything
/// else is done here, paths being taken from the workspace.
pub proof fn requests_are_routed_as_made(
    platform: Platform,
    route: ManagementRoute,
    operation: PluginManagementRequest,
    workspace: Seq<char>,
)
    requires
        routes(platform, route, operation, workspace),
    ensures
        operation matches PluginManagementRequest::Pull { registry, reference, output } ==> route == (
        ManagementRoute::Pull { registry, reference, output }),
        operation matches PluginManagementRequest::Push { registry, reference, layout } ==> route == (
        ManagementRoute::Push { registry, reference, layout }),
        operation matches PluginManagementRequest::Update { name, registry, reference } ==> route == (
        ManagementRoute::InstallReference { registry, reference, name: Some(name) }),
        operation matches PluginManagementRequest::Install {
            source: PluginInstallSource::Reference { registry, reference },
            trust_profile,
        } ==> route == (ManagementRoute::InstallReference { registry, reference, name: None }),
        operation is Enable || operation is Disable || operation is Uninstall || operation is Inventory
            || operation is Show || operation is Gc || operation is SkillRead || operation is ResourceList
            || operation is ResourceRead || operation is VerifyInstalled ==> route == ManagementRoute::Local(operation),
        operation matches PluginManagementRequest::Export { name, output } ==> (route matches ManagementRoute::Local(
            PluginManagementRequest::Export { name: kept, output: place },
        ) && kept == name && place@ == joined_path(platform, workspace, output@)),
        operation matches PluginManagementRequest::Package { directory, output } ==> (
        route matches ManagementRoute::Local(PluginManagementRequest::Package { directory: from, output: to })
            && from@ == joined_path(platform, workspace, directory@) && to@ == joined_path(
            platform,
            workspace,
            output@,
        )),
        operation matches PluginManagementRequest::Validate { path } ==> (route matches ManagementRoute::Local(
            PluginManagementRequest::Validate { path: kept },
        ) && kept@ == joined_path(platform, workspace, path@)),
{
}

/// Every file that a trust profile names is one of its files.
pub proof fn trust_profiles_name_their_files(config: PluginsConfig, name: Seq<char>, at: int)
    requires
        value_of(config.trust_profiles@, name) is Some,
    ensures
        ({
            let profile = value_of(config.trust_profiles@, name)->0;
            &&& 0 <= at < profile.public_keys@.len() ==> trust_files(config, name).contains(
                profile.public_keys@[at]@,
            )
            &&& profile.trust_root_path matches Some(path) ==> trust_files(config, name).contains(path@)
            &&& profile.trust_root_path is None ==> trust_files(config, name).len() == profile.public_keys@.len()
        }),
{
    let profile = value_of(config.trust_profiles@, name)->0;
    let files = profile_files(profile);
    if 0 <= at < profile.public_keys@.len() {
        assert(files[at] == profile.public_keys@[at]@);
    }
    if profile.trust_root_path is Some {
        assert(files[files.len() - 1] == profile.trust_root_path->0@);
    }
}

/// An installation is verified by the profile it was installed with, the default where it has none; a
/// bundled one needs none.
pub proof fn installations_keep_their_profile(trust: InstalledTrust, installation: Installation)
    ensures
        trust.bundled ==> installed_profile(trust) is None,
        !trust.bundled && trust.profile is Some ==> installed_profile(trust) == Some(trust.profile->0@),
        !trust.bundled && trust.profile is None ==> installed_profile(trust) == Some("default"@),
        installation.trust_profile matches Some(name) ==> verified_by(installation) == name@,
        installation.trust_profile is None ==> verified_by(installation) == "default"@,
{
}

/// What an operation writes it is checked to write: packages, exports and pulls write their output, and
/// nothing else writes.
pub proof fn outputs_are_written(
    operation: PluginManagementRequest,
    config: PluginsConfig,
    installed: Option<InstalledTrust>,
    at: int,
)
    ensures
        operation matches PluginManagementRequest::Package { directory, output } ==> paths_of(
            operation,
            config,
            installed,
        ) == seq![(directory@, false), (output@, true)],
        operation matches PluginManagementRequest::Export { output, .. } ==> paths_of(operation, config, installed)
            == seq![(output@, true)],
        operation matches PluginManagementRequest::Pull { output, .. } ==> paths_of(operation, config, installed)
            == seq![(output@, true)],
        operation matches PluginManagementRequest::Push { layout, .. } ==> paths_of(operation, config, installed)
            == seq![(layout@, false)],
        operation matches PluginManagementRequest::Validate { path } ==> paths_of(operation, config, installed)
            == seq![(path@, false)],
        operation matches PluginManagementRequest::Verify { path, .. } ==> paths_of(operation, config, installed)[0]
            == (path@, false),
        operation matches PluginManagementRequest::Install { source, .. } ==> {
            &&& source matches PluginInstallSource::Directory { path } ==> paths_of(operation, config, installed)[0]
                == (path@, false)
            &&& source matches PluginInstallSource::Layout { path, .. } ==> paths_of(operation, config, installed)[0]
                == (path@, false)
            &&& source matches PluginInstallSource::Archive { path, .. } ==> paths_of(operation, config, installed)[0]
                == (path@, false)
        },
        0 <= at < paths_of(operation, config, installed).len() && paths_of(operation, config, installed)[at].1
            ==> operation is Package || operation is Export || operation is Pull,
{
}

/// A grant admits a path below its root, to be written only where it is a grant to write.
pub proof fn permits_admit_by_mode(
    platform: Platform,
    grants: Seq<FilesystemGrant>,
    grant: FilesystemGrant,
    path: Seq<char>,
)
    ensures
        admits(platform, grant, path, true) <==> grant.mode@ == "write"@ && within(platform, path, grant.root@),
        admits(platform, grant, path, false) <==> (grant.mode@ == "write"@ || grant.mode@ == "read"@) && within(
            platform,
            path,
            grant.root@,
        ),
        granted(platform, grants, path, true) ==> granted(platform, grants, path, false),
        !granted(platform, Seq::empty(), path, false),
{
    if granted(platform, grants, path, true) {
        let i = choose|i: int| 0 <= i < grants.len() && admits(platform, #[trigger] grants[i], path, true);
        assert(admits(platform, grants[i], path, false));
    }
}

/// A path that is managed is absolute and goes nowhere up; one that exists is its real self, and an
/// output that does not is its name below its real parent.
pub proof fn managed_paths_are_real(platform: Platform, path: Seq<char>, write: bool, lookup: PathLookup)
    ensures
        managed_target(platform, path, write, lookup) is Ok ==> absolute(platform, path) && !components(
            platform,
            path,
        ).contains(ComponentView::Up) && lookup.canonical is Ok,
        normalized(platform, path) && lookup.canonical is Ok && (lookup.exists || !write) ==> managed_target(
            platform,
            path,
            write,
            lookup,
        ) == Ok::<Seq<char>, Seq<char>>(lookup.canonical->Ok_0@),
        normalized(platform, path) && lookup.canonical is Ok && !lookup.exists && write && parent_path(
            platform,
            path,
        ) is Some && file_name(platform, path) is Some ==> managed_target(platform, path, write, lookup) == Ok::<
            Seq<char>,
            Seq<char>,
        >(joined_path(platform, lookup.canonical->Ok_0@, file_name(platform, path)->0)),
{
}

/// An installation is found by its name and its digest, and by both.
pub proof fn installations_are_found_exactly(list: Seq<Installation>, name: Seq<char>, digest: Seq<char>)
    ensures
        installation_of(list, name, digest) is Some <==> exists|i: int|
            0 <= i < list.len() && (#[trigger] list[i]).name@ == name && list[i].digest@ == digest,
        installation_of(list, name, digest) matches Some(found) ==> found.name@ == name && found.digest@ == digest,
    decreases list.len(),
{
    if list.len() > 0 {
        let rest = list.skip(1);
        installations_are_found_exactly(rest, name, digest);
        if !(list[0].name@ == name && list[0].digest@ == digest) {
            if exists|i: int| 0 <= i < list.len() && (#[trigger] list[i]).name@ == name && list[i].digest@ == digest {
                let i = choose|i: int|
                    0 <= i < list.len() && (#[trigger] list[i]).name@ == name && list[i].digest@ == digest;
                assert(rest[i - 1] == list[i]);
            }
            if exists|i: int| 0 <= i < rest.len() && (#[trigger] rest[i]).name@ == name && rest[i].digest@ == digest {
                let i = choose|i: int|
                    0 <= i < rest.len() && (#[trigger] rest[i]).name@ == name && rest[i].digest@ == digest;
                assert(list[i + 1] == rest[i]);
            }
        }
    }
}

/// A plugin is enabled only where it is installed by that digest and is bundled, trusted, or approved for
/// this request, and exactly there.
pub proof fn only_trusted_plugins_are_enabled(
    name: String,
    digest: String,
    allow_untrusted: bool,
    config: PluginsConfig,
    found: LocalFindings,
)
    ensures
        local_failure(PluginManagementRequest::Enable { name, digest, allow_untrusted }, config, found) is None <==> {
            let installation = installation_of(found.installations@, name@, digest@);
            &&& found.has_store
            &&& installation is Some
            &&& installation->0.bundled || installation->0.trusted || (allow_untrusted && found.approved)
        },
{
}

/// A local installation needs a store and a trust profile, and never takes a registry's reference; what
/// registries do is not done here.
pub proof fn local_work_needs_a_store(operation: PluginManagementRequest, config: PluginsConfig, found: LocalFindings)
    ensures
        operation matches PluginManagementRequest::Install { source, trust_profile } ==> (local_failure(
            operation,
            config,
            found,
        ) is None <==> has_key(config.trust_profiles@, trust_profile@) && !(source is Reference) && found.has_store),
        operation is Inventory || operation is Show || operation is Disable || operation is Uninstall || operation is Gc
            || operation is Export ==> (local_failure(operation, config, found) is None <==> found.has_store),
        operation is Validate || operation is Package ==> local_failure(operation, config, found) is None,
        operation is Pull || operation is Push || operation is Update ==> local_failure(operation, config, found)
            is Some,
        operation matches PluginManagementRequest::Verify { trust_profile, .. } ==> (local_failure(
            operation,
            config,
            found,
        ) is None <==> found.layout is Ok && has_key(config.trust_profiles@, trust_profile@)),
        operation matches PluginManagementRequest::SkillRead { skill_id, .. } ==> (local_failure(
            operation,
            config,
            found,
        ) is None <==> found.has_store && skill_id@.contains('/')),
        operation matches PluginManagementRequest::VerifyInstalled { name, digest } ==> local_failure(
            operation,
            config,
            found,
        ) is None ==> {
            let installation = installation_of(found.installations@, name@, digest@);
            &&& found.has_store
            &&& installation is Some
            &&& installation->0.bundled ==> found.embedded_digest is Ok && found.embedded_digest->Ok_0@ == digest@
            &&& !installation->0.bundled ==> found.layout is Ok && has_key(
                config.trust_profiles@,
                verified_by(installation->0),
            )
        },
{
    if let PluginManagementRequest::SkillRead { skill_id, .. } = operation {
        skills_name_their_plugin(skill_id@);
    }
}

/// A skill names its plugin: what stands before the first slash.
pub proof fn skills_name_their_plugin(skill_id: Seq<char>)
    ensures
        skill_plugin(skill_id) is Some <==> skill_id.contains('/'),
        skill_plugin(skill_id) matches Some(plugin) ==> (plugin + "/"@).is_prefix_of(skill_id) && !plugin.contains('/'),
    decreases skill_id.len(),
{
    reveal_strlit("/");
    if skill_id.len() > 0 {
        let rest = skill_id.skip(1);
        skills_name_their_plugin(rest);
        if skill_id[0] == '/' {
            assert(skill_id.contains('/'));
            assert(Seq::<char>::empty() + "/"@ == "/"@);
        } else {
            if rest.contains('/') {
                let i = choose|i: int| 0 <= i < rest.len() && rest[i] == '/';
                assert(skill_id[i + 1] == '/');
            }
            if skill_id.contains('/') {
                let i = choose|i: int| 0 <= i < skill_id.len() && skill_id[i] == '/';
                assert(rest[i - 1] == '/');
            }
            if skill_plugin(rest) is Some {
                let tail = skill_plugin(rest)->0;
                let plugin = seq![skill_id[0]] + tail;
                let whole = plugin + "/"@;
                assert forall|i: int| 0 <= i < whole.len() implies whole[i] == skill_id[i] by {
                    if i > 0 {
                        assert((tail + "/"@)[i - 1] == rest[i - 1]);
                    }
                }
                assert forall|i: int| 0 <= i < plugin.len() implies plugin[i] != '/' by {
                    if i > 0 {
                        assert(tail.contains(tail[i - 1]));
                        assert(plugin[i] == tail[i - 1]);
                    }
                }
            }
        }
    }
}

/// Local work is about what was asked for: the plugin, the skill, the digest and the path.
pub proof fn local_work_is_what_was_asked_for(
    work: LocalWork,
    operation: PluginManagementRequest,
    found: LocalFindings,
)
    requires
        works(work, operation, found),
    ensures
        operation is Inventory ==> work == (LocalWork::List { name: None }),
        operation matches PluginManagementRequest::Show { name } ==> work == (LocalWork::List { name: Some(name) }),
        operation matches PluginManagementRequest::SkillRead { skill_id, digest } ==> (
        work matches LocalWork::ReadSkill { digest: d, skill_id: s, part, .. } && d == digest && s == skill_id
            && part is Instructions),
        operation matches PluginManagementRequest::ResourceList { skill_id, digest } ==> (
        work matches LocalWork::ReadSkill { digest: d, skill_id: s, part, .. } && d == digest && s == skill_id
            && part is Resources),
        operation matches PluginManagementRequest::ResourceRead { skill_id, digest, path } ==> (
        work matches LocalWork::ReadSkill { digest: d, skill_id: s, part, .. } && d == digest && s == skill_id && part
            == (SkillPart::Resource { path })),
        operation is Validate || operation is Verify || operation is Install || operation is Enable
            || operation is Disable || operation is Uninstall || operation is Gc || operation is Package
            || operation is Export ==> work == LocalWork::Perform(operation),
{
}

/// A profile of trust that is not configured is named in the refusal, when a layout is verified under it and
/// when a plugin is installed under it.
pub proof fn unknown_trust_is_named(
    operation: PluginManagementRequest,
    config: PluginsConfig,
    found: LocalFindings,
)
    ensures
        operation matches PluginManagementRequest::Verify { trust_profile, .. } ==> found.layout is Ok ==> !has_key(
            config.trust_profiles@,
            trust_profile@,
        ) ==> local_failure(operation, config, found) == Some("plugin trust profile not found: "@ + trust_profile@),
        operation matches PluginManagementRequest::Install { trust_profile, .. } ==> !has_key(
            config.trust_profiles@,
            trust_profile@,
        ) ==> local_failure(operation, config, found) == Some("plugin trust profile not found: "@ + trust_profile@),
{
}

} // verus!
