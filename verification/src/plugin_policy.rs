//! How plugins narrow and extend policy decisions.

use crate::access::DecisionOutcome;
use crate::config::{
    clone_grants, grant, grant_views, FilesystemGrant, GrantView, Platform, PluginsConfig, ResourceAuthority,
};
use crate::entries::{lookup, value_of, Entry};
use crate::paths::{file_name, join_path, joined_path, parent_path, path_file_name, path_parent, within};
use crate::plugin_management::{
    admits, granted, is_granted, managed_views, management_paths, paths_of, InstalledTrust, PluginManagementRequest,
};
use crate::policy_plan::ActionRestriction;
use crate::text::{clone_texts, has_prefix, optional_view, same_text, starts_with, views};
use vstd::prelude::*;
use vstd::string::*;

verus! {

/// A policy decision with what it allows.
#[derive(Debug)]
pub struct Decision {
    pub outcome: DecisionOutcome,
    pub reason: String,
    pub authority: ResourceAuthority,
    pub filesystem: Vec<FilesystemGrant>,
    pub allowed_environment: Vec<String>,
    pub network_destinations: Vec<String>,
}

/// A policy decision as a value.
#[verifier::ext_equal]
pub ghost struct DecisionView {
    pub outcome: DecisionOutcome,
    pub reason: Seq<char>,
    pub authority: ResourceAuthority,
    pub filesystem: Seq<GrantView>,
    pub allowed_environment: Seq<Seq<char>>,
    pub network_destinations: Seq<Seq<char>>,
}

impl View for Decision {
    type V = DecisionView;

    open spec fn view(&self) -> DecisionView {
        DecisionView {
            outcome: self.outcome,
            reason: self.reason@,
            authority: self.authority,
            filesystem: grant_views(self.filesystem@),
            allowed_environment: views(self.allowed_environment@),
            network_destinations: views(self.network_destinations@),
        }
    }
}

/// A path that an operator selected.
#[derive(Debug)]
pub struct SelectedPath {
    /// Its canonical path, where it has one.
    pub canonical: Option<String>,
    pub write: bool,
}

/// An operator's request that was found behind an effect.
#[derive(Debug)]
pub struct OperatorRequest {
    /// Whether it enables content that is not trusted.
    pub enables_untrusted: bool,
    pub paths: Vec<SelectedPath>,
}

/// What the host found at a path that an operator selected.
#[derive(Debug)]
pub struct PathFinding {
    /// Whether there is anything at the path.
    pub exists: bool,
    /// The canonical path, where it has one: of the path where there is something, else of its parent.
    pub canonical: Option<String>,
}

/// The canonical path of a selected one: behind its canonical parent where there is nothing yet.
pub open spec fn selected_target(platform: Platform, path: Seq<char>, finding: PathFinding) -> Option<Seq<char>> {
    match finding.canonical {
        None => None,
        Some(canonical) => if finding.exists {
            Some(canonical@)
        } else {
            match (parent_path(platform, path), file_name(platform, path)) {
                (Some(_), Some(name)) => Some(joined_path(platform, canonical@, name)),
                _ => None,
            }
        },
    }
}

/// The selected paths are those of a request, each with the canonical path that was found for it.
pub open spec fn selects(
    platform: Platform,
    paths: Seq<SelectedPath>,
    managed: Seq<(Seq<char>, bool)>,
    found: Seq<PathFinding>,
) -> bool {
    &&& paths.len() == managed.len()
    &&& forall|i: int|
        0 <= i < paths.len() ==> (#[trigger] paths[i]).write == managed[i].1 && optional_view(paths[i].canonical)
            == if i < found.len() {
            selected_target(platform, managed[i].0, found[i])
        } else {
            None
        }
}

/// The request enables content that is not trusted.
pub open spec fn allows_untrusted(operation: PluginManagementRequest) -> bool {
    operation matches PluginManagementRequest::Enable { allow_untrusted, .. } && allow_untrusted
}

fn find_target(platform: Platform, path: &str, finding: &PathFinding) -> (target: Option<String>)
    ensures
        optional_view(target) == selected_target(platform, path@, *finding),
{
    match &finding.canonical {
        None => None,
        Some(canonical) => if finding.exists {
            Some(canonical.clone())
        } else if path_parent(platform, path).is_none() {
            None
        } else {
            match path_file_name(platform, path) {
                Some(name) => Some(join_path(platform, canonical.as_str(), name.as_str())),
                None => None,
            }
        },
    }
}

/// The operator's request behind an effect: there is one where a user asks, before the effect, for the
/// very action and resource of the operation. `operation` is what the effect's content holds, with its
/// own action and resource; `found` is what the host found at the operation's paths, in their order.
pub fn operator_request(
    platform: Platform,
    action: &str,
    resource: &str,
    by_user: bool,
    before_effect: bool,
    operation: &Option<PluginManagementRequest>,
    operation_action: &str,
    operation_resource: &str,
    config: &PluginsConfig,
    installed: &Option<InstalledTrust>,
    found: &Vec<PathFinding>,
) -> (request: Option<OperatorRequest>)
    ensures
        request is Some == (by_user && before_effect && operation is Some && operation_action@ == action@
            && operation_resource@ == resource@),
        request matches Some(asked) ==> asked.enables_untrusted == allows_untrusted(operation->0) && selects(
            platform,
            asked.paths@,
            paths_of(operation->0, *config, *installed),
            found@,
        ),
{
    let operation = match operation {
        Some(operation) => operation,
        None => {
            return None;
        },
    };
    if !by_user || !before_effect || !same_text(operation_action, action) || !same_text(operation_resource, resource) {
        return None;
    }
    let enables_untrusted = match operation {
        PluginManagementRequest::Enable { allow_untrusted, .. } => *allow_untrusted,
        _ => false,
    };
    let managed = management_paths(operation, config, installed);
    let ghost expected = paths_of(*operation, *config, *installed);
    let mut paths: Vec<SelectedPath> = Vec::new();
    let mut i: usize = 0;
    while i < managed.len()
        invariant
            i <= managed@.len(),
            expected == managed_views(managed@),
            selects(platform, paths@, expected.take(i as int), found@),
        decreases managed@.len() - i,
    {
        let canonical = if i < found.len() {
            find_target(platform, managed[i].path.as_str(), &found[i])
        } else {
            None
        };
        let ghost before = paths@;
        paths.push(SelectedPath { canonical, write: managed[i].write });
        proof {
            assert(expected[i as int] == (managed@[i as int].path@, managed@[i as int].write));
            assert forall|j: int| 0 <= j < paths@.len() implies (#[trigger] paths@[j]).write == expected.take(i + 1)[j].1
                && optional_view(paths@[j].canonical) == if j < found@.len() {
                selected_target(platform, expected.take(i + 1)[j].0, found@[j])
            } else {
                None
            } by {
                if j < i {
                    assert(paths@[j] == before[j]);
                    assert(expected.take(i + 1)[j] == expected.take(i as int)[j]);
                }
            }
        }
        i = i + 1;
    }
    proof {
        assert(expected.take(i as int) =~= expected);
    }
    Some(OperatorRequest { enables_untrusted, paths })
}

/// The grant of values lets a path be read, or written.
pub open spec fn view_admits(platform: Platform, item: GrantView, path: Seq<char>, write: bool) -> bool {
    (item.mode == "write"@ || (!write && item.mode == "read"@)) && within(platform, path, item.root)
}

/// Some grant of values lets a path be read, or written.
pub open spec fn view_granted(platform: Platform, grants: Seq<GrantView>, path: Seq<char>, write: bool) -> bool {
    exists|i: int| 0 <= i < grants.len() && view_admits(platform, #[trigger] grants[i], path, write)
}

proof fn granted_by_views(platform: Platform, grants: Seq<FilesystemGrant>, path: Seq<char>, write: bool)
    ensures
        granted(platform, grants, path, write) == view_granted(platform, grant_views(grants), path, write),
{
    if granted(platform, grants, path, write) {
        let i = choose|i: int| 0 <= i < grants.len() && admits(platform, #[trigger] grants[i], path, write);
        assert(view_admits(platform, grant_views(grants)[i], path, write));
    }
    if view_granted(platform, grant_views(grants), path, write) {
        let i = choose|i: int| 0 <= i < grants.len() && view_admits(
            platform,
            #[trigger] grant_views(grants)[i],
            path,
            write,
        );
        assert(admits(platform, grants[i], path, write));
    }
}

/// The decision about enabling content that is not trusted: it takes an approval.
pub open spec fn after_trust(decision: DecisionView, request: OperatorRequest, approved: bool) -> DecisionView {
    if request.enables_untrusted && !approved && decision.outcome != DecisionOutcome::Deny {
        DecisionView {
            outcome: DecisionOutcome::RequireApproval,
            reason: "Explicit approval is required to enable untrusted plugin content"@,
            ..decision
        }
    } else {
        decision
    }
}

/// The decision about one selected path: a path that no grant covers takes an approval, and is
/// granted exactly once it was approved.
pub open spec fn after_path(
    platform: Platform,
    decision: DecisionView,
    path: SelectedPath,
    approved: bool,
) -> DecisionView {
    match path.canonical {
        None => decision,
        Some(canonical) => if view_granted(platform, decision.filesystem, canonical@, path.write) || decision.authority
            == ResourceAuthority::Ambient {
            decision
        } else if !approved {
            DecisionView {
                outcome: DecisionOutcome::RequireApproval,
                reason: "Approve the exact operator-selected plugin transfer path"@,
                ..decision
            }
        } else {
            DecisionView {
                filesystem: decision.filesystem.push(
                    GrantView {
                        root: canonical@,
                        mode: if path.write {
                            "write"@
                        } else {
                            "read"@
                        },
                    },
                ),
                ..decision
            }
        },
    }
}

/// The decision about selected paths.
pub open spec fn after_paths(
    platform: Platform,
    decision: DecisionView,
    paths: Seq<SelectedPath>,
    approved: bool,
) -> DecisionView
    decreases paths.len(),
{
    if paths.len() == 0 {
        decision
    } else {
        after_path(platform, after_paths(platform, decision, paths.drop_last(), approved), paths.last(), approved)
    }
}

/// The decision about an operator's request.
pub open spec fn after_request(
    platform: Platform,
    decision: DecisionView,
    request: OperatorRequest,
    approved: bool,
    builtin: bool,
) -> DecisionView {
    let trusted = after_trust(decision, request, approved);
    if builtin && trusted.outcome != DecisionOutcome::Deny {
        after_paths(platform, trusted, request.paths@, approved)
    } else {
        trusted
    }
}

/// The first restriction of an action.
pub open spec fn restriction_of(list: Seq<ActionRestriction>, action: Seq<char>) -> Option<ActionRestriction>
    decreases list.len(),
{
    if list.len() == 0 {
        None
    } else if list[0].action@ == action {
        Some(list[0])
    } else {
        restriction_of(list.skip(1), action)
    }
}

/// The decision about a plugin's server in a run: what the run's catalog restricts it to, and a
/// denial where the catalog does not have it.
pub open spec fn after_catalog(
    decision: DecisionView,
    action: Seq<char>,
    catalog: Option<Vec<ActionRestriction>>,
    builtin: bool,
) -> DecisionView {
    match catalog {
        Some(restrictions) if has_prefix(action, "plugin.mcp."@) => match restriction_of(restrictions@, action) {
            None => DecisionView { outcome: DecisionOutcome::Deny, ..decision },
            Some(restriction) => if builtin {
                DecisionView {
                    filesystem: restriction@.filesystem,
                    allowed_environment: restriction@.allowed_environment,
                    network_destinations: restriction@.network_destinations,
                    ..decision
                }
            } else {
                decision
            },
        },
        _ => decision,
    }
}

/// An action that reaches files.
pub open spec fn filesystem_action(action: Seq<char>) -> bool {
    has_prefix(action, "filesystem."@) || action == "process.spawn"@ || action == "shell.run"@ || action
        == "git.status"@ || action == "git.diff"@ || action == "git.show"@
}

/// Whether an action reaches files.
pub fn plugin_filesystem_action(action: &str) -> (yes: bool)
    ensures
        yes == filesystem_action(action@),
{
    starts_with(action, "filesystem.") || same_text(action, "process.spawn") || same_text(action, "shell.run")
        || same_text(action, "git.status") || same_text(action, "git.diff") || same_text(action, "git.show")
}

/// Grants with one more, where it is not there yet.
pub open spec fn with_grant(grants: Seq<GrantView>, item: GrantView) -> Seq<GrantView> {
    if grants.contains(item) {
        grants
    } else {
        grants.push(item)
    }
}

/// Grants with the roots of selected skills, for reading and executing.
pub open spec fn with_skills(grants: Seq<GrantView>, skills: Seq<String>, roots: Seq<Entry<String>>) -> Seq<GrantView>
    decreases skills.len(),
{
    if skills.len() == 0 {
        grants
    } else {
        let rest = with_skills(grants, skills.drop_last(), roots);
        match value_of(roots, skills.last()@) {
            None => rest,
            Some(root) => with_grant(
                with_grant(rest, GrantView { root: root@, mode: "read"@ }),
                GrantView { root: root@, mode: "execute"@ },
            ),
        }
    }
}

fn has_grant(grants: &Vec<FilesystemGrant>, root: &str, mode: &str) -> (yes: bool)
    ensures
        yes == grant_views(grants@).contains(GrantView { root: root@, mode: mode@ }),
{
    let ghost item = GrantView { root: root@, mode: mode@ };
    let mut i: usize = 0;
    while i < grants.len()
        invariant
            i <= grants@.len(),
            item == (GrantView { root: root@, mode: mode@ }),
            forall|j: int| 0 <= j < i ==> (#[trigger] grants@[j])@ != item,
        decreases grants@.len() - i,
    {
        if same_text(grants[i].root.as_str(), root) && same_text(grants[i].mode.as_str(), mode) {
            proof {
                assert(grant_views(grants@)[i as int] == item);
            }
            return true;
        }
        i = i + 1;
    }
    proof {
        assert forall|j: int| 0 <= j < grant_views(grants@).len() implies grant_views(grants@)[j] != item by {
            assert(grant_views(grants@)[j] == grants@[j]@);
        }
    }
    false
}

fn add_grant(grants: &mut Vec<FilesystemGrant>, root: &str, mode: &str)
    ensures
        grant_views(final(grants)@) == with_grant(grant_views(old(grants)@), GrantView { root: root@, mode: mode@ }),
{
    if !has_grant(grants, root, mode) {
        let ghost before = grants@;
        let item = grant(root, mode);
        grants.push(item);
        proof {
            assert(grant_views(grants@) =~= grant_views(before).push(item@));
        }
    }
}

fn add_skill_roots(grants: &mut Vec<FilesystemGrant>, skills: &Vec<String>, roots: &Vec<Entry<String>>)
    ensures
        grant_views(final(grants)@) == with_skills(grant_views(old(grants)@), skills@, roots@),
{
    let ghost start = grant_views(grants@);
    let mut i: usize = 0;
    while i < skills.len()
        invariant
            i <= skills@.len(),
            start == grant_views(old(grants)@),
            grant_views(grants@) == with_skills(start, skills@.take(i as int), roots@),
        decreases skills@.len() - i,
    {
        proof {
            assert(skills@.take(i + 1).drop_last() =~= skills@.take(i as int));
            assert(skills@.take(i + 1).last() == skills@[i as int]);
        }
        if let Some(root) = lookup(roots, skills[i].as_str()) {
            add_grant(grants, root.as_str(), "read");
            add_grant(grants, root.as_str(), "execute");
        }
        i = i + 1;
    }
    proof {
        assert(skills@.take(i as int) =~= skills@);
    }
}

fn apply_paths(platform: Platform, decision: &mut Decision, paths: &Vec<SelectedPath>, approved: bool)
    ensures
        final(decision)@ == after_paths(platform, old(decision)@, paths@, approved),
{
    let ghost start = decision@;
    let mut i: usize = 0;
    while i < paths.len()
        invariant
            i <= paths@.len(),
            start == old(decision)@,
            decision@ == after_paths(platform, start, paths@.take(i as int), approved),
        decreases paths@.len() - i,
    {
        let path = &paths[i];
        let ghost before = decision@;
        proof {
            assert(paths@.take(i + 1).drop_last() =~= paths@.take(i as int));
            assert(paths@.take(i + 1).last() == *path);
        }
        if let Some(canonical) = &path.canonical {
            proof {
                granted_by_views(platform, decision.filesystem@, canonical@, path.write);
            }
            if !is_granted(platform, &decision.filesystem, canonical.as_str(), path.write) && decision.authority
                != ResourceAuthority::Ambient {
                if !approved {
                    decision.outcome = DecisionOutcome::RequireApproval;
                    decision.reason = "Approve the exact operator-selected plugin transfer path".to_owned();
                } else {
                    let ghost grants = decision.filesystem@;
                    let item = grant(
                        canonical.as_str(),
                        if path.write {
                            "write"
                        } else {
                            "read"
                        },
                    );
                    decision.filesystem.push(item);
                    proof {
                        assert(grant_views(decision.filesystem@) =~= grant_views(grants).push(item@));
                    }
                }
            }
        }
        proof {
            assert(decision@ =~= after_path(platform, before, *path, approved));
        }
        i = i + 1;
    }
    proof {
        assert(paths@.take(i as int) =~= paths@);
    }
}

fn find_restriction<'a>(list: &'a Vec<ActionRestriction>, action: &str) -> (found: Option<&'a ActionRestriction>)
    ensures
        match found {
            Some(item) => restriction_of(list@, action@) == Some(*item),
            None => restriction_of(list@, action@) is None,
        },
{
    let mut i: usize = 0;
    proof {
        assert(list@.skip(0) =~= list@);
    }
    while i < list.len()
        invariant
            i <= list@.len(),
            restriction_of(list@, action@) == restriction_of(list@.skip(i as int), action@),
        decreases list@.len() - i,
    {
        proof {
            assert(list@.skip(i as int)[0] == list@[i as int]);
            assert(list@.skip(i as int).skip(1) =~= list@.skip(i + 1));
        }
        if same_text(list[i].action.as_str(), action) {
            return Some(&list[i]);
        }
        i = i + 1;
    }
    None
}

/// The decision with the roots of selected skills.
pub open spec fn after_skills(
    decision: DecisionView,
    action: Seq<char>,
    skills: Seq<String>,
    roots: Seq<Entry<String>>,
) -> DecisionView {
    if filesystem_action(action) {
        DecisionView { filesystem: with_skills(decision.filesystem, skills, roots), ..decision }
    } else {
        decision
    }
}

/// The decision that plugins make of an inner one.
pub open spec fn plugin_decision(
    platform: Platform,
    inner: DecisionView,
    action: Seq<char>,
    request: Option<OperatorRequest>,
    approved: bool,
    skills: Seq<String>,
    catalog: Option<Vec<ActionRestriction>>,
    roots: Seq<Entry<String>>,
    builtin: bool,
) -> DecisionView {
    let requested = match request {
        Some(operator) => after_request(platform, inner, operator, approved, builtin),
        None => inner,
    };
    after_skills(after_catalog(requested, action, catalog, builtin), action, skills, roots)
}

/// The decision that plugins make of an inner one. `request` is the operator's own request before its
/// effect, where the effect is that request; `catalog` holds the restrictions of the run's plugins,
/// where a run is active, and `roots` the roots of its skills.
pub fn decide(
    platform: Platform,
    inner: Decision,
    action: &str,
    request: &Option<OperatorRequest>,
    approved: bool,
    skills: &Vec<String>,
    catalog: &Option<Vec<ActionRestriction>>,
    roots: &Vec<Entry<String>>,
    builtin: bool,
) -> (decision: Decision)
    ensures
        decision@ == plugin_decision(platform, inner@, action@, *request, approved, skills@, *catalog, roots@, builtin),
{
    let mut decision = inner;
    if let Some(operator) = request {
        let ghost before = decision@;
        if operator.enables_untrusted && !approved && decision.outcome != DecisionOutcome::Deny {
            decision.outcome = DecisionOutcome::RequireApproval;
            decision.reason = "Explicit approval is required to enable untrusted plugin content".to_owned();
        }
        proof {
            assert(decision@ =~= after_trust(before, *operator, approved));
        }
        if builtin && decision.outcome != DecisionOutcome::Deny {
            apply_paths(platform, &mut decision, &operator.paths, approved);
        }
    }
    let ghost requested = decision@;
    if starts_with(action, "plugin.mcp.") {
        if let Some(restrictions) = catalog {
            match find_restriction(restrictions, action) {
                None => {
                    decision.outcome = DecisionOutcome::Deny;
                },
                Some(restriction) => {
                    if builtin {
                        decision.filesystem = clone_grants(&restriction.filesystem);
                        decision.allowed_environment = clone_texts(&restriction.allowed_environment);
                        decision.network_destinations = clone_texts(&restriction.network_destinations);
                    }
                },
            }
        }
    }
    proof {
        assert(decision@ =~= after_catalog(requested, action@, *catalog, builtin));
    }
    let ghost restricted = decision@;
    if plugin_filesystem_action(action) {
        add_skill_roots(&mut decision.filesystem, skills, roots);
    }
    proof {
        assert(decision@ =~= after_skills(restricted, action@, skills@, roots@));
    }
    decision
}

proof fn paths_keep_outcome(platform: Platform, decision: DecisionView, paths: Seq<SelectedPath>, approved: bool)
    ensures
        after_paths(platform, decision, paths, approved).outcome == decision.outcome || after_paths(
            platform,
            decision,
            paths,
            approved,
        ).outcome == DecisionOutcome::RequireApproval,
        approved ==> after_paths(platform, decision, paths, approved).outcome == decision.outcome,
    decreases paths.len(),
{
    if paths.len() > 0 {
        paths_keep_outcome(platform, decision, paths.drop_last(), approved);
    }
}

/// Plugins never weaken an outcome: a denial stays one, and what is allowed in the end was allowed by
/// the inner decision.
pub proof fn plugins_never_weaken_an_outcome(
    platform: Platform,
    inner: DecisionView,
    action: Seq<char>,
    request: Option<OperatorRequest>,
    approved: bool,
    skills: Seq<String>,
    catalog: Option<Vec<ActionRestriction>>,
    roots: Seq<Entry<String>>,
    builtin: bool,
)
    ensures
        ({
            let decision = plugin_decision(platform, inner, action, request, approved, skills, catalog, roots, builtin);
            &&& inner.outcome == DecisionOutcome::Deny ==> decision.outcome == DecisionOutcome::Deny
            &&& decision.outcome == DecisionOutcome::Allow ==> inner.outcome == DecisionOutcome::Allow
        }),
{
    if let Some(operator) = request {
        paths_keep_outcome(platform, after_trust(inner, operator, approved), operator.paths@, approved);
    }
}

/// In a run, an action of a plugin's server that the run's catalog does not have is denied.
pub proof fn unlisted_servers_are_denied(
    platform: Platform,
    inner: DecisionView,
    action: Seq<char>,
    request: Option<OperatorRequest>,
    approved: bool,
    skills: Seq<String>,
    restrictions: Vec<ActionRestriction>,
    roots: Seq<Entry<String>>,
    builtin: bool,
)
    requires
        has_prefix(action, "plugin.mcp."@),
        restriction_of(restrictions@, action) is None,
    ensures
        plugin_decision(platform, inner, action, request, approved, skills, Some(restrictions), roots, builtin).outcome
            == DecisionOutcome::Deny,
{
}

/// A path that an operator selected is used only with an approval or a grant: without an approval the
/// decision asks for one, and with it the very path is granted.
pub proof fn selected_paths_take_approval(
    platform: Platform,
    decision: DecisionView,
    paths: Seq<SelectedPath>,
    approved: bool,
    i: int,
)
    requires
        0 <= i < paths.len(),
        paths[i].canonical is Some,
        decision.authority != ResourceAuthority::Ambient,
        decision.outcome == DecisionOutcome::Allow,
    ensures
        ({
            let after = after_paths(platform, decision, paths, approved);
            let granted_path = view_granted(platform, after.filesystem, paths[i].canonical->0@, paths[i].write);
            if approved {
                after.outcome == DecisionOutcome::Allow && granted_path
            } else {
                granted_path || after.outcome == DecisionOutcome::RequireApproval
            }
        }),
    decreases paths.len(),
{
    paths_keep_outcome(platform, decision, paths, approved);
    let shorter = paths.drop_last();
    let before = after_paths(platform, decision, shorter, approved);
    let after = after_paths(platform, decision, paths, approved);
    let canonical = paths[i].canonical->0@;
    paths_keep_authority(platform, decision, shorter, approved);
    if i == paths.len() - 1 {
        if !view_granted(platform, before.filesystem, canonical, paths[i].write) && approved {
            assert(view_admits(platform, after.filesystem.last(), canonical, paths[i].write));
            assert(after.filesystem[after.filesystem.len() - 1] == after.filesystem.last());
        }
    } else {
        selected_paths_take_approval(platform, decision, shorter, approved, i);
        assert(shorter[i] == paths[i]);
        if view_granted(platform, before.filesystem, canonical, paths[i].write) {
            let k = choose|k: int| 0 <= k < before.filesystem.len() && view_admits(
                platform,
                #[trigger] before.filesystem[k],
                canonical,
                paths[i].write,
            );
            assert(view_admits(platform, after.filesystem[k], canonical, paths[i].write));
        }
    }
}

proof fn paths_keep_authority(platform: Platform, decision: DecisionView, paths: Seq<SelectedPath>, approved: bool)
    ensures
        after_paths(platform, decision, paths, approved).authority == decision.authority,
    decreases paths.len(),
{
    if paths.len() > 0 {
        paths_keep_authority(platform, decision, paths.drop_last(), approved);
    }
}

/// Untrusted content that nobody approved is never allowed: a decision to allow it becomes one to ask,
/// and a denial stays.
pub proof fn untrusted_content_is_asked_for(decision: DecisionView, request: OperatorRequest, approved: bool)
    ensures
        request.enables_untrusted && !approved && !(decision.outcome is Deny) ==> after_trust(
            decision,
            request,
            approved,
        ).outcome is RequireApproval,
        decision.outcome is Deny ==> after_trust(decision, request, approved) == decision,
        approved || !request.enables_untrusted ==> after_trust(decision, request, approved) == decision,
        after_trust(decision, request, approved).filesystem == decision.filesystem,
        after_trust(decision, request, approved).authority == decision.authority,
{
}

/// A path that is granted already needs no approval. One that is not is asked for, and once approved is
/// granted as it was selected, for writing only where it is to be written, and nothing else is.
pub proof fn selected_paths_are_granted_once_approved(
    platform: Platform,
    decision: DecisionView,
    path: SelectedPath,
    approved: bool,
)
    ensures
        ({
            let after = after_path(platform, decision, path, approved);
            let covered = path.canonical is None || decision.authority is Ambient || view_granted(
                platform,
                decision.filesystem,
                path.canonical->0@,
                path.write,
            );
            &&& covered ==> after == decision
            &&& !covered && !approved ==> after.outcome is RequireApproval && after.filesystem == decision.filesystem
            &&& !covered && approved ==> {
                &&& after.outcome == decision.outcome
                &&& after.filesystem.drop_last() == decision.filesystem
                &&& after.filesystem.last().root == path.canonical->0@
                &&& after.filesystem.last().mode == if path.write {
                    "write"@
                } else {
                    "read"@
                }
            }
            &&& after.authority == decision.authority
            &&& after.allowed_environment == decision.allowed_environment
            &&& after.network_destinations == decision.network_destinations
        }),
{
}

/// A grant admits a path below its root, for writing only where it is a grant to write; one to write
/// lets its files be read too, and a grant to run admits neither.
pub proof fn grants_admit_by_mode(platform: Platform, item: GrantView, path: Seq<char>)
    ensures
        item.mode == "write"@ && within(platform, path, item.root) ==> view_admits(platform, item, path, true)
            && view_admits(platform, item, path, false),
        item.mode == "read"@ && within(platform, path, item.root) ==> view_admits(platform, item, path, false),
        item.mode != "write"@ ==> !view_admits(platform, item, path, true),
        item.mode != "write"@ && item.mode != "read"@ ==> !view_admits(platform, item, path, false),
        !within(platform, path, item.root) ==> !view_admits(platform, item, path, true) && !view_admits(
            platform,
            item,
            path,
            false,
        ),
{
}

/// The catalog decides only about servers of plugins: a server that it lists is held to what it lists
/// under the built-in policy, one that it does not list is denied, and without a catalog nothing
/// changes.
pub proof fn listed_servers_are_restricted(
    decision: DecisionView,
    action: Seq<char>,
    restrictions: Vec<ActionRestriction>,
    builtin: bool,
)
    ensures
        after_catalog(decision, action, None, builtin) == decision,
        !has_prefix(action, "plugin.mcp."@) ==> after_catalog(decision, action, Some(restrictions), builtin)
            == decision,
        has_prefix(action, "plugin.mcp."@) && restriction_of(restrictions@, action) is None ==> after_catalog(
            decision,
            action,
            Some(restrictions),
            builtin,
        ).outcome is Deny,
        has_prefix(action, "plugin.mcp."@) && restriction_of(restrictions@, action) is Some ==> {
            let after = after_catalog(decision, action, Some(restrictions), builtin);
            let listed = restriction_of(restrictions@, action)->0;
            &&& after.outcome == decision.outcome
            &&& builtin ==> after.filesystem == listed@.filesystem && after.allowed_environment
                == listed@.allowed_environment && after.network_destinations == listed@.network_destinations
            &&& !builtin ==> after == decision
        },
{
}

/// A restriction is found for an action exactly where one is listed for it, and it is that action's.
pub proof fn restrictions_are_found_by_action(list: Seq<ActionRestriction>, action: Seq<char>)
    ensures
        restriction_of(list, action) is Some <==> exists|i: int|
            0 <= i < list.len() && (#[trigger] list[i]).action@ == action,
        restriction_of(list, action) matches Some(found) ==> found.action@ == action && list.contains(found),
    decreases list.len(),
{
    if list.len() > 0 {
        let rest = list.skip(1);
        restrictions_are_found_by_action(rest, action);
        assert(forall|i: int| 0 <= i < rest.len() ==> #[trigger] rest[i] == list[i + 1]);
        if list[0].action@ == action {
            assert(list.contains(list[0]));
        } else {
            if restriction_of(list, action) is Some {
                let found = restriction_of(list, action)->0;
                let i = choose|i: int| 0 <= i < rest.len() && rest[i] == found;
                assert(list[i + 1] == found);
                assert(list.contains(found));
            }
            if exists|i: int| 0 <= i < list.len() && (#[trigger] list[i]).action@ == action {
                let i = choose|i: int| 0 <= i < list.len() && (#[trigger] list[i]).action@ == action;
                assert(rest[i - 1] == list[i]);
            }
        }
    }
}

/// A skill that is active can be read and run below its root in every action on files, and is granted
/// nothing else; no grant is lost.
pub proof fn active_skills_can_be_read_and_run(
    grants: Seq<GrantView>,
    skills: Seq<String>,
    roots: Seq<Entry<String>>,
    at: int,
)
    requires
        0 <= at < skills.len(),
        value_of(roots, skills[at]@) is Some,
    ensures
        with_skills(grants, skills, roots).contains(
            GrantView { root: value_of(roots, skills[at]@)->0@, mode: "read"@ },
        ),
        with_skills(grants, skills, roots).contains(
            GrantView { root: value_of(roots, skills[at]@)->0@, mode: "execute"@ },
        ),
    decreases skills.len(),
{
    let rest = with_skills(grants, skills.drop_last(), roots);
    let read = GrantView { root: value_of(roots, skills[at]@)->0@, mode: "read"@ };
    let run = GrantView { root: value_of(roots, skills[at]@)->0@, mode: "execute"@ };
    if at < skills.len() - 1 {
        active_skills_can_be_read_and_run(grants, skills.drop_last(), roots, at);
        assert(rest.contains(read) && rest.contains(run));
        if value_of(roots, skills.last()@) is Some {
            let root = value_of(roots, skills.last()@)->0@;
            let more = with_grant(rest, GrantView { root, mode: "read"@ });
            with_grant_keeps(rest, GrantView { root, mode: "read"@ }, read);
            with_grant_keeps(rest, GrantView { root, mode: "read"@ }, run);
            with_grant_keeps(more, GrantView { root, mode: "execute"@ }, read);
            with_grant_keeps(more, GrantView { root, mode: "execute"@ }, run);
        }
    } else {
        let more = with_grant(rest, read);
        with_grant_keeps(rest, read, read);
        with_grant_keeps(more, run, read);
        with_grant_keeps(more, run, run);
    }
}

/// A grant is added once, and those that were there stay.
pub proof fn with_grant_keeps(grants: Seq<GrantView>, item: GrantView, other: GrantView)
    ensures
        with_grant(grants, item).contains(item),
        grants.contains(other) ==> with_grant(grants, item).contains(other),
        with_grant(grants, item).contains(other) ==> grants.contains(other) || other == item,
        grants.contains(item) ==> with_grant(grants, item) == grants,
{
    if !grants.contains(item) {
        let list = grants.push(item);
        assert(list[grants.len() as int] == item);
        if grants.contains(other) {
            let i = choose|i: int| 0 <= i < grants.len() && grants[i] == other;
            assert(list[i] == other);
        }
        if list.contains(other) {
            let i = choose|i: int| 0 <= i < list.len() && list[i] == other;
            if i < grants.len() {
                assert(grants[i] == other);
            }
        }
    }
}

/// Skills add no grant but to read and to run what is below the root of an active one.
pub proof fn skills_grant_nothing_else(
    grants: Seq<GrantView>,
    skills: Seq<String>,
    roots: Seq<Entry<String>>,
    item: GrantView,
)
    requires
        with_skills(grants, skills, roots).contains(item),
    ensures
        grants.contains(item) || exists|i: int|
            0 <= i < skills.len() && value_of(roots, (#[trigger] skills[i])@) is Some && item.root == value_of(
                roots,
                skills[i]@,
            )->0@ && (item.mode == "read"@ || item.mode == "execute"@),
    decreases skills.len(),
{
    if skills.len() > 0 {
        let front = skills.drop_last();
        let rest = with_skills(grants, front, roots);
        let last = skills[skills.len() - 1];
        if value_of(roots, last@) is Some {
            let root = value_of(roots, last@)->0@;
            let more = with_grant(rest, GrantView { root, mode: "read"@ });
            with_grant_keeps(more, GrantView { root, mode: "execute"@ }, item);
            with_grant_keeps(rest, GrantView { root, mode: "read"@ }, item);
        }
        if rest.contains(item) {
            skills_grant_nothing_else(grants, front, roots, item);
            if !grants.contains(item) {
                let i = choose|i: int|
                    0 <= i < front.len() && value_of(roots, (#[trigger] front[i])@) is Some && item.root == value_of(
                        roots,
                        front[i]@,
                    )->0@ && (item.mode == "read"@ || item.mode == "execute"@);
                assert(skills[i] == front[i]);
            }
        }
    }
}

/// Skills are granted in actions on files alone.
pub proof fn skills_count_for_files_alone(
    decision: DecisionView,
    action: Seq<char>,
    skills: Seq<String>,
    roots: Seq<Entry<String>>,
)
    ensures
        after_skills(decision, action, skills, roots).outcome == decision.outcome,
        after_skills(decision, action, skills, roots).authority == decision.authority,
        after_skills(decision, action, skills, roots).network_destinations == decision.network_destinations,
        has_prefix(action, "filesystem."@) || action == "shell.run"@ || action == "process.spawn"@ || action
            == "git.status"@ || action == "git.diff"@ || action == "git.show"@ ==> after_skills(
            decision,
            action,
            skills,
            roots,
        ).filesystem == with_skills(decision.filesystem, skills, roots),
        !has_prefix(action, "filesystem."@) && action != "shell.run"@ && action != "process.spawn"@ && action
            != "git.status"@ && action != "git.diff"@ && action != "git.show"@ ==> after_skills(
            decision,
            action,
            skills,
            roots,
        ) == decision,
{
}

/// A path that exists is selected as it really is; one that does not is selected by its name below its
/// real parent.
pub proof fn selected_targets_are_real(platform: Platform, path: Seq<char>, finding: PathFinding)
    ensures
        finding.canonical is None ==> selected_target(platform, path, finding) is None,
        finding.canonical is Some && finding.exists ==> selected_target(platform, path, finding) == Some(
            finding.canonical->0@,
        ),
        finding.canonical is Some && !finding.exists && parent_path(platform, path) is Some && file_name(
            platform,
            path,
        ) is Some ==> selected_target(platform, path, finding) == Some(
            joined_path(platform, finding.canonical->0@, file_name(platform, path)->0),
        ),
{
}

/// Enabling is allowed to be of untrusted content only where the request says so.
pub proof fn untrusted_enabling_is_explicit(operation: PluginManagementRequest)
    ensures
        allows_untrusted(operation) <==> operation is Enable && operation->Enable_allow_untrusted,
{
}

} // verus!
