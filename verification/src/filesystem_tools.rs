//! Tools that read and write files.

use crate::config::Platform;
use crate::effects::{asks_for, effect_plan, EffectPlan};
use crate::json::{failure, json_error, json_pointer_length, json_pointer_text, pointer_length, pointer_text};
use crate::paths::{join_path, joined_path};
use crate::text::{concat3, decimal, decimal_text, optional_view, same_text};
use crate::tool_results::ShownText;
use crate::tools::{
    failed, first, forwarded, given, optional_refusal, refuses, required_refusal, Refusal, TextArgument, ToolError,
};
use vstd::prelude::*;
use vstd::string::*;

verus! {

/// Most bytes of an echoed text that are shown to the model.
pub const ECHO_LIMIT: usize = 0x8000;

/// The arguments of a tool that reads or writes files. `resolved` is the resource that the path
/// stands for and `displayed` how it is shown, or why there is none.
#[derive(Debug)]
pub struct FilesystemArguments {
    pub text: TextArgument,
    pub path: TextArgument,
    pub resolved: Result<String, ToolError>,
    pub displayed: Result<String, ToolError>,
    pub pattern: TextArgument,
    pub glob: TextArgument,
    pub regex: Result<Option<bool>, ToolError>,
    pub case_sensitive: Result<Option<bool>, ToolError>,
    pub max_matches: Result<Option<u64>, ToolError>,
    pub content: TextArgument,
    pub mode: TextArgument,
    pub old: TextArgument,
    pub new: TextArgument,
    pub replace_all: Result<Option<bool>, ToolError>,
}

/// What a tool that reads or writes files does.
#[derive(Debug)]
pub enum FilesystemPlan {
    /// Hands a text back.
    Echo(ShownText),
    List(EffectPlan),
    Read(EffectPlan),
    Search {
        plan: EffectPlan,
        pattern: String,
        glob: Option<String>,
        regex: bool,
        case_sensitive: bool,
        max_matches: u64,
    },
    Write { plan: EffectPlan, display_path: String, text: String, mode: String },
    Replace { plan: EffectPlan, display_path: String, old: String, new: String, replace_all: bool },
}

/// Why a call is refused, if so.
pub open spec fn filesystem_refusal(name: Seq<char>, arguments: FilesystemArguments) -> Option<Refusal> {
    if name == "echo"@ {
        required_refusal(arguments.text)
    } else if name == "filesystem.list"@ {
        first(optional_refusal(arguments.path), forwarded(arguments.resolved))
    } else if name == "filesystem.read"@ {
        first(required_refusal(arguments.path), forwarded(arguments.resolved))
    } else if name == "filesystem.search"@ {
        first(
            optional_refusal(arguments.path),
            first(
                forwarded(arguments.resolved),
                first(
                    required_refusal(arguments.pattern),
                    first(
                        optional_refusal(arguments.glob),
                        first(
                            forwarded(arguments.regex),
                            first(forwarded(arguments.case_sensitive), forwarded(arguments.max_matches)),
                        ),
                    ),
                ),
            ),
        )
    } else if name == "filesystem.write"@ {
        first(
            required_refusal(arguments.path),
            first(
                forwarded(arguments.resolved),
                first(
                    forwarded(arguments.displayed),
                    first(required_refusal(arguments.content), required_refusal(arguments.mode)),
                ),
            ),
        )
    } else if name == "filesystem.replace"@ {
        first(
            required_refusal(arguments.path),
            first(
                forwarded(arguments.resolved),
                first(
                    forwarded(arguments.displayed),
                    first(
                        required_refusal(arguments.old),
                        first(required_refusal(arguments.new), forwarded(arguments.replace_all)),
                    ),
                ),
            ),
        )
    } else {
        Some(Refusal::Unknown(name))
    }
}

/// A flag that was given, else its default.
pub open spec fn flag(reading: Result<Option<bool>, ToolError>, default: bool) -> bool {
    match reading {
        Ok(Some(value)) => value,
        _ => default,
    }
}

/// The plan is the one that the tool stands for.
pub open spec fn carries_out(planned: FilesystemPlan, name: Seq<char>, arguments: FilesystemArguments) -> bool {
    let resource = arguments.resolved->Ok_0@;
    match planned {
        FilesystemPlan::Echo(shown) => name == "echo"@ && given(arguments.text) == Some(shown.text) && shown.limit
            == ECHO_LIMIT,
        FilesystemPlan::List(plan) => name == "filesystem.list"@ && asks_for(plan, "filesystem.list"@, resource),
        FilesystemPlan::Read(plan) => name == "filesystem.read"@ && asks_for(plan, "filesystem.read"@, resource),
        FilesystemPlan::Search { plan, pattern, glob, regex, case_sensitive, max_matches } => {
            &&& name == "filesystem.search"@
            &&& asks_for(plan, "filesystem.search"@, resource)
            &&& given(arguments.pattern) == Some(pattern)
            &&& given(arguments.glob) == glob
            &&& regex == flag(arguments.regex, true)
            &&& case_sensitive == flag(arguments.case_sensitive, true)
            &&& max_matches == match arguments.max_matches {
                Ok(Some(value)) => value as int,
                _ => 100,
            }
        },
        FilesystemPlan::Write { plan, display_path, text, mode } => {
            &&& name == "filesystem.write"@
            &&& asks_for(plan, "filesystem.write"@, resource)
            &&& display_path == arguments.displayed->Ok_0
            &&& given(arguments.content) == Some(text)
            &&& given(arguments.mode) == Some(mode)
        },
        FilesystemPlan::Replace { plan, display_path, old, new, replace_all } => {
            &&& name == "filesystem.replace"@
            &&& asks_for(plan, "filesystem.write"@, resource)
            &&& display_path == arguments.displayed->Ok_0
            &&& given(arguments.old) == Some(old)
            &&& given(arguments.new) == Some(new)
            &&& replace_all == flag(arguments.replace_all, false)
        },
    }
}

fn read_flag(reading: &Result<Option<bool>, ToolError>, default: bool) -> (result: Result<bool, ToolError>)
    ensures
        match *reading {
            Err(error) => result == Err::<bool, ToolError>(error),
            Ok(_) => result == Ok::<bool, ToolError>(flag(*reading, default)),
        },
{
    match reading {
        Err(error) => Err(error.clone()),
        Ok(Some(value)) => Ok(*value),
        Ok(None) => Ok(default),
    }
}

fn read_finding(finding: &Result<String, ToolError>) -> (result: Result<String, ToolError>)
    ensures
        result == *finding,
{
    match finding {
        Err(error) => Err(error.clone()),
        Ok(text) => Ok(text.clone()),
    }
}

fn plan_search(arguments: &FilesystemArguments) -> (result: Result<FilesystemPlan, ToolError>)
    ensures
        match filesystem_refusal("filesystem.search"@, *arguments) {
            Some(refusal) => refuses(result, refusal),
            None => result matches Ok(planned) && carries_out(planned, "filesystem.search"@, *arguments),
        },
{
    proof {
        tool_names_differ();
    }
    let _ = arguments.path.optional()?;
    let resource = read_finding(&arguments.resolved)?;
    let pattern = arguments.pattern.required()?;
    let glob = arguments.glob.optional()?;
    let regex = read_flag(&arguments.regex, true)?;
    let case_sensitive = read_flag(&arguments.case_sensitive, true)?;
    let max_matches: u64 = match &arguments.max_matches {
        Err(error) => {
            return Err(error.clone());
        },
        Ok(Some(value)) => *value,
        Ok(None) => 100,
    };
    Ok(
        FilesystemPlan::Search {
            plan: effect_plan("filesystem.search", resource.as_str()),
            pattern,
            glob,
            regex,
            case_sensitive,
            max_matches,
        },
    )
}

/// What a tool that reads or writes files does with its arguments.
pub fn plan_filesystem(name: &str, arguments: &FilesystemArguments) -> (result: Result<FilesystemPlan, ToolError>)
    ensures
        match filesystem_refusal(name@, *arguments) {
            Some(refusal) => refuses(result, refusal),
            None => result matches Ok(planned) && carries_out(planned, name@, *arguments),
        },
{
    if same_text(name, "echo") {
        let text = arguments.text.required()?;
        Ok(FilesystemPlan::Echo(ShownText { text, limit: ECHO_LIMIT }))
    } else if same_text(name, "filesystem.list") {
        let _ = arguments.path.optional()?;
        let resource = read_finding(&arguments.resolved)?;
        Ok(FilesystemPlan::List(effect_plan("filesystem.list", resource.as_str())))
    } else if same_text(name, "filesystem.read") {
        let _ = arguments.path.required()?;
        let resource = read_finding(&arguments.resolved)?;
        Ok(FilesystemPlan::Read(effect_plan("filesystem.read", resource.as_str())))
    } else if same_text(name, "filesystem.search") {
        plan_search(arguments)
    } else if same_text(name, "filesystem.write") {
        let _ = arguments.path.required()?;
        let resource = read_finding(&arguments.resolved)?;
        let display_path = read_finding(&arguments.displayed)?;
        let text = arguments.content.required()?;
        let mode = arguments.mode.required()?;
        Ok(
            FilesystemPlan::Write {
                plan: effect_plan("filesystem.write", resource.as_str()),
                display_path,
                text,
                mode,
            },
        )
    } else if same_text(name, "filesystem.replace") {
        let _ = arguments.path.required()?;
        let resource = read_finding(&arguments.resolved)?;
        let display_path = read_finding(&arguments.displayed)?;
        let old = arguments.old.required()?;
        let new = arguments.new.required()?;
        let replace_all = read_flag(&arguments.replace_all, false)?;
        Ok(
            FilesystemPlan::Replace {
                plan: effect_plan("filesystem.write", resource.as_str()),
                display_path,
                old,
                new,
                replace_all,
            },
        )
    } else {
        Err(ToolError::Unknown(name.to_owned()))
    }
}

proof fn tool_names_differ()
    ensures
        "filesystem.search"@ != "echo"@,
        "filesystem.search"@ != "filesystem.list"@,
        "filesystem.search"@ != "filesystem.read"@,
{
    reveal_strlit("echo");
    reveal_strlit("filesystem.list");
    reveal_strlit("filesystem.read");
    reveal_strlit("filesystem.search");
    assert("echo"@.len() == 4);
    assert("filesystem.list"@.len() == 15);
    assert("filesystem.read"@.len() == 15);
    assert("filesystem.search"@.len() == 17);
}

/// What a document of found files is read for.
#[derive(Clone, Copy, Debug, PartialEq, Eq, Structural)]
pub enum Findings {
    /// The entries of a directory.
    Entries,
    /// The matches of a search.
    Matches,
}

/// The array of a document.
pub open spec fn array_of(kind: Findings) -> Seq<char> {
    match kind {
        Findings::Entries => "/entries"@,
        Findings::Matches => "/matches"@,
    }
}

/// The name that an item of the array holds, relative to the resource.
pub open spec fn item_name(document: Seq<u8>, kind: Findings, index: nat) -> Option<Seq<char>> {
    match kind {
        Findings::Entries => json_pointer_text(document, "/entries/"@ + decimal(index) + "/name"@),
        Findings::Matches => json_pointer_text(document, "/matches/"@ + decimal(index) + "/path"@),
    }
}

/// State of the runtime and of git, which is shown under unrestricted access alone.
pub open spec fn hidden_name(name: Option<Seq<char>>) -> bool {
    name == Some(".colossus"@) || name == Some(".git"@)
}

/// An item that is shown: its place in the array, and its resource where it has a name.
#[derive(Debug)]
pub struct FoundItem {
    pub index: usize,
    pub resource: Option<String>,
}

/// A shown item as characters.
pub ghost struct FoundView {
    pub index: nat,
    pub resource: Option<Seq<char>>,
}

/// Shown items as characters.
pub open spec fn found_views(list: Seq<FoundItem>) -> Seq<FoundView> {
    list.map_values(|item: FoundItem| FoundView { index: item.index as nat, resource: optional_view(item.resource) })
}

/// The items among the first ones of the array that are shown.
pub open spec fn shown_items(
    platform: Platform,
    document: Seq<u8>,
    kind: Findings,
    count: nat,
    root: Seq<char>,
    unrestricted: bool,
) -> Seq<
    FoundView,
>
    decreases count,
{
    if count == 0 {
        Seq::empty()
    } else {
        let index = (count - 1) as nat;
        let before = shown_items(platform, document, kind, index, root, unrestricted);
        let name = item_name(document, kind, index);
        if kind is Entries && !unrestricted && hidden_name(name) {
            before
        } else {
            before.push(
                FoundView {
                    index,
                    resource: match name {
                        Some(text) => Some(joined_path(platform, root, text)),
                        None => None,
                    },
                },
            )
        }
    }
}

/// Why a document of found files is refused as a whole, if so.
pub open spec fn document_refusal(document: Seq<u8>, kind: Findings) -> Option<Refusal> {
    match json_error(document) {
        Some(reason) => Some(Refusal::Failed(reason)),
        None => if json_pointer_length(document, array_of(kind)) is None {
            Some(
                Refusal::Failed(
                    match kind {
                        Findings::Entries => "filesystem.list returned invalid JSON"@,
                        Findings::Matches => "filesystem.search returned invalid JSON"@,
                    },
                ),
            )
        } else {
            None
        },
    }
}

fn read_name(document: &[u8], kind: Findings, index: usize) -> (name: Option<String>)
    ensures
        optional_view(name) == item_name(document@, kind, index as nat),
{
    let number = decimal_text(index as u64);
    let pointer = match kind {
        Findings::Entries => concat3("/entries/", number.as_str(), "/name"),
        Findings::Matches => concat3("/matches/", number.as_str(), "/path"),
    };
    pointer_text(document, pointer.as_str())
}

/// The items of a document of found files that are shown, with the resources that their names stand
/// for.
pub fn found_items(
    platform: Platform,
    document: &[u8],
    kind: Findings,
    root: &str,
    unrestricted: bool,
) -> (result: Result<
    Vec<FoundItem>,
    ToolError,
>)
    ensures
        match document_refusal(document@, kind) {
            Some(refusal) => refuses(result, refusal),
            None => result matches Ok(list) && found_views(list@) == shown_items(
                platform,
                document@,
                kind,
                json_pointer_length(document@, array_of(kind))->0,
                root@,
                unrestricted,
            ),
        },
{
    if let Some(reason) = failure(document) {
        return failed(reason.as_str());
    }
    let array = match kind {
        Findings::Entries => "/entries",
        Findings::Matches => "/matches",
    };
    let count: usize = match pointer_length(document, array) {
        Some(count) => count,
        None => {
            return match kind {
                Findings::Entries => failed("filesystem.list returned invalid JSON"),
                Findings::Matches => failed("filesystem.search returned invalid JSON"),
            };
        },
    };
    let mut list: Vec<FoundItem> = Vec::new();
    let mut i: usize = 0;
    proof {
        assert(found_views(list@) =~= Seq::<FoundView>::empty());
    }
    while i < count
        invariant
            i <= count,
            found_views(list@) == shown_items(platform, document@, kind, i as nat, root@, unrestricted),
        decreases count - i,
    {
        let name = read_name(document, kind, i);
        let ghost before = list@;
        let hidden = match &name {
            Some(text) => same_text(text.as_str(), ".colossus") || same_text(text.as_str(), ".git"),
            None => false,
        };
        let entries = match kind {
            Findings::Entries => true,
            Findings::Matches => false,
        };
        if !(entries && !unrestricted && hidden) {
            let resource = match &name {
                Some(text) => Some(join_path(platform, root, text.as_str())),
                None => None,
            };
            list.push(FoundItem { index: i, resource });
            proof {
                let item = list@.last();
                assert(found_views(list@) =~= found_views(before).push(
                    FoundView { index: item.index as nat, resource: optional_view(item.resource) },
                ));
            }
        }
        i = i + 1;
    }
    Ok(list)
}

/// An item as it is shown.
#[derive(Debug)]
pub struct ShownItem {
    pub index: usize,
    pub path: String,
}

/// The failure of an item without a name.
pub open spec fn nameless(kind: Findings) -> Seq<char> {
    match kind {
        Findings::Entries => "filesystem.list entry name is absent"@,
        Findings::Matches => "search match path is absent"@,
    }
}

/// Why the items are refused, if so: the first that has no name or cannot be shown.
pub open spec fn items_refusal(
    kind: Findings,
    items: Seq<FoundItem>,
    displayed: Seq<Result<String, ToolError>>,
) -> Option<Refusal>
    decreases items.len(),
{
    if items.len() == 0 {
        None
    } else if items[0].resource is None {
        Some(Refusal::Failed(nameless(kind)))
    } else {
        match displayed[0] {
            Err(error) => Some(Refusal::Forward(error)),
            Ok(_) => items_refusal(kind, items.skip(1), displayed.skip(1)),
        }
    }
}

/// The items with the paths under which they are shown. `displayed` holds, for each item, how its
/// resource is shown or why it is not.
pub fn show_items(
    kind: Findings,
    items: &Vec<FoundItem>,
    displayed: &Vec<Result<String, ToolError>>,
) -> (result: Result<
    Vec<ShownItem>,
    ToolError,
>)
    requires
        displayed@.len() == items@.len(),
    ensures
        match items_refusal(kind, items@, displayed@) {
            Some(refusal) => refuses(result, refusal),
            None => result matches Ok(list) && {
                &&& list@.len() == items@.len()
                &&& forall|i: int|
                    0 <= i < list@.len() ==> (#[trigger] list@[i]).index == items@[i].index && displayed@[i] == Ok::<
                        String,
                        ToolError,
                    >(list@[i].path)
            },
        },
{
    let mut list: Vec<ShownItem> = Vec::new();
    let mut i: usize = 0;
    proof {
        assert(items@.skip(0) =~= items@);
        assert(displayed@.skip(0) =~= displayed@);
    }
    while i < items.len()
        invariant
            i <= items@.len(),
            displayed@.len() == items@.len(),
            items_refusal(kind, items@, displayed@) == items_refusal(
                kind,
                items@.skip(i as int),
                displayed@.skip(i as int),
            ),
            list@.len() == i,
            forall|j: int|
                0 <= j < i ==> (#[trigger] list@[j]).index == items@[j].index && displayed@[j] == Ok::<
                    String,
                    ToolError,
                >(list@[j].path),
        decreases items@.len() - i,
    {
        proof {
            assert(items@.skip(i as int)[0] == items@[i as int]);
            assert(displayed@.skip(i as int)[0] == displayed@[i as int]);
            assert(items@.skip(i as int).skip(1) =~= items@.skip(i + 1));
            assert(displayed@.skip(i as int).skip(1) =~= displayed@.skip(i + 1));
        }
        if items[i].resource.is_none() {
            return match kind {
                Findings::Entries => failed("filesystem.list entry name is absent"),
                Findings::Matches => failed("search match path is absent"),
            };
        }
        match &displayed[i] {
            Err(error) => {
                return Err(error.clone());
            },
            Ok(path) => {
                list.push(ShownItem { index: items[i].index, path: path.clone() });
            },
        }
        i = i + 1;
    }
    Ok(list)
}

/// Without unrestricted access no listing shows the state of the runtime or of git.
pub proof fn runtime_state_is_not_listed(
    platform: Platform,
    document: Seq<u8>,
    count: nat,
    root: Seq<char>,
    position: int,
)
    requires
        0 <= position < shown_items(platform, document, Findings::Entries, count, root, false).len(),
    ensures
        !hidden_name(
            item_name(
                document,
                Findings::Entries,
                shown_items(platform, document, Findings::Entries, count, root, false)[position].index,
            ),
        ),
    decreases count,
{
    let index = (count - 1) as nat;
    let before = shown_items(platform, document, Findings::Entries, index, root, false);
    if position < before.len() {
        runtime_state_is_not_listed(platform, document, index, root, position);
    }
}

proof fn reveal_tool_names()
    ensures
        "echo"@.len() == 4,
        "filesystem.list"@.len() == 15 && "filesystem.list"@[11] == 'l',
        "filesystem.read"@.len() == 15 && "filesystem.read"@[11] == 'r',
        "filesystem.search"@.len() == 17,
        "filesystem.write"@.len() == 16,
        "filesystem.replace"@.len() == 18,
{
    reveal_strlit("echo");
    reveal_strlit("filesystem.list");
    reveal_strlit("filesystem.read");
    reveal_strlit("filesystem.search");
    reveal_strlit("filesystem.write");
    reveal_strlit("filesystem.replace");
}

/// A plan does what the tool of its name does, upon the path that was resolved, with the texts that were
/// given; replacing is a write.
pub proof fn plans_carry_the_given_texts(planned: FilesystemPlan, name: Seq<char>, arguments: FilesystemArguments)
    requires
        carries_out(planned, name, arguments),
    ensures
        planned is Echo <==> name == "echo"@,
        planned is List <==> name == "filesystem.list"@,
        planned is Read <==> name == "filesystem.read"@,
        planned is Search <==> name == "filesystem.search"@,
        planned is Write <==> name == "filesystem.write"@,
        planned is Replace <==> name == "filesystem.replace"@,
        planned matches FilesystemPlan::Echo(shown) ==> arguments.text == TextArgument::Present(shown.text),
        planned matches FilesystemPlan::List(plan) ==> plan.action@ == name && plan.resource@
            == arguments.resolved->Ok_0@,
        planned matches FilesystemPlan::Read(plan) ==> plan.action@ == name && plan.resource@
            == arguments.resolved->Ok_0@,
        planned matches FilesystemPlan::Search { plan, pattern, glob, regex, case_sensitive, max_matches } ==> {
            &&& plan.action@ == name && plan.resource@ == arguments.resolved->Ok_0@
            &&& arguments.pattern == TextArgument::Present(pattern)
            &&& arguments.glob matches TextArgument::Present(text) ==> glob == Some(text)
            &&& !(arguments.glob is Present) ==> glob is None
            &&& arguments.regex matches Ok(Some(asked)) ==> regex == asked
            &&& arguments.regex matches Ok(None) ==> regex
            &&& arguments.case_sensitive matches Ok(Some(asked)) ==> case_sensitive == asked
            &&& arguments.case_sensitive matches Ok(None) ==> case_sensitive
            &&& arguments.max_matches matches Ok(Some(asked)) ==> max_matches == asked
            &&& arguments.max_matches matches Ok(None) ==> max_matches == 100
        },
        planned matches FilesystemPlan::Write { plan, display_path, text, mode } ==> {
            &&& plan.action@ == "filesystem.write"@ && plan.resource@ == arguments.resolved->Ok_0@
            &&& display_path == arguments.displayed->Ok_0
            &&& arguments.content == TextArgument::Present(text)
            &&& arguments.mode == TextArgument::Present(mode)
        },
        planned matches FilesystemPlan::Replace { plan, display_path, old, new, replace_all } ==> {
            &&& plan.action@ == "filesystem.write"@ && plan.resource@ == arguments.resolved->Ok_0@
            &&& display_path == arguments.displayed->Ok_0
            &&& arguments.old == TextArgument::Present(old)
            &&& arguments.new == TextArgument::Present(new)
            &&& arguments.replace_all matches Ok(Some(asked)) ==> replace_all == asked
            &&& arguments.replace_all matches Ok(None) ==> !replace_all
        },
{
    reveal_tool_names();
}

/// A call whose arguments were all read is refused only where it has no such tool; what a tool does not
/// require may be absent.
pub proof fn complete_file_calls_are_planned(name: Seq<char>, arguments: FilesystemArguments)
    requires
        arguments.resolved is Ok && arguments.displayed is Ok,
        arguments.regex is Ok && arguments.case_sensitive is Ok && arguments.max_matches is Ok
            && arguments.replace_all is Ok,
        arguments.text is Present && arguments.pattern is Present && arguments.content is Present
            && arguments.mode is Present && arguments.old is Present && arguments.new is Present,
        !(arguments.path is Invalid) && !(arguments.glob is Invalid),
    ensures
        name == "echo"@ || name == "filesystem.list"@ || name == "filesystem.search"@ ==> filesystem_refusal(
            name,
            arguments,
        ) is None,
        name == "filesystem.read"@ || name == "filesystem.write"@ || name == "filesystem.replace"@ ==> (
        filesystem_refusal(name, arguments) is None <==> arguments.path is Present),
        !seq![
            "echo"@,
            "filesystem.list"@,
            "filesystem.read"@,
            "filesystem.search"@,
            "filesystem.write"@,
            "filesystem.replace"@,
        ].contains(name) ==> filesystem_refusal(name, arguments) == Some(Refusal::Unknown(name)),
{
    reveal_tool_names();
    let names = seq![
        "echo"@,
        "filesystem.list"@,
        "filesystem.read"@,
        "filesystem.search"@,
        "filesystem.write"@,
        "filesystem.replace"@,
    ];
    assert(names[0] == "echo"@ && names[1] == "filesystem.list"@ && names[2] == "filesystem.read"@);
    assert(names[3] == "filesystem.search"@ && names[4] == "filesystem.write"@ && names[5] == "filesystem.replace"@);
}

/// Nothing is written or replaced without its texts: the path, the new content and, to replace, the old.
pub proof fn writes_need_their_texts(arguments: FilesystemArguments)
    ensures
        filesystem_refusal("filesystem.write"@, arguments) is None ==> arguments.path is Present
            && arguments.content is Present && arguments.mode is Present && arguments.resolved is Ok,
        filesystem_refusal("filesystem.replace"@, arguments) is None ==> arguments.path is Present
            && arguments.old is Present && arguments.new is Present && arguments.resolved is Ok,
        filesystem_refusal("filesystem.read"@, arguments) is None ==> arguments.path is Present
            && arguments.resolved is Ok,
        filesystem_refusal("filesystem.search"@, arguments) is None ==> arguments.pattern is Present
            && arguments.resolved is Ok,
{
    reveal_tool_names();
}

/// Every item that was found is shown below the root it was found in, but for the runtime's and git's
/// own directories in a listing that is restricted; an unrestricted listing and a search show all.
pub proof fn found_items_are_shown(
    platform: Platform,
    document: Seq<u8>,
    kind: Findings,
    count: nat,
    root: Seq<char>,
    unrestricted: bool,
    index: nat,
)
    requires
        index < count,
        kind is Matches || unrestricted || (item_name(document, kind, index) != Some(".colossus"@) && item_name(
            document,
            kind,
            index,
        ) != Some(".git"@)),
    ensures
        shown_items(platform, document, kind, count, root, unrestricted).contains(
            (FoundView {
                index,
                resource: match item_name(document, kind, index) {
                    Some(text) => Some(joined_path(platform, root, text)),
                    None => None,
                },
            }),
        ),
    decreases count,
{
    let last = (count - 1) as nat;
    let before = shown_items(platform, document, kind, last, root, unrestricted);
    let all = shown_items(platform, document, kind, count, root, unrestricted);
    let item = FoundView {
        index,
        resource: match item_name(document, kind, index) {
            Some(text) => Some(joined_path(platform, root, text)),
            None => None,
        },
    };
    if index < last {
        found_items_are_shown(platform, document, kind, last, root, unrestricted, index);
        let i = choose|i: int| 0 <= i < before.len() && before[i] == item;
        assert(all[i] == item);
    } else {
        assert(all[before.len() as int] == item);
    }
}

/// Items are shown exactly where each has a name and each could be displayed.
pub proof fn named_items_are_shown(kind: Findings, items: Seq<FoundItem>, displayed: Seq<Result<String, ToolError>>)
    requires
        items.len() == displayed.len(),
    ensures
        items_refusal(kind, items, displayed) is None <==> forall|i: int|
            0 <= i < items.len() ==> (#[trigger] items[i]).resource is Some && displayed[i] is Ok,
    decreases items.len(),
{
    if items.len() > 0 {
        let rest = items.skip(1);
        let shown = displayed.skip(1);
        named_items_are_shown(kind, rest, shown);
        assert(forall|i: int| 0 <= i < rest.len() ==> #[trigger] rest[i] == items[i + 1] && shown[i] == displayed[i + 1]);
        if items_refusal(kind, items, displayed) is None {
            assert forall|i: int| 0 <= i < items.len() implies (#[trigger] items[i]).resource is Some
                && displayed[i] is Ok by {
                if i > 0 {
                    assert(rest[i - 1] == items[i]);
                }
            }
        }
    }
}

/// A listing is read from the entries of its document and a search from its matches; a document without
/// them, or one that is no JSON, is refused.
pub proof fn findings_are_read_from_their_array(document: Seq<u8>)
    ensures
        document_refusal(document, Findings::Entries) is None <==> json_error(document) is None && json_pointer_length(
            document,
            "/entries"@,
        ) is Some,
        document_refusal(document, Findings::Matches) is None <==> json_error(document) is None && json_pointer_length(
            document,
            "/matches"@,
        ) is Some,
        array_of(Findings::Entries) == "/entries"@,
        array_of(Findings::Matches) == "/matches"@,
{
}

/// An entry is named by its name and a match by its path, each under its own place in the document.
pub proof fn items_are_named_in_the_document(document: Seq<u8>, index: nat)
    ensures
        item_name(document, Findings::Entries, index) == json_pointer_text(
            document,
            "/entries/"@ + decimal(index) + "/name"@,
        ),
        item_name(document, Findings::Matches, index) == json_pointer_text(
            document,
            "/matches/"@ + decimal(index) + "/path"@,
        ),
{
}

} // verus!
