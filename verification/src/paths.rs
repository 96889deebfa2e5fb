//! Paths as text, on the platforms whose paths differ: `/` between components, or on Windows drives
//! and shares with `\` and `/`.

use crate::config::Platform;
use crate::text::{
    characters, concat2, concat3, is_lower, is_upper, lower, lower_char, lowercase_char, same_text, text_of, upper,
};
use vstd::prelude::*;
use vstd::string::*;

verus! {

/// The kinds of what a path of Windows may begin with, in their order.
#[derive(Clone, Copy, Debug, PartialEq, Eq, Structural)]
pub enum PrefixKind {
    /// `\\?\name`.
    Verbatim,
    /// `\\?\UNC\server\share`.
    VerbatimShare,
    /// `\\?\C:`.
    VerbatimDisk,
    /// `\\.\device`.
    Device,
    /// `\\server\share`.
    Share,
    /// `C:`.
    Disk,
}

/// Which characters stand between components.
#[derive(Clone, Copy, Debug, PartialEq, Eq, Structural)]
pub enum Separators {
    /// `/`.
    Slash,
    /// `/` and `\`.
    Both,
    /// `\`; everything else is taken as it is written, a `.` too.
    Backslash,
}

/// A character stands between components.
pub open spec fn separates(separators: Separators, c: char) -> bool {
    match separators {
        Separators::Slash => c == '/',
        Separators::Both => c == '/' || c == '\\',
        Separators::Backslash => c == '\\',
    }
}

fn is_separator(separators: Separators, c: char) -> (yes: bool)
    ensures
        yes == separates(separators, c),
{
    match separators {
        Separators::Slash => c == '/',
        Separators::Both => c == '/' || c == '\\',
        Separators::Backslash => c == '\\',
    }
}

/// What a path begins with on Windows: its kind, its one or two names, and its length in characters.
pub ghost struct PrefixView {
    pub kind: PrefixKind,
    pub first: Seq<char>,
    pub second: Seq<char>,
    pub length: int,
}

/// The number of characters before the first separator from `at` on.
pub open spec fn run(text: Seq<char>, at: int, separators: Separators) -> nat
    decreases text.len() - at,
{
    if at < 0 || at >= text.len() || separates(separators, text[at]) {
        0
    } else {
        1 + run(text, at + 1, separators)
    }
}

/// A letter and a colon stand at `at`.
pub open spec fn drive_at(text: Seq<char>, at: int) -> bool {
    at + 1 < text.len() && (is_lower(text[at]) || is_upper(text[at])) && text[at + 1] == ':'
}

/// The letter of a drive, in lower case.
pub open spec fn drive_letter(text: Seq<char>, at: int) -> Seq<char> {
    seq![lower_char(text[at])]
}

/// The text begins with `\\?\`.
pub open spec fn begins_verbatim(path: Seq<char>) -> bool {
    path.len() >= 4 && path[0] == '\\' && path[1] == '\\' && path[2] == '?' && path[3] == '\\'
}

/// `UNC` and a separator follow `\\?\`.
pub open spec fn names_share(path: Seq<char>) -> bool {
    path.len() >= 8 && path[4] == 'U' && path[5] == 'N' && path[6] == 'C' && separates(Separators::Both, path[7])
}

/// The text begins with two separators.
pub open spec fn begins_double(path: Seq<char>) -> bool {
    path.len() >= 2 && separates(Separators::Both, path[0]) && separates(Separators::Both, path[1])
}

/// A server and a share from `at` on; the share is empty where there is none.
pub open spec fn share_at(path: Seq<char>, at: int, separators: Separators) -> (nat, nat) {
    let server = run(path, at, separators);
    (server, run(path, at + server + 1, separators))
}

/// What a path begins with, where that is neither a separator nor a name.
pub open spec fn prefix(platform: Platform, path: Seq<char>) -> Option<PrefixView> {
    if platform != Platform::Windows {
        None
    } else if begins_verbatim(path) {
        if names_share(path) {
            let (server, share) = share_at(path, 8, Separators::Backslash);
            Some(
                PrefixView {
                    kind: PrefixKind::VerbatimShare,
                    first: path.subrange(8, 8 + server as int),
                    second: if share > 0 {
                        path.subrange((8 + server + 1) as int, (8 + server + 1 + share) as int)
                    } else {
                        Seq::empty()
                    },
                    length: if share > 0 {
                        8 + server + 1 + share
                    } else {
                        8 + server
                    } as int,
                },
            )
        } else if drive_at(path, 4) && (path.len() == 6 || separates(Separators::Both, path[6])) {
            Some(
                PrefixView {
                    kind: PrefixKind::VerbatimDisk,
                    first: drive_letter(path, 4),
                    second: Seq::empty(),
                    length: 6,
                },
            )
        } else {
            let name = run(path, 4, Separators::Backslash);
            Some(
                PrefixView {
                    kind: PrefixKind::Verbatim,
                    first: path.subrange(4, 4 + name as int),
                    second: Seq::empty(),
                    length: 4 + name as int,
                },
            )
        }
    } else if begins_double(path) {
        if path.len() >= 4 && path[2] == '.' && separates(Separators::Both, path[3]) {
            let name = run(path, 4, Separators::Both);
            Some(
                PrefixView {
                    kind: PrefixKind::Device,
                    first: path.subrange(4, 4 + name as int),
                    second: Seq::empty(),
                    length: 4 + name as int,
                },
            )
        } else {
            let (server, share) = share_at(path, 2, Separators::Both);
            if server > 0 && share > 0 {
                Some(
                    PrefixView {
                        kind: PrefixKind::Share,
                        first: path.subrange(2, 2 + server as int),
                        second: path.subrange((2 + server + 1) as int, (2 + server + 1 + share) as int),
                        length: 2 + server + 1 + share as int,
                    },
                )
            } else {
                None
            }
        }
    } else if drive_at(path, 0) {
        Some(PrefixView { kind: PrefixKind::Disk, first: drive_letter(path, 0), second: Seq::empty(), length: 2 })
    } else {
        None
    }
}

/// The prefix is taken as it is written.
pub open spec fn is_verbatim(kind: PrefixKind) -> bool {
    kind is Verbatim || kind is VerbatimShare || kind is VerbatimDisk
}

/// The number of characters of the prefix.
pub open spec fn prefix_length(platform: Platform, path: Seq<char>) -> int {
    match prefix(platform, path) {
        Some(found) => found.length,
        None => 0,
    }
}

/// What separates the components of a path.
pub open spec fn separators_of(platform: Platform, path: Seq<char>) -> Separators {
    if platform != Platform::Windows {
        Separators::Slash
    } else {
        match prefix(platform, path) {
            Some(found) if is_verbatim(found.kind) => Separators::Backslash,
            _ => Separators::Both,
        }
    }
}

/// A character begins a path at the root.
pub open spec fn is_root(platform: Platform, c: char) -> bool {
    c == '/' || (platform == Platform::Windows && c == '\\')
}

/// A separator follows the prefix.
pub open spec fn root_written(platform: Platform, path: Seq<char>) -> bool {
    let at = prefix_length(platform, path);
    at < path.len() && is_root(platform, path[at])
}

/// The path begins at a root: it is written, or every prefix but a drive stands for it.
pub open spec fn rooted(platform: Platform, path: Seq<char>) -> bool {
    root_written(platform, path) || (prefix(platform, path) matches Some(found) && found.kind != PrefixKind::Disk)
}

/// The path names its place whatever the current directory is: on Windows it also has a prefix.
pub open spec fn absolute(platform: Platform, path: Seq<char>) -> bool {
    rooted(platform, path) && (platform == Platform::Windows ==> prefix(platform, path) is Some)
}

/// Where the names of a path begin.
pub open spec fn body_at(platform: Platform, path: Seq<char>) -> int {
    prefix_length(platform, path) + if root_written(platform, path) {
        1int
    } else {
        0
    }
}

/// The path behind its prefix and its root.
pub open spec fn body(platform: Platform, path: Seq<char>) -> Seq<char> {
    path.skip(body_at(platform, path))
}

/// A prefix that was found.
struct Found {
    kind: PrefixKind,
    first: String,
    second: String,
    length: usize,
}

impl Found {
    spec fn shown(self) -> PrefixView {
        PrefixView { kind: self.kind, first: self.first@, second: self.second@, length: self.length as int }
    }
}

fn run_length(text: &Vec<char>, at: usize, separators: Separators) -> (end: usize)
    requires
        at <= text@.len(),
    ensures
        end == at + run(text@, at as int, separators),
        end <= text@.len(),
{
    let mut end: usize = at;
    while end < text.len() && !is_separator(separators, text[end])
        invariant
            at <= end <= text@.len(),
            run(text@, at as int, separators) == end - at + run(text@, end as int, separators),
        decreases text@.len() - end,
    {
        end = end + 1;
    }
    end
}

fn is_drive_at(text: &Vec<char>, at: usize) -> (yes: bool)
    requires
        at <= text@.len(),
    ensures
        yes == drive_at(text@, at as int),
{
    text.len() - at >= 2 && (lower(text[at]) || upper(text[at])) && text[at + 1] == ':'
}

/// The bounds of the name behind the separator at `at`; equal where there is none.
fn next_run(text: &Vec<char>, at: usize, separators: Separators) -> (bounds: (usize, usize))
    requires
        at <= text@.len(),
    ensures
        bounds.0 <= bounds.1 <= text@.len(),
        bounds.1 - bounds.0 == run(text@, at + 1, separators),
        at < text@.len() ==> bounds.0 == at + 1,
        at == text@.len() ==> run(text@, at + 1, separators) == 0,
{
    if at < text.len() {
        let end = run_length(text, at + 1, separators);
        (at + 1, end)
    } else {
        (at, at)
    }
}

fn drive_name(text: &Vec<char>, at: usize) -> (name: String)
    requires
        drive_at(text@, at as int),
    ensures
        name@ == drive_letter(text@, at as int),
{
    let mut name = String::new();
    name.push(lowercase_char(text[at]));
    proof {
        assert(name@ =~= drive_letter(text@, at as int));
    }
    name
}

fn find_verbatim(path: &Vec<char>) -> (found: Found)
    requires
        begins_verbatim(path@),
    ensures
        prefix(Platform::Windows, path@) == Some(found.shown()),
        found.length <= path@.len(),
{
    if path.len() >= 8 && path[4] == 'U' && path[5] == 'N' && path[6] == 'C' && is_separator(
        Separators::Both,
        path[7],
    ) {
        let server = run_length(path, 8, Separators::Backslash);
        let (start, end) = next_run(path, server, Separators::Backslash);
        let first = text_of(path, 8, server);
        let second = text_of(path, start, end);
        let length: usize = if end > start {
            end
        } else {
            server
        };
        proof {
            if end == start {
                assert(second@ =~= Seq::<char>::empty());
            }
        }
        Found { kind: PrefixKind::VerbatimShare, first, second, length }
    } else if is_drive_at(path, 4) && (path.len() == 6 || is_separator(Separators::Both, path[6])) {
        Found { kind: PrefixKind::VerbatimDisk, first: drive_name(path, 4), second: String::new(), length: 6 }
    } else {
        let end = run_length(path, 4, Separators::Backslash);
        Found { kind: PrefixKind::Verbatim, first: text_of(path, 4, end), second: String::new(), length: end }
    }
}

fn find_prefix(platform: Platform, path: &Vec<char>) -> (found: Option<Found>)
    ensures
        match found {
            Some(item) => prefix(platform, path@) == Some(item.shown()) && item.length <= path@.len(),
            None => prefix(platform, path@) is None,
        },
{
    if platform != Platform::Windows {
        return None;
    }
    if path.len() >= 4 && path[0] == '\\' && path[1] == '\\' && path[2] == '?' && path[3] == '\\' {
        return Some(find_verbatim(path));
    }
    if path.len() >= 2 && is_separator(Separators::Both, path[0]) && is_separator(Separators::Both, path[1]) {
        if path.len() >= 4 && path[2] == '.' && is_separator(Separators::Both, path[3]) {
            let end = run_length(path, 4, Separators::Both);
            return Some(
                Found { kind: PrefixKind::Device, first: text_of(path, 4, end), second: String::new(), length: end },
            );
        }
        let server = run_length(path, 2, Separators::Both);
        let (start, end) = next_run(path, server, Separators::Both);
        if server > 2 && end > start {
            let first = text_of(path, 2, server);
            let second = text_of(path, start, end);
            return Some(Found { kind: PrefixKind::Share, first, second, length: end });
        }
        return None;
    }
    if is_drive_at(path, 0) {
        return Some(
            Found { kind: PrefixKind::Disk, first: drive_name(path, 0), second: String::new(), length: 2 },
        );
    }
    None
}

fn verbatim_kind(kind: PrefixKind) -> (yes: bool)
    ensures
        yes == is_verbatim(kind),
{
    match kind {
        PrefixKind::Verbatim | PrefixKind::VerbatimShare | PrefixKind::VerbatimDisk => true,
        _ => false,
    }
}

/// How a path is taken apart: where its prefix ends and its names begin, and what separates them.
struct Anatomy {
    found: Option<Found>,
    prefix: usize,
    body: usize,
    separators: Separators,
}

impl Anatomy {
    spec fn is_of(self, platform: Platform, path: Seq<char>) -> bool {
        &&& match self.found {
            Some(item) => prefix(platform, path) == Some(item.shown()),
            None => prefix(platform, path) is None,
        }
        &&& self.prefix == prefix_length(platform, path)
        &&& self.body == body_at(platform, path)
        &&& self.prefix <= self.body <= path.len()
        &&& self.separators == separators_of(platform, path)
    }
}

fn take_apart(platform: Platform, path: &Vec<char>) -> (parts: Anatomy)
    ensures
        parts.is_of(platform, path@),
{
    let found = find_prefix(platform, path);
    let (length, separators) = match &found {
        Some(item) => (
            item.length,
            if verbatim_kind(item.kind) {
                Separators::Backslash
            } else {
                Separators::Both
            },
        ),
        None => (
            0,
            if platform == Platform::Windows {
                Separators::Both
            } else {
                Separators::Slash
            },
        ),
    };
    let written = length < path.len() && (path[length] == '/' || (platform == Platform::Windows && path[length]
        == '\\'));
    let start: usize = if written {
        length + 1
    } else {
        length
    };
    Anatomy { found, prefix: length, body: start, separators }
}

fn is_rooted(parts: &Anatomy) -> (yes: bool)
    ensures
        forall|platform: Platform, path: Seq<char>| parts.is_of(platform, path) ==> yes == rooted(platform, path),
{
    parts.body > parts.prefix || match &parts.found {
        Some(item) => item.kind != PrefixKind::Disk,
        None => false,
    }
}

/// Whether the path names its place whatever the current directory is.
pub fn is_absolute(platform: Platform, path: &str) -> (yes: bool)
    ensures
        yes == absolute(platform, path@),
{
    let list = characters(path);
    let parts = take_apart(platform, &list);
    is_rooted(&parts) && (platform != Platform::Windows || parts.found.is_some())
}

/// A component of a path.
#[derive(Debug, PartialEq, Eq)]
pub enum Component {
    /// What a path of Windows begins with.
    Prefix { kind: PrefixKind, first: String, second: String },
    /// The root.
    Root,
    /// A `.` that the path begins with, or that is taken as it is written.
    Here,
    /// `..`.
    Up,
    /// A name.
    Name(String),
}

/// A component with its names as characters.
pub ghost enum ComponentView {
    Prefix { kind: PrefixKind, first: Seq<char>, second: Seq<char> },
    Root,
    Here,
    Up,
    Name(Seq<char>),
}

impl View for Component {
    type V = ComponentView;

    open spec fn view(&self) -> ComponentView {
        match *self {
            Component::Prefix { kind, first, second } => ComponentView::Prefix { kind, first: first@, second: second@ },
            Component::Root => ComponentView::Root,
            Component::Here => ComponentView::Here,
            Component::Up => ComponentView::Up,
            Component::Name(name) => ComponentView::Name(name@),
        }
    }
}

/// Components with their names as characters.
pub open spec fn component_views(list: Seq<Component>) -> Seq<ComponentView> {
    list.map_values(|item: Component| item@)
}

/// Whether two components are the same.
pub fn same_component(left: &Component, right: &Component) -> (same: bool)
    ensures
        same == (left@ == right@),
{
    match (left, right) {
        (Component::Prefix { kind, first, second }, Component::Prefix { kind: k, first: f, second: s }) => *kind == *k
            && same_text(first.as_str(), f.as_str()) && same_text(second.as_str(), s.as_str()),
        (Component::Root, Component::Root) => true,
        (Component::Here, Component::Here) => true,
        (Component::Up, Component::Up) => true,
        (Component::Name(name), Component::Name(other)) => same_text(name.as_str(), other.as_str()),
        _ => false,
    }
}

/// The pieces of a text between separators; always at least one.
pub open spec fn segments(text: Seq<char>, separators: Separators) -> Seq<Seq<char>>
    decreases text.len(),
{
    if text.len() == 0 {
        seq![Seq::<char>::empty()]
    } else {
        let before = segments(text.drop_last(), separators);
        if separates(separators, text.last()) {
            before.push(Seq::<char>::empty())
        } else {
            before.drop_last().push(before.last().push(text.last()))
        }
    }
}

/// The component that a piece stands for: none where it is empty, nor where it is a `.` that says
/// nothing.
pub open spec fn component_of(piece: Seq<char>, separators: Separators) -> Option<ComponentView> {
    if piece.len() == 0 {
        None
    } else if piece == seq!['.'] {
        if separators == Separators::Backslash {
            Some(ComponentView::Here)
        } else {
            None
        }
    } else if piece == seq!['.', '.'] {
        Some(ComponentView::Up)
    } else {
        Some(ComponentView::Name(piece))
    }
}

/// The components that pieces stand for.
pub open spec fn components_of(list: Seq<Seq<char>>, separators: Separators) -> Seq<ComponentView>
    decreases list.len(),
{
    if list.len() == 0 {
        Seq::empty()
    } else {
        match component_of(list.last(), separators) {
            Some(item) => components_of(list.drop_last(), separators).push(item),
            None => components_of(list.drop_last(), separators),
        }
    }
}

/// What a path begins with: its prefix, then its root, else a `.`.
pub open spec fn beginning(platform: Platform, path: Seq<char>) -> Seq<ComponentView> {
    let found = prefix(platform, path);
    let first = match found {
        Some(item) => seq![ComponentView::Prefix { kind: item.kind, first: item.first, second: item.second }],
        None => Seq::empty(),
    };
    let implied = found matches Some(item) && item.kind != PrefixKind::Disk && !is_verbatim(item.kind);
    if root_written(platform, path) || implied {
        first.push(ComponentView::Root)
    } else if found is None && segments(body(platform, path), separators_of(platform, path))[0] == seq!['.'] {
        first.push(ComponentView::Here)
    } else {
        first
    }
}

/// The components of a path.
pub open spec fn components(platform: Platform, path: Seq<char>) -> Seq<ComponentView> {
    let separators = separators_of(platform, path);
    beginning(platform, path) + components_of(segments(body(platform, path), separators), separators)
}

proof fn segments_nonempty(text: Seq<char>, separators: Separators)
    ensures
        segments(text, separators).len() > 0,
    decreases text.len(),
{
    if text.len() > 0 {
        segments_nonempty(text.drop_last(), separators);
    }
}

fn push_component(list: &mut Vec<Component>, piece: String, separators: Separators)
    ensures
        component_views(final(list)@) == match component_of(piece@, separators) {
            Some(item) => component_views(old(list)@).push(item),
            None => component_views(old(list)@),
        },
{
    let ghost before = component_views(list@);
    proof {
        reveal_strlit(".");
        reveal_strlit("..");
        assert("."@ =~= seq!['.']);
        assert(".."@ =~= seq!['.', '.']);
    }
    if piece.as_str().is_empty() {
        return ;
    }
    if same_text(piece.as_str(), ".") {
        if separators == Separators::Backslash {
            list.push(Component::Here);
            proof {
                assert(component_views(list@) =~= before.push(ComponentView::Here));
            }
        }
        return ;
    }
    if same_text(piece.as_str(), "..") {
        list.push(Component::Up);
        proof {
            assert(component_views(list@) =~= before.push(ComponentView::Up));
        }
        return ;
    }
    let ghost name = piece@;
    list.push(Component::Name(piece));
    proof {
        assert(component_views(list@) =~= before.push(ComponentView::Name(name)));
    }
}

/// Appends the components of the names from `at` on.
fn push_names(list: &mut Vec<Component>, path: &Vec<char>, at: usize, separators: Separators)
    requires
        at <= path@.len(),
    ensures
        component_views(final(list)@) == component_views(old(list)@) + components_of(
            segments(path@.skip(at as int), separators),
            separators,
        ),
{
    let ghost text = path@.skip(at as int);
    let ghost before = component_views(list@);
    let mut current = String::new();
    let mut i: usize = at;
    proof {
        assert(text.take(0) =~= Seq::<char>::empty());
        assert(segments(text.take(0), separators).drop_last() =~= Seq::<Seq<char>>::empty());
        assert(component_views(list@) =~= before + components_of(Seq::<Seq<char>>::empty(), separators));
    }
    while i < path.len()
        invariant
            at <= i <= path@.len(),
            text == path@.skip(at as int),
            segments(text.take(i - at), separators).len() > 0,
            segments(text.take(i - at), separators).last() == current@,
            component_views(list@) == before + components_of(
                segments(text.take(i - at), separators).drop_last(),
                separators,
            ),
        decreases path@.len() - i,
    {
        let ghost done = segments(text.take(i - at), separators);
        proof {
            assert(text.take(i + 1 - at).drop_last() =~= text.take(i - at));
            assert(text.take(i + 1 - at).last() == path@[i as int]);
        }
        if is_separator(separators, path[i]) {
            proof {
                assert(done.push(Seq::<char>::empty()).drop_last() =~= done);
                assert(done =~= done.drop_last().push(current@));
            }
            let ghost listed = component_views(list@);
            let ghost piece = current@;
            push_component(list, current, separators);
            current = String::new();
            proof {
                assert(component_views(list@) =~= before + components_of(done, separators));
                assert(current@ =~= Seq::<char>::empty());
            }
        } else {
            let ghost piece = current@;
            current.push(path[i]);
            proof {
                assert(done.drop_last().push(piece.push(path@[i as int])).drop_last() =~= done.drop_last());
            }
        }
        i = i + 1;
    }
    proof {
        assert(text.take(i - at) =~= text);
        let done = segments(text, separators);
        assert(done =~= done.drop_last().push(current@));
    }
    push_component(list, current, separators);
    proof {
        assert(component_views(list@) =~= before + components_of(segments(text, separators), separators));
    }
}

proof fn first_segment(text: Seq<char>, separators: Separators)
    ensures
        segments(text, separators)[0] == text.take(run(text, 0, separators) as int),
        run(text, 0, separators) <= text.len(),
    decreases text.len(),
{
    run_within(text, 0, separators);
    if text.len() > 0 {
        let shorter = text.drop_last();
        first_segment(shorter, separators);
        segments_nonempty(shorter, separators);
        run_shorter(text, 0, separators);
        let before = segments(shorter, separators);
        if run(shorter, 0, separators) < shorter.len() {
            run_stops(shorter, 0, separators);
            one_segment_only(shorter, separators);
            assert(text.take(run(text, 0, separators) as int) =~= shorter.take(run(shorter, 0, separators) as int));
        } else {
            one_segment_only(shorter, separators);
            assert(shorter.take(shorter.len() as int) =~= shorter);
            if separates(separators, text.last()) {
                assert(text.take(run(text, 0, separators) as int) =~= shorter);
            } else {
                assert(before.last().push(text.last()) =~= text);
                assert(text.take(text.len() as int) =~= text);
            }
        }
    } else {
        assert(text.take(0) =~= Seq::<char>::empty());
    }
}

proof fn run_within(text: Seq<char>, at: int, separators: Separators)
    requires
        0 <= at <= text.len(),
    ensures
        at + run(text, at, separators) <= text.len(),
    decreases text.len() - at,
{
    if at < text.len() && !separates(separators, text[at]) {
        run_within(text, at + 1, separators);
    }
}

proof fn run_stops(text: Seq<char>, at: int, separators: Separators)
    requires
        0 <= at <= text.len(),
        at + run(text, at, separators) < text.len(),
    ensures
        separates(separators, text[at + run(text, at, separators)]),
    decreases text.len() - at,
{
    if at < text.len() && !separates(separators, text[at]) {
        run_stops(text, at + 1, separators);
    }
}

/// A run over a text without its last character: the same where it stops before, else one less where
/// the last character goes on.
proof fn run_shorter(text: Seq<char>, at: int, separators: Separators)
    requires
        0 <= at < text.len(),
    ensures
        run(text, at, separators) == if at + run(text.drop_last(), at, separators) < text.len() - 1 || separates(
            separators,
            text.last(),
        ) {
            run(text.drop_last(), at, separators)
        } else {
            run(text.drop_last(), at, separators) + 1
        },
    decreases text.len() - at,
{
    run_within(text.drop_last(), at, separators);
    if at < text.len() - 1 {
        assert(text.drop_last()[at] == text[at]);
        if !separates(separators, text[at]) {
            run_shorter(text, at + 1, separators);
        }
    } else {
        assert(run(text, at + 1, separators) == 0);
    }
}

/// A text has one segment exactly if no separator stands in it.
proof fn one_segment_only(text: Seq<char>, separators: Separators)
    ensures
        segments(text, separators).len() > 0,
        (segments(text, separators).len() == 1) == (run(text, 0, separators) == text.len()),
    decreases text.len(),
{
    if text.len() > 0 {
        one_segment_only(text.drop_last(), separators);
        run_shorter(text, 0, separators);
        run_within(text.drop_last(), 0, separators);
    }
}

/// The components of a path.
pub fn component_list(platform: Platform, path: &str) -> (list: Vec<Component>)
    ensures
        component_views(list@) == components(platform, path@),
{
    let chars = characters(path);
    let parts = take_apart(platform, &chars);
    let (start, separators) = (parts.body, parts.separators);
    let plain = parts.found.is_none();
    let written = parts.body > parts.prefix;
    let mut list: Vec<Component> = Vec::new();
    let mut implied = false;
    proof {
        assert(component_views(list@) =~= Seq::<ComponentView>::empty());
    }
    if let Some(item) = parts.found {
        implied = item.kind != PrefixKind::Disk && !verbatim_kind(item.kind);
        let ghost shown = ComponentView::Prefix { kind: item.kind, first: item.first@, second: item.second@ };
        list.push(Component::Prefix { kind: item.kind, first: item.first, second: item.second });
        proof {
            assert(component_views(list@) =~= seq![shown]);
        }
    }
    let ghost first = component_views(list@);
    if written || implied {
        list.push(Component::Root);
        proof {
            assert(component_views(list@) =~= first.push(ComponentView::Root));
        }
    } else if plain {
        let end = run_length(&chars, start, separators);
        proof {
            first_segment(path@.skip(start as int), separators);
            run_of_skip(path@, start as int, separators);
            assert(path@.skip(start as int).take(end - start) =~= path@.subrange(start as int, end as int));
        }
        if end - start == 1 && chars[start] == '.' {
            list.push(Component::Here);
            proof {
                assert(component_views(list@) =~= first.push(ComponentView::Here));
                assert(path@.subrange(start as int, end as int) =~= seq!['.']);
            }
        } else {
            proof {
                assert(path@.subrange(start as int, end as int) != seq!['.']) by {
                    if path@.subrange(start as int, end as int) == seq!['.'] {
                        assert(path@.subrange(start as int, end as int)[0] == path@[start as int]);
                    }
                }
            }
        }
    }
    proof {
        assert(component_views(list@) =~= beginning(platform, path@));
    }
    push_names(&mut list, &chars, start, separators);
    list
}

proof fn run_of_skip(text: Seq<char>, at: int, separators: Separators)
    requires
        0 <= at <= text.len(),
    ensures
        run(text.skip(at), 0, separators) == run(text, at, separators),
{
    run_shifted(text, at, 0, separators);
}

proof fn run_shifted(text: Seq<char>, by: int, at: int, separators: Separators)
    requires
        0 <= by,
        0 <= at,
        by + at <= text.len(),
    ensures
        run(text.skip(by), at, separators) == run(text, by + at, separators),
    decreases text.len() - by - at,
{
    if by + at < text.len() {
        assert(text.skip(by)[at] == text[by + at]);
        if !separates(separators, text[by + at]) {
            run_shifted(text, by, at + 1, separators);
        }
    }
}

/// Whether two paths have the same components.
pub fn same_path(platform: Platform, left: &str, right: &str) -> (same: bool)
    ensures
        same == (components(platform, left@) == components(platform, right@)),
{
    let a = component_list(platform, left);
    let b = component_list(platform, right);
    proof {
        assert(component_views(a@).len() == a@.len());
        assert(component_views(b@).len() == b@.len());
    }
    a.len() == b.len() && begins_with(&a, &b)
}

/// Whether the components of `short` are the first of `long`.
fn begins_with(long: &Vec<Component>, short: &Vec<Component>) -> (yes: bool)
    ensures
        yes == component_views(short@).is_prefix_of(component_views(long@)),
        yes && long@.len() == short@.len() ==> component_views(long@) == component_views(short@),
        !yes ==> component_views(long@) != component_views(short@),
{
    let ghost x = component_views(short@);
    let ghost y = component_views(long@);
    if short.len() > long.len() {
        return false;
    }
    let mut i: usize = 0;
    while i < short.len()
        invariant
            i <= short@.len() <= long@.len(),
            x == component_views(short@),
            y == component_views(long@),
            forall|j: int| 0 <= j < i ==> #[trigger] x[j] == y[j],
        decreases short@.len() - i,
    {
        proof {
            assert(x[i as int] == short@[i as int]@);
            assert(y[i as int] == long@[i as int]@);
        }
        if !same_component(&short[i], &long[i]) {
            proof {
                assert(y.subrange(0, short@.len() as int)[i as int] == y[i as int]);
            }
            return false;
        }
        i = i + 1;
    }
    proof {
        assert(y.subrange(0, short@.len() as int) =~= x);
        if long@.len() == short@.len() {
            assert(y =~= x);
        }
    }
    true
}

/// The components of `base` are the first components of `path`.
pub open spec fn within(platform: Platform, path: Seq<char>, base: Seq<char>) -> bool {
    components(platform, base).is_prefix_of(components(platform, path))
}

/// Whether the components of `base` are the first components of `path`.
pub fn starts_with_path(platform: Platform, path: &str, base: &str) -> (yes: bool)
    ensures
        yes == within(platform, path@, base@),
{
    let long = component_list(platform, path);
    let short = component_list(platform, base);
    begins_with(&long, &short)
}

/// The names of a path without trailing separators and without trailing `.` components that say
/// nothing.
pub open spec fn core_path(names: Seq<char>, separators: Separators, rooted: bool) -> Seq<char>
    decreases names.len(),
{
    if names.len() > 0 && (separates(separators, names.last()) || idle_dot(names, separators, rooted)) {
        core_path(names.drop_last(), separators, rooted)
    } else {
        names
    }
}

/// The names end in a `.` component that says nothing.
pub open spec fn idle_dot(names: Seq<char>, separators: Separators, rooted: bool) -> bool {
    &&& separators != Separators::Backslash
    &&& names.last() == '.'
    &&& if names.len() == 1 {
        rooted
    } else {
        separates(separators, names[names.len() - 2])
    }
}

/// The number of characters behind the last separator.
pub open spec fn tail_length(names: Seq<char>, separators: Separators) -> nat
    decreases names.len(),
{
    if names.len() == 0 || separates(separators, names.last()) {
        0
    } else {
        tail_length(names.drop_last(), separators) + 1
    }
}

/// The names of a path up to the end of its last component.
pub open spec fn path_core(platform: Platform, path: Seq<char>) -> Seq<char> {
    core_path(body(platform, path), separators_of(platform, path), rooted(platform, path))
}

/// The last component of a path as it is written; empty where there is none behind the root.
pub open spec fn path_tail(platform: Platform, path: Seq<char>) -> Seq<char> {
    let core = path_core(platform, path);
    core.skip(core.len() - tail_length(core, separators_of(platform, path)))
}

/// The last component of a path, where it is a name.
pub open spec fn file_name(platform: Platform, path: Seq<char>) -> Option<Seq<char>> {
    let name = path_tail(platform, path);
    if name.len() == 0 || name == "."@ || name == ".."@ {
        None
    } else {
        Some(name)
    }
}

/// The end of `list[start..end]` without trailing separators and idle dots.
fn core_end(list: &Vec<char>, start: usize, end: usize, separators: Separators, rooted: bool) -> (stop: usize)
    requires
        start <= end <= list@.len(),
    ensures
        start <= stop <= end,
        core_path(list@.subrange(start as int, end as int), separators, rooted) == list@.subrange(
            start as int,
            stop as int,
        ),
{
    let mut stop: usize = end;
    while stop > start && (is_separator(separators, list[stop - 1]) || (separators != Separators::Backslash
        && list[stop - 1] == '.' && ((stop - start == 1 && rooted) || (stop - start > 1 && is_separator(
        separators,
        list[stop - 2],
    )))))
        invariant
            start <= stop <= end <= list@.len(),
            core_path(list@.subrange(start as int, end as int), separators, rooted) == core_path(
                list@.subrange(start as int, stop as int),
                separators,
                rooted,
            ),
        decreases stop,
    {
        proof {
            assert(list@.subrange(start as int, stop as int).drop_last() =~= list@.subrange(start as int, stop - 1));
        }
        stop = stop - 1;
    }
    stop
}

/// The start of what stands behind the last separator of `list[start..end]`.
fn tail_start(list: &Vec<char>, start: usize, end: usize, separators: Separators) -> (at: usize)
    requires
        start <= end <= list@.len(),
    ensures
        start <= at <= end,
        end - at == tail_length(list@.subrange(start as int, end as int), separators),
{
    let mut at: usize = end;
    while at > start && !is_separator(separators, list[at - 1])
        invariant
            start <= at <= end <= list@.len(),
            tail_length(list@.subrange(start as int, end as int), separators) == end - at + tail_length(
                list@.subrange(start as int, at as int),
                separators,
            ),
        decreases at,
    {
        proof {
            assert(list@.subrange(start as int, at as int).drop_last() =~= list@.subrange(start as int, at - 1));
        }
        at = at - 1;
    }
    at
}

/// The bounds of the last component in the characters of a path, before it is tested to be a name.
fn final_piece(platform: Platform, list: &Vec<char>) -> (bounds: (usize, usize, usize))
    ensures
        bounds.0 == body_at(platform, list@),
        bounds.0 <= bounds.1 <= bounds.2 <= list@.len(),
        path_core(platform, list@) == list@.subrange(bounds.0 as int, bounds.2 as int),
        path_tail(platform, list@) == list@.subrange(bounds.1 as int, bounds.2 as int),
{
    let parts = take_apart(platform, list);
    let rooted_path = is_rooted(&parts);
    let end = core_end(list, parts.body, list.len(), parts.separators, rooted_path);
    proof {
        assert(list@.subrange(parts.body as int, list@.len() as int) =~= body(platform, list@));
    }
    let start = tail_start(list, parts.body, end, parts.separators);
    proof {
        let core = path_core(platform, list@);
        assert(core.skip(start - parts.body) =~= list@.subrange(start as int, end as int));
    }
    (parts.body, start, end)
}

/// The last component of a path, where it is a name.
pub fn path_file_name(platform: Platform, path: &str) -> (name: Option<String>)
    ensures
        name is Some == file_name(platform, path@) is Some,
        name matches Some(value) ==> file_name(platform, path@) == Some(value@),
{
    let list = characters(path);
    let (_, start, end) = final_piece(platform, &list);
    let name = text_of(&list, start, end);
    if name.as_str().is_empty() || same_text(name.as_str(), ".") || same_text(name.as_str(), "..") {
        None
    } else {
        Some(name)
    }
}

/// What a path's last component stands in: none for a path that holds none behind its root.
pub open spec fn parent_path(platform: Platform, path: Seq<char>) -> Option<Seq<char>> {
    let core = path_core(platform, path);
    if core.len() == 0 || (prefix(platform, path) is Some && core == seq!['.']) {
        None
    } else {
        Some(
            path.take(body_at(platform, path)) + core_path(
                core.take(core.len() - path_tail(platform, path).len()),
                separators_of(platform, path),
                rooted(platform, path),
            ),
        )
    }
}

/// What a path's last component stands in.
pub fn path_parent(platform: Platform, path: &str) -> (parent: Option<String>)
    ensures
        parent is Some == parent_path(platform, path@) is Some,
        parent matches Some(value) ==> parent_path(platform, path@) == Some(value@),
{
    let list = characters(path);
    let (first, start, end) = final_piece(platform, &list);
    let parts = take_apart(platform, &list);
    let ghost core = path_core(platform, path@);
    if end == first {
        return None;
    }
    if parts.found.is_some() && end - first == 1 && list[first] == '.' {
        proof {
            assert(core =~= seq!['.']);
        }
        return None;
    }
    proof {
        if parts.found is Some && core == seq!['.'] {
            assert(core[0] == list@[first as int]);
        }
        assert(core.take(core.len() - path_tail(platform, path@).len()) =~= list@.subrange(first as int, start as int));
    }
    let rooted_path = is_rooted(&parts);
    let stop = core_end(&list, first, start, parts.separators, rooted_path);
    let parent = text_of(&list, 0, stop);
    proof {
        assert(parent@ =~= path@.take(first as int) + list@.subrange(first as int, stop as int));
    }
    Some(parent)
}

/// The position of the last `.` of a name, or -1.
pub open spec fn last_dot(name: Seq<char>) -> int
    decreases name.len(),
{
    if name.len() == 0 {
        -1
    } else if name.last() == '.' {
        name.len() - 1
    } else {
        last_dot(name.drop_last())
    }
}

/// A file name without its extension.
pub open spec fn stem(name: Seq<char>) -> Seq<char> {
    if last_dot(name) > 0 {
        name.take(last_dot(name))
    } else {
        name
    }
}

/// The number of characters of the stem of `list[start..end]`.
fn stem_length(list: &Vec<char>, start: usize, end: usize) -> (length: usize)
    requires
        start <= end <= list@.len(),
    ensures
        length <= end - start,
        stem(list@.subrange(start as int, end as int)) == list@.subrange(start as int, start + length),
{
    let ghost name = list@.subrange(start as int, end as int);
    let mut dot: usize = end;
    proof {
        assert(name.take(name.len() as int) =~= name);
    }
    while dot > start && list[dot - 1] != '.'
        invariant
            start <= dot <= end <= list@.len(),
            name == list@.subrange(start as int, end as int),
            last_dot(name) == last_dot(name.take(dot - start)),
        decreases dot,
    {
        proof {
            assert(name.take(dot - start).drop_last() =~= name.take(dot - start - 1));
        }
        dot = dot - 1;
    }
    if dot > start && dot - start > 1 {
        proof {
            assert(name.take(dot - start).last() == '.');
            assert(name.take(dot - start - 1) =~= list@.subrange(start as int, dot - 1));
        }
        dot - 1 - start
    } else {
        proof {
            assert(last_dot(name) <= 0);
        }
        end - start
    }
}

/// The last component of a path without its extension, where it is a name.
pub open spec fn file_stem(platform: Platform, path: Seq<char>) -> Option<Seq<char>> {
    match file_name(platform, path) {
        Some(name) => Some(stem(name)),
        None => None,
    }
}

/// The last component of a path without its extension, where it is a name.
pub fn path_file_stem(platform: Platform, path: &str) -> (name: Option<String>)
    ensures
        name is Some == file_stem(platform, path@) is Some,
        name matches Some(value) ==> file_stem(platform, path@) == Some(value@),
{
    match path_file_name(platform, path) {
        Some(name) => {
            let list = characters(name.as_str());
            let length = stem_length(&list, 0, list.len());
            proof {
                assert(list@.subrange(0, list@.len() as int) =~= name@);
            }
            Some(text_of(&list, 0, length))
        },
        None => None,
    }
}

/// `path` with the extension of its last component replaced; unchanged where that is no name.
pub open spec fn extended(platform: Platform, path: Seq<char>, extension: Seq<char>) -> Seq<char> {
    let core = path_core(platform, path);
    match file_name(platform, path) {
        Some(name) => path.take(body_at(platform, path)) + core.take(core.len() - name.len()) + stem(name) + "."@
            + extension,
        None => path,
    }
}

/// `path` with the extension of its last component replaced; unchanged where that is no name.
pub fn with_extension(platform: Platform, path: &str, extension: &str) -> (result: String)
    ensures
        result@ == extended(platform, path@, extension@),
{
    let list = characters(path);
    let (first, start, end) = final_piece(platform, &list);
    let name = text_of(&list, start, end);
    if name.as_str().is_empty() || same_text(name.as_str(), ".") || same_text(name.as_str(), "..") {
        path.to_owned()
    } else {
        let length = stem_length(&list, start, end);
        let kept = text_of(&list, 0, start + length);
        proof {
            let core = path_core(platform, path@);
            assert(path@.take(first as int) + core.take(core.len() - name@.len()) + stem(name@) =~= kept@);
        }
        concat3(kept.as_str(), ".", extension)
    }
}

/// Components with further ones followed from there: the root begins anew behind the prefix, `.` says
/// nothing, and `..` takes a name away.
pub open spec fn followed(list: Seq<ComponentView>, steps: Seq<ComponentView>) -> Seq<ComponentView>
    decreases steps.len(),
{
    if steps.len() == 0 {
        list
    } else {
        let before = followed(list, steps.drop_last());
        match steps.last() {
            ComponentView::Root => if before.len() > 1 {
                before.take(1).push(ComponentView::Root)
            } else {
                before.push(ComponentView::Root)
            },
            ComponentView::Here => before,
            ComponentView::Up => if before.len() > 0 && before.last() is Name {
                before.drop_last()
            } else {
                before
            },
            _ => before.push(steps.last()),
        }
    }
}

/// A component as it is written, behind a prefix written as `front`.
pub open spec fn shown_component(front: Seq<char>, item: ComponentView) -> Seq<char> {
    match item {
        ComponentView::Prefix { .. } => front,
        ComponentView::Root => "\\"@,
        ComponentView::Here => "."@,
        ComponentView::Up => ".."@,
        ComponentView::Name(name) => name,
    }
}

/// Components as they are written, a `\` between two of which neither is the root.
pub open spec fn shown_components(front: Seq<char>, list: Seq<ComponentView>) -> Seq<char>
    decreases list.len(),
{
    if list.len() == 0 {
        Seq::empty()
    } else {
        let before = shown_components(front, list.drop_last());
        let separated = list.len() > 1 && !(list[list.len() - 2] is Root) && !(list.last() is Root);
        if separated {
            before + "\\"@ + shown_component(front, list.last())
        } else {
            before + shown_component(front, list.last())
        }
    }
}

/// A path that is taken as it is written.
pub open spec fn verbatim(platform: Platform, path: Seq<char>) -> bool {
    prefix(platform, path) matches Some(found) && is_verbatim(found.kind)
}

/// A path behind which a name can be written at once: it ends in a separator, or is a drive alone.
pub open spec fn open_ended(platform: Platform, base: Seq<char>) -> bool {
    ||| base.len() == 0
    ||| is_root(platform, base.last())
    ||| prefix(platform, base) matches Some(found) && found.kind == PrefixKind::Disk && base.len() == found.length
}

/// What stands between components where a path is joined.
pub open spec fn main_separator(platform: Platform) -> Seq<char> {
    if platform == Platform::Windows {
        "\\"@
    } else {
        "/"@
    }
}

/// `path` seen from `base`: itself where absolute, else below `base`.
pub open spec fn joined_path(platform: Platform, base: Seq<char>, path: Seq<char>) -> Seq<char> {
    if absolute(platform, path) || prefix(platform, path) is Some {
        path
    } else if verbatim(platform, base) && path.len() > 0 {
        shown_components(
            base.take(prefix_length(platform, base)),
            followed(components(platform, base), components(platform, path)),
        )
    } else if rooted(platform, path) {
        base.take(prefix_length(platform, base)) + path
    } else if open_ended(platform, base) {
        base + path
    } else {
        base + main_separator(platform) + path
    }
}

fn copied(item: &Component) -> (copy: Component)
    ensures
        copy@ == item@,
{
    match item {
        Component::Prefix { kind, first, second } => Component::Prefix {
            kind: *kind,
            first: first.clone(),
            second: second.clone(),
        },
        Component::Root => Component::Root,
        Component::Here => Component::Here,
        Component::Up => Component::Up,
        Component::Name(name) => Component::Name(name.clone()),
    }
}

fn follow(list: &mut Vec<Component>, steps: &Vec<Component>)
    ensures
        component_views(final(list)@) == followed(component_views(old(list)@), component_views(steps@)),
{
    let ghost first = component_views(list@);
    let ghost all = component_views(steps@);
    let mut i: usize = 0;
    proof {
        assert(all.take(0) =~= Seq::<ComponentView>::empty());
    }
    while i < steps.len()
        invariant
            i <= steps@.len(),
            all == component_views(steps@),
            component_views(list@) == followed(first, all.take(i as int)),
        decreases steps@.len() - i,
    {
        let ghost before = component_views(list@);
        proof {
            assert(all.take(i + 1).drop_last() =~= all.take(i as int));
            assert(all.take(i + 1).last() == steps@[i as int]@);
            if list@.len() > 0 {
                assert(before.last() == list@.last()@);
            }
        }
        match &steps[i] {
            Component::Root => {
                list.truncate(1);
                list.push(Component::Root);
                proof {
                    let begun = if before.len() > 1 { before.take(1) } else { before };
                    assert(component_views(list@) =~= begun.push(ComponentView::Root));
                }
            },
            Component::Here => {},
            Component::Up => {
                let named = list.len() > 0 && match &list[list.len() - 1] {
                    Component::Name(_) => true,
                    _ => false,
                };
                if named {
                    list.pop();
                    proof {
                        assert(component_views(list@) =~= before.drop_last());
                    }
                }
            },
            _ => {
                list.push(copied(&steps[i]));
                proof {
                    assert(component_views(list@) =~= before.push(steps@[i as int]@));
                }
            },
        }
        i = i + 1;
    }
    proof {
        assert(all.take(i as int) =~= all);
    }
}

fn write_components(front: &str, list: &Vec<Component>) -> (text: String)
    ensures
        text@ == shown_components(front@, component_views(list@)),
{
    let ghost all = component_views(list@);
    let mut text = String::new();
    let mut i: usize = 0;
    proof {
        assert(all.take(0) =~= Seq::<ComponentView>::empty());
    }
    while i < list.len()
        invariant
            i <= list@.len(),
            all == component_views(list@),
            text@ == shown_components(front@, all.take(i as int)),
        decreases list@.len() - i,
    {
        proof {
            assert(all.take(i + 1).drop_last() =~= all.take(i as int));
            assert(all.take(i + 1).last() == list@[i as int]@);
            if i > 0 {
                assert(all.take(i + 1)[i - 1] == list@[i - 1]@);
            }
        }
        let behind = i > 0 && match &list[i - 1] {
            Component::Root => false,
            _ => true,
        };
        let root = match &list[i] {
            Component::Root => true,
            _ => false,
        };
        if behind && !root {
            text.append("\\");
        }
        match &list[i] {
            Component::Prefix { .. } => text.append(front),
            Component::Root => text.append("\\"),
            Component::Here => text.append("."),
            Component::Up => text.append(".."),
            Component::Name(name) => text.append(name.as_str()),
        }
        i = i + 1;
    }
    proof {
        assert(all.take(i as int) =~= all);
    }
    text
}

/// `path` seen from `base`: itself where absolute, else below `base`.
pub fn join_path(platform: Platform, base: &str, path: &str) -> (result: String)
    ensures
        result@ == joined_path(platform, base@, path@),
{
    let list = characters(path);
    let parts = take_apart(platform, &list);
    let rooted_path = is_rooted(&parts);
    if parts.found.is_some() || (rooted_path && platform != Platform::Windows) {
        return path.to_owned();
    }
    let front = characters(base);
    let base_parts = take_apart(platform, &front);
    let (taken, drive) = match &base_parts.found {
        Some(found) => (verbatim_kind(found.kind), found.kind == PrefixKind::Disk && found.length == front.len()),
        None => (false, false),
    };
    if taken && list.len() > 0 {
        let mut components = component_list(platform, base);
        let steps = component_list(platform, path);
        follow(&mut components, &steps);
        let written = text_of(&front, 0, base_parts.prefix);
        proof {
            assert(written@ =~= base@.take(base_parts.prefix as int));
        }
        write_components(written.as_str(), &components)
    } else if rooted_path {
        let kept = text_of(&front, 0, base_parts.prefix);
        proof {
            assert(kept@ =~= base@.take(base_parts.prefix as int));
        }
        concat2(kept.as_str(), path)
    } else if front.len() == 0 || front[front.len() - 1] == '/' || (platform == Platform::Windows && front[front.len()
        - 1] == '\\') || drive {
        concat2(base, path)
    } else if platform == Platform::Windows {
        concat3(base, "\\", path)
    } else {
        concat3(base, "/", path)
    }
}

/// The path is relative, not empty, and every component of it is a name.
pub open spec fn confined(platform: Platform, path: Seq<char>) -> bool {
    &&& path.len() > 0
    &&& !absolute(platform, path)
    &&& forall|i: int|
        0 <= i < components(platform, path).len() ==> #[trigger] components(platform, path)[i] is Name
}

/// Whether the path is relative, not empty, and every component of it is a name.
pub fn confined_relative_storage_path(platform: Platform, path: &str) -> (yes: bool)
    ensures
        yes == confined(platform, path@),
{
    if path.is_empty() || is_absolute(platform, path) {
        return false;
    }
    let list = component_list(platform, path);
    let mut i: usize = 0;
    while i < list.len()
        invariant
            i <= list@.len(),
            component_views(list@) == components(platform, path@),
            forall|j: int| 0 <= j < i ==> #[trigger] components(platform, path@)[j] is Name,
        decreases list@.len() - i,
    {
        proof {
            assert(component_views(list@)[i as int] == list@[i as int]@);
        }
        match &list[i] {
            Component::Name(_) => {},
            _ => {
                return false;
            },
        }
        i = i + 1;
    }
    true
}

/// A confined path begins with no prefix, no root and no `.`: its components are those of its names.
proof fn confined_names(platform: Platform, path: Seq<char>)
    requires
        confined(platform, path),
    ensures
        prefix(platform, path) is None,
        !rooted(platform, path),
        body(platform, path) == path,
        components(platform, path) == components_of(
            segments(path, separators_of(platform, path)),
            separators_of(platform, path),
        ),
{
    let start = beginning(platform, path);
    let list = components(platform, path);
    if start.len() > 0 {
        assert(list[start.len() - 1] == start.last());
        assert(list[0] == start[0]);
    }
    assert(prefix(platform, path) is None);
    assert(!root_written(platform, path));
    assert(path.skip(0) =~= path);
    assert(list =~= components_of(segments(path, separators_of(platform, path)), separators_of(platform, path)));
}

proof fn segments_after_separator(left: Seq<char>, right: Seq<char>, separators: Separators)
    requires
        left.len() > 0,
        separates(separators, left.last()),
    ensures
        segments(left + right, separators) == segments(left, separators).drop_last() + segments(right, separators),
        segments(left, separators).len() > 1,
        segments(left, separators).last().len() == 0,
    decreases right.len(),
{
    segments_nonempty(left.drop_last(), separators);
    if right.len() == 0 {
        assert(left + right =~= left);
        assert(segments(right, separators) =~= seq![Seq::<char>::empty()]);
        assert(segments(left, separators).last() =~= Seq::<char>::empty());
        assert(segments(left, separators) =~= segments(left, separators).drop_last() + segments(right, separators));
    } else {
        let shorter = right.drop_last();
        segments_after_separator(left, shorter, separators);
        assert((left + right).drop_last() =~= left + shorter);
        segments_nonempty(shorter, separators);
        let head = segments(left, separators).drop_last();
        assert(segments(left + right, separators) =~= head + segments(right, separators));
    }
}

proof fn components_of_concat(left: Seq<Seq<char>>, right: Seq<Seq<char>>, separators: Separators)
    ensures
        components_of(left + right, separators) == components_of(left, separators) + components_of(right, separators),
    decreases right.len(),
{
    if right.len() == 0 {
        assert(left + right =~= left);
        assert(components_of(left, separators) + components_of(right, separators) =~= components_of(left, separators));
    } else {
        components_of_concat(left, right.drop_last(), separators);
        assert((left + right).drop_last() =~= left + right.drop_last());
        assert(components_of(left + right, separators) =~= components_of(left, separators) + components_of(
            right,
            separators,
        ));
    }
}

/// A separator at the end of names adds no component, and what follows it adds its own.
proof fn names_behind(names: Seq<char>, between: Seq<char>, path: Seq<char>, separators: Separators)
    requires
        separators != Separators::Backslash,
        names.len() > 0,
        (between.len() == 0 && separates(separators, names.last())) || (between.len() == 1 && separates(
            separators,
            between[0],
        )),
    ensures
        components_of(segments(names + between + path, separators), separators) == components_of(
            segments(names, separators),
            separators,
        ) + components_of(segments(path, separators), separators),
        segments(names + between + path, separators)[0] == segments(names, separators)[0],
{
    let front = names + between;
    segments_nonempty(names, separators);
    if between.len() == 0 {
        assert(front =~= names);
    } else {
        assert(front.drop_last() =~= names);
        assert(segments(front, separators).drop_last() =~= segments(names, separators));
    }
    segments_after_separator(front, path, separators);
    let head = segments(front, separators).drop_last();
    components_of_concat(head, segments(path, separators), separators);
    if between.len() == 0 {
        assert(segments(names, separators).drop_last() =~= head);
        assert(components_of(segments(names, separators), separators) == components_of(head, separators));
    }
}

proof fn join_behind_names(platform: Platform, base: Seq<char>, between: Seq<char>, path: Seq<char>)
    requires
        body(platform, base).len() > 0,
        !verbatim(platform, base),
        prefix(platform, base + between + path) == prefix(platform, base),
        (between.len() == 0 && is_root(platform, base.last())) || (between.len() == 1 && is_root(platform, between[0])),
    ensures
        beginning(platform, base + between + path) == beginning(platform, base),
        separators_of(platform, base + between + path) == separators_of(platform, base),
        components_of(
            segments(body(platform, base + between + path), separators_of(platform, base)),
            separators_of(platform, base),
        ) == components_of(segments(body(platform, base), separators_of(platform, base)), separators_of(platform, base))
            + components_of(segments(path, separators_of(platform, base)), separators_of(platform, base)),
{
    let joined = base + between + path;
    let names = body(platform, base);
    let separators = separators_of(platform, base);
    prefix_fits(platform, base);
    let length = prefix_length(platform, base);
    assert(length < base.len());
    assert(base.last() == names.last());
    assert(joined[length] == base[length]);
    assert(body(platform, joined) =~= names + between + path);
    names_behind(names, between, path, separators);
}

proof fn join_behind_root(platform: Platform, base: Seq<char>, between: Seq<char>, path: Seq<char>)
    requires
        body(platform, base).len() == 0,
        base.len() > 0,
        path.len() > 0,
        !root_written(platform, path),
        prefix(platform, path) is None,
        !verbatim(platform, base),
        prefix(platform, base + between + path) == prefix(platform, base),
        (between.len() == 0 && open_ended(platform, base)) || (between.len() == 1 && !open_ended(platform, base)
            && is_root(platform, between[0])),
    ensures
        beginning(platform, base + between + path) == beginning(platform, base),
        separators_of(platform, base + between + path) == separators_of(platform, base),
        components_of(
            segments(body(platform, base + between + path), separators_of(platform, base)),
            separators_of(platform, base),
        ) == components_of(segments(body(platform, base), separators_of(platform, base)), separators_of(platform, base))
            + components_of(segments(path, separators_of(platform, base)), separators_of(platform, base)),
{
    let joined = base + between + path;
    let names = body(platform, base);
    let separators = separators_of(platform, base);
    prefix_fits(platform, base);
    let length = prefix_length(platform, base);
    assert(names =~= Seq::<char>::empty());
    no_components(separators);
    assert(path[0] == joined[(base.len() + between.len()) as int]);
    if root_written(platform, base) {
        assert(base.len() == length + 1);
        assert(base.last() == base[length]);
        assert(between.len() == 0);
        assert(joined[length] == base[length]);
    } else {
        assert(base.len() == length);
        if between.len() == 0 {
            assert(joined[length] == path[0]);
            if is_root(platform, base.last()) {
                prefix_ends_in_a_separator(platform, base);
                assert(begins_double(joined) && joined[2] == '.' && separates(Separators::Both, joined[3]));
                assert(joined[2] == base[2] && joined[3] == base[3] && joined[0] == base[0] && joined[1] == base[1]);
                assert(!begins_verbatim(joined));
                assert(run(joined, 4, Separators::Both) > 0);
                assert(prefix_length(platform, joined) > 4);
            }
        } else {
            assert(joined[length] == between[0]);
        }
    }
    assert(body(platform, joined) =~= path);
    assert(beginning(platform, joined) =~= beginning(platform, base));
    assert(components_of(segments(path, separators), separators) =~= components_of(
        segments(names, separators),
        separators,
    ) + components_of(segments(path, separators), separators));
}

/// A prefix that is not taken as it is written ends in a separator only where it is `\\.\` alone.
proof fn prefix_ends_in_a_separator(platform: Platform, base: Seq<char>)
    requires
        prefix(platform, base) is Some,
        !verbatim(platform, base),
        base.len() == prefix_length(platform, base),
        is_root(platform, base.last()),
    ensures
        base.len() == 4,
        begins_double(base),
        base[2] == '.',
        separates(Separators::Both, base[3]),
{
    let found = prefix(platform, base)->0;
    if found.kind == PrefixKind::Device {
        if base.len() > 4 {
            run_plain(base, 4, Separators::Both, base.len() - 1);
        }
    } else if found.kind == PrefixKind::Share {
        let server = run(base, 2, Separators::Both);
        run_plain(base, (2 + server + 1) as int, Separators::Both, base.len() - 1);
    }
}

proof fn run_plain(text: Seq<char>, at: int, separators: Separators, i: int)
    requires
        0 <= at <= i < at + run(text, at, separators),
    ensures
        i < text.len(),
        !separates(separators, text[i]),
    decreases i - at,
{
    if i > at {
        run_plain(text, at + 1, separators, i);
    }
}

proof fn no_components(separators: Separators)
    ensures
        components_of(segments(Seq::<char>::empty(), separators), separators) == Seq::<ComponentView>::empty(),
{
    let list = segments(Seq::<char>::empty(), separators);
    assert(list =~= seq![Seq::<char>::empty()]);
    assert(list.drop_last() =~= Seq::<Seq<char>>::empty());
    assert(list.last() =~= Seq::<char>::empty());
    assert(components_of(list.drop_last(), separators) =~= Seq::<ComponentView>::empty());
}

proof fn components_concat(platform: Platform, base: Seq<char>, path: Seq<char>, joined: Seq<char>)
    requires
        !verbatim(platform, base),
        prefix(platform, path) is None,
        components(platform, path) == components_of(
            segments(path, separators_of(platform, path)),
            separators_of(platform, path),
        ),
        beginning(platform, joined) == beginning(platform, base),
        separators_of(platform, joined) == separators_of(platform, base),
        components_of(
            segments(body(platform, joined), separators_of(platform, base)),
            separators_of(platform, base),
        ) == components_of(segments(body(platform, base), separators_of(platform, base)), separators_of(platform, base))
            + components_of(segments(path, separators_of(platform, base)), separators_of(platform, base)),
    ensures
        components(platform, joined) == components(platform, base) + components(platform, path),
{
    assert(separators_of(platform, path) == separators_of(platform, base));
    assert(components(platform, joined) =~= components(platform, base) + components(platform, path));
}

proof fn plain_base_join(platform: Platform, base: Seq<char>, path: Seq<char>)
    requires
        base.len() > 0,
        confined(platform, path),
        !verbatim(platform, base),
        prefix(platform, joined_path(platform, base, path)) == prefix(platform, base),
    ensures
        components(platform, joined_path(platform, base, path)) == components(platform, base) + components(
            platform,
            path,
        ),
{
    reveal_strlit("/");
    reveal_strlit("\\");
    confined_names(platform, path);
    let joined = joined_path(platform, base, path);
    let between = if open_ended(platform, base) { Seq::<char>::empty() } else { main_separator(platform) };
    assert(joined =~= base + between + path);
    if body(platform, base).len() > 0 {
        join_behind_names(platform, base, between, path);
    } else {
        join_behind_root(platform, base, between, path);
    }
    components_concat(platform, base, path, joined);
}

/// A component that stands for itself where a path is taken as it is written.
spec fn plain_component(item: ComponentView) -> bool {
    match item {
        ComponentView::Here | ComponentView::Up => true,
        ComponentView::Name(name) => name.len() > 0 && name != seq!['.'] && name != seq!['.', '.'] && !name.contains(
            '\\',
        ),
        _ => false,
    }
}

proof fn segments_plain(text: Seq<char>, separators: Separators)
    requires
        separators != Separators::Slash,
    ensures
        segments(text, separators).len() > 0,
        forall|i: int| 0 <= i < segments(
            text,
            separators,
        ).len() ==> !(#[trigger] segments(text, separators)[i]).contains('\\'),
    decreases text.len(),
{
    if text.len() > 0 {
        segments_plain(text.drop_last(), separators);
        let before = segments(text.drop_last(), separators);
        assert forall|i: int| 0 <= i < segments(text, separators).len() implies !(#[trigger] segments(
            text,
            separators,
        )[i]).contains('\\') by {
            if !separates(separators, text.last()) && i == before.len() - 1 {
                let piece = before.last().push(text.last());
                if piece.contains('\\') {
                    let k = choose|k: int| 0 <= k < piece.len() && piece[k] == '\\';
                    assert(before.last()[k] == '\\');
                }
            }
        }
    }
}

proof fn components_plain(list: Seq<Seq<char>>, separators: Separators)
    requires
        forall|i: int| 0 <= i < list.len() ==> !(#[trigger] list[i]).contains('\\'),
    ensures
        forall|i: int|
            0 <= i < components_of(list, separators).len() ==> plain_component(
                #[trigger] components_of(list, separators)[i],
            ),
    decreases list.len(),
{
    if list.len() > 0 {
        components_plain(list.drop_last(), separators);
        assert(!list[list.len() - 1].contains('\\'));
        let before = components_of(list.drop_last(), separators);
        let after = components_of(list, separators);
        assert forall|i: int| 0 <= i < after.len() implies plain_component(#[trigger] after[i]) by {
            if i < before.len() {
                assert(after[i] == before[i]);
            }
        }
    }
}

/// A piece without separators is one segment.
proof fn single_segment(piece: Seq<char>)
    requires
        !piece.contains('\\'),
    ensures
        segments(piece, Separators::Backslash) == seq![piece],
    decreases piece.len(),
{
    if piece.len() > 0 {
        let shorter = piece.drop_last();
        assert(!shorter.contains('\\')) by {
            if shorter.contains('\\') {
                let k = choose|k: int| 0 <= k < shorter.len() && shorter[k] == '\\';
                assert(piece[k] == '\\');
            }
        }
        single_segment(shorter);
        assert(piece.last() != '\\') by {
            assert(piece[piece.len() - 1] == piece.last());
        }
        assert(segments(piece, Separators::Backslash) =~= seq![shorter.push(piece.last())]);
        assert(shorter.push(piece.last()) =~= piece);
    } else {
        assert(piece =~= Seq::<char>::empty());
    }
}

/// Components behind a root, as they are written, are read as themselves.
proof fn shown_components_read_back(front: Seq<char>, begun: Seq<ComponentView>, items: Seq<ComponentView>)
    requires
        begun.len() == 2,
        begun[0] is Prefix,
        begun[1] is Root,
        forall|i: int| 0 <= i < items.len() ==> plain_component(#[trigger] items[i]),
    ensures
        ({
            let text = shown_components(front, begun + items);
            let names = text.skip((front.len() + 1) as int);
            &&& text.len() >= front.len() + 1
            &&& text.take(front.len() as int) == front
            &&& text[front.len() as int] == '\\'
            &&& components_of(segments(names, Separators::Backslash), Separators::Backslash) == items
        }),
    decreases items.len(),
{
    reveal_strlit("\\");
    reveal_strlit(".");
    reveal_strlit("..");
    let text = shown_components(front, begun + items);
    let names = text.skip((front.len() + 1) as int);
    if items.len() == 0 {
        assert(begun + items =~= begun);
        assert(begun.drop_last() =~= seq![begun[0]]);
        assert(begun.drop_last().drop_last() =~= Seq::<ComponentView>::empty());
        assert(shown_components(front, Seq::<ComponentView>::empty()) =~= Seq::<char>::empty());
        assert(shown_components(front, begun.drop_last()) =~= front);
        assert(text =~= front + "\\"@);
        assert(names =~= Seq::<char>::empty());
        no_components(Separators::Backslash);
        assert(items =~= Seq::<ComponentView>::empty());
    } else {
        let shorter = items.drop_last();
        shown_components_read_back(front, begun, shorter);
        assert((begun + items).drop_last() =~= begun + shorter);
        let before = shown_components(front, begun + shorter);
        let earlier = before.skip((front.len() + 1) as int);
        let item = items.last();
        let shown = shown_component(front, item);
        assert(plain_component(items[items.len() - 1]));
        assert(!shown.contains('\\'));
        single_segment(shown);
        assert(component_of(shown, Separators::Backslash) == Some(item)) by {
            assert("."@ =~= seq!['.']);
            assert(".."@ =~= seq!['.', '.']);
        }
        let alone = seq![shown];
        assert(alone.drop_last() =~= Seq::<Seq<char>>::empty());
        assert(components_of(alone, Separators::Backslash) =~= seq![item]) by {
            assert(components_of(alone.drop_last(), Separators::Backslash) =~= Seq::<ComponentView>::empty());
        }
        if shorter.len() == 0 {
            assert(text =~= before + shown);
            assert(begun + shorter =~= begun);
            assert(shown_components(front, begun) == before);
            assert(begun.drop_last() =~= seq![begun[0]]);
            assert(begun.drop_last().drop_last() =~= Seq::<ComponentView>::empty());
            assert(shown_components(front, Seq::<ComponentView>::empty()) =~= Seq::<char>::empty());
            assert(shown_components(front, begun.drop_last()) =~= front);
            assert(before =~= front + "\\"@);
            assert(names =~= shown);
            assert(items =~= seq![item]);
        } else {
            assert((begun + items)[(begun + items).len() - 2] == shorter.last());
            assert(plain_component(shorter[shorter.len() - 1]));
            assert(text =~= before + "\\"@ + shown);
            let opened = earlier + "\\"@;
            assert(names =~= opened + shown);
            assert(opened.drop_last() =~= earlier);
            segments_after_separator(opened, shown, Separators::Backslash);
            assert(segments(opened, Separators::Backslash).drop_last() =~= segments(earlier, Separators::Backslash));
            components_of_concat(segments(earlier, Separators::Backslash), alone, Separators::Backslash);
            assert(items =~= shorter + seq![item]);
        }
        assert(text.take(front.len() as int) =~= before.take(front.len() as int));
    }
}

/// The root that a prefix stands for is written where a name follows.
proof fn root_is_shown(front: Seq<char>, start: ComponentView, items: Seq<ComponentView>)
    requires
        start is Prefix,
        items.len() > 0,
        forall|i: int| 0 <= i < items.len() ==> plain_component(#[trigger] items[i]),
    ensures
        shown_components(front, seq![start] + items) == shown_components(
            front,
            seq![start, ComponentView::Root] + items,
        ),
    decreases items.len(),
{
    reveal_strlit("\\");
    let short = seq![start] + items;
    let long = seq![start, ComponentView::Root] + items;
    assert(short.drop_last() =~= seq![start] + items.drop_last());
    assert(long.drop_last() =~= seq![start, ComponentView::Root] + items.drop_last());
    assert(plain_component(items[items.len() - 1]));
    if items.len() == 1 {
        let begun = seq![start, ComponentView::Root];
        assert(items.drop_last() =~= Seq::<ComponentView>::empty());
        assert(short.drop_last() =~= seq![start]);
        assert(long.drop_last() =~= begun);
        assert(begun.drop_last() =~= seq![start]);
        assert(shown_components(front, begun) =~= shown_components(front, seq![start]) + "\\"@);
        assert(shown_components(front, short) =~= shown_components(front, long));
    } else {
        root_is_shown(front, start, items.drop_last());
        assert(short[short.len() - 2] == items[items.len() - 2]);
        assert(long[long.len() - 2] == items[items.len() - 2]);
        assert(plain_component(items[items.len() - 2]));
    }
}

proof fn verbatim_base_join(platform: Platform, base: Seq<char>, path: Seq<char>)
    requires
        confined(platform, path),
        verbatim(platform, base),
        prefix(platform, joined_path(platform, base, path)) == prefix(platform, base),
    ensures
        ({
            let whole = components(platform, joined_path(platform, base, path));
            ||| whole == components(platform, base) + components(platform, path)
            ||| whole == components(platform, base).push(ComponentView::Root) + components(platform, path)
        }),
{
    confined_names(platform, path);
    prefix_fits(platform, base);
    let joined = joined_path(platform, base, path);
    let length = prefix_length(platform, base);
    let front = base.take(length);
    let names = components(platform, path);
    names_follow(components(platform, base), names);
    segments_plain(path, Separators::Both);
    components_plain(segments(path, Separators::Both), Separators::Both);
    let found = prefix(platform, base)->0;
    let start = ComponentView::Prefix { kind: found.kind, first: found.first, second: found.second };
    let begun = seq![start, ComponentView::Root];
    let inside = components_of(segments(body(platform, base), Separators::Backslash), Separators::Backslash);
    segments_plain(body(platform, base), Separators::Backslash);
    components_plain(segments(body(platform, base), Separators::Backslash), Separators::Backslash);
    if root_written(platform, base) {
        assert(beginning(platform, base) =~= begun);
        assert(components(platform, base) + names =~= begun + (inside + names));
        shown_components_read_back(front, begun, inside + names);
        written_behind_a_root(platform, base, joined, begun, inside + names);
        assert(begun + (inside + names) =~= components(platform, base) + names);
    } else {
        assert(beginning(platform, base) =~= seq![start]);
        verbatim_prefix_alone(platform, base);
        assert(body(platform, base) =~= Seq::<char>::empty());
        no_components(Separators::Backslash);
        assert(components(platform, base) =~= seq![start]);
        if names.len() == 0 {
            assert(seq![start] + names =~= seq![start]);
            assert(seq![start].drop_last() =~= Seq::<ComponentView>::empty());
            assert(shown_components(front, Seq::<ComponentView>::empty()) =~= Seq::<char>::empty());
            assert(shown_components(front, seq![start]) =~= front);
            assert(joined =~= base);
            assert(components(platform, base) + names =~= components(platform, base));
        } else {
            root_is_shown(front, start, names);
            shown_components_read_back(front, begun, names);
            written_behind_a_root(platform, base, joined, begun, names);
            assert(begun + names =~= components(platform, base).push(ComponentView::Root) + names);
        }
    }
}

/// Nothing but a root follows a prefix that is taken as it is written.
proof fn verbatim_prefix_alone(platform: Platform, base: Seq<char>)
    requires
        verbatim(platform, base),
        !root_written(platform, base),
    ensures
        prefix_length(platform, base) == base.len(),
{
    prefix_fits(platform, base);
    if names_share(base) {
        let server = run(base, 8, Separators::Backslash);
        if prefix_length(platform, base) < base.len() {
            if prefix_length(platform, base) == 8 + server {
                run_stops(base, 8, Separators::Backslash);
            } else {
                run_stops(base, (8 + server + 1) as int, Separators::Backslash);
            }
        }
    } else if prefix(platform, base)->0.kind == PrefixKind::Verbatim {
        if prefix_length(platform, base) < base.len() {
            run_stops(base, 4, Separators::Backslash);
        }
    }
}

proof fn written_behind_a_root(
    platform: Platform,
    base: Seq<char>,
    joined: Seq<char>,
    begun: Seq<ComponentView>,
    items: Seq<ComponentView>,
)
    requires
        verbatim(platform, base),
        prefix(platform, joined) == prefix(platform, base),
        prefix(platform, base) matches Some(found) && begun == seq![
            ComponentView::Prefix { kind: found.kind, first: found.first, second: found.second },
            ComponentView::Root,
        ],
        joined.len() >= prefix_length(platform, base) + 1,
        joined[prefix_length(platform, base)] == '\\',
        components_of(
            segments(joined.skip(prefix_length(platform, base) + 1), Separators::Backslash),
            Separators::Backslash,
        ) == items,
    ensures
        components(platform, joined) == begun + items,
{
    assert(root_written(platform, joined));
    assert(beginning(platform, joined) =~= begun);
}

/// A confined path stays below the directory it is joined to: the directory's components, then
/// names only, none of which leads upwards (behind a prefix such as `\\?\C:` alone, its root first).
/// A join that makes a share out of a base such as `\\` is left out.
pub proof fn confined_join_stays_below(platform: Platform, base: Seq<char>, path: Seq<char>)
    requires
        base.len() > 0,
        confined(platform, path),
        prefix(platform, joined_path(platform, base, path)) == prefix(platform, base),
    ensures
        within(platform, joined_path(platform, base, path), base),
        forall|i: int|
            components(platform, base).len() <= i < components(platform, joined_path(platform, base, path)).len() ==> {
                let item = #[trigger] components(platform, joined_path(platform, base, path))[i];
                item is Name || (i == components(platform, base).len() && item is Root)
            },
{
    let whole = components(platform, joined_path(platform, base, path));
    let first = components(platform, base);
    let names = components(platform, path);
    if verbatim(platform, base) {
        verbatim_base_join(platform, base, path);
    } else {
        plain_base_join(platform, base, path);
    }
    assert(whole.subrange(0, first.len() as int) =~= first);
    assert forall|i: int| first.len() <= i < whole.len() implies {
        let item = #[trigger] whole[i];
        item is Name || (i == first.len() && item is Root)
    } by {
        if whole == first + names {
            assert(whole[i] == names[i - first.len()]);
        } else if i > first.len() {
            assert(whole[i] == names[i - first.len() - 1]);
        }
    }
}

proof fn prefix_fits(platform: Platform, path: Seq<char>)
    ensures
        0 <= prefix_length(platform, path) <= path.len(),
{
    if platform == Platform::Windows {
        if path.len() >= 8 {
            run_within(path, 8, Separators::Backslash);
            let server = 8 + run(path, 8, Separators::Backslash);
            if server < path.len() {
                run_within(path, (server + 1) as int, Separators::Backslash);
            }
        }
        if path.len() >= 4 {
            run_within(path, 4, Separators::Backslash);
            run_within(path, 4, Separators::Both);
        }
        if path.len() >= 2 {
            run_within(path, 2, Separators::Both);
            let server = 2 + run(path, 2, Separators::Both);
            if server < path.len() {
                run_within(path, (server + 1) as int, Separators::Both);
            }
        }
    }
}

proof fn names_follow(list: Seq<ComponentView>, steps: Seq<ComponentView>)
    requires
        forall|i: int| 0 <= i < steps.len() ==> #[trigger] steps[i] is Name,
    ensures
        followed(list, steps) == list + steps,
    decreases steps.len(),
{
    if steps.len() == 0 {
        assert(list + steps =~= list);
    } else {
        names_follow(list, steps.drop_last());
        assert(steps.last() is Name);
        assert(list + steps =~= (list + steps.drop_last()).push(steps.last()));
    }
}

/// Joining to one base twice changes nothing more than joining once, where the base is absolute.
pub proof fn joining_is_stable(platform: Platform, base: Seq<char>, path: Seq<char>)
    requires
        absolute(platform, base),
    ensures
        joined_path(platform, base, joined_path(platform, base, path)) == joined_path(platform, base, path),
{
    reveal_strlit("/");
    let joined = joined_path(platform, base, path);
    if absolute(platform, path) || prefix(platform, path) is Some {
    } else if platform != Platform::Windows {
        assert(joined[0] == base[0]);
    } else if verbatim(platform, base) {
        let front = base.take(prefix_length(platform, base));
        prefix_fits(platform, base);
        if path.len() > 0 {
            let list = components(platform, base);
            assert(list[0] is Prefix);
            followed_keeps_the_prefix(list, components(platform, path));
            shown_begins_with_the_prefix(front, followed(list, components(platform, path)));
        }
        assert(joined.take(4) =~= base.take(4));
        assert forall|i: int| 0 <= i < 4 implies joined[i] == base[i] by {
            assert(joined.take(4)[i] == joined[i]);
            assert(base.take(4)[i] == base[i]);
        }
        assert(begins_verbatim(joined));
    } else {
        let length = prefix_length(platform, base);
        prefix_fits(platform, base);
        let front = base.take(length);
        let more = joined.skip(length);
        assert(front + more =~= joined) by {
            assert(joined.take(length) =~= front);
        }
        prefix_kept(platform, base, more);
    }
}

proof fn followed_keeps_the_prefix(list: Seq<ComponentView>, steps: Seq<ComponentView>)
    requires
        list.len() > 0,
        list[0] is Prefix,
    ensures
        followed(list, steps).len() > 0,
        followed(list, steps)[0] is Prefix,
    decreases steps.len(),
{
    if steps.len() > 0 {
        followed_keeps_the_prefix(list, steps.drop_last());
    }
}

proof fn shown_begins_with_the_prefix(front: Seq<char>, list: Seq<ComponentView>)
    requires
        list.len() > 0,
        list[0] is Prefix,
    ensures
        front.is_prefix_of(shown_components(front, list)),
    decreases list.len(),
{
    let text = shown_components(front, list);
    if list.len() == 1 {
        assert(shown_components(front, list.drop_last()) =~= Seq::<char>::empty());
        assert(text =~= front);
    } else {
        shown_begins_with_the_prefix(front, list.drop_last());
        let before = shown_components(front, list.drop_last());
        assert(before.subrange(0, front.len() as int) =~= front);
        assert(text.subrange(0, front.len() as int) =~= before.subrange(0, front.len() as int));
    }
}

proof fn prefix_kept(platform: Platform, base: Seq<char>, more: Seq<char>)
    requires
        platform == Platform::Windows,
        prefix(platform, base) is Some,
        !verbatim(platform, base),
    ensures
        prefix(platform, base.take(prefix_length(platform, base)) + more) is Some,
{
    prefix_fits(platform, base);
    let length = prefix_length(platform, base);
    let text = base.take(length) + more;
    let found = prefix(platform, base)->0;
    assert forall|i: int| 0 <= i < length implies text[i] == base[i] by {}
    if found.kind == PrefixKind::Share {
        let server = run(base, 2, Separators::Both);
        run_kept(base, text, length, 2, Separators::Both);
        run_kept(base, text, length, (2 + server + 1) as int, Separators::Both);
    }
}

/// A run that another text repeats is as long there where it ends before, and no shorter otherwise.
proof fn run_kept(left: Seq<char>, right: Seq<char>, shared: int, at: int, separators: Separators)
    requires
        0 <= at <= shared <= left.len(),
        shared <= right.len(),
        forall|i: int| 0 <= i < shared ==> left[i] == right[i],
        at + run(left, at, separators) <= shared,
    ensures
        run(right, at, separators) >= run(left, at, separators),
        at + run(left, at, separators) < shared ==> run(right, at, separators) == run(left, at, separators),
    decreases shared - at,
{
    if at < left.len() && !separates(separators, left[at]) {
        assert(at < shared);
        assert(right[at] == left[at]);
        run_kept(left, right, shared, at + 1, separators);
    } else if at < shared {
        assert(right[at] == left[at]);
    }
}

/// A name that a directory can hold, with these separators.
pub open spec fn holdable(name: Seq<char>, separators: Separators) -> bool {
    &&& name.len() > 0
    &&& name != seq!['.']
    &&& forall|i: int| 0 <= i < name.len() ==> !separates(separators, #[trigger] name[i])
}

/// Names in one directory have the same parent. `front` is the directory with a separator behind it.
pub proof fn names_share_their_parent(platform: Platform, front: Seq<char>, first: Seq<char>, second: Seq<char>)
    requires
        prefix_length(platform, front) < front.len(),
        separates(separators_of(platform, front), front.last()),
        holdable(first, separators_of(platform, front)),
        holdable(second, separators_of(platform, front)),
        prefix(platform, front + first) == prefix(platform, front),
        prefix(platform, front + second) == prefix(platform, front),
    ensures
        parent_path(platform, front + first) is Some,
        parent_path(platform, front + second) == parent_path(platform, front + first),
{
    parent_of_a_name(platform, front, first);
    parent_of_a_name(platform, front, second);
}

proof fn parent_of_a_name(platform: Platform, front: Seq<char>, name: Seq<char>)
    requires
        prefix_length(platform, front) < front.len(),
        separates(separators_of(platform, front), front.last()),
        holdable(name, separators_of(platform, front)),
        prefix(platform, front + name) == prefix(platform, front),
    ensures
        parent_path(platform, front + name) == Some(
            front.take(body_at(platform, front)) + core_path(
                body(platform, front),
                separators_of(platform, front),
                rooted(platform, front),
            ),
        ),
{
    let path = front + name;
    let separators = separators_of(platform, front);
    let length = prefix_length(platform, front);
    prefix_fits(platform, front);
    assert(path[length] == front[length]);
    let start = body_at(platform, front);
    let before = body(platform, front);
    assert(body(platform, path) =~= before + name);
    let core = before + name;
    assert(core.last() == name.last());
    assert(name[name.len() - 1] == name.last());
    if name.len() == 1 {
        assert(name =~= seq![name[0]]);
    } else {
        assert(core[core.len() - 2] == name[name.len() - 2]);
    }
    assert(path_core(platform, path) == core);
    if before.len() > 0 {
        assert(before.last() == front.last());
    }
    tail_of_a_name(before, name, separators);
    assert(path_tail(platform, path) =~= name);
    assert(core.take(core.len() - name.len()) =~= before);
    assert(path.take(start) =~= front.take(start));
    if core == seq!['.'] {
        assert(before.len() == 0);
        assert(core =~= name);
    }
}

proof fn tail_of_a_name(before: Seq<char>, name: Seq<char>, separators: Separators)
    requires
        before.len() == 0 || separates(separators, before.last()),
        forall|i: int| 0 <= i < name.len() ==> !separates(separators, #[trigger] name[i]),
    ensures
        tail_length(before + name, separators) == name.len(),
    decreases name.len(),
{
    if name.len() == 0 {
        assert(before + name =~= before);
    } else {
        tail_of_a_name(before, name.drop_last(), separators);
        assert((before + name).drop_last() =~= before + name.drop_last());
        assert(name[name.len() - 1] == (before + name).last());
    }
}

/// A path and what it stands in, outwards.
pub open spec fn ancestors(platform: Platform, path: Seq<char>) -> Seq<Seq<char>>
    decreases path.len(),
{
    match parent_path(platform, path) {
        Some(parent) if parent.len() < path.len() => seq![path] + ancestors(platform, parent),
        _ => seq![path],
    }
}

/// A path and what it stands in, outwards.
pub fn path_ancestors(platform: Platform, path: &str) -> (list: Vec<String>)
    ensures
        crate::text::views(list@) == ancestors(platform, path@),
{
    let mut list: Vec<String> = Vec::new();
    let mut current = path.to_owned();
    let mut more = true;
    let ghost whole = ancestors(platform, path@);
    proof {
        assert(crate::text::views(list@) + ancestors(platform, current@) =~= whole);
    }
    while more
        invariant
            whole == ancestors(platform, path@),
            more ==> whole == crate::text::views(list@) + ancestors(platform, current@),
            !more ==> whole == crate::text::views(list@),
        decreases
            if more {
                current@.len() + 1
            } else {
                0
            },
    {
        let parent = path_parent(platform, current.as_str());
        let ghost before = crate::text::views(list@);
        let ghost place = current@;
        proof {
            parents_are_shorter(platform, place);
        }
        list.push(current);
        proof {
            assert(crate::text::views(list@) =~= before.push(place));
        }
        match parent {
            Some(next) => {
                proof {
                    assert(before + (seq![place] + ancestors(platform, next@)) =~= before.push(place) + ancestors(
                        platform,
                        next@,
                    ));
                }
                current = next;
            },
            None => {
                current = String::new();
                more = false;
                proof {
                    assert(before + seq![place] =~= before.push(place));
                }
            },
        }
    }
    list
}

/// What a path stands in is shorter than the path, so that every way outwards ends.
pub proof fn parents_are_shorter(platform: Platform, path: Seq<char>)
    ensures
        parent_path(platform, path) matches Some(parent) ==> parent.len() < path.len(),
{
    if parent_path(platform, path) is Some {
        prefix_fits(platform, path);
        let names = body(platform, path);
        let separators = separators_of(platform, path);
        let start = rooted(platform, path);
        let core = path_core(platform, path);
        core_is_no_longer(names, separators, start);
        tail_fits(core, separators);
        let tail = path_tail(platform, path);
        let front = core.take(core.len() - tail.len());
        core_is_no_longer(front, separators, start);
        if tail.len() == 0 {
            assert(separates(separators, core.last()));
            core_ends_in_a_name(names, separators, start);
        }
        assert(path.take(body_at(platform, path)).len() == body_at(platform, path));
    }
}

proof fn core_is_no_longer(names: Seq<char>, separators: Separators, rooted: bool)
    ensures
        core_path(names, separators, rooted).len() <= names.len(),
    decreases names.len(),
{
    if names.len() > 0 {
        core_is_no_longer(names.drop_last(), separators, rooted);
    }
}

proof fn core_ends_in_a_name(names: Seq<char>, separators: Separators, rooted: bool)
    ensures
        core_path(names, separators, rooted).len() > 0 ==> !separates(
            separators,
            core_path(names, separators, rooted).last(),
        ),
    decreases names.len(),
{
    if names.len() > 0 {
        core_ends_in_a_name(names.drop_last(), separators, rooted);
    }
}

proof fn tail_fits(names: Seq<char>, separators: Separators)
    ensures
        tail_length(names, separators) <= names.len(),
    decreases names.len(),
{
    if names.len() > 0 && !separates(separators, names.last()) {
        tail_fits(names.drop_last(), separators);
    }
}

/// Away from Windows a path is absolute exactly where it begins with a slash.
pub proof fn absolute_paths_begin_with_a_slash(platform: Platform, path: Seq<char>)
    requires
        !(platform is Windows),
    ensures
        absolute(platform, path) <==> path.len() > 0 && path[0] == '/',
        prefix(platform, path) is None,
{
}

/// Away from Windows an absolute path is taken as it is, and a relative one stands behind its base with
/// one slash between them.
pub proof fn relative_paths_stand_behind_their_base(platform: Platform, base: Seq<char>, path: Seq<char>)
    requires
        !(platform is Windows),
    ensures
        path.len() > 0 && path[0] == '/' ==> joined_path(platform, base, path) == path,
        !(path.len() > 0 && path[0] == '/') && (base.len() == 0 || base.last() == '/') ==> joined_path(
            platform,
            base,
            path,
        ) == base + path,
        !(path.len() > 0 && path[0] == '/') && base.len() > 0 && base.last() != '/' ==> joined_path(
            platform,
            base,
            path,
        ) == base + "/"@ + path,
{
}

/// On Windows a path with a drive and a root is absolute, and one with neither is not.
pub proof fn drives_make_paths_absolute(path: Seq<char>)
    ensures
        path.len() >= 3 && (is_lower(path[0]) || is_upper(path[0])) && path[1] == ':' && (path[2] == '\\' || path[2]
            == '/') ==> absolute(Platform::Windows, path),
        path.len() > 0 && path[0] != '\\' && path[0] != '/' && !drive_at(path, 0) ==> !absolute(
            Platform::Windows,
            path,
        ),
{
}

/// A path is within itself, within what it is within is within, and two paths within each other have
/// the same components.
pub proof fn containment_is_an_order(platform: Platform, first: Seq<char>, second: Seq<char>, third: Seq<char>)
    ensures
        within(platform, first, first),
        within(platform, first, second) && within(platform, second, third) ==> within(platform, first, third),
        within(platform, first, second) && within(platform, second, first) ==> components(platform, first)
            == components(platform, second),
{
    let a = components(platform, first);
    let b = components(platform, second);
    let c = components(platform, third);
    if b.is_prefix_of(a) && c.is_prefix_of(b) {
        assert(c.is_prefix_of(a));
    }
    if b.is_prefix_of(a) && a.is_prefix_of(b) {
        assert(a == b);
    }
}

/// A confined path is relative, goes nowhere up and is not empty.
pub proof fn confined_paths_go_nowhere_up(platform: Platform, path: Seq<char>)
    requires
        confined(platform, path),
    ensures
        path.len() > 0,
        !absolute(platform, path),
        !components(platform, path).contains(ComponentView::Up),
        !components(platform, path).contains(ComponentView::Root),
{
    let list = components(platform, path);
    assert forall|i: int| 0 <= i < list.len() implies list[i] is Name by {
        assert(components(platform, path)[i] is Name);
    }
}

/// The stem of a name is what stands before its last dot; a name without one, or with a dot only at its
/// beginning, is its own stem.
pub proof fn stems_leave_the_ending_out(name: Seq<char>, ending: Seq<char>)
    requires
        !ending.contains('.'),
    ensures
        name.len() > 0 ==> stem(name + "."@ + ending) == name,
        stem(ending) == ending,
        stem("."@ + ending) == "."@ + ending,
{
    reveal_strlit(".");
    let whole = name + "."@ + ending;
    the_last_dot_is_found(name, ending);
    assert(whole.take(name.len() as int) == name);
    no_dot_is_found(ending);
    the_last_dot_is_found(Seq::empty(), ending);
    assert(Seq::<char>::empty() + "."@ + ending == "."@ + ending);
}

proof fn the_last_dot_is_found(name: Seq<char>, ending: Seq<char>)
    requires
        !ending.contains('.'),
    ensures
        last_dot(name + "."@ + ending) == name.len(),
    decreases ending.len(),
{
    reveal_strlit(".");
    let whole = name + "."@ + ending;
    if ending.len() > 0 {
        let front = ending.drop_last();
        assert forall|i: int| 0 <= i < front.len() implies front[i] != '.' by {
            assert(ending.contains(ending[i]));
        }
        the_last_dot_is_found(name, front);
        assert(whole.drop_last() == name + "."@ + front);
        assert(ending.contains(ending[ending.len() - 1]));
        assert(whole.last() == ending.last());
    } else {
        assert(whole.last() == '.');
    }
}

proof fn no_dot_is_found(name: Seq<char>)
    requires
        !name.contains('.'),
    ensures
        last_dot(name) == -1,
    decreases name.len(),
{
    if name.len() > 0 {
        let front = name.drop_last();
        assert forall|i: int| 0 <= i < front.len() implies front[i] != '.' by {
            assert(name.contains(name[i]));
        }
        no_dot_is_found(front);
        assert(name.contains(name[name.len() - 1]));
    }
}

/// A path comes first among its ancestors, and each of the others is shorter.
pub proof fn paths_come_before_their_ancestors(platform: Platform, path: Seq<char>, at: int)
    requires
        0 <= at < ancestors(platform, path).len(),
    ensures
        ancestors(platform, path)[0] == path,
        at > 0 ==> ancestors(platform, path)[at].len() < path.len(),
        parent_path(platform, path) matches Some(parent) ==> ancestors(platform, path).len() > 1 && ancestors(
            platform,
            path,
        )[1] == parent,
    decreases path.len(),
{
    parents_are_shorter(platform, path);
    if let Some(parent) = parent_path(platform, path) {
        let rest = ancestors(platform, parent);
        assert(ancestors(platform, path) == seq![path] + rest);
        paths_come_before_their_ancestors(platform, parent, 0);
        if at > 0 {
            paths_come_before_their_ancestors(platform, parent, at - 1);
        }
    }
}

} // verus!
