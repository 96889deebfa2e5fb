//! Immutable, ordered sets of model-visible instructions: how they are captured, composed,
//! identified and verified.

use crate::encoding::{hex_encode, hex_text, sha256, sha256_digest};
use crate::entries::{ascending_keys, clone_entries, ordered_entries, same_map, text_entries, Entry};
use crate::error::{answers, config_error, is_config_error, RuntimeError, Verdict};
use crate::operations::{debug_quoted, debug_text};
use crate::text::{
    characters, clone_texts, concat2, concat3, contains_text, decimal, decimal_text, every_item_is_joined, join,
    joined, occurs_at, same_text, views,
};
use vstd::bytes::*;
use vstd::prelude::*;
use vstd::string::*;
use vstd::utf8::*;

verus! {

/// Most bytes of one instruction file.
pub const MAX_AGENTS_FILE_BYTES: usize = 65_536;

/// Most bytes of all instruction files together.
pub const MAX_AGENTS_TOTAL_BYTES: usize = 131_072;

/// The version of the snapshots written here.
pub const SNAPSHOT_VERSION: u16 = 1;

/// Where instructions come from. Later sources stand later in the composed text.
#[derive(Clone, Copy, Debug, PartialEq, Eq, Structural)]
pub enum InstructionSourceKind {
    Home,
    Workspace,
    Invocation,
    RuntimeMode,
}

impl InstructionSourceKind {
    /// The name of the source.
    pub open spec fn name(self) -> Seq<char> {
        match self {
            InstructionSourceKind::Home => "home AGENTS.md"@,
            InstructionSourceKind::Workspace => "workspace AGENTS.md"@,
            InstructionSourceKind::Invocation => "invocation instructions"@,
            InstructionSourceKind::RuntimeMode => "runtime mode instructions"@,
        }
    }

    /// The name of the source.
    pub fn label(self) -> (label: &'static str)
        ensures
            label@ == self.name(),
    {
        match self {
            InstructionSourceKind::Home => "home AGENTS.md",
            InstructionSourceKind::Workspace => "workspace AGENTS.md",
            InstructionSourceKind::Invocation => "invocation instructions",
            InstructionSourceKind::RuntimeMode => "runtime mode instructions",
        }
    }

    /// The place of the source among the others.
    pub open spec fn place(self) -> u8 {
        match self {
            InstructionSourceKind::Home => 0,
            InstructionSourceKind::Workspace => 1,
            InstructionSourceKind::Invocation => 2,
            InstructionSourceKind::RuntimeMode => 3,
        }
    }

    /// The place of the source among the others.
    pub fn order(self) -> (order: u8)
        ensures
            order == self.place(),
    {
        match self {
            InstructionSourceKind::Home => 0,
            InstructionSourceKind::Workspace => 1,
            InstructionSourceKind::Invocation => 2,
            InstructionSourceKind::RuntimeMode => 3,
        }
    }

    /// The source is a file that is read by itself.
    pub open spec fn is_file(self) -> bool {
        self is Home || self is Workspace
    }

    /// Whether the source is a file that is read by itself.
    pub fn automatic(self) -> (yes: bool)
        ensures
            yes == self.is_file(),
    {
        match self {
            InstructionSourceKind::Home | InstructionSourceKind::Workspace => true,
            _ => false,
        }
    }
}

/// The contents of one source, with their digest.
pub struct InstructionSourceSnapshot {
    pub kind: InstructionSourceKind,
    pub sha256: String,
    pub contents: String,
}

/// A source as a value: its kind, digest and contents.
pub ghost struct SourceView {
    pub kind: InstructionSourceKind,
    pub sha256: Seq<char>,
    pub contents: Seq<char>,
}

impl View for InstructionSourceSnapshot {
    type V = SourceView;

    open spec fn view(&self) -> SourceView {
        SourceView { kind: self.kind, sha256: self.sha256@, contents: self.contents@ }
    }
}

/// The sources of a list as values.
pub open spec fn source_views(list: Seq<InstructionSourceSnapshot>) -> Seq<SourceView> {
    list.map_values(|source: InstructionSourceSnapshot| source@)
}

/// The hexadecimal digest of contents.
pub open spec fn content_digest(contents: Seq<char>) -> Seq<char> {
    hex_text(sha256(encode_utf8(contents)))
}

/// A source with the digest of its contents.
pub open spec fn source_of(kind: InstructionSourceKind, contents: Seq<char>) -> SourceView {
    SourceView { kind, sha256: content_digest(contents), contents }
}

fn content_digest_text(contents: &str) -> (digest: String)
    ensures
        digest@ == content_digest(contents@),
{
    let digest = sha256_digest(contents.as_bytes());
    hex_encode(digest.as_slice())
}

impl InstructionSourceSnapshot {
    /// A source with the digest of its contents.
    pub fn new(kind: InstructionSourceKind, contents: String) -> (source: InstructionSourceSnapshot)
        ensures
            source@ == source_of(kind, contents@),
    {
        let sha256 = content_digest_text(contents.as_str());
        InstructionSourceSnapshot { kind, sha256, contents }
    }
}

impl Clone for InstructionSourceSnapshot {
    fn clone(&self) -> (copy: InstructionSourceSnapshot)
        ensures
            copy == *self,
    {
        InstructionSourceSnapshot {
            kind: self.kind,
            sha256: self.sha256.clone(),
            contents: self.contents.clone(),
        }
    }
}

/// The text of one source under its heading.
pub open spec fn section(source: SourceView) -> Seq<char> {
    "[Colossus "@ + source.kind.name() + "]\n"@ + source.contents
}

/// The sections of the sources that hold anything, in order.
pub open spec fn sections(list: Seq<SourceView>) -> Seq<Seq<char>>
    decreases list.len(),
{
    if list.len() == 0 {
        Seq::empty()
    } else if list.last().contents.len() == 0 {
        sections(list.drop_last())
    } else {
        sections(list.drop_last()).push(section(list.last()))
    }
}

/// The composed text of sources: their sections, one blank line apart.
pub open spec fn composed(list: Seq<SourceView>) -> Seq<char> {
    joined(sections(list), "\n\n"@)
}

/// The composed text of the first `end` sources.
fn compose_sources(sources: &Vec<InstructionSourceSnapshot>, end: usize) -> (text: String)
    requires
        end <= sources@.len(),
    ensures
        text@ == composed(source_views(sources@).take(end as int)),
{
    let mut list: Vec<String> = Vec::new();
    let ghost all = source_views(sources@);
    let mut i: usize = 0;
    while i < end
        invariant
            i <= end <= sources@.len(),
            all == source_views(sources@),
            views(list@) == sections(all.take(i as int)),
        decreases end - i,
    {
        let source = &sources[i];
        proof {
            assert(all.take(i + 1).drop_last() =~= all.take(i as int));
            assert(all.take(i + 1).last() == sources@[i as int]@);
        }
        if !source.contents.as_str().is_empty() {
            let mut text = concat3("[Colossus ", source.kind.label(), "]\n");
            text.append(source.contents.as_str());
            let ghost before = list@;
            list.push(text);
            proof {
                assert(text@ =~= section(source@));
                assert(views(list@) =~= views(before).push(text@));
            }
        }
        i = i + 1;
    }
    join(&list, "\n\n")
}

/// What a snapshot's identity binds: the sources, the digests of the plugins and the selected skills.
pub ghost enum Item {
    Source { kind: InstructionSourceKind, contents: Seq<char> },
    Plugin { name: Seq<char>, digest: Seq<char> },
    Skill(Seq<char>),
}

/// All that a snapshot's identity binds, in order.
pub open spec fn items(
    sources: Seq<SourceView>,
    digests: Seq<(Seq<char>, Seq<char>)>,
    skills: Seq<Seq<char>>,
) -> Seq<Item> {
    sources.map_values(|source: SourceView| Item::Source { kind: source.kind, contents: source.contents })
        + digests.map_values(|digest: (Seq<char>, Seq<char>)| Item::Plugin { name: digest.0, digest: digest.1 })
        + skills.map_values(|skill: Seq<char>| Item::Skill(skill))
}

/// A text with its length.
pub open spec fn text_bytes(text: Seq<char>) -> Seq<u8> {
    spec_u64_to_le_bytes(encode_utf8(text).len() as u64) + encode_utf8(text)
}

/// The bytes of one item within a snapshot's identity.
pub open spec fn item_bytes(item: Item) -> Seq<u8> {
    match item {
        Item::Source { kind, contents } => seq![kind.place()] + text_bytes(contents),
        Item::Plugin { name, digest } => seq![4u8] + text_bytes(name) + text_bytes(digest),
        Item::Skill(skill) => seq![5u8] + text_bytes(skill),
    }
}

/// The bytes that a snapshot's identity is the digest of.
pub open spec fn identity_bytes(list: Seq<Item>) -> Seq<u8>
    decreases list.len(),
{
    if list.len() == 0 {
        encode_utf8("colossus-instruction-snapshot-v1\0"@)
    } else {
        identity_bytes(list.drop_last()) + item_bytes(list.last())
    }
}

/// The identity of sources, plugins and skills.
pub open spec fn identity(
    sources: Seq<SourceView>,
    digests: Seq<(Seq<char>, Seq<char>)>,
    skills: Seq<Seq<char>>,
) -> Seq<char> {
    hex_text(sha256(identity_bytes(items(sources, digests, skills))))
}

fn append_bytes(list: &mut Vec<u8>, bytes: &[u8])
    ensures
        final(list)@ == old(list)@ + bytes@,
{
    let ghost before = list@;
    let mut i: usize = 0;
    while i < bytes.len()
        invariant
            i <= bytes@.len(),
            list@ == before + bytes@.take(i as int),
        decreases bytes@.len() - i,
    {
        list.push(bytes[i]);
        proof {
            assert(bytes@.take(i + 1) =~= bytes@.take(i as int).push(bytes@[i as int]));
            assert(list@ =~= before + bytes@.take(i + 1));
        }
        i = i + 1;
    }
    proof {
        assert(bytes@.take(i as int) =~= bytes@);
    }
}

fn append_text(list: &mut Vec<u8>, text: &str)
    ensures
        final(list)@ == old(list)@ + text_bytes(text@),
{
    let ghost before = list@;
    let contents = text.as_bytes();
    let length: u64 = contents.len() as u64;
    let length_bytes = u64_to_le_bytes(length);
    append_bytes(list, length_bytes.as_slice());
    append_bytes(list, contents);
    proof {
        assert(list@ =~= before + text_bytes(text@));
    }
}

/// The identity of sources, plugins and skills.
fn snapshot_id(
    sources: &Vec<InstructionSourceSnapshot>,
    digests: &Vec<Entry<String>>,
    skills: &Vec<String>,
) -> (id: String)
    ensures
        id@ == identity(source_views(sources@), text_entries(digests@), views(skills@)),
        is_snapshot_id(id@),
{
    let mut bytes: Vec<u8> = Vec::new();
    append_bytes(&mut bytes, "colossus-instruction-snapshot-v1\0".as_bytes());
    let ghost all = items(source_views(sources@), text_entries(digests@), views(skills@));
    let ghost first = sources@.len() as int;
    let ghost second = first + digests@.len();
    proof {
        assert(bytes@ =~= identity_bytes(all.take(0)));
    }
    let mut i: usize = 0;
    while i < sources.len()
        invariant
            i <= sources@.len(),
            all == items(source_views(sources@), text_entries(digests@), views(skills@)),
            bytes@ == identity_bytes(all.take(i as int)),
        decreases sources@.len() - i,
    {
        let ghost before = bytes@;
        bytes.push(sources[i].kind.order());
        append_text(&mut bytes, sources[i].contents.as_str());
        proof {
            assert(all.take(i + 1).drop_last() =~= all.take(i as int));
            assert(all.take(i + 1).last() == (Item::Source {
                kind: sources@[i as int].kind,
                contents: sources@[i as int].contents@,
            }));
            assert(bytes@ =~= before + item_bytes(all.take(i + 1).last()));
        }
        i = i + 1;
    }
    let mut k: usize = 0;
    while k < digests.len()
        invariant
            k <= digests@.len(),
            first == sources@.len(),
            all == items(source_views(sources@), text_entries(digests@), views(skills@)),
            bytes@ == identity_bytes(all.take(first + k)),
        decreases digests@.len() - k,
    {
        let ghost before = bytes@;
        bytes.push(4);
        append_text(&mut bytes, digests[k].key.as_str());
        append_text(&mut bytes, digests[k].value.as_str());
        proof {
            let at = first + k;
            assert(all.take(at + 1).drop_last() =~= all.take(at));
            assert(all.take(at + 1).last() == (Item::Plugin {
                name: digests@[k as int].key@,
                digest: digests@[k as int].value@,
            }));
            assert(bytes@ =~= before + item_bytes(all.take(at + 1).last()));
        }
        k = k + 1;
    }
    let mut m: usize = 0;
    while m < skills.len()
        invariant
            m <= skills@.len(),
            second == sources@.len() + digests@.len(),
            all == items(source_views(sources@), text_entries(digests@), views(skills@)),
            bytes@ == identity_bytes(all.take(second + m)),
        decreases skills@.len() - m,
    {
        let ghost before = bytes@;
        bytes.push(5);
        append_text(&mut bytes, skills[m].as_str());
        proof {
            let at = second + m;
            assert(all.take(at + 1).drop_last() =~= all.take(at));
            assert(all.take(at + 1).last() == Item::Skill(skills@[m as int]@));
            assert(bytes@ =~= before + item_bytes(all.take(at + 1).last()));
        }
        m = m + 1;
    }
    proof {
        assert(all.take(second + m) =~= all);
    }
    let digest = sha256_digest(bytes.as_slice());
    let id = hex_encode(digest.as_slice());
    proof {
        assert forall|j: int| 0 <= j < id@.len() implies id_char(#[trigger] id@[j]) by {
            let byte = digest@[j / 2];
            assert(byte / 16 < 16 && byte % 16 < 16);
        }
    }
    id
}

/// A digit of an identity.
pub open spec fn id_char(c: char) -> bool {
    ('0' <= c && c <= '9') || ('a' <= c && c <= 'f')
}

/// An identity: 64 lower-case hexadecimal digits.
pub open spec fn is_snapshot_id(id: Seq<char>) -> bool {
    id.len() == 64 && forall|i: int| 0 <= i < id.len() ==> id_char(#[trigger] id[i])
}

/// Whether a text is an identity: 64 lower-case hexadecimal digits.
pub fn valid_snapshot_id(id: &str) -> (yes: bool)
    ensures
        yes == is_snapshot_id(id@),
{
    let list = characters(id);
    if list.len() != 64 {
        return false;
    }
    let mut i: usize = 0;
    while i < list.len()
        invariant
            list@ == id@,
            i <= list@.len(),
            forall|j: int| 0 <= j < i ==> id_char(#[trigger] id@[j]),
        decreases list@.len() - i,
    {
        let c: char = list[i];
        if !(('0' <= c && c <= '9') || ('a' <= c && c <= 'f')) {
            return false;
        }
        i = i + 1;
    }
    true
}

/// The text of the failure to verify a snapshot.
pub open spec fn verification_text() -> Seq<char> {
    "durable instruction snapshot failed verification"@
}

/// The failure to verify a snapshot.
pub fn snapshot_verification_error<T>() -> (result: Result<T, RuntimeError>)
    ensures
        is_config_error(result, verification_text()),
{
    config_error("durable instruction snapshot failed verification")
}

/// The journal stream of a snapshot; refused where the text is no identity.
pub fn snapshot_stream(id: &str) -> (stream: Result<String, RuntimeError>)
    ensures
        if is_snapshot_id(id@) {
            stream matches Ok(name) && name@ == "instruction-snapshot:"@ + id@
        } else {
            is_config_error(stream, verification_text())
        },
{
    if valid_snapshot_id(id) {
        Ok(concat2("instruction-snapshot:", id))
    } else {
        snapshot_verification_error()
    }
}

/// One immutable, ordered set of model-visible instructions for a top-level run, with the plugins
/// and the skills that belong to it.
pub struct InstructionSnapshot {
    pub version: u16,
    pub id: String,
    pub sources: Vec<InstructionSourceSnapshot>,
    /// Digests of the run's plugins, by name.
    pub plugin_digests: Vec<Entry<String>>,
    /// The selected skills of the plugins.
    pub plugin_skill_ids: Vec<String>,
}

/// A snapshot as a value.
pub ghost struct SnapshotView {
    pub version: u16,
    pub id: Seq<char>,
    pub sources: Seq<SourceView>,
    pub plugin_digests: Seq<(Seq<char>, Seq<char>)>,
    pub plugin_skill_ids: Seq<Seq<char>>,
}

impl View for InstructionSnapshot {
    type V = SnapshotView;

    open spec fn view(&self) -> SnapshotView {
        SnapshotView {
            version: self.version,
            id: self.id@,
            sources: source_views(self.sources@),
            plugin_digests: text_entries(self.plugin_digests@),
            plugin_skill_ids: views(self.plugin_skill_ids@),
        }
    }
}

/// The snapshot of sources, plugins and skills.
pub open spec fn snapshot_of(
    sources: Seq<SourceView>,
    digests: Seq<(Seq<char>, Seq<char>)>,
    skills: Seq<Seq<char>>,
) -> SnapshotView {
    SnapshotView {
        version: SNAPSHOT_VERSION,
        id: identity(sources, digests, skills),
        sources,
        plugin_digests: digests,
        plugin_skill_ids: skills,
    }
}

/// Each source stands after the one before it, and its digest is that of its contents.
pub open spec fn in_order(sources: Seq<SourceView>) -> bool {
    &&& forall|i: int, j: int|
        0 <= i < j < sources.len() ==> (#[trigger] sources[i]).kind.place() < (#[trigger] sources[j]).kind.place()
    &&& forall|i: int|
        0 <= i < sources.len() ==> (#[trigger] sources[i]).sha256 == content_digest(sources[i].contents)
}

/// No instruction file is longer than one may be.
pub open spec fn files_bounded(sources: Seq<SourceView>) -> bool {
    forall|i: int|
        0 <= i < sources.len() && (#[trigger] sources[i]).kind.is_file() ==> encode_utf8(sources[i].contents).len()
            <= MAX_AGENTS_FILE_BYTES
}

/// The bytes of all instruction files together.
pub open spec fn file_bytes(sources: Seq<SourceView>) -> nat
    decreases sources.len(),
{
    if sources.len() == 0 {
        0
    } else if sources.last().kind.is_file() {
        file_bytes(sources.drop_last()) + encode_utf8(sources.last().contents).len()
    } else {
        file_bytes(sources.drop_last())
    }
}

/// More sources never hold fewer bytes.
proof fn file_bytes_grow(sources: Seq<SourceView>, end: int)
    requires
        0 <= end <= sources.len(),
    ensures
        file_bytes(sources.take(end)) <= file_bytes(sources),
    decreases sources.len(),
{
    if end == sources.len() {
        assert(sources.take(end) =~= sources);
    } else {
        file_bytes_grow(sources.drop_last(), end);
        assert(sources.drop_last().take(end) =~= sources.take(end));
    }
}

/// A source of this kind occurs.
pub open spec fn has_kind(sources: Seq<SourceView>, kind: InstructionSourceKind) -> bool {
    exists|i: int| 0 <= i < sources.len() && (#[trigger] sources[i]).kind == kind
}

/// The last source is the runtime mode.
pub open spec fn ends_with_mode(sources: Seq<SourceView>) -> bool {
    sources.len() > 0 && sources.last().kind is RuntimeMode
}

/// A snapshot that can be relied on: its version is known, its sources are in order with their
/// digests, the invocation is among them and the runtime mode is last, the files keep their bounds,
/// and its identity is that of its sources.
pub open spec fn sound(snapshot: SnapshotView) -> bool {
    &&& snapshot.version == SNAPSHOT_VERSION
    &&& is_snapshot_id(snapshot.id)
    &&& in_order(snapshot.sources)
    &&& files_bounded(snapshot.sources)
    &&& ends_with_mode(snapshot.sources)
    &&& has_kind(snapshot.sources, InstructionSourceKind::Invocation)
    &&& file_bytes(snapshot.sources) <= MAX_AGENTS_TOTAL_BYTES
    &&& snapshot.id == identity(snapshot.sources, snapshot.plugin_digests, snapshot.plugin_skill_ids)
}

/// The composed text without the runtime mode.
pub open spec fn composed_base(sources: Seq<SourceView>) -> Seq<char> {
    if ends_with_mode(sources) {
        composed(sources.drop_last())
    } else {
        composed(sources)
    }
}

/// The contents of the runtime mode, where it is the last source.
pub open spec fn mode_contents(sources: Seq<SourceView>) -> Seq<char> {
    if ends_with_mode(sources) {
        sources.last().contents
    } else {
        Seq::empty()
    }
}

/// A label and a digest: all that is shown of a source.
#[derive(Debug)]
pub struct Provenance {
    pub label: String,
    pub sha256: String,
}

/// What is shown of sources.
pub open spec fn shown(list: Seq<Provenance>) -> Seq<(Seq<char>, Seq<char>)> {
    list.map_values(|item: Provenance| (item.label@, item.sha256@))
}

/// The labels and digests of all sources.
pub open spec fn provenance_of(sources: Seq<SourceView>) -> Seq<(Seq<char>, Seq<char>)> {
    sources.map_values(|source: SourceView| (source.kind.name(), source.sha256))
}

/// The sources that are read by themselves.
pub open spec fn automatic_sources(sources: Seq<SourceView>) -> Seq<SourceView> {
    sources.filter(|source: SourceView| source.kind.is_file())
}

fn clone_sources(list: &Vec<InstructionSourceSnapshot>) -> (copy: Vec<InstructionSourceSnapshot>)
    ensures
        copy@ == list@,
{
    let mut copy: Vec<InstructionSourceSnapshot> = Vec::new();
    let mut i: usize = 0;
    while i < list.len()
        invariant
            i <= list@.len(),
            copy@ == list@.take(i as int),
        decreases list@.len() - i,
    {
        copy.push(list[i].clone());
        proof {
            assert(list@.take(i + 1) =~= list@.take(i as int).push(list@[i as int]));
        }
        i = i + 1;
    }
    proof {
        assert(list@.take(i as int) =~= list@);
    }
    copy
}

impl Clone for InstructionSnapshot {
    fn clone(&self) -> (copy: InstructionSnapshot)
        ensures
            copy@ == self@,
    {
        InstructionSnapshot {
            version: self.version,
            id: self.id.clone(),
            sources: clone_sources(&self.sources),
            plugin_digests: clone_entries(&self.plugin_digests),
            plugin_skill_ids: clone_texts(&self.plugin_skill_ids),
        }
    }
}

/// Why the instruction files cannot be captured together, if so.
pub open spec fn capture_verdict(home: Option<String>, workspace: Option<String>) -> Verdict {
    let home_bytes: nat = match home {
        Some(contents) => encode_utf8(contents@).len(),
        None => 0,
    };
    let workspace_bytes: nat = match workspace {
        Some(contents) => encode_utf8(contents@).len(),
        None => 0,
    };
    if home_bytes + workspace_bytes > MAX_AGENTS_TOTAL_BYTES {
        Verdict::Reject("combined AGENTS.md content exceeds 131072 bytes"@)
    } else {
        Verdict::Accept
    }
}

/// The file and invocation layers of a run.
pub open spec fn layers(home: Option<String>, workspace: Option<String>, invocation: Seq<char>) -> Seq<SourceView> {
    let first = match home {
        Some(contents) => seq![source_of(InstructionSourceKind::Home, contents@)],
        None => Seq::empty(),
    };
    let second = match workspace {
        Some(contents) => first.push(source_of(InstructionSourceKind::Workspace, contents@)),
        None => first,
    };
    second.push(source_of(InstructionSourceKind::Invocation, invocation))
}

/// File and invocation layers captured at the start of one top-level run. Goal creation assigns its
/// durable identifier after the run has started; these layers take it in without a second reading.
pub struct CapturedAgentInstructions {
    pub sources: Vec<InstructionSourceSnapshot>,
    /// Digests of the run's plugins, by name.
    pub plugin_digests: Vec<Entry<String>>,
}

/// The instructions of a run, ready for a model.
pub struct PreparedAgentInstructions {
    pub base_text: String,
    pub text: String,
    pub runtime_mode: String,
    pub snapshot: Option<InstructionSnapshot>,
}

/// A base text with the runtime mode after it.
pub open spec fn with_mode(base: Seq<char>, mode: Seq<char>) -> Seq<char> {
    if mode.len() == 0 {
        base
    } else if base.len() == 0 {
        section(source_of(InstructionSourceKind::RuntimeMode, mode))
    } else {
        base + "\n\n"@ + section(source_of(InstructionSourceKind::RuntimeMode, mode))
    }
}

/// A base text with the runtime mode after it.
fn append_runtime_mode(base: &str, runtime_mode: &str) -> (text: String)
    ensures
        text@ == with_mode(base@, runtime_mode@),
{
    if runtime_mode.is_empty() {
        return base.to_owned();
    }
    let mut text = String::new();
    if !base.is_empty() {
        text.append(base);
        text.append("\n\n");
    }
    text.append("[Colossus ");
    text.append(InstructionSourceKind::RuntimeMode.label());
    text.append("]\n");
    text.append(runtime_mode);
    proof {
        let mode = source_of(InstructionSourceKind::RuntimeMode, runtime_mode@);
        assert(text@ =~= if base@.len() == 0 {
            section(mode)
        } else {
            base@ + "\n\n"@ + section(mode)
        });
    }
    text
}

/// The contents of a file, if any, are no longer than one file may be.
pub open spec fn file_bounded(contents: Option<String>) -> bool {
    contents matches Some(text) ==> encode_utf8(text@).len() <= MAX_AGENTS_FILE_BYTES
}

/// The snapshot of layers read within the bound of one file can be relied on.
pub proof fn captured_layers_are_sound(
    home: Option<String>,
    workspace: Option<String>,
    invocation: Seq<char>,
    runtime_mode: Seq<char>,
    digests: Seq<(Seq<char>, Seq<char>)>,
    skills: Seq<Seq<char>>,
)
    requires
        file_bounded(home),
        file_bounded(workspace),
        is_snapshot_id(
            identity(
                layers(home, workspace, invocation).push(
                    source_of(InstructionSourceKind::RuntimeMode, runtime_mode),
                ),
                digests,
                skills,
            ),
        ),
    ensures
        sound(
            snapshot_of(
                layers(home, workspace, invocation).push(
                    source_of(InstructionSourceKind::RuntimeMode, runtime_mode),
                ),
                digests,
                skills,
            ),
        ),
{
    let front = layers(home, workspace, invocation);
    let sources = front.push(source_of(InstructionSourceKind::RuntimeMode, runtime_mode));
    assert(sources.drop_last() =~= front);
    let files = front.drop_last();
    assert(front =~= files.push(source_of(InstructionSourceKind::Invocation, invocation)));
    assert(sources[files.len() as int].kind == InstructionSourceKind::Invocation);
    assert(front.drop_last() =~= files);
    assert(file_bytes(front) == file_bytes(files));
    assert(file_bytes(sources) == file_bytes(files));
    if files.len() > 0 {
        let fewer = files.drop_last();
        if fewer.len() > 0 {
            assert(fewer.drop_last().len() == 0);
            assert(file_bytes(fewer.drop_last()) == 0);
        }
        assert(file_bytes(fewer) <= MAX_AGENTS_FILE_BYTES);
    }
}

impl InstructionSnapshot {
    /// The snapshot of a run: file layers, the invocation and the runtime mode, in this order.
    pub fn capture(
        home: Option<String>,
        workspace: Option<String>,
        invocation: &str,
        runtime_mode: &str,
    ) -> (result: Result<
        InstructionSnapshot,
        RuntimeError,
    >)
        ensures
            match capture_verdict(home, workspace) {
                Verdict::Reject(text) => is_config_error(result, text),
                _ => result matches Ok(snapshot) && snapshot@ == snapshot_of(
                    layers(home, workspace, invocation@).push(
                        source_of(InstructionSourceKind::RuntimeMode, runtime_mode@),
                    ),
                    Seq::empty(),
                    Seq::empty(),
                ) && (file_bounded(home) && file_bounded(workspace) ==> sound(snapshot@)),
            },
    {
        let ghost home_given = home;
        let ghost workspace_given = workspace;
        let captured = InstructionSnapshot::capture_layers(home, workspace, invocation)?;
        proof {
            assert(text_entries(captured.plugin_digests@) =~= Seq::empty());
        }
        let snapshot = captured.into_snapshot(runtime_mode);
        proof {
            if file_bounded(home_given) && file_bounded(workspace_given) {
                captured_layers_are_sound(
                    home_given,
                    workspace_given,
                    invocation@,
                    runtime_mode@,
                    Seq::empty(),
                    Seq::empty(),
                );
            }
        }
        Ok(snapshot)
    }

    /// The file and invocation layers of a run.
    pub fn capture_layers(home: Option<String>, workspace: Option<String>, invocation: &str) -> (result: Result<
        CapturedAgentInstructions,
        RuntimeError,
    >)
        ensures
            match capture_verdict(home, workspace) {
                Verdict::Reject(text) => is_config_error(result, text),
                _ => result matches Ok(captured) && source_views(captured.sources@) == layers(
                    home,
                    workspace,
                    invocation@,
                ) && captured.plugin_digests@.len() == 0,
            },
    {
        let ghost home_given = home;
        let ghost workspace_given = workspace;
        let mut sources: Vec<InstructionSourceSnapshot> = Vec::new();
        let mut agents_bytes: usize = 0;
        if let Some(contents) = home {
            agents_bytes = contents.as_str().as_bytes().len();
            sources.push(InstructionSourceSnapshot::new(InstructionSourceKind::Home, contents));
        }
        let ghost first = source_views(sources@);
        let mut over = false;
        if let Some(contents) = workspace {
            let length: usize = contents.as_str().as_bytes().len();
            match agents_bytes.checked_add(length) {
                Some(total) => {
                    agents_bytes = total;
                },
                None => {
                    over = true;
                },
            }
            sources.push(InstructionSourceSnapshot::new(InstructionSourceKind::Workspace, contents));
            proof {
                assert(source_views(sources@) =~= first.push(
                    source_of(InstructionSourceKind::Workspace, workspace_given->0@),
                ));
            }
        }
        if over || agents_bytes > MAX_AGENTS_TOTAL_BYTES {
            return config_error("combined AGENTS.md content exceeds 131072 bytes");
        }
        let ghost second = source_views(sources@);
        sources.push(InstructionSourceSnapshot::new(InstructionSourceKind::Invocation, invocation.to_owned()));
        proof {
            assert(source_views(sources@) =~= second.push(
                source_of(InstructionSourceKind::Invocation, invocation@),
            ));
            assert(source_views(sources@) =~= layers(home_given, workspace_given, invocation@));
        }
        Ok(CapturedAgentInstructions { sources, plugin_digests: Vec::new() })
    }

    /// The identity of the snapshot.
    pub fn id(&self) -> (id: &str)
        ensures
            id@ == self@.id,
    {
        self.id.as_str()
    }

    /// The snapshot with exactly these skills selected, under the identity that binds them.
    pub fn with_plugin_selections(&self, selections: &Vec<String>) -> (snapshot: InstructionSnapshot)
        ensures
            snapshot@ == snapshot_of(self@.sources, self@.plugin_digests, views(selections@)),
            is_snapshot_id(snapshot@.id),
            sound(self@) ==> sound(snapshot@),
    {
        let sources = clone_sources(&self.sources);
        let plugin_digests = clone_entries(&self.plugin_digests);
        let plugin_skill_ids = clone_texts(selections);
        let id = snapshot_id(&sources, &plugin_digests, &plugin_skill_ids);
        InstructionSnapshot { version: SNAPSHOT_VERSION, id, sources, plugin_digests, plugin_skill_ids }
    }

    /// The digests of the run's plugins.
    pub fn plugin_digests(&self) -> (digests: &Vec<Entry<String>>)
        ensures
            text_entries(digests@) == self@.plugin_digests,
    {
        &self.plugin_digests
    }

    /// The selected skills of the plugins.
    pub fn plugin_skill_ids(&self) -> (skills: &Vec<String>)
        ensures
            views(skills@) == self@.plugin_skill_ids,
    {
        &self.plugin_skill_ids
    }

    /// The composed text of all sources.
    pub fn compose(&self) -> (text: String)
        ensures
            text@ == composed(self@.sources),
    {
        proof {
            assert(self@.sources.take(self@.sources.len() as int) =~= self@.sources);
        }
        compose_sources(&self.sources, self.sources.len())
    }

    fn mode_is_last(&self) -> (yes: bool)
        ensures
            yes == ends_with_mode(self@.sources),
    {
        let length: usize = self.sources.len();
        length > 0 && matches!(self.sources[length - 1].kind, InstructionSourceKind::RuntimeMode)
    }

    /// The composed text without the runtime mode.
    pub fn compose_without_runtime_mode(&self) -> (text: String)
        ensures
            text@ == composed_base(self@.sources),
    {
        proof {
            assert(self@.sources.take(self@.sources.len() as int) =~= self@.sources);
            if self@.sources.len() > 0 {
                assert(self@.sources.take(self@.sources.len() - 1) =~= self@.sources.drop_last());
            }
        }
        if self.mode_is_last() {
            compose_sources(&self.sources, self.sources.len() - 1)
        } else {
            compose_sources(&self.sources, self.sources.len())
        }
    }

    /// The contents of the runtime mode, empty where there is none.
    pub fn runtime_mode(&self) -> (mode: &str)
        ensures
            mode@ == mode_contents(self@.sources),
    {
        if self.mode_is_last() {
            self.sources[self.sources.len() - 1].contents.as_str()
        } else {
            proof {
                reveal_strlit("");
                assert(""@ =~= Seq::empty());
            }
            ""
        }
    }

    /// Whether each source stands after the one before it with the digest of its contents.
    fn sources_in_order(&self) -> (yes: bool)
        ensures
            yes == in_order(self@.sources),
    {
        let ghost all = self@.sources;
        let mut i: usize = 0;
        while i < self.sources.len()
            invariant
                i <= self.sources@.len(),
                all == self@.sources,
                all.len() == self.sources@.len(),
                forall|j: int, k: int|
                    0 <= j < k < i ==> (#[trigger] all[j]).kind.place() < (#[trigger] all[k]).kind.place(),
                forall|j: int| 0 <= j < i ==> (#[trigger] all[j]).sha256 == content_digest(all[j].contents),
            decreases self.sources@.len() - i,
        {
            let source = &self.sources[i];
            proof {
                assert(all[i as int] == source@);
            }
            if i > 0 {
                proof {
                    assert(all[i - 1] == self.sources@[i - 1]@);
                }
                if source.kind.order() <= self.sources[i - 1].kind.order() {
                    return false;
                }
            }
            let digest = content_digest_text(source.contents.as_str());
            if !same_text(source.sha256.as_str(), digest.as_str()) {
                return false;
            }
            i = i + 1;
        }
        true
    }

    /// Whether the instruction files keep their bounds, each and together.
    fn files_keep_bounds(&self) -> (yes: bool)
        ensures
            yes == (files_bounded(self@.sources) && file_bytes(self@.sources) <= MAX_AGENTS_TOTAL_BYTES),
    {
        let ghost all = self@.sources;
        let mut agents_bytes: usize = 0;
        let mut i: usize = 0;
        while i < self.sources.len()
            invariant
                i <= self.sources@.len(),
                all == self@.sources,
                all.len() == self.sources@.len(),
                forall|j: int|
                    0 <= j < i && (#[trigger] all[j]).kind.is_file() ==> encode_utf8(all[j].contents).len()
                        <= MAX_AGENTS_FILE_BYTES,
                agents_bytes == file_bytes(all.take(i as int)),
                agents_bytes <= MAX_AGENTS_TOTAL_BYTES,
            decreases self.sources@.len() - i,
        {
            let source = &self.sources[i];
            proof {
                assert(all[i as int] == source@);
                assert(all.take(i + 1).drop_last() =~= all.take(i as int));
                assert(all.take(i + 1).last() == source@);
            }
            if source.kind.automatic() {
                let length: usize = source.contents.as_str().as_bytes().len();
                if length > MAX_AGENTS_FILE_BYTES {
                    return false;
                }
                if agents_bytes + length > MAX_AGENTS_TOTAL_BYTES {
                    proof {
                        file_bytes_grow(all, i + 1);
                    }
                    return false;
                }
                agents_bytes = agents_bytes + length;
            }
            i = i + 1;
        }
        proof {
            assert(all.take(i as int) =~= all);
        }
        true
    }

    /// Whether the invocation is among the sources.
    fn invocation_occurs(&self) -> (yes: bool)
        ensures
            yes == has_kind(self@.sources, InstructionSourceKind::Invocation),
    {
        let ghost all = self@.sources;
        let mut i: usize = 0;
        while i < self.sources.len()
            invariant
                i <= self.sources@.len(),
                all == self@.sources,
                all.len() == self.sources@.len(),
                forall|j: int| 0 <= j < i ==> (#[trigger] all[j]).kind != InstructionSourceKind::Invocation,
            decreases self.sources@.len() - i,
        {
            proof {
                assert(all[i as int] == self.sources@[i as int]@);
            }
            if matches!(self.sources[i].kind, InstructionSourceKind::Invocation) {
                return true;
            }
            i = i + 1;
        }
        false
    }

    /// Whether the snapshot can be relied on.
    pub fn validate(&self) -> (result: Result<(), RuntimeError>)
        ensures
            answers(
                result,
                if sound(self@) {
                    Verdict::Accept
                } else {
                    Verdict::Reject(verification_text())
                },
            ),
    {
        if self.version != SNAPSHOT_VERSION || !valid_snapshot_id(self.id.as_str()) {
            return snapshot_verification_error();
        }
        if !self.sources_in_order() || !self.files_keep_bounds() || !self.mode_is_last() || !self.invocation_occurs() {
            return snapshot_verification_error();
        }
        let id = snapshot_id(&self.sources, &self.plugin_digests, &self.plugin_skill_ids);
        if !same_text(id.as_str(), self.id.as_str()) {
            return snapshot_verification_error();
        }
        Ok(())
    }

    /// The labels and digests of all sources.
    pub fn provenance(&self) -> (list: Vec<Provenance>)
        ensures
            shown(list@) == provenance_of(self@.sources),
    {
        let mut list: Vec<Provenance> = Vec::new();
        let mut i: usize = 0;
        while i < self.sources.len()
            invariant
                i <= self.sources@.len(),
                shown(list@) == provenance_of(self@.sources.take(i as int)),
            decreases self.sources@.len() - i,
        {
            let source = &self.sources[i];
            let ghost before = list@;
            let item = Provenance { label: source.kind.label().to_owned(), sha256: source.sha256.clone() };
            list.push(item);
            proof {
                assert(shown(list@) =~= shown(before).push((item.label@, item.sha256@)));
                assert(provenance_of(self@.sources.take(i + 1)) =~= provenance_of(
                    self@.sources.take(i as int),
                ).push((source@.kind.name(), source@.sha256)));
            }
            i = i + 1;
        }
        proof {
            assert(self@.sources.take(i as int) =~= self@.sources);
        }
        list
    }

    /// The labels and digests of the sources that are read by themselves.
    pub fn automatic_source_diagnostics(&self) -> (list: Vec<Provenance>)
        ensures
            shown(list@) == provenance_of(automatic_sources(self@.sources)),
    {
        let mut list: Vec<Provenance> = Vec::new();
        let ghost all = self@.sources;
        let ghost keep = |source: SourceView| source.kind.is_file();
        proof {
            reveal(Seq::filter);
            assert(all.take(0) =~= Seq::empty());
            assert(shown(list@) =~= provenance_of(all.take(0).filter(keep)));
        }
        let mut i: usize = 0;
        while i < self.sources.len()
            invariant
                i <= self.sources@.len(),
                all == self@.sources,
                keep == (|source: SourceView| source.kind.is_file()),
                shown(list@) == provenance_of(all.take(i as int).filter(keep)),
            decreases self.sources@.len() - i,
        {
            let source = &self.sources[i];
            let ghost before = list@;
            proof {
                reveal(Seq::filter);
                assert(all.take(i + 1).drop_last() =~= all.take(i as int));
                assert(all.take(i + 1).last() == source@);
            }
            if source.kind.automatic() {
                let item = Provenance { label: source.kind.label().to_owned(), sha256: source.sha256.clone() };
                list.push(item);
                proof {
                    assert(shown(list@) =~= shown(before).push((item.label@, item.sha256@)));
                    assert(provenance_of(all.take(i as int).filter(keep).push(source@)) =~= provenance_of(
                        all.take(i as int).filter(keep),
                    ).push((source@.kind.name(), source@.sha256)));
                }
            }
            i = i + 1;
        }
        proof {
            assert(all.take(i as int) =~= all);
        }
        list
    }
}

impl CapturedAgentInstructions {
    /// The captured layers bound to the plugins of the run, which count in the order of their names.
    pub fn with_plugin_digests(self, plugin_digests: Vec<Entry<String>>) -> (captured: CapturedAgentInstructions)
        ensures
            captured.sources == self.sources,
            ascending_keys(captured.plugin_digests@),
            same_map(captured.plugin_digests@, plugin_digests@),
    {
        CapturedAgentInstructions { sources: self.sources, plugin_digests: ordered_entries(&plugin_digests) }
    }

    /// The snapshot of the captured layers with a runtime mode.
    pub fn into_snapshot(self, runtime_mode: &str) -> (snapshot: InstructionSnapshot)
        ensures
            snapshot@ == snapshot_of(
                source_views(self.sources@).push(source_of(InstructionSourceKind::RuntimeMode, runtime_mode@)),
                text_entries(self.plugin_digests@),
                Seq::empty(),
            ),
            is_snapshot_id(snapshot@.id),
    {
        let ghost before = source_views(self.sources@);
        let mut sources = self.sources;
        sources.push(InstructionSourceSnapshot::new(InstructionSourceKind::RuntimeMode, runtime_mode.to_owned()));
        proof {
            assert(source_views(sources@) =~= before.push(
                source_of(InstructionSourceKind::RuntimeMode, runtime_mode@),
            ));
        }
        let plugin_digests = self.plugin_digests;
        let plugin_skill_ids: Vec<String> = Vec::new();
        let id = snapshot_id(&sources, &plugin_digests, &plugin_skill_ids);
        proof {
            assert(views(plugin_skill_ids@) =~= Seq::empty());
        }
        InstructionSnapshot { version: SNAPSHOT_VERSION, id, sources, plugin_digests, plugin_skill_ids }
    }

    /// The instructions of a run from the captured layers and a runtime mode.
    pub fn finalize(self, runtime_mode: &str) -> (prepared: PreparedAgentInstructions)
        ensures
            prepared.base_text@ == composed(source_views(self.sources@)),
            prepared.text@ == composed(
                source_views(self.sources@).push(source_of(InstructionSourceKind::RuntimeMode, runtime_mode@)),
            ),
            prepared.runtime_mode@ == runtime_mode@,
            prepared.snapshot matches Some(snapshot) && snapshot@ == snapshot_of(
                source_views(self.sources@).push(source_of(InstructionSourceKind::RuntimeMode, runtime_mode@)),
                text_entries(self.plugin_digests@),
                Seq::empty(),
            ),
    {
        let ghost captured = source_views(self.sources@);
        let snapshot = self.into_snapshot(runtime_mode);
        let base_text = snapshot.compose_without_runtime_mode();
        let text = snapshot.compose();
        let runtime_mode = snapshot.runtime_mode().to_owned();
        proof {
            assert(snapshot@.sources.drop_last() =~= captured);
        }
        PreparedAgentInstructions { base_text, text, runtime_mode, snapshot: Some(snapshot) }
    }
}

impl PreparedAgentInstructions {
    /// The captured runtime mode after a base text composed by the caller.
    pub fn complete_composed_base(&self, composed_base: &str) -> (text: String)
        ensures
            text@ == with_mode(composed_base@, self.runtime_mode@),
    {
        append_runtime_mode(composed_base, self.runtime_mode.as_str())
    }
}

/// The layers of a run: with automatic instructions those of the files too, else the invocation alone.
pub fn capture_layers_for_run(
    home: Option<String>,
    workspace: Option<String>,
    invocation: &str,
    automatic_agent_instructions: bool,
) -> (result: Result<CapturedAgentInstructions, RuntimeError>)
    ensures
        if automatic_agent_instructions {
            match capture_verdict(home, workspace) {
                Verdict::Reject(text) => is_config_error(result, text),
                _ => result matches Ok(captured) && source_views(captured.sources@) == layers(
                    home,
                    workspace,
                    invocation@,
                ),
            }
        } else {
            result matches Ok(captured) && source_views(captured.sources@) == layers(None, None, invocation@)
        },
{
    if automatic_agent_instructions {
        InstructionSnapshot::capture_layers(home, workspace, invocation)
    } else {
        InstructionSnapshot::capture_layers(None, None, invocation)
    }
}

/// Sections of sources hold text, and so does their composition where there is any.
proof fn composed_holds_text(list: Seq<SourceView>)
    ensures
        sections(list).len() == 0 <==> composed(list).len() == 0,
        forall|i: int| 0 <= i < sections(list).len() ==> (#[trigger] sections(list)[i]).len() > 0,
    decreases list.len(),
{
    if list.len() > 0 {
        composed_holds_text(list.drop_last());
        if list.last().contents.len() > 0 {
            let shorter = sections(list.drop_last());
            assert(sections(list).drop_last() =~= shorter);
            assert(section(list.last()).len() >= list.last().contents.len());
        }
    }
}

/// What a model reads is the base text completed with the captured runtime mode: completing the base
/// of a snapshot gives exactly its full composition.
pub proof fn completing_the_base_composes_all(sources: Seq<SourceView>, runtime_mode: Seq<char>)
    ensures
        with_mode(composed(sources), runtime_mode) == composed(
            sources.push(source_of(InstructionSourceKind::RuntimeMode, runtime_mode)),
        ),
{
    let all = sources.push(source_of(InstructionSourceKind::RuntimeMode, runtime_mode));
    assert(all.drop_last() =~= sources);
    composed_holds_text(sources);
    if runtime_mode.len() > 0 {
        assert(sections(all).drop_last() =~= sections(sources));
    }
}

/// The runtime mode, where there is one, is the end of what a model reads.
pub proof fn runtime_mode_stands_last(sources: Seq<SourceView>, runtime_mode: Seq<char>)
    requires
        runtime_mode.len() > 0,
    ensures
        ({
            let text = composed(sources.push(source_of(InstructionSourceKind::RuntimeMode, runtime_mode)));
            text.len() >= runtime_mode.len() && text.skip(text.len() - runtime_mode.len()) == runtime_mode
        }),
{
    completing_the_base_composes_all(sources, runtime_mode);
    let text = with_mode(composed(sources), runtime_mode);
    assert(text.skip(text.len() - runtime_mode.len()) =~= runtime_mode);
}

/// The bytes of items from the first to the last.
spec fn body_bytes(list: Seq<Item>) -> Seq<u8>
    decreases list.len(),
{
    if list.len() == 0 {
        Seq::empty()
    } else {
        item_bytes(list[0]) + body_bytes(list.skip(1))
    }
}

proof fn body_bytes_push(list: Seq<Item>, item: Item)
    ensures
        body_bytes(list.push(item)) == body_bytes(list) + item_bytes(item),
    decreases list.len(),
{
    if list.len() == 0 {
        assert(list.push(item).skip(1) =~= Seq::empty());
        assert(list.push(item)[0] == item);
        assert(body_bytes(list.push(item).skip(1)) =~= Seq::<u8>::empty());
        assert(body_bytes(list.push(item)) =~= item_bytes(item));
        assert(body_bytes(list) + item_bytes(item) =~= item_bytes(item));
    } else {
        body_bytes_push(list.skip(1), item);
        assert(list.push(item).skip(1) =~= list.skip(1).push(item));
        assert(item_bytes(list[0]) + (body_bytes(list.skip(1)) + item_bytes(item)) =~= item_bytes(list[0])
            + body_bytes(list.skip(1)) + item_bytes(item));
    }
}

proof fn identity_is_body(list: Seq<Item>)
    ensures
        identity_bytes(list) == encode_utf8("colossus-instruction-snapshot-v1\0"@) + body_bytes(list),
    decreases list.len(),
{
    let domain = encode_utf8("colossus-instruction-snapshot-v1\0"@);
    if list.len() == 0 {
        assert(domain + body_bytes(list) =~= domain);
    } else {
        identity_is_body(list.drop_last());
        body_bytes_push(list.drop_last(), list.last());
        assert(list.drop_last().push(list.last()) =~= list);
        assert(domain + body_bytes(list.drop_last()) + item_bytes(list.last()) =~= domain + (body_bytes(
            list.drop_last(),
        ) + item_bytes(list.last())));
    }
}

/// A text has a length that a machine can hold.
pub open spec fn addressable(text: Seq<char>) -> bool {
    encode_utf8(text).len() <= u64::MAX
}

/// The texts of an item have lengths that a machine can hold.
pub open spec fn addressable_item(item: Item) -> bool {
    match item {
        Item::Source { contents, .. } => addressable(contents),
        Item::Plugin { name, digest } => addressable(name) && addressable(digest),
        Item::Skill(skill) => addressable(skill),
    }
}

/// A text with its length can be told apart from what follows it.
proof fn text_is_delimited(a: Seq<char>, b: Seq<char>, after_a: Seq<u8>, after_b: Seq<u8>)
    requires
        addressable(a),
        addressable(b),
        text_bytes(a) + after_a == text_bytes(b) + after_b,
    ensures
        a == b,
        after_a == after_b,
{
    lemma_auto_spec_u64_to_from_le_bytes();
    let left = text_bytes(a) + after_a;
    let right = text_bytes(b) + after_b;
    let x = encode_utf8(a);
    let y = encode_utf8(b);
    assert(left.subrange(0, 8) =~= spec_u64_to_le_bytes(x.len() as u64));
    assert(right.subrange(0, 8) =~= spec_u64_to_le_bytes(y.len() as u64));
    assert(x.len() as u64 == y.len() as u64);
    assert(left.subrange(8, 8 + x.len() as int) =~= x);
    assert(right.subrange(8, 8 + y.len() as int) =~= y);
    encode_utf8_decode_utf8(a);
    encode_utf8_decode_utf8(b);
    assert(left.skip(8 + x.len() as int) =~= after_a);
    assert(right.skip(8 + y.len() as int) =~= after_b);
}

/// An item can be told apart from what follows it.
proof fn item_is_delimited(a: Item, b: Item, after_a: Seq<u8>, after_b: Seq<u8>)
    requires
        addressable_item(a),
        addressable_item(b),
        item_bytes(a) + after_a == item_bytes(b) + after_b,
    ensures
        a == b,
        after_a == after_b,
{
    let left = item_bytes(a) + after_a;
    let right = item_bytes(b) + after_b;
    assert(left[0] == item_bytes(a)[0]);
    assert(right[0] == item_bytes(b)[0]);
    match (a, b) {
        (Item::Source { contents: x, .. }, Item::Source { contents: y, .. }) => {
            assert(left.skip(1) =~= text_bytes(x) + after_a);
            assert(right.skip(1) =~= text_bytes(y) + after_b);
            text_is_delimited(x, y, after_a, after_b);
        },
        (Item::Plugin { name: x, digest: p }, Item::Plugin { name: y, digest: q }) => {
            assert(left.skip(1) =~= text_bytes(x) + (text_bytes(p) + after_a));
            assert(right.skip(1) =~= text_bytes(y) + (text_bytes(q) + after_b));
            text_is_delimited(x, y, text_bytes(p) + after_a, text_bytes(q) + after_b);
            text_is_delimited(p, q, after_a, after_b);
        },
        (Item::Skill(x), Item::Skill(y)) => {
            assert(left.skip(1) =~= text_bytes(x) + after_a);
            assert(right.skip(1) =~= text_bytes(y) + after_b);
            text_is_delimited(x, y, after_a, after_b);
        },
        _ => {},
    }
}

proof fn body_determines_items(a: Seq<Item>, b: Seq<Item>)
    requires
        forall|i: int| 0 <= i < a.len() ==> addressable_item(#[trigger] a[i]),
        forall|i: int| 0 <= i < b.len() ==> addressable_item(#[trigger] b[i]),
        body_bytes(a) == body_bytes(b),
    ensures
        a == b,
    decreases a.len(),
{
    if a.len() == 0 || b.len() == 0 {
        if a.len() > 0 {
            assert(item_bytes(a[0]).len() > 0);
        }
        if b.len() > 0 {
            assert(item_bytes(b[0]).len() > 0);
        }
        assert(a =~= b);
    } else {
        assert(addressable_item(a[0]) && addressable_item(b[0]));
        item_is_delimited(a[0], b[0], body_bytes(a.skip(1)), body_bytes(b.skip(1)));
        assert forall|i: int| 0 <= i < a.len() - 1 implies addressable_item(#[trigger] a.skip(1)[i]) by {
            assert(a.skip(1)[i] == a[i + 1]);
        }
        assert forall|i: int| 0 <= i < b.len() - 1 implies addressable_item(#[trigger] b.skip(1)[i]) by {
            assert(b.skip(1)[i] == b[i + 1]);
        }
        body_determines_items(a.skip(1), b.skip(1));
        assert forall|i: int| 0 <= i < a.len() implies a[i] == b[i] by {
            if i > 0 {
                assert(a.skip(1)[i - 1] == b.skip(1)[i - 1]);
            }
        }
        assert(a.len() == b.len());
        assert(a =~= b);
    }
}

/// All texts of a snapshot have lengths that a machine can hold.
pub open spec fn addressable_snapshot(snapshot: SnapshotView) -> bool {
    let list = items(snapshot.sources, snapshot.plugin_digests, snapshot.plugin_skill_ids);
    forall|i: int| 0 <= i < list.len() ==> addressable_item(#[trigger] list[i])
}

/// An identity binds the kind, the order and the exact contents of every source, the digest of every
/// plugin and every selected skill: what is hashed for two snapshots is the same only where all of
/// that is the same.
pub proof fn identity_binds_material(a: SnapshotView, b: SnapshotView)
    requires
        addressable_snapshot(a),
        addressable_snapshot(b),
        identity_bytes(items(a.sources, a.plugin_digests, a.plugin_skill_ids)) == identity_bytes(
            items(b.sources, b.plugin_digests, b.plugin_skill_ids),
        ),
    ensures
        a.sources.len() == b.sources.len(),
        forall|i: int|
            0 <= i < a.sources.len() ==> (#[trigger] a.sources[i]).kind == (#[trigger] b.sources[i]).kind
                && a.sources[i].contents == b.sources[i].contents,
        a.plugin_digests == b.plugin_digests,
        a.plugin_skill_ids == b.plugin_skill_ids,
{
    let x = items(a.sources, a.plugin_digests, a.plugin_skill_ids);
    let y = items(b.sources, b.plugin_digests, b.plugin_skill_ids);
    identity_is_body(x);
    identity_is_body(y);
    let domain = encode_utf8("colossus-instruction-snapshot-v1\0"@);
    assert((domain + body_bytes(x)).skip(domain.len() as int) =~= body_bytes(x));
    assert((domain + body_bytes(y)).skip(domain.len() as int) =~= body_bytes(y));
    body_determines_items(x, y);
    let s = a.sources.len() as int;
    let t = b.sources.len() as int;
    assert(s == t) by {
        if s < t {
            assert(y[s] is Source);
            assert(x[s] == y[s]);
        }
        if t < s {
            assert(x[t] is Source);
            assert(x[t] == y[t]);
        }
    }
    let p = a.plugin_digests.len() as int;
    let q = b.plugin_digests.len() as int;
    assert(p == q) by {
        if p < q {
            assert(y[s + p] is Plugin);
            assert(x[s + p] == y[s + p]);
        }
        if q < p {
            assert(x[s + q] is Plugin);
            assert(x[s + q] == y[s + q]);
        }
    }
    assert forall|i: int| 0 <= i < a.sources.len() implies (#[trigger] a.sources[i]).kind
        == (#[trigger] b.sources[i]).kind && a.sources[i].contents == b.sources[i].contents by {
        assert(x[i] == y[i]);
    }
    assert forall|i: int| 0 <= i < p implies a.plugin_digests[i] == b.plugin_digests[i] by {
        assert(x[s + i] == y[s + i]);
    }
    assert(a.plugin_digests =~= b.plugin_digests);
    assert(a.plugin_skill_ids.len() == b.plugin_skill_ids.len());
    assert forall|i: int| 0 <= i < a.plugin_skill_ids.len() implies a.plugin_skill_ids[i] == b.plugin_skill_ids[i] by {
        assert(x[s + p + i] == y[s + p + i]);
    }
    assert(a.plugin_skill_ids =~= b.plugin_skill_ids);
}

/// How a label and a digest are described.
pub open spec fn described_pair(pair: (Seq<char>, Seq<char>)) -> Seq<char> {
    "("@ + debug_text(pair.0) + ", "@ + debug_text(pair.1) + ")"@
}

/// How labels and digests are described, one after the other.
pub open spec fn described_pairs(list: Seq<(Seq<char>, Seq<char>)>) -> Seq<char>
    decreases list.len(),
{
    if list.len() == 0 {
        Seq::empty()
    } else if list.len() == 1 {
        described_pair(list[0])
    } else {
        described_pairs(list.drop_last()) + ", "@ + described_pair(list.last())
    }
}

/// How a snapshot is described: its version, its identity, and the label and digest of each source.
pub open spec fn description(snapshot: SnapshotView) -> Seq<char> {
    "InstructionSnapshot { version: "@ + decimal(snapshot.version as nat) + ", id: "@ + debug_text(snapshot.id)
        + ", sources: ["@ + described_pairs(provenance_of(snapshot.sources)) + "] }"@
}

impl InstructionSnapshot {
    /// A description of the snapshot that holds none of its contents.
    pub fn described(&self) -> (text: String)
        ensures
            text@ == description(self@),
    {
        let mut text = "InstructionSnapshot { version: ".to_owned();
        let version = decimal_text(self.version as u64);
        let id = debug_quoted(self.id.as_str());
        text.append(version.as_str());
        text.append(", id: ");
        text.append(id.as_str());
        text.append(", sources: [");
        let ghost head = text@;
        let ghost pairs = provenance_of(self@.sources);
        let mut i: usize = 0;
        proof {
            assert(text@ =~= head + described_pairs(pairs.take(0)));
        }
        while i < self.sources.len()
            invariant
                i <= self.sources@.len(),
                pairs == provenance_of(self@.sources),
                pairs.len() == self.sources@.len(),
                text@ == head + described_pairs(pairs.take(i as int)),
            decreases self.sources@.len() - i,
        {
            let label = debug_quoted(self.sources[i].kind.label());
            let digest = debug_quoted(self.sources[i].sha256.as_str());
            let ghost before = text@;
            proof {
                assert(pairs.take(i + 1).drop_last() =~= pairs.take(i as int));
                assert(pairs.take(i + 1).last() == pairs[i as int]);
                assert(self@.sources[i as int] == self.sources@[i as int]@);
            }
            if i > 0 {
                text.append(", ");
            }
            text.append("(");
            text.append(label.as_str());
            text.append(", ");
            text.append(digest.as_str());
            text.append(")");
            proof {
                if i == 0 {
                    assert(text@ =~= head + described_pair(pairs[0]));
                } else {
                    assert(text@ =~= head + (described_pairs(pairs.take(i as int)) + ", "@ + described_pair(
                        pairs[i as int],
                    )));
                }
            }
            i = i + 1;
        }
        proof {
            assert(pairs.take(i as int) =~= pairs);
        }
        text.append("] }");
        proof {
            assert(text@ =~= description(self@));
        }
        text
    }
}

/// The description of a snapshot discloses nothing of its contents but their digests: snapshots of the
/// same version, identity, kinds and digests are described alike.
pub proof fn descriptions_disclose_no_contents(left: SnapshotView, right: SnapshotView)
    requires
        left.version == right.version,
        left.id == right.id,
        provenance_of(left.sources) == provenance_of(right.sources),
    ensures
        description(left) == description(right),
{
}

/// The layers are the home's instructions, the workspace's and the invocation's, in that order; a file
/// that is absent has no layer, and the invocation always has one.
pub proof fn layers_stand_in_their_order(home: Option<String>, workspace: Option<String>, invocation: Seq<char>)
    ensures
        ({
            let list = layers(home, workspace, invocation);
            let files: int = (if home is Some {
                1int
            } else {
                0
            }) + (if workspace is Some {
                1int
            } else {
                0
            });
            &&& list.len() == files + 1
            &&& list.last().kind is Invocation && list.last().contents == invocation
            &&& home matches Some(contents) ==> list[0].kind is Home && list[0].contents == contents@
            &&& workspace matches Some(contents) ==> list[files - 1].kind is Workspace && list[files - 1].contents
                == contents@
        }),
{
}

/// Instructions are captured exactly where the two files together have at most a hundred and
/// twenty-eight kibibytes.
pub proof fn captured_files_are_bounded_together(home: Option<String>, workspace: Option<String>)
    ensures
        ({
            let first: nat = match home {
                Some(contents) => encode_utf8(contents@).len(),
                None => 0,
            };
            let second: nat = match workspace {
                Some(contents) => encode_utf8(contents@).len(),
                None => 0,
            };
            capture_verdict(home, workspace) is Accept <==> first + second <= 131_072
        }),
        capture_verdict(None, None) is Accept,
{
}

/// Every source that says anything stands in the composed text with its whole contents, behind a line
/// that names its kind; one that says nothing leaves no trace.
pub proof fn every_source_is_composed(sources: Seq<SourceView>, at: int)
    requires
        0 <= at < sources.len(),
    ensures
        sources[at].contents.len() > 0 ==> contains_text(composed(sources), sources[at].contents) && contains_text(
            composed(sources),
            sources[at].kind.name(),
        ),
        sources.last().contents.len() == 0 ==> composed(sources) == composed(sources.drop_last()),
{
    if sources[at].contents.len() > 0 {
        let place = sections_hold_their_source(sources, at);
        every_item_is_joined(sections(sources), "\n\n"@, place);
        texts_hold_the_middle_of_their_parts(
            composed(sources),
            "[Colossus "@,
            sources[at].kind.name(),
            "]\n"@,
            sources[at].contents,
        );
    }
}

proof fn texts_hold_the_middle_of_their_parts(
    whole: Seq<char>,
    mark: Seq<char>,
    first: Seq<char>,
    between: Seq<char>,
    second: Seq<char>,
)
    requires
        contains_text(whole, mark + first + between + second),
    ensures
        contains_text(whole, first),
        contains_text(whole, second),
{
    let item = mark + first + between + second;
    let found = choose|found: int| occurs_at(whole, item, found);
    let found_first = found + mark.len();
    let found_second = found_first + first.len() + between.len();
    let shown = whole.subrange(found, found + item.len());
    assert(shown == item);
    assert(whole.subrange(found_first, found_first + first.len()) =~= first) by {
        assert forall|i: int| 0 <= i < first.len() implies whole[found_first + i] == first[i] by {
            assert(shown[mark.len() + i] == item[mark.len() + i]);
        }
    }
    assert(whole.subrange(found_second, found_second + second.len()) =~= second) by {
        assert forall|i: int| 0 <= i < second.len() implies whole[found_second + i] == second[i] by {
            let at = mark.len() + first.len() + between.len() + i;
            assert(shown[at] == item[at]);
        }
    }
    assert(occurs_at(whole, first, found_first));
    assert(occurs_at(whole, second, found_second));
}

proof fn sections_hold_their_source(sources: Seq<SourceView>, at: int) -> (place: int)
    requires
        0 <= at < sources.len(),
        sources[at].contents.len() > 0,
    ensures
        0 <= place < sections(sources).len(),
        sections(sources)[place] == section(sources[at]),
    decreases sources.len(),
{
    let front = sections(sources.drop_last());
    if at < sources.len() - 1 {
        let place = sections_hold_their_source(sources.drop_last(), at);
        assert(sections(sources)[place] == front[place]);
        place
    } else {
        assert(sections(sources)[front.len() as int] == section(sources[at]));
        front.len() as int
    }
}

/// The four kinds of sources are told apart by name and by place, and only the two files come in by
/// themselves.
pub proof fn kinds_of_sources_differ(first: InstructionSourceKind, second: InstructionSourceKind)
    ensures
        first != second ==> first.name() != second.name() && first.place() != second.place(),
        InstructionSourceKind::Home.place() < InstructionSourceKind::Workspace.place(),
        InstructionSourceKind::Workspace.place() < InstructionSourceKind::Invocation.place(),
        InstructionSourceKind::Invocation.place() < InstructionSourceKind::RuntimeMode.place(),
        first.is_file() <==> first is Home || first is Workspace,
{
    reveal_strlit("home AGENTS.md");
    reveal_strlit("workspace AGENTS.md");
    reveal_strlit("invocation instructions");
    reveal_strlit("runtime mode instructions");
    assert("home AGENTS.md"@[0] == 'h');
    assert("workspace AGENTS.md"@[0] == 'w');
    assert("invocation instructions"@[0] == 'i');
    assert("runtime mode instructions"@[0] == 'r');
}

/// An identity is sixty-four lower-case hexadecimal digits, and every such text is one.
pub proof fn identities_are_lower_case_digests(id: Seq<char>)
    ensures
        is_snapshot_id(id) <==> id.len() == 64 && forall|i: int|
            0 <= i < id.len() ==> ('0' <= (#[trigger] id[i]) <= '9' || 'a' <= id[i] <= 'f'),
{
}

/// A sound snapshot is of this version, holds its sources in order with their digests, ends with the
/// runtime mode, has an invocation, is bounded, and bears the identity of what it holds.
pub proof fn sound_snapshots_bear_their_identity(snapshot: SnapshotView, at: int)
    requires
        sound(snapshot),
    ensures
        snapshot.version == 1,
        snapshot.id == identity(snapshot.sources, snapshot.plugin_digests, snapshot.plugin_skill_ids),
        snapshot.sources.len() > 0 && snapshot.sources.last().kind is RuntimeMode,
        exists|i: int| 0 <= i < snapshot.sources.len() && (#[trigger] snapshot.sources[i]).kind is Invocation,
        file_bytes(snapshot.sources) <= 131_072,
        0 <= at < snapshot.sources.len() ==> snapshot.sources[at].sha256 == hex_text(
            sha256(encode_utf8(snapshot.sources[at].contents)),
        ),
        0 <= at < snapshot.sources.len() && snapshot.sources[at].kind.is_file() ==> encode_utf8(
            snapshot.sources[at].contents,
        ).len() <= 65_536,
        0 < at < snapshot.sources.len() ==> snapshot.sources[at - 1].kind.place() < snapshot.sources[at].kind.place(),
{
    let i = choose|i: int|
        0 <= i < snapshot.sources.len() && (#[trigger] snapshot.sources[i]).kind == InstructionSourceKind::Invocation;
    assert(snapshot.sources[i].kind is Invocation);
}

/// The bytes of files add up, one file after the other; nothing else counts.
pub proof fn file_bytes_add_up(sources: Seq<SourceView>, source: SourceView)
    ensures
        source.kind.is_file() ==> file_bytes(sources.push(source)) == file_bytes(sources) + encode_utf8(
            source.contents,
        ).len(),
        !source.kind.is_file() ==> file_bytes(sources.push(source)) == file_bytes(sources),
        file_bytes(Seq::empty()) == 0,
{
    assert(sources.push(source).drop_last() == sources);
}

/// The base of a snapshot is all but its runtime mode, and the mode is what it ends with.
pub proof fn the_base_leaves_the_mode_out(sources: Seq<SourceView>, mode: Seq<char>)
    ensures
        composed_base(sources.push(source_of(InstructionSourceKind::RuntimeMode, mode))) == composed(sources),
        mode_contents(sources.push(source_of(InstructionSourceKind::RuntimeMode, mode))) == mode,
{
    assert(sources.push(source_of(InstructionSourceKind::RuntimeMode, mode)).drop_last() == sources);
}

/// What is shown of where instructions came from is their kinds and digests, one for one.
pub proof fn provenance_is_shown_one_by_one(sources: Seq<SourceView>, at: int)
    requires
        0 <= at < sources.len(),
    ensures
        provenance_of(sources).len() == sources.len(),
        provenance_of(sources)[at] == (sources[at].kind.name(), sources[at].sha256),
{
}

/// The sources that are found by themselves are those of the home and of the workspace: they are kept, in
/// their order, and the instructions of an invocation and of a mode are left out.
pub proof fn automatic_sources_are_files(first: Seq<SourceView>, second: Seq<SourceView>, one: SourceView)
    ensures
        automatic_sources(first + second) == automatic_sources(first) + automatic_sources(second),
        one.kind is Home || one.kind is Workspace ==> automatic_sources(seq![one]) == seq![one],
        !(one.kind is Home) && !(one.kind is Workspace) ==> automatic_sources(seq![one]).len() == 0,
{
    let kept = |source: SourceView| source.kind.is_file();
    Seq::filter_distributes_over_add(first, second, kept);
    reveal(Seq::filter);
    let none = Seq::<SourceView>::empty();
    assert(seq![one].drop_last() =~= none);
    assert(none.filter(kept) =~= none);
    assert(seq![one].filter(kept) =~= if kept(one) {
        none.push(one)
    } else {
        none
    });
    assert(none.push(one) =~= seq![one]);
}

} // verus!
