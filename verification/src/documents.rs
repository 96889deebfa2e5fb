//! Configuration documents: from YAML text to a document that may be read into settings.

use crate::encoding::decoded_view;
use crate::error::{is_config_error, RuntimeError, Verdict};
use crate::json::{field_integer, json_field_integer, json_pointer_keys, pointer_keys};
use crate::ordered::precedes;
use crate::text::{contains_text, decimal, is_lower, is_upper, list_contains, parts_are_contained};
use crate::validation::{document_verdict, validate_document, DocumentSummary};
use serde_json::Value;
use std::collections::BTreeMap;
use vstd::prelude::*;
use vstd::string::*;
use vstd::utf8::*;

verus! {

/// The JSON that a YAML document stands for, or the displayed failure.
pub uninterp spec fn yaml_json(text: Seq<char>) -> Result<Seq<u8>, Seq<char>>;

/// `serde_saphyr::from_str` into a `Value` of serde_json, which `serde_json::to_vec` writes; a failure
/// as its displayed text: named.
#[verifier::external_body]
fn yaml_document(text: &str) -> (document: Result<Vec<u8>, String>)
    ensures
        decoded_view(document) == yaml_json(text@),
{
    let value: Value = serde_saphyr::from_str(text).map_err(|error| error.to_string())?;
    serde_json::to_vec(&value).map_err(|error| error.to_string())
}

/// A block of a document with one setting.
#[derive(Debug)]
pub struct LimitBlock {
    pub block: String,
    pub setting: String,
    pub value: u64,
}

/// Blocks as values.
pub open spec fn limit_views(list: Seq<LimitBlock>) -> Seq<(Seq<char>, Seq<char>, u64)> {
    list.map_values(|item: LimitBlock| (item.block@, item.setting@, item.value))
}

/// A word that YAML takes as it is: some letters, and none of the words that stand for other values.
pub open spec fn plain_word(text: Seq<char>) -> bool {
    &&& 5 <= text.len() <= 32
    &&& forall|i: int| 0 <= i < text.len() ==> is_lower(#[trigger] text[i]) || is_upper(text[i])
    &&& text[0] != 'f' && text[0] != 'F' && text[0] != 'i' && text[0] != 'I' && text[0] != 'n' && text[0] != 'N'
}

/// A block as YAML: its name, and under it its setting.
pub open spec fn block_text(item: (Seq<char>, Seq<char>, u64)) -> Seq<char> {
    item.0 + ":\n  "@ + item.1 + ": "@ + decimal(item.2 as nat) + "\n"@
}

/// Blocks as YAML, one after the other.
pub open spec fn blocks_text(list: Seq<(Seq<char>, Seq<char>, u64)>) -> Seq<char>
    decreases list.len(),
{
    if list.len() == 0 {
        Seq::empty()
    } else {
        blocks_text(list.drop_last()) + block_text(list.last())
    }
}

/// A block as a member of a JSON object: an object of its setting.
pub open spec fn block_member(item: (Seq<char>, Seq<char>, u64)) -> Seq<char> {
    "\""@ + item.0 + "\":{\""@ + item.1 + "\":"@ + decimal(item.2 as nat) + "}"@
}

/// Blocks as members of a JSON object.
pub open spec fn block_members(list: Seq<(Seq<char>, Seq<char>, u64)>) -> Seq<char>
    decreases list.len(),
{
    if list.len() <= 1 {
        block_member(list[0])
    } else {
        block_members(list.drop_last()) + ","@ + block_member(list.last())
    }
}

/// Blocks as a JSON object.
pub open spec fn blocks_json(list: Seq<(Seq<char>, Seq<char>, u64)>) -> Seq<char> {
    "{"@ + block_members(list) + "}"@
}

/// Read as YAML, a text stands for a JSON document.
pub open spec fn reads_as(text: Seq<char>, document: Seq<char>) -> bool {
    yaml_json(text) matches Ok(bytes) && bytes == encode_utf8(document)
}

/// Blocks that are written plainly: a few, in the order of their names.
pub open spec fn plain_blocks(list: Seq<(Seq<char>, Seq<char>, u64)>) -> bool {
    &&& 0 < list.len() <= 16
    &&& forall|i: int|
        0 <= i < list.len() ==> plain_word((#[trigger] list[i]).0) && plain_word(list[i].1) && list[i].2 <= i64::MAX
    &&& forall|i: int, j: int| 0 <= i < j < list.len() ==> precedes((#[trigger] list[i]).0, (#[trigger] list[j]).0)
}

/// `serde_saphyr::to_string` of a map from each block to a map of its one setting: for plain names and
/// in the order of the map each block is its name on a line of its own, and under it, two columns in,
/// its setting. What it gives, `serde_saphyr::from_str` reads back as exactly these blocks.
#[verifier::external_body]
pub(crate) fn blocks_document(list: &Vec<LimitBlock>) -> (text: Result<String, String>)
    requires
        plain_blocks(limit_views(list@)),
    ensures
        text is Ok,
        text->Ok_0@ == blocks_text(limit_views(list@)),
        reads_as(text->Ok_0@, blocks_json(limit_views(list@))),
{
    let blocks: BTreeMap<&str, BTreeMap<&str, u64>> = list
        .iter()
        .map(|item| (item.block.as_str(), BTreeMap::from([(item.setting.as_str(), item.value)])))
        .collect();
    serde_saphyr::to_string(&blocks).map_err(|error| error.to_string())
}

/// The object that a pointer reaches has a key.
pub open spec fn has_member(document: Seq<u8>, pointer: Seq<char>, key: Seq<char>) -> bool {
    json_pointer_keys(document, pointer) matches Some(keys) && keys.contains(key)
}

fn is_member(document: &[u8], pointer: &str, key: &str) -> (yes: bool)
    ensures
        yes == has_member(document@, pointer@, key@),
{
    match pointer_keys(document, pointer) {
        Some(keys) => list_contains(&keys, key),
        None => false,
    }
}

/// The top level of a JSON document.
pub open spec fn summary(document: Seq<u8>) -> DocumentSummary {
    DocumentSummary {
        mapping: json_pointer_keys(document, ""@) is Some,
        schema_version: match json_field_integer(document, "schemaVersion"@) {
            Some(version) => if version >= 0 {
                Some(version as u64)
            } else {
                None
            },
            None => None,
        },
        legacy_tools: has_member(document, "/agent"@, "tools"@),
        legacy_actions: has_member(document, "/policy"@, "allow_actions"@) || has_member(
            document,
            "/policy"@,
            "approval_actions"@,
        ),
    }
}

/// The top level of a JSON document.
pub fn summarize(document: &[u8]) -> (result: DocumentSummary)
    ensures
        result == summary(document@),
{
    let mapping = pointer_keys(document, "").is_some();
    let schema_version: Option<u64> = match field_integer(document, "schemaVersion") {
        Some(version) => if version >= 0 {
            Some(version as u64)
        } else {
            None
        },
        None => None,
    };
    let legacy_tools = is_member(document, "/agent", "tools");
    let legacy_actions = is_member(document, "/policy", "allow_actions") || is_member(
        document,
        "/policy",
        "approval_actions",
    );
    DocumentSummary { mapping, schema_version, legacy_tools, legacy_actions }
}

/// The JSON that a YAML configuration stands for, where its top level has the current schema and
/// nothing of older ones.
pub fn read_configuration(yaml: &str) -> (result: Result<Vec<u8>, RuntimeError>)
    ensures
        match yaml_json(yaml@) {
            Err(text) => is_config_error(result, text),
            Ok(document) => match document_verdict(summary(document)) {
                Verdict::Accept => result matches Ok(bytes) && bytes@ == document,
                Verdict::Reject(text) => is_config_error(result, text),
                Verdict::Forward(error) => result == Err::<Vec<u8>, RuntimeError>(error),
            },
        },
{
    match yaml_document(yaml) {
        Err(text) => Err(RuntimeError::Config(text)),
        Ok(document) => match validate_document(&summarize(document.as_slice())) {
            Ok(()) => Ok(document),
            Err(error) => Err(error),
        },
    }
}

/// What is read has the current schema, whatever the text was, and holds no block of an older one.
pub proof fn only_the_current_schema_is_read(document: Seq<u8>)
    requires
        document_verdict(summary(document)) is Accept,
    ensures
        json_field_integer(document, "schemaVersion"@) == Some(3i64),
        !has_member(document, "/agent"@, "tools"@),
        !has_member(document, "/policy"@, "allow_actions"@),
        !has_member(document, "/policy"@, "approval_actions"@),
{
}

/// A document is summarized by what stands in it: its version, and the legacy lists where they are.
pub proof fn summaries_tell_what_stands_in_the_document(document: Seq<u8>)
    ensures
        summary(document).mapping <==> json_pointer_keys(document, ""@) is Some,
        summary(document).schema_version matches Some(version) ==> json_field_integer(document, "schemaVersion"@)
            is Some && version == json_field_integer(document, "schemaVersion"@)->0,
        json_field_integer(document, "schemaVersion"@) == Some(3i64) ==> summary(document).schema_version == Some(
            3u64,
        ),
        json_field_integer(document, "schemaVersion"@) is None ==> summary(document).schema_version is None,
        summary(document).legacy_tools <==> json_pointer_keys(document, "/agent"@) is Some && json_pointer_keys(
            document,
            "/agent"@,
        )->0.contains("tools"@),
        json_pointer_keys(document, "/policy"@) matches Some(keys) ==> (summary(document).legacy_actions
            <==> keys.contains("allow_actions"@) || keys.contains("approval_actions"@)),
        json_pointer_keys(document, "/policy"@) is None ==> !summary(document).legacy_actions,
{
}

/// A block states its name, its setting and its value, and blocks follow one another in their order.
pub proof fn blocks_state_their_values(
    list: Seq<(Seq<char>, Seq<char>, u64)>,
    item: (Seq<char>, Seq<char>, u64),
)
    ensures
        contains_text(block_text(item), item.0),
        contains_text(block_text(item), item.1),
        contains_text(block_text(item), decimal(item.2 as nat)),
        item.0.is_prefix_of(block_text(item)),
        blocks_text(list.push(item)) == blocks_text(list) + block_text(item),
        blocks_text(Seq::empty()).len() == 0,
{
    let empty = Seq::<char>::empty();
    let number = decimal(item.2 as nat);
    parts_are_contained(empty, item.0, ":\n  "@ + item.1 + ": "@ + number + "\n"@);
    assert(empty + item.0 + (":\n  "@ + item.1 + ": "@ + number + "\n"@) == block_text(item));
    parts_are_contained(item.0 + ":\n  "@, item.1, ": "@ + number + "\n"@);
    assert(item.0 + ":\n  "@ + item.1 + (": "@ + number + "\n"@) == block_text(item));
    parts_are_contained(item.0 + ":\n  "@ + item.1 + ": "@, number, "\n"@);
    assert(list.push(item).drop_last() == list);
}

} // verus!
