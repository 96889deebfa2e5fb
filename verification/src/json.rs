//! Fields of JSON documents.

use crate::entries::{distinct_keys, Entry};
use crate::text::{is_lower, optional_view, views};
use serde_json::Value;
use vstd::prelude::*;
use vstd::string::*;
use vstd::utf8::*;

verus! {

/// Why a document is no JSON, as displayed; absent for JSON.
pub uninterp spec fn json_error(document: Seq<u8>) -> Option<Seq<char>>;

/// The text of a field of the object that a document holds.
pub uninterp spec fn json_field_text(document: Seq<u8>, field: Seq<char>) -> Option<Seq<char>>;

/// The integer of a field of the object that a document holds.
pub uninterp spec fn json_field_integer(document: Seq<u8>, field: Seq<char>) -> Option<i64>;

/// The flag of a field of the object that a document holds.
pub uninterp spec fn json_field_flag(document: Seq<u8>, field: Seq<char>) -> Option<bool>;

/// The text that a JSON pointer reaches in a document.
pub uninterp spec fn json_pointer_text(document: Seq<u8>, pointer: Seq<char>) -> Option<Seq<char>>;

/// The number of items of the array that a JSON pointer reaches in a document.
pub uninterp spec fn json_pointer_length(document: Seq<u8>, pointer: Seq<char>) -> Option<nat>;

/// The keys of the object that a JSON pointer reaches in a document.
pub uninterp spec fn json_pointer_keys(document: Seq<u8>, pointer: Seq<char>) -> Option<Seq<Seq<char>>>;

/// The document of a pair of texts: an array of two strings.
pub uninterp spec fn json_pair(first: Seq<char>, second: Seq<char>) -> Option<Seq<u8>>;

/// A document in its indented form; absent where it is no JSON.
pub uninterp spec fn json_pretty(document: Seq<u8>) -> Option<Seq<char>>;

/// A document in its compact form, with one or two fields of its object replaced by texts.
pub uninterp spec fn json_with_texts(
    document: Seq<u8>,
    first: Seq<char>,
    first_text: Option<Seq<char>>,
    second: Seq<char>,
    second_text: Option<Seq<char>>,
) -> Option<Seq<u8>>;

/// `serde_json::from_slice` into a `Value`, its failure as its displayed text: named.
#[verifier::external_body]
pub(crate) fn failure(document: &[u8]) -> (error: Option<String>)
    ensures
        optional_view(error) == json_error(document@),
{
    serde_json::from_slice::<Value>(document).err().map(|error| error.to_string())
}

/// `Value::get` and `Value::as_str` of serde_json on the parsed document: named.
#[verifier::external_body]
pub(crate) fn field_text(document: &[u8], field: &str) -> (text: Option<String>)
    ensures
        optional_view(text) == json_field_text(document@, field@),
{
    let value: Value = serde_json::from_slice(document).ok()?;
    value.get(field)?.as_str().map(str::to_owned)
}

/// `Value::get` and `Value::as_i64` of serde_json on the parsed document: named.
#[verifier::external_body]
pub(crate) fn field_integer(document: &[u8], field: &str) -> (number: Option<i64>)
    ensures
        number == json_field_integer(document@, field@),
{
    let value: Value = serde_json::from_slice(document).ok()?;
    value.get(field)?.as_i64()
}

/// `Value::get` and `Value::as_bool` of serde_json on the parsed document: named.
#[verifier::external_body]
pub(crate) fn field_flag(document: &[u8], field: &str) -> (flag: Option<bool>)
    ensures
        flag == json_field_flag(document@, field@),
{
    let value: Value = serde_json::from_slice(document).ok()?;
    value.get(field)?.as_bool()
}

/// `Value::pointer` and `Value::as_str` of serde_json on the parsed document: named.
#[verifier::external_body]
pub(crate) fn pointer_text(document: &[u8], pointer: &str) -> (text: Option<String>)
    ensures
        optional_view(text) == json_pointer_text(document@, pointer@),
{
    let value: Value = serde_json::from_slice(document).ok()?;
    value.pointer(pointer)?.as_str().map(str::to_owned)
}

/// `Value::pointer` and `Value::as_array` of serde_json on the parsed document, the array by its
/// length: named.
#[verifier::external_body]
pub(crate) fn pointer_length(document: &[u8], pointer: &str) -> (length: Option<usize>)
    ensures
        match length {
            Some(count) => json_pointer_length(document@, pointer@) == Some(count as nat),
            None => json_pointer_length(document@, pointer@) is None,
        },
{
    let value: Value = serde_json::from_slice(document).ok()?;
    value.pointer(pointer)?.as_array().map(Vec::len)
}

/// `Value::pointer`, `Value::as_object` and `Map::keys` of serde_json on the parsed document: named.
#[verifier::external_body]
pub(crate) fn pointer_keys(document: &[u8], pointer: &str) -> (keys: Option<Vec<String>>)
    ensures
        match keys {
            Some(list) => json_pointer_keys(document@, pointer@) == Some(views(list@)),
            None => json_pointer_keys(document@, pointer@) is None,
        },
{
    let value: Value = serde_json::from_slice(document).ok()?;
    value.pointer(pointer)?.as_object().map(|object| object.keys().cloned().collect())
}

/// `serde_json::to_vec` of a pair of texts: named. It succeeds, as texts can always be written, and what
/// it gives reads back as an array of the two.
#[verifier::external_body]
pub(crate) fn pair_document(first: &str, second: &str) -> (document: Option<Vec<u8>>)
    ensures
        document is Some,
        json_pair(first@, second@) == Some(document->0@),
        json_pointer_text(document->0@, "/0"@) == Some(first@),
        json_pointer_text(document->0@, "/1"@) == Some(second@),
{
    serde_json::to_vec(&(first, second)).ok()
}

/// `serde_json::to_string_pretty` of the parsed document: named.
#[verifier::external_body]
pub(crate) fn pretty(document: &[u8]) -> (text: Option<String>)
    ensures
        optional_view(text) == json_pretty(document@),
{
    let value: Value = serde_json::from_slice(document).ok()?;
    serde_json::to_string_pretty(&value).ok()
}

/// A field holds the text that it was given, else the text that it had.
pub open spec fn holds_text(written: Seq<u8>, document: Seq<u8>, field: Seq<char>, text: Option<Seq<char>>) -> bool {
    json_field_text(written, field) == match text {
        Some(given) => Some(given),
        None => json_field_text(document, field),
    }
}

/// `Value::get_mut` and `serde_json::to_vec` on the parsed document: named. It succeeds where the
/// document is JSON and holds a text in each field that is to be replaced; each of the two fields
/// then holds the text it was given, else the text it had.
#[verifier::external_body]
pub(crate) fn with_texts(
    document: &[u8],
    first: &str,
    first_text: &Option<String>,
    second: &str,
    second_text: &Option<String>,
) -> (bytes: Option<Vec<u8>>)
    requires
        first@ != second@,
    ensures
        match bytes {
            Some(value) => {
                &&& json_with_texts(
                    document@,
                    first@,
                    optional_view(*first_text),
                    second@,
                    optional_view(*second_text),
                ) == Some(value@)
                &&& holds_text(value@, document@, first@, optional_view(*first_text))
                &&& holds_text(value@, document@, second@, optional_view(*second_text))
            },
            None => json_with_texts(
                document@,
                first@,
                optional_view(*first_text),
                second@,
                optional_view(*second_text),
            ) is None,
        },
        json_error(document@) is None && (*first_text is Some ==> json_field_text(document@, first@) is Some) && (
        *second_text is Some ==> json_field_text(document@, second@) is Some) ==> bytes is Some,
{
    let mut value: Value = serde_json::from_slice(document).ok()?;
    if let Some(text) = first_text {
        *value.get_mut(first)? = Value::String(text.clone());
    }
    if let Some(text) = second_text {
        *value.get_mut(second)? = Value::String(text.clone());
    }
    serde_json::to_vec(&value).ok()
}

/// A value that a member of an object is given.
#[derive(Debug)]
pub enum JsonField {
    Text(String),
    /// A text, or null.
    Optional(Option<String>),
    Flag(bool),
    Integer(i64),
    Natural(u64),
    Texts(Vec<String>),
    /// A document, as it is written.
    Document(String),
    /// An array of documents, each as it is written.
    Documents(Vec<String>),
}

/// A value with its texts as characters.
pub ghost enum FieldView {
    Text(Seq<char>),
    Optional(Option<Seq<char>>),
    Flag(bool),
    Integer(i64),
    Natural(u64),
    Texts(Seq<Seq<char>>),
    Document(Seq<char>),
    Documents(Seq<Seq<char>>),
}

impl View for JsonField {
    type V = FieldView;

    open spec fn view(&self) -> FieldView {
        match *self {
            JsonField::Text(text) => FieldView::Text(text@),
            JsonField::Optional(text) => FieldView::Optional(optional_view(text)),
            JsonField::Flag(flag) => FieldView::Flag(flag),
            JsonField::Integer(number) => FieldView::Integer(number),
            JsonField::Natural(number) => FieldView::Natural(number),
            JsonField::Texts(list) => FieldView::Texts(views(list@)),
            JsonField::Document(text) => FieldView::Document(text@),
            JsonField::Documents(list) => FieldView::Documents(views(list@)),
        }
    }
}

/// Members as values.
pub open spec fn member_views(list: Seq<Entry<JsonField>>) -> Seq<(Seq<char>, FieldView)> {
    list.map_values(|entry: Entry<JsonField>| (entry.key@, entry.value@))
}

/// The object with these members in its compact form; absent where one holds a document that is no
/// JSON.
pub uninterp spec fn json_object(members: Seq<(Seq<char>, FieldView)>) -> Option<Seq<char>>;

/// A text is JSON.
pub open spec fn is_json(text: Seq<char>) -> bool {
    json_error(encode_utf8(text)) is None
}

/// What a value holds as written is JSON.
pub open spec fn sound_member(value: FieldView) -> bool {
    match value {
        FieldView::Document(text) => is_json(text),
        FieldView::Documents(list) => forall|i: int| 0 <= i < list.len() ==> is_json(#[trigger] list[i]),
        _ => true,
    }
}

/// A text within so many arrays.
pub open spec fn wrapped(text: Seq<char>, levels: nat) -> Seq<char>
    decreases levels,
{
    if levels == 0 {
        text
    } else {
        "["@ + wrapped(text, (levels - 1) as nat) + "]"@
    }
}

/// A text is JSON that nests so shallow that it can be read from so many levels down.
pub open spec fn nests(text: Seq<char>, levels: nat) -> bool {
    is_json(wrapped(text, levels))
}

/// What a value holds as written nests so shallow that an object of it can be read from so many levels
/// down.
pub open spec fn roomy_member(value: FieldView, levels: nat) -> bool {
    match value {
        FieldView::Document(text) => nests(text, levels + 1),
        FieldView::Documents(list) => forall|i: int| 0 <= i < list.len() ==> nests(#[trigger] list[i], levels + 2),
        _ => true,
    }
}

/// A written object gives back the value of a member.
pub open spec fn gives_back(written: Seq<u8>, member: (Seq<char>, FieldView)) -> bool {
    match member.1 {
        FieldView::Text(text) => json_field_text(written, member.0) == Some(text),
        FieldView::Flag(flag) => json_field_flag(written, member.0) == Some(flag),
        FieldView::Integer(number) => json_field_integer(written, member.0) == Some(number),
        _ => true,
    }
}

/// `serde_json::to_string` of the object with these members, the documents among them read by
/// `serde_json::from_str`: named. It succeeds where the documents are JSON. Where they nest so shallow
/// that they can be read from within an object, the object is JSON itself and gives its texts, flags
/// and integers back; and it can be read from a few levels down where they can from that much further
/// down. No member stands in the list twice.
#[verifier::external_body]
pub(crate) fn object_document(members: Vec<Entry<JsonField>>) -> (text: Option<String>)
    requires
        distinct_keys(members@),
    ensures
        optional_view(text) == json_object(member_views(members@)),
        (forall|i: int| 0 <= i < members@.len() ==> sound_member((#[trigger] members@[i]).value@)) ==> text is Some,
        text is Some && (forall|i: int| 0 <= i < members@.len() ==> roomy_member((#[trigger] members@[i]).value@, 0)) ==> {
            &&& is_json(text->0@)
            &&& json_pointer_keys(encode_utf8(text->0@), ""@) is Some
            &&& forall|i: int|
                0 <= i < members@.len() ==> gives_back(
                    encode_utf8(text->0@),
                    ((#[trigger] members@[i]).key@, members@[i].value@),
                )
        },
        forall|levels: nat|
            levels <= 64 && text is Some && (forall|i: int|
                0 <= i < members@.len() ==> roomy_member((#[trigger] members@[i]).value@, levels)) ==> #[trigger] nests(
                text->0@,
                levels,
            ),
{
    let mut object = serde_json::Map::new();
    for Entry { key, value } in members {
        let value = match value {
            JsonField::Text(text) => text.into(),
            JsonField::Optional(text) => text.into(),
            JsonField::Flag(flag) => flag.into(),
            JsonField::Integer(number) => number.into(),
            JsonField::Natural(number) => number.into(),
            JsonField::Texts(list) => list.into(),
            JsonField::Document(text) => serde_json::from_str(&text).ok()?,
            JsonField::Documents(list) => list.iter().map(|text| serde_json::from_str::<Value>(text).ok()).collect::<Option<_>>()?,
        };
        object.insert(key, value);
    }
    serde_json::to_string(&object).ok()
}

/// The object that a pointer reaches in a document, with a member replaced by a text, in its compact
/// form.
pub uninterp spec fn json_item(
    document: Seq<u8>,
    pointer: Seq<char>,
    member: Seq<char>,
    text: Seq<char>,
) -> Option<Seq<char>>;

/// `Value::pointer` on the parsed document, `Map::insert` of a text into the object that it reaches, and
/// `serde_json::to_string`: named. What it reaches has to hold a text under `known`, a word of small
/// letters, which only an object can: then it succeeds, and what it gives is JSON.
#[verifier::external_body]
pub(crate) fn item_document(
    document: &[u8],
    pointer: &str,
    known: &str,
    member: &str,
    text: &str,
) -> (item: Option<String>)
    requires
        known@.len() > 0,
        forall|i: int| 0 <= i < known@.len() ==> is_lower(#[trigger] known@[i]),
        json_pointer_text(document@, pointer@ + "/"@ + known@) is Some,
        json_error(document@) is None,
    ensures
        optional_view(item) == json_item(document@, pointer@, member@, text@),
        item is Some && is_json(item->0@),
{
    let value: Value = serde_json::from_slice(document).ok()?;
    let mut item = value.pointer(pointer)?.clone();
    item.as_object_mut()?.insert(member.to_owned(), Value::from(text));
    serde_json::to_string(&item).ok()
}

/// The members of one object, and those of a second object in place of its own.
pub uninterp spec fn json_merged(base: Seq<char>, more: Seq<char>) -> Option<Seq<char>>;

/// `serde_json::from_str` of two objects, `Map::extend` of the first by the second, and
/// `serde_json::to_string`: named. It succeeds where both are objects.
#[verifier::external_body]
pub(crate) fn merged_documents(base: &str, more: &str) -> (text: Option<String>)
    ensures
        optional_view(text) == json_merged(base@, more@),
        json_pointer_keys(encode_utf8(base@), ""@) is Some && json_pointer_keys(encode_utf8(more@), ""@) is Some
            ==> text is Some,
{
    let mut object: serde_json::Map<String, Value> = serde_json::from_str(base).ok()?;
    object.extend(serde_json::from_str::<serde_json::Map<String, Value>>(more).ok()?);
    serde_json::to_string(&object).ok()
}

/// The value of a member of an object, in its compact form.
pub uninterp spec fn json_member(document: Seq<char>, member: Seq<char>) -> Option<Seq<char>>;

/// `Value::get` of serde_json on the parsed document, and `serde_json::to_string` of what it finds:
/// named. What it gives is JSON, and as it lay within an object, it can be read from one level down.
#[verifier::external_body]
pub(crate) fn member_document(document: &str, member: &str) -> (value: Option<String>)
    ensures
        optional_view(value) == json_member(document@, member@),
        value is Some ==> is_json(value->0@) && nests(value->0@, 1),
{
    let object: Value = serde_json::from_str(document).ok()?;
    serde_json::to_string(object.get(member)?).ok()
}

/// A member of an object.
pub fn member(key: &str, value: JsonField) -> (entry: Entry<JsonField>)
    ensures
        entry.key@ == key@,
        entry.value == value,
{
    Entry { key: key.to_owned(), value }
}

/// A document in its compact form, with one member of its object replaced by an array of documents.
pub uninterp spec fn json_with_items(document: Seq<u8>, member: Seq<char>, items: Seq<Seq<char>>) -> Option<Seq<char>>;

/// `Map::insert` of an array of parsed documents into the object of the parsed document, and
/// `serde_json::to_string`: named. It succeeds where the document is an object and the items are JSON.
#[verifier::external_body]
pub(crate) fn with_items(document: &[u8], member: &str, items: &Vec<String>) -> (text: Option<String>)
    ensures
        optional_view(text) == json_with_items(document@, member@, views(items@)),
        json_pointer_keys(document@, ""@) is Some && (forall|i: int|
            0 <= i < items@.len() ==> is_json((#[trigger] items@[i])@)) ==> text is Some,
{
    let mut object: serde_json::Map<String, Value> = serde_json::from_slice(document).ok()?;
    let list = items.iter().map(|text| serde_json::from_str(text).ok()).collect::<Option<Vec<Value>>>()?;
    object.insert(member.to_owned(), Value::from(list));
    serde_json::to_string(&object).ok()
}

} // verus!
