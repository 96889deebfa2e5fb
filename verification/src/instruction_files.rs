//! Reading `AGENTS.md` files: what makes one absent, unsafe or unreadable.

use crate::encoding::utf8_text;
use crate::error::{config_error, is_config_error, RuntimeError};
use crate::instruction_snapshots::MAX_AGENTS_FILE_BYTES;
use crate::text::{contains_text, parts_are_contained};
use vstd::prelude::*;
use vstd::string::*;
use vstd::utf8::*;

verus! {

/// What a path names, without following a link.
#[derive(Debug)]
pub enum PathEntry {
    Missing,
    Unreadable(String),
    Present { symbolic_link: bool, regular: bool, length: u64, object: FileObject },
}

/// A file object, apart from its name.
#[derive(Clone, Copy, Debug, PartialEq, Eq, Structural)]
pub struct FileObject {
    pub device: u64,
    pub inode: u64,
}

/// An opened file.
#[derive(Debug)]
pub struct OpenedFile {
    pub regular: bool,
    pub length: u64,
    pub object: FileObject,
}

/// The text of a failure to read the file at a path.
pub open spec fn file_error(path: Seq<char>, reason: Seq<char>) -> Seq<char> {
    "AGENTS.md at "@ + path + " is unsafe or unreadable: "@ + reason
}

/// The failure to read the file at a path.
pub fn agents_file_error<T>(path: &str, reason: &str) -> (result: Result<T, RuntimeError>)
    ensures
        is_config_error(result, file_error(path@, reason@)),
{
    let mut text = "AGENTS.md at ".to_owned();
    text.append(path);
    text.append(" is unsafe or unreadable: ");
    text.append(reason);
    config_error(text.as_str())
}

/// Why an entry is not opened, if so.
pub open spec fn entry_reason(entry: PathEntry) -> Option<Seq<char>> {
    match entry {
        PathEntry::Missing => None,
        PathEntry::Unreadable(reason) => Some(reason@),
        PathEntry::Present { symbolic_link, regular, length, .. } => if symbolic_link || !regular {
            Some("must be a regular file and must not be a symbolic link"@)
        } else if length > MAX_AGENTS_FILE_BYTES {
            Some("exceeds the 65536 byte limit"@)
        } else {
            None
        },
    }
}

/// Whether there is a file to open: a missing one is no failure, and one that is there has to be a
/// regular file within the limit. The object that is there comes with the answer.
pub fn inspect_entry(path: &str, entry: &PathEntry) -> (result: Result<Option<FileObject>, RuntimeError>)
    ensures
        match entry_reason(*entry) {
            Some(reason) => is_config_error(result, file_error(path@, reason)),
            None => match *entry {
                PathEntry::Present { object, .. } => result == Ok::<Option<FileObject>, RuntimeError>(Some(object)),
                _ => result == Ok::<Option<FileObject>, RuntimeError>(None),
            },
        },
{
    match entry {
        PathEntry::Missing => Ok(None),
        PathEntry::Unreadable(reason) => agents_file_error(path, reason.as_str()),
        PathEntry::Present { symbolic_link, regular, length, object } => {
            if *symbolic_link || !*regular {
                return agents_file_error(path, "must be a regular file and must not be a symbolic link");
            }
            if *length > MAX_AGENTS_FILE_BYTES as u64 {
                return agents_file_error(path, "exceeds the 65536 byte limit");
            }
            Ok(Some(*object))
        },
    }
}

/// Whether the opened file is the one that was inspected.
pub fn accept_opened(path: &str, inspected: FileObject, opened: &OpenedFile) -> (result: Result<(), RuntimeError>)
    ensures
        if opened.regular && opened.object == inspected {
            result is Ok
        } else {
            is_config_error(result, file_error(path@, "changed while it was being opened"@))
        },
{
    if !opened.regular || inspected.device != opened.object.device || inspected.inode != opened.object.inode {
        return agents_file_error(path, "changed while it was being opened");
    }
    Ok(())
}

/// Why bytes that were read within the limit are not instructions, if so.
pub open spec fn bytes_reason(bytes: Seq<u8>, unchanged: bool) -> Option<Seq<char>> {
    if bytes.len() > MAX_AGENTS_FILE_BYTES {
        Some("exceeds the 65536 byte limit"@)
    } else if !unchanged {
        Some("changed while it was being read"@)
    } else if !valid_utf8(bytes) {
        Some("must contain valid UTF-8"@)
    } else {
        None
    }
}

/// The read file is still the one that was opened, and still at its path.
pub open spec fn still_there(object: FileObject, bytes: Seq<u8>, opened: OpenedFile, entry: PathEntry) -> bool {
    &&& opened.regular
    &&& opened.object == object
    &&& opened.length == bytes.len()
    &&& entry matches PathEntry::Present { symbolic_link, regular, object: found, .. } && !symbolic_link && regular
        && found == object
}

/// The instructions that were read, given what was found of the file and its path afterwards. A path
/// that cannot be read afterwards fails with its reason.
pub fn accept_bytes(
    path: &str,
    object: FileObject,
    bytes: &Vec<u8>,
    opened: &OpenedFile,
    entry: &PathEntry,
) -> (result: Result<String, RuntimeError>)
    ensures
        match bytes_reason(bytes@, still_there(object, bytes@, *opened, *entry)) {
            Some(reason) => is_config_error(
                result,
                file_error(
                    path@,
                    match *entry {
                        PathEntry::Unreadable(failure) if bytes@.len() <= MAX_AGENTS_FILE_BYTES => failure@,
                        _ => reason,
                    },
                ),
            ),
            None => result matches Ok(text) && encode_utf8(text@) == bytes@,
        },
        result matches Ok(text) ==> encode_utf8(text@).len() <= MAX_AGENTS_FILE_BYTES,
{
    if bytes.len() > MAX_AGENTS_FILE_BYTES {
        return agents_file_error(path, "exceeds the 65536 byte limit");
    }
    let unchanged = match entry {
        PathEntry::Unreadable(reason) => {
            return agents_file_error(path, reason.as_str());
        },
        PathEntry::Missing => false,
        PathEntry::Present { symbolic_link, regular, object: found, .. } => opened.regular && !*symbolic_link
            && *regular && object.device == opened.object.device && object.inode == opened.object.inode
            && object.device == found.device && object.inode == found.inode && opened.length == bytes.len() as u64,
    };
    if !unchanged {
        return agents_file_error(path, "changed while it was being read");
    }
    match utf8_text(bytes.as_slice()) {
        Ok(text) => Ok(text),
        Err(_) => agents_file_error(path, "must contain valid UTF-8"),
    }
}

/// Whether the file of a home directory may be read.
pub fn accept_home_entry(path: &str, length: u64) -> (result: Result<(), RuntimeError>)
    ensures
        if length > MAX_AGENTS_FILE_BYTES {
            is_config_error(result, file_error(path@, "exceeds the 65536 byte limit"@))
        } else {
            result is Ok
        },
{
    if length > MAX_AGENTS_FILE_BYTES as u64 {
        return agents_file_error(path, "exceeds the 65536 byte limit");
    }
    Ok(())
}

/// Why bytes read from a home directory are not instructions, if so.
pub open spec fn home_reason(bytes: Seq<u8>, unchanged: bool, home: Result<(), String>) -> Option<Seq<char>> {
    match (bytes_reason(bytes, unchanged), home) {
        (None, Err(failure)) => Some(failure@),
        (Some(reason), Err(failure)) if bytes.len() <= MAX_AGENTS_FILE_BYTES && unchanged => Some(failure@),
        (reason, _) => reason,
    }
}

/// The instructions that were read from a home directory: the file has to be regular and as long
/// after the reading as before, and the directory still the one it was.
pub fn accept_home_bytes(
    path: &str,
    before: u64,
    bytes: &Vec<u8>,
    after: &OpenedFile,
    home: &Result<(), String>,
) -> (result: Result<String, RuntimeError>)
    ensures
        match home_reason(
            bytes@,
            after.regular && before == after.length && after.length == bytes@.len(),
            *home,
        ) {
            Some(reason) => is_config_error(result, file_error(path@, reason)),
            None => result matches Ok(text) && encode_utf8(text@) == bytes@,
        },
        result matches Ok(text) ==> encode_utf8(text@).len() <= MAX_AGENTS_FILE_BYTES,
{
    if bytes.len() > MAX_AGENTS_FILE_BYTES {
        return agents_file_error(path, "exceeds the 65536 byte limit");
    }
    if !after.regular || before != after.length || after.length != bytes.len() as u64 {
        return agents_file_error(path, "changed while it was being read");
    }
    if let Err(reason) = home {
        return agents_file_error(path, reason.as_str());
    }
    match utf8_text(bytes.as_slice()) {
        Ok(text) => Ok(text),
        Err(_) => agents_file_error(path, "must contain valid UTF-8"),
    }
}

/// A file of instructions is taken exactly where it is absent or a regular file, no link, of at most
/// sixty-four kibibytes.
pub proof fn small_regular_files_are_taken(entry: PathEntry)
    ensures
        entry is Missing ==> entry_reason(entry) is None,
        entry is Unreadable ==> entry_reason(entry) is Some,
        entry matches PathEntry::Present { symbolic_link, regular, length, object } ==> (entry_reason(entry) is None
            <==> !symbolic_link && regular && length <= 65_536),
{
}

/// Bytes are taken exactly where they are text of at most sixty-four kibibytes and the file did not
/// change; at home the host has to have nothing against the file either.
pub proof fn unchanged_texts_are_taken(bytes: Seq<u8>, unchanged: bool, home: Result<(), String>)
    ensures
        bytes_reason(bytes, unchanged) is None <==> bytes.len() <= 65_536 && unchanged && valid_utf8(bytes),
        home_reason(bytes, unchanged, home) is None <==> bytes.len() <= 65_536 && unchanged && valid_utf8(bytes)
            && home is Ok,
{
}

/// A file did not change where what was opened is what was inspected, is still there under its name,
/// and has the length that was read.
pub proof fn unchanged_files_are_the_inspected_ones(
    object: FileObject,
    bytes: Seq<u8>,
    opened: OpenedFile,
    entry: PathEntry,
)
    ensures
        still_there(object, bytes, opened, entry) ==> opened.regular && opened.object == object && opened.length
            == bytes.len() && entry is Present,
        entry matches PathEntry::Present { symbolic_link, regular, length, object: found } ==> (still_there(
            object,
            bytes,
            opened,
            entry,
        ) <==> opened.regular && opened.object == object && opened.length == bytes.len() && !symbolic_link && regular
            && found == object),
{
}

/// A refusal names the file and the reason.
pub proof fn refusals_name_the_file(path: Seq<char>, reason: Seq<char>)
    ensures
        contains_text(file_error(path, reason), path),
        reason.is_suffix_of(file_error(path, reason)),
{
    parts_are_contained("AGENTS.md at "@, path, " is unsafe or unreadable: "@ + reason);
    assert("AGENTS.md at "@ + path + (" is unsafe or unreadable: "@ + reason) == file_error(path, reason));
}

/// A file of the home that was read whole and unchanged is refused for what the host says of its place,
/// whatever it holds; one that is too large, or changed, is refused for that.
pub proof fn the_place_of_a_home_file_counts(bytes: Seq<u8>, unchanged: bool, home: Result<(), String>)
    ensures
        bytes.len() <= 65_536 && unchanged && home is Err ==> home_reason(bytes, unchanged, home) == Some(
            home->Err_0@,
        ),
        bytes.len() > 65_536 || !unchanged || home is Ok ==> home_reason(bytes, unchanged, home) == bytes_reason(
            bytes,
            unchanged,
        ),
{
}

} // verus!
