//! The shapes of names: plugins, environment variables, images and executables.

use crate::config::Platform;
use crate::ordered::{ascending, insert_ascending};
use crate::paths::{file_stem, path_file_stem};
use crate::text::{
    alphanumeric, characters, digit, has_prefix, is_alphanumeric, is_digit, lowercase, lowered, matches_at,
    occurs_at, pieces, same_text, split, views,
};
use vstd::prelude::*;
use vstd::string::*;

verus! {

/// A character of a plugin, profile or registry name.
pub open spec fn name_char(c: char) -> bool {
    is_alphanumeric(c) || c == '.' || c == '_' || c == '-'
}

/// A name: 1 to 128 letters, digits, dots, underscores and hyphens.
pub open spec fn is_name(value: Seq<char>) -> bool {
    0 < value.len() <= 128 && forall|i: int| 0 <= i < value.len() ==> name_char(#[trigger] value[i])
}

/// Whether `value` is a name: 1 to 128 letters, digits, dots, underscores and hyphens.
pub fn valid_name(value: &str) -> (yes: bool)
    ensures
        yes == is_name(value@),
{
    let list = characters(value);
    if list.len() == 0 || list.len() > 128 {
        return false;
    }
    let mut i: usize = 0;
    while i < list.len()
        invariant
            list@ == value@,
            i <= list@.len(),
            forall|j: int| 0 <= j < i ==> name_char(#[trigger] value@[j]),
        decreases list@.len() - i,
    {
        let c: char = list[i];
        if !(alphanumeric(c) || c == '.' || c == '_' || c == '-') {
            return false;
        }
        i = i + 1;
    }
    true
}

/// Every text is a name and none occurs twice.
pub open spec fn distinct_names(list: Seq<Seq<char>>) -> bool {
    &&& forall|i: int| 0 <= i < list.len() ==> is_name(#[trigger] list[i])
    &&& list.no_duplicates()
}

/// Whether every text is a name and none occurs twice.
pub fn unique_names(list: &Vec<String>) -> (yes: bool)
    ensures
        yes == distinct_names(views(list@)),
{
    let ghost texts = views(list@);
    let mut seen: Vec<String> = Vec::new();
    let mut unique: bool = true;
    let mut i: usize = 0;
    while i < list.len()
        invariant
            i <= list@.len(),
            texts == views(list@),
            ascending(views(seen@)),
            forall|j: int| 0 <= j < i ==> is_name(#[trigger] texts[j]),
            forall|x: Seq<char>| #[trigger] views(seen@).contains(x) <==> texts.take(i as int).contains(x),
            unique == texts.take(i as int).no_duplicates(),
        decreases list@.len() - i,
    {
        proof {
            assert(texts[i as int] == list@[i as int]@);
        }
        if !valid_name(list[i].as_str()) {
            return false;
        }
        let ghost before = views(seen@);
        let added = insert_ascending(&mut seen, list[i].clone());
        proof {
            let short = texts.take(i as int);
            let long = texts.take(i + 1);
            assert(long =~= short.push(texts[i as int]));
            assert forall|x: Seq<char>| #[trigger] views(seen@).contains(x) <==> long.contains(x) by {
                if long.contains(x) && !short.contains(x) {
                    let k = choose|k: int| 0 <= k < long.len() && long[k] == x;
                    if k < i {
                        assert(short[k] == x);
                    }
                }
                if short.contains(x) {
                    let k = choose|k: int| 0 <= k < short.len() && short[k] == x;
                    assert(long[k] == x);
                }
                if x == texts[i as int] {
                    assert(long[i as int] == x);
                }
            }
            if added {
                assert(!short.contains(texts[i as int]));
                if short.no_duplicates() {
                    assert forall|a: int, b: int| 0 <= a < long.len() && 0 <= b < long.len() && a != b implies long[a]
                        != long[b] by {
                        if a == i {
                            assert(short[b] == long[b]);
                        } else if b == i {
                            assert(short[a] == long[a]);
                        } else {
                            assert(short[a] == long[a] && short[b] == long[b]);
                        }
                    }
                } else {
                    let (a, b) = choose|a: int, b: int|
                        0 <= a < short.len() && 0 <= b < short.len() && a != b && short[a] == short[b];
                    assert(long[a] == long[b]);
                }
            } else {
                assert(short.contains(texts[i as int]));
                let k = choose|k: int| 0 <= k < short.len() && short[k] == texts[i as int];
                assert(long[k] == long[i as int]);
            }
        }
        unique = unique && added;
        i = i + 1;
    }
    proof {
        assert(texts.take(i as int) =~= texts);
    }
    unique
}

/// A variable name: a letter or underscore, then letters, digits and underscores.
pub open spec fn is_environment_name(name: Seq<char>) -> bool {
    &&& name.len() > 0
    &&& !is_digit(name[0])
    &&& forall|i: int| 0 <= i < name.len() ==> is_alphanumeric(#[trigger] name[i]) || name[i] == '_'
}

/// Whether `name` is a variable name: a letter or underscore, then letters, digits and underscores.
pub fn valid_environment_name(name: &str) -> (yes: bool)
    ensures
        yes == is_environment_name(name@),
{
    let list = characters(name);
    if list.len() == 0 || digit(list[0]) {
        return false;
    }
    let mut i: usize = 0;
    while i < list.len()
        invariant
            list@ == name@,
            i <= list@.len(),
            forall|j: int| 0 <= j < i ==> is_alphanumeric(#[trigger] name@[j]) || name@[j] == '_',
        decreases list@.len() - i,
    {
        if !(alphanumeric(list[i]) || list[i] == '_') {
            return false;
        }
        i = i + 1;
    }
    true
}

/// A path inside an image: absolute, with a component after every separator and none of `.`, `..`.
pub open spec fn is_oci_path(value: Seq<char>) -> bool {
    let list = pieces(value, '/');
    &&& value.len() > 1
    &&& value[0] == '/'
    &&& forall|i: int|
        1 <= i < list.len() ==> (#[trigger] list[i]).len() > 0 && list[i] != "."@ && list[i] != ".."@
}

/// Whether `value` is a normalized absolute path inside an image.
pub fn normalized_oci_path(value: &str) -> (yes: bool)
    ensures
        yes == is_oci_path(value@),
{
    let chars = characters(value);
    if chars.len() <= 1 || chars[0] != '/' {
        return false;
    }
    let list = split(value, '/');
    let ghost texts = pieces(value@, '/');
    let mut i: usize = 1;
    while i < list.len()
        invariant
            1 <= i <= list@.len(),
            texts == views(list@),
            texts == pieces(value@, '/'),
            forall|j: int|
                1 <= j < i ==> (#[trigger] texts[j]).len() > 0 && texts[j] != "."@ && texts[j] != ".."@,
        decreases list@.len() - i,
    {
        proof {
            assert(texts[i as int] == list@[i as int]@);
        }
        if list[i].as_str().is_empty() || same_text(list[i].as_str(), ".") || same_text(list[i].as_str(), "..") {
            return false;
        }
        i = i + 1;
    }
    true
}

/// A hexadecimal digit of either case.
pub open spec fn is_hex_digit(c: char) -> bool {
    is_digit(c) || ('a' <= c && c <= 'f') || ('A' <= c && c <= 'F')
}

/// 64 hexadecimal digits.
pub open spec fn is_sha256_text(text: Seq<char>) -> bool {
    text.len() == 64 && forall|i: int| 0 <= i < 64 ==> is_hex_digit(#[trigger] text[i])
}

/// An image that its SHA-256 digest identifies: the digest alone, or a repository with it.
pub open spec fn is_immutable_image(image: Seq<char>) -> bool {
    if has_prefix(image, "sha256:"@) {
        is_sha256_text(image.skip("sha256:"@.len() as int))
    } else {
        let mark = "@sha256:"@;
        &&& image.len() > 64 + mark.len()
        &&& occurs_at(image, mark, image.len() - 64 - mark.len())
        &&& is_sha256_text(image.skip(image.len() - 64))
    }
}

/// Whether `list[from..]` is 64 hexadecimal digits.
fn sha256_text_from(list: &Vec<char>, from: usize) -> (yes: bool)
    requires
        from <= list@.len(),
    ensures
        yes == is_sha256_text(list@.skip(from as int)),
{
    if list.len() - from != 64 {
        return false;
    }
    let ghost digest = list@.skip(from as int);
    let mut i: usize = from;
    while i < list.len()
        invariant
            from <= i <= list@.len(),
            list@.len() - from == 64,
            digest == list@.skip(from as int),
            forall|j: int| 0 <= j < i - from ==> is_hex_digit(#[trigger] digest[j]),
        decreases list@.len() - i,
    {
        let c: char = list[i];
        proof {
            assert(digest[i - from] == c);
        }
        if !(digit(c) || ('a' <= c && c <= 'f') || ('A' <= c && c <= 'F')) {
            return false;
        }
        i = i + 1;
    }
    true
}

/// Whether an image reference is immutable.
pub fn valid_oci_image_reference(image: &str) -> (yes: bool)
    ensures
        yes == is_immutable_image(image@),
{
    let list = characters(image);
    let prefix = characters("sha256:");
    if matches_at(&list, &prefix, 0) {
        return sha256_text_from(&list, prefix.len());
    }
    let mark = characters("@sha256:");
    if list.len() <= 64 || list.len() - 64 <= mark.len() {
        return false;
    }
    let digest: usize = list.len() - 64;
    matches_at(&list, &mark, digest - mark.len()) && sha256_text_from(&list, digest)
}

/// The executable is Docker or Podman, by the stem of its file name in any case.
pub open spec fn is_oci_runtime(platform: Platform, runtime: Seq<char>) -> bool {
    file_stem(platform, runtime) matches Some(name) && (lowered(name) == "docker"@ || lowered(name) == "podman"@
        || lowered(name) == "podman-remote"@)
}

/// Whether the executable is Docker or Podman, by the stem of its file name in any case.
pub fn valid_oci_runtime_name(platform: Platform, runtime: &str) -> (yes: bool)
    ensures
        yes == is_oci_runtime(platform, runtime@),
{
    match path_file_stem(platform, runtime) {
        Some(name) => {
            let name = lowercase(name.as_str());
            same_text(name.as_str(), "docker") || same_text(name.as_str(), "podman") || same_text(
                name.as_str(),
                "podman-remote",
            )
        },
        None => false,
    }
}

/// A name is made of ASCII letters, digits, dots, underscores and hyphens, at least one of them and at
/// most 128, and every text of that form is a name.
pub proof fn names_are_made_of_plain_characters(value: Seq<char>)
    ensures
        is_name(value) <==> 1 <= value.len() <= 128 && forall|i: int|
            0 <= i < value.len() ==> ('a' <= (#[trigger] value[i]) <= 'z' || 'A' <= value[i] <= 'Z' || '0' <= value[i]
                <= '9' || value[i] == '.' || value[i] == '_' || value[i] == '-'),
{
}

/// A variable name is made of ASCII letters, digits and underscores and begins with no digit, and every
/// text of that form is one.
pub proof fn variable_names_begin_with_no_digit(name: Seq<char>)
    ensures
        is_environment_name(name) <==> name.len() > 0 && !('0' <= name[0] <= '9') && forall|i: int|
            0 <= i < name.len() ==> ('a' <= (#[trigger] name[i]) <= 'z' || 'A' <= name[i] <= 'Z' || '0' <= name[i]
                <= '9' || name[i] == '_'),
{
}

/// An image is immutable exactly where it is, or ends in, a SHA-256 digest of sixty-four hexadecimal
/// digits behind its mark; an image that is pinned stays pinned under any repository name.
pub proof fn immutable_images_are_pinned(repository: Seq<char>, digest: Seq<char>)
    requires
        digest.len() == 64,
        forall|i: int|
            0 <= i < digest.len() ==> ('0' <= (#[trigger] digest[i]) <= '9' || 'a' <= digest[i] <= 'f' || 'A'
                <= digest[i] <= 'F'),
    ensures
        is_immutable_image("sha256:"@ + digest),
        repository.len() > 0 && !has_prefix(repository + "@sha256:"@ + digest, "sha256:"@) ==> is_immutable_image(
            repository + "@sha256:"@ + digest,
        ),
        !is_immutable_image(digest),
{
    reveal_strlit("sha256:");
    reveal_strlit("@sha256:");
    let whole = "sha256:"@ + digest;
    assert(whole.subrange(0, "sha256:"@.len() as int) == "sha256:"@);
    assert(whole.skip("sha256:"@.len() as int) == digest);
    let pinned = repository + "@sha256:"@ + digest;
    let mark = "@sha256:"@;
    if repository.len() > 0 {
        assert(pinned.subrange(pinned.len() - 64 - mark.len(), pinned.len() - 64 - mark.len() + mark.len()) == mark);
        assert(pinned.skip(pinned.len() - 64) == digest);
    }
    if has_prefix(digest, "sha256:"@) {
        assert(digest.subrange(0, "sha256:"@.len() as int)[0] == digest[0]);
        assert(digest[0] == 's');
    }
}

/// What is accepted as an immutable image ends in a digest of sixty-four hexadecimal digits.
pub proof fn accepted_images_end_in_a_digest(image: Seq<char>, i: int)
    requires
        is_immutable_image(image),
        image.len() - 64 <= i < image.len(),
    ensures
        image.len() > 64,
        '0' <= image[i] <= '9' || 'a' <= image[i] <= 'f' || 'A' <= image[i] <= 'F',
{
    reveal_strlit("sha256:");
    reveal_strlit("@sha256:");
    if has_prefix(image, "sha256:"@) {
        let digest = image.skip("sha256:"@.len() as int);
        assert(digest.len() == 64);
        assert(image[i] == digest[i - "sha256:"@.len()]);
    } else {
        let digest = image.skip(image.len() - 64);
        assert(image[i] == digest[i - (image.len() - 64)]);
    }
}

/// The container runtimes are Docker and Podman, local or remote, in any case of letters.
pub proof fn known_runtimes_are_accepted(platform: Platform, runtime: Seq<char>)
    ensures
        is_oci_runtime(platform, runtime) <==> file_stem(platform, runtime) is Some && seq![
            "docker"@,
            "podman"@,
            "podman-remote"@,
        ].contains(lowered(file_stem(platform, runtime)->0)),
{
    let names = seq!["docker"@, "podman"@, "podman-remote"@];
    assert(names[0] == "docker"@ && names[1] == "podman"@ && names[2] == "podman-remote"@);
}

/// Names are distinct exactly where each is a name and no two are the same.
pub proof fn distinct_names_occur_once(list: Seq<Seq<char>>)
    ensures
        distinct_names(list) <==> {
            &&& forall|i: int| 0 <= i < list.len() ==> is_name(#[trigger] list[i])
            &&& forall|i: int, j: int| 0 <= i < j < list.len() ==> #[trigger] list[i] != #[trigger] list[j]
        },
{
}

/// A normalized path is absolute and has neither empty nor relative components.
pub proof fn normalized_paths_have_plain_components(value: Seq<char>, i: int)
    requires
        is_oci_path(value),
        1 <= i < pieces(value, '/').len(),
    ensures
        value.len() > 1 && value[0] == '/',
        pieces(value, '/')[i].len() > 0,
        pieces(value, '/')[i] != "."@,
        pieces(value, '/')[i] != ".."@,
{
}

/// A digest is written in sixty-four hexadecimal digits, of either case.
pub proof fn digests_have_their_digits(text: Seq<char>, at: int)
    requires
        0 <= at < text.len(),
    ensures
        is_sha256_text(text) ==> text.len() == 64,
        is_sha256_text(text) ==> {
            ||| 0x30 <= text[at] as u32 <= 0x39
            ||| 0x41 <= text[at] as u32 <= 0x46
            ||| 0x61 <= text[at] as u32 <= 0x66
        },
        text.len() == 64 && (forall|i: int|
            0 <= i < 64 ==> ('0' <= #[trigger] text[i] && text[i] <= '9') || ('A' <= text[i] && text[i] <= 'F') || ('a'
                <= text[i] && text[i] <= 'f')) ==> is_sha256_text(text),
{
}

} // verus!
