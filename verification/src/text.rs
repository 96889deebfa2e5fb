//! Text as sequences of characters: comparison, search, splitting and rendering.

use vstd::prelude::*;
use vstd::string::*;

verus! {

/// `String::push` of std: appends exactly one character.
pub assume_specification[ String::push ](text: &mut String, character: char)
    ensures
        final(text)@ == old(text)@.push(character),
;

/// Whether two texts hold the same characters.
pub fn same_text(left: &str, right: &str) -> (same: bool)
    ensures
        same == (left@ == right@),
{
    let a = characters(left);
    let b = characters(right);
    if a.len() != b.len() {
        return false;
    }
    let mut i: usize = 0;
    while i < a.len()
        invariant
            i <= a@.len() == b@.len(),
            a@ == left@,
            b@ == right@,
            forall|j: int| 0 <= j < i ==> a@[j] == b@[j],
        decreases a@.len() - i,
    {
        if a[i] != b[i] {
            return false;
        }
        i = i + 1;
    }
    proof {
        assert(a@ =~= b@);
    }
    true
}

/// The characters of `text`, in order.
pub fn characters(text: &str) -> (list: Vec<char>)
    ensures
        list@ == text@,
{
    let mut list: Vec<char> = Vec::new();
    for c in it: text.chars()
        invariant
            it.seq() == text@,
            list@ == text@.take(it.index()),
    {
        proof {
            assert(text@.take(it.index() + 1) =~= text@.take(it.index()).push(text@[it.index()]));
        }
        list.push(c);
    }
    proof {
        assert(text@.take(text@.len() as int) =~= text@);
    }
    list
}

/// The text made of `list[from..to]`.
pub fn text_of(list: &Vec<char>, from: usize, to: usize) -> (text: String)
    requires
        from <= to <= list@.len(),
    ensures
        text@ == list@.subrange(from as int, to as int),
{
    let mut text = String::new();
    let mut i: usize = from;
    while i < to
        invariant
            from <= i <= to <= list@.len(),
            text@ == list@.subrange(from as int, i as int),
        decreases to - i,
    {
        text.push(list[i]);
        proof {
            assert(list@.subrange(from as int, i + 1) =~= list@.subrange(from as int, i as int).push(list@[i as int]));
        }
        i = i + 1;
    }
    text
}

/// `left` followed by `right`.
pub fn concat2(left: &str, right: &str) -> (text: String)
    ensures
        text@ == left@ + right@,
{
    let mut text = left.to_owned();
    text.append(right);
    text
}

/// `first`, `second` and `third`, one after the other.
pub fn concat3(first: &str, second: &str, third: &str) -> (text: String)
    ensures
        text@ == first@ + second@ + third@,
{
    let mut text = first.to_owned();
    text.append(second);
    text.append(third);
    text
}

/// The texts of a list, each as its characters.
pub open spec fn views(list: Seq<String>) -> Seq<Seq<char>> {
    list.map_values(|text: String| text@)
}

/// A clone of every text of `list`, in order.
pub fn clone_texts(list: &Vec<String>) -> (copy: Vec<String>)
    ensures
        copy@ == list@,
{
    let mut copy: Vec<String> = Vec::new();
    let mut i: usize = 0;
    while i < list.len()
        invariant
            i <= list@.len(),
            copy@ == list@.take(i as int),
        decreases list@.len() - i,
    {
        copy.push(list[i].clone());
        proof {
            assert(list@.take(i + 1) =~= list@.take(i as int).push(list@[i as int]));
        }
        i = i + 1;
    }
    proof {
        assert(list@.take(i as int) =~= list@);
    }
    copy
}

/// Whether two lists hold the same texts in the same order.
pub fn same_texts(left: &Vec<String>, right: &Vec<String>) -> (same: bool)
    ensures
        same == (views(left@) == views(right@)),
{
    if left.len() != right.len() {
        proof {
            assert(views(left@).len() != views(right@).len());
        }
        return false;
    }
    let mut i: usize = 0;
    while i < left.len()
        invariant
            i <= left@.len() == right@.len(),
            forall|j: int| 0 <= j < i ==> (#[trigger] left@[j])@ == right@[j]@,
        decreases left@.len() - i,
    {
        if !same_text(left[i].as_str(), right[i].as_str()) {
            proof {
                assert(views(left@)[i as int] != views(right@)[i as int]);
            }
            return false;
        }
        i = i + 1;
    }
    proof {
        assert(views(left@) =~= views(right@));
    }
    true
}

/// A clone of an optional text.
pub fn clone_optional(text: &Option<String>) -> (copy: Option<String>)
    ensures
        copy == *text,
{
    match text {
        Some(value) => Some(value.clone()),
        None => None,
    }
}

/// The characters of an optional text.
pub open spec fn optional_view(text: Option<String>) -> Option<Seq<char>> {
    match text {
        Some(value) => Some(value@),
        None => None,
    }
}

/// Whether two optional texts hold the same characters or are both absent.
pub fn same_optional(left: &Option<String>, right: &Option<String>) -> (same: bool)
    ensures
        same == (optional_view(*left) == optional_view(*right)),
{
    match (left, right) {
        (Some(a), Some(b)) => same_text(a.as_str(), b.as_str()),
        (None, None) => true,
        _ => false,
    }
}

/// Whether an optional text is present and holds exactly `expected`.
pub fn optional_is(text: &Option<String>, expected: &str) -> (same: bool)
    ensures
        same == (optional_view(*text) == Some(expected@)),
{
    match text {
        Some(value) => same_text(value.as_str(), expected),
        None => false,
    }
}

/// Whether `list` holds `text`.
pub fn list_contains(list: &Vec<String>, text: &str) -> (found: bool)
    ensures
        found == views(list@).contains(text@),
{
    let mut i: usize = 0;
    while i < list.len()
        invariant
            i <= list@.len(),
            forall|j: int| 0 <= j < i ==> #[trigger] list@[j]@ != text@,
        decreases list@.len() - i,
    {
        if same_text(list[i].as_str(), text) {
            proof {
                assert(views(list@)[i as int] == text@);
            }
            return true;
        }
        i = i + 1;
    }
    proof {
        assert forall|j: int| 0 <= j < views(list@).len() implies views(list@)[j] != text@ by {
            assert(views(list@)[j] == list@[j]@);
        }
    }
    false
}

/// `needle` stands in `text` at position `at`.
pub open spec fn occurs_at(text: Seq<char>, needle: Seq<char>, at: int) -> bool {
    0 <= at && at + needle.len() <= text.len() && text.subrange(at, at + needle.len()) == needle
}

/// `needle` stands somewhere in `text`.
pub open spec fn contains_text(text: Seq<char>, needle: Seq<char>) -> bool {
    exists|at: int| occurs_at(text, needle, at)
}

/// `text` begins with `prefix`.
pub open spec fn has_prefix(text: Seq<char>, prefix: Seq<char>) -> bool {
    occurs_at(text, prefix, 0)
}

/// Whether `needle` stands in `text` at position `at`.
pub fn matches_at(text: &Vec<char>, needle: &Vec<char>, at: usize) -> (found: bool)
    ensures
        found == occurs_at(text@, needle@, at as int),
{
    let length: usize = text.len();
    if at > length || needle.len() > length - at {
        return false;
    }
    let mut i: usize = 0;
    while i < needle.len()
        invariant
            i <= needle@.len(),
            length == text@.len(),
            at + needle@.len() <= length,
            forall|j: int| 0 <= j < i ==> text@[at + j] == #[trigger] needle@[j],
        decreases needle@.len() - i,
    {
        if text[at + i] != needle[i] {
            proof {
                assert(text@.subrange(at as int, at + needle@.len())[i as int] == text@[at + i]);
            }
            return false;
        }
        i = i + 1;
    }
    proof {
        assert(text@.subrange(at as int, at + needle@.len()) =~= needle@);
    }
    true
}

/// Whether `needle` stands somewhere in `text`.
pub fn contains(text: &str, needle: &str) -> (found: bool)
    ensures
        found == contains_text(text@, needle@),
{
    let text_chars = characters(text);
    let needle_chars = characters(needle);
    if needle_chars.len() > text_chars.len() {
        return false;
    }
    let last: usize = text_chars.len() - needle_chars.len();
    let mut at: usize = 0;
    loop
        invariant
            text_chars@ == text@,
            needle_chars@ == needle@,
            last == text_chars@.len() - needle_chars@.len(),
            at <= last,
            forall|i: int| 0 <= i < at ==> !occurs_at(text@, needle@, i),
        decreases last - at,
    {
        if matches_at(&text_chars, &needle_chars, at) {
            return true;
        }
        if at == last {
            return false;
        }
        at = at + 1;
    }
}

/// Whether `text` holds `character`.
pub fn contains_char(text: &str, character: char) -> (found: bool)
    ensures
        found == text@.contains(character),
{
    let list = characters(text);
    let mut i: usize = 0;
    while i < list.len()
        invariant
            list@ == text@,
            i <= list@.len(),
            forall|j: int| 0 <= j < i ==> list@[j] != character,
        decreases list@.len() - i,
    {
        if list[i] == character {
            return true;
        }
        i = i + 1;
    }
    false
}

/// Whether `text` begins with `prefix`.
pub fn starts_with(text: &str, prefix: &str) -> (found: bool)
    ensures
        found == has_prefix(text@, prefix@),
{
    let text_chars = characters(text);
    let prefix_chars = characters(prefix);
    matches_at(&text_chars, &prefix_chars, 0)
}

/// What follows `prefix` in `text`, where `text` begins with it.
pub fn strip_prefix(text: &str, prefix: &str) -> (rest: Option<String>)
    ensures
        rest is Some == has_prefix(text@, prefix@),
        rest matches Some(value) ==> value@ == text@.skip(prefix@.len() as int),
{
    let text_chars = characters(text);
    let prefix_chars = characters(prefix);
    if matches_at(&text_chars, &prefix_chars, 0) {
        let rest = text_of(&text_chars, prefix_chars.len(), text_chars.len());
        proof {
            assert(text@.subrange(prefix@.len() as int, text@.len() as int) =~= text@.skip(prefix@.len() as int));
        }
        Some(rest)
    } else {
        None
    }
}

/// The first `limit` characters of `text`.
pub open spec fn first_chars(text: Seq<char>, limit: nat) -> Seq<char> {
    if text.len() <= limit {
        text
    } else {
        text.take(limit as int)
    }
}

/// The first `limit` characters of `text`.
pub fn bounded(text: &str, limit: usize) -> (prefix: String)
    ensures
        prefix@ == first_chars(text@, limit as nat),
{
    let list = characters(text);
    if list.len() <= limit {
        text.to_owned()
    } else {
        let prefix = text_of(&list, 0, limit);
        proof {
            assert(text@.subrange(0, limit as int) =~= text@.take(limit as int));
        }
        prefix
    }
}

/// `0..=9`.
pub open spec fn is_digit(c: char) -> bool {
    '0' <= c && c <= '9'
}

/// `a..=z`.
pub open spec fn is_lower(c: char) -> bool {
    'a' <= c && c <= 'z'
}

/// `A..=Z`.
pub open spec fn is_upper(c: char) -> bool {
    'A' <= c && c <= 'Z'
}

/// An ASCII letter or digit.
pub open spec fn is_alphanumeric(c: char) -> bool {
    is_digit(c) || is_lower(c) || is_upper(c)
}

/// Whether `c` is an ASCII digit.
pub fn digit(c: char) -> (yes: bool)
    ensures
        yes == is_digit(c),
{
    '0' <= c && c <= '9'
}

/// Whether `c` is an ASCII lower-case letter.
pub fn lower(c: char) -> (yes: bool)
    ensures
        yes == is_lower(c),
{
    'a' <= c && c <= 'z'
}

/// Whether `c` is an ASCII upper-case letter.
pub fn upper(c: char) -> (yes: bool)
    ensures
        yes == is_upper(c),
{
    'A' <= c && c <= 'Z'
}

/// Whether `c` is an ASCII letter or digit.
pub fn alphanumeric(c: char) -> (yes: bool)
    ensures
        yes == is_alphanumeric(c),
{
    digit(c) || lower(c) || upper(c)
}

/// The characters with the Unicode `White_Space` property.
pub open spec fn is_space(c: char) -> bool {
    let u = c as u32;
    ||| 0x9 <= u && u <= 0xd
    ||| u == 0x20
    ||| u == 0x85
    ||| u == 0xa0
    ||| u == 0x1680
    ||| 0x2000 <= u && u <= 0x200a
    ||| u == 0x2028
    ||| u == 0x2029
    ||| u == 0x202f
    ||| u == 0x205f
    ||| u == 0x3000
}

/// Whether `c` has the Unicode `White_Space` property.
pub fn space(c: char) -> (yes: bool)
    ensures
        yes == is_space(c),
{
    let u: u32 = c as u32;
    (0x9 <= u && u <= 0xd) || u == 0x20 || u == 0x85 || u == 0xa0 || u == 0x1680 || (0x2000 <= u && u
        <= 0x200a) || u == 0x2028 || u == 0x2029 || u == 0x202f || u == 0x205f || u == 0x3000
}

/// `c` with an ASCII upper-case letter replaced by its lower-case letter.
pub open spec fn lower_char(c: char) -> char {
    if is_upper(c) {
        (c as u32 + 32) as char
    } else {
        c
    }
}

/// `text` with every ASCII upper-case letter replaced by its lower-case letter.
pub open spec fn lowered(text: Seq<char>) -> Seq<char> {
    text.map_values(|c: char| lower_char(c))
}

/// `c` with an ASCII upper-case letter replaced by its lower-case letter.
pub(crate) fn lowercase_char(c: char) -> (result: char)
    ensures
        result == lower_char(c),
{
    if upper(c) {
        let byte: u8 = c as u8;
        proof {
            assert(c as u32 <= 0x5a);
        }
        (byte + 32) as char
    } else {
        c
    }
}

/// `text` with every ASCII upper-case letter replaced by its lower-case letter.
pub fn lowercase(text: &str) -> (result: String)
    ensures
        result@ == lowered(text@),
{
    let list = characters(text);
    let mut result = String::new();
    let mut i: usize = 0;
    while i < list.len()
        invariant
            list@ == text@,
            i <= list@.len(),
            result@ == lowered(text@.take(i as int)),
        decreases list@.len() - i,
    {
        result.push(lowercase_char(list[i]));
        proof {
            assert(lowered(text@.take(i + 1)) =~= lowered(text@.take(i as int)).push(lower_char(text@[i as int])));
        }
        i = i + 1;
    }
    proof {
        assert(text@.take(i as int) =~= text@);
    }
    result
}

/// `text` without its leading white space.
pub open spec fn trimmed_start(text: Seq<char>) -> Seq<char>
    decreases text.len(),
{
    if text.len() > 0 && is_space(text[0]) {
        trimmed_start(text.skip(1))
    } else {
        text
    }
}

/// `text` without its trailing white space.
pub open spec fn trimmed_end(text: Seq<char>) -> Seq<char>
    decreases text.len(),
{
    if text.len() > 0 && is_space(text.last()) {
        trimmed_end(text.drop_last())
    } else {
        text
    }
}

/// `text` without its leading and trailing white space.
pub open spec fn trimmed(text: Seq<char>) -> Seq<char> {
    trimmed_end(trimmed_start(text))
}

/// `text` without its leading and trailing white space.
pub fn trim(text: &str) -> (result: String)
    ensures
        result@ == trimmed(text@),
{
    let list = characters(text);
    let mut from: usize = 0;
    proof {
        assert(text@.skip(0) =~= text@);
    }
    while from < list.len() && space(list[from])
        invariant
            list@ == text@,
            from <= list@.len(),
            trimmed_start(text@) == trimmed_start(text@.skip(from as int)),
        decreases list@.len() - from,
    {
        proof {
            assert(text@.skip(from as int).skip(1) =~= text@.skip(from + 1));
        }
        from = from + 1;
    }
    let mut to: usize = list.len();
    proof {
        assert(text@.skip(from as int) =~= text@.subrange(from as int, to as int));
    }
    while from < to && space(list[to - 1])
        invariant
            list@ == text@,
            from <= to <= list@.len(),
            trimmed(text@) == trimmed_end(text@.subrange(from as int, to as int)),
        decreases to,
    {
        proof {
            assert(text@.subrange(from as int, to as int).drop_last() =~= text@.subrange(
                from as int,
                to - 1,
            ));
        }
        to = to - 1;
    }
    text_of(&list, from, to)
}

/// The pieces of `text` between occurrences of `separator`; always at least one.
pub open spec fn pieces(text: Seq<char>, separator: char) -> Seq<Seq<char>>
    decreases text.len(),
{
    if text.len() == 0 {
        seq![Seq::<char>::empty()]
    } else {
        let before = pieces(text.drop_last(), separator);
        if text.last() == separator {
            before.push(Seq::<char>::empty())
        } else {
            before.drop_last().push(before.last().push(text.last()))
        }
    }
}

/// The pieces of `text` between occurrences of `separator`; always at least one.
pub fn split(text: &str, separator: char) -> (list: Vec<String>)
    ensures
        views(list@) == pieces(text@, separator),
        list@.len() > 0,
{
    let chars = characters(text);
    let mut list: Vec<String> = Vec::new();
    let mut current = String::new();
    let mut i: usize = 0;
    proof {
        assert(views(list@).push(current@) =~= pieces(text@.take(0), separator));
    }
    while i < chars.len()
        invariant
            chars@ == text@,
            i <= chars@.len(),
            views(list@).push(current@) == pieces(text@.take(i as int), separator),
        decreases chars@.len() - i,
    {
        let ghost before = pieces(text@.take(i as int), separator);
        proof {
            assert(text@.take(i + 1).drop_last() =~= text@.take(i as int));
            assert(before.drop_last() =~= views(list@));
        }
        if chars[i] == separator {
            let ghost listed = list@;
            let ghost finished = current@;
            list.push(current);
            current = String::new();
            proof {
                assert(views(list@) =~= views(listed).push(finished));
            }
        } else {
            current.push(chars[i]);
        }
        i = i + 1;
    }
    proof {
        assert(text@.take(i as int) =~= text@);
    }
    let ghost listed = list@;
    let ghost finished = current@;
    list.push(current);
    proof {
        assert(views(list@) =~= views(listed).push(finished));
    }
    list
}

/// The pieces of `text` between single white-space characters; always at least one.
pub open spec fn spaced_pieces(text: Seq<char>) -> Seq<Seq<char>>
    decreases text.len(),
{
    if text.len() == 0 {
        seq![Seq::<char>::empty()]
    } else {
        let before = spaced_pieces(text.drop_last());
        if is_space(text.last()) {
            before.push(Seq::<char>::empty())
        } else {
            before.drop_last().push(before.last().push(text.last()))
        }
    }
}

/// The pieces that hold at least one character.
pub open spec fn nonempty(list: Seq<Seq<char>>) -> Seq<Seq<char>>
    decreases list.len(),
{
    if list.len() == 0 {
        list
    } else if list.last().len() > 0 {
        nonempty(list.drop_last()).push(list.last())
    } else {
        nonempty(list.drop_last())
    }
}

/// The words of `text`: its longest runs of characters that are no white space.
pub open spec fn word_list(text: Seq<char>) -> Seq<Seq<char>> {
    nonempty(spaced_pieces(text))
}

/// The words of `text`: its longest runs of characters that are no white space.
pub fn words(text: &str) -> (list: Vec<String>)
    ensures
        views(list@) == word_list(text@),
{
    let chars = characters(text);
    let mut list: Vec<String> = Vec::new();
    let mut current = String::new();
    let ghost mut done = Seq::<Seq<char>>::empty();
    let mut i: usize = 0;
    proof {
        assert(done.push(current@) =~= spaced_pieces(text@.take(0)));
        assert(views(list@) =~= nonempty(done));
    }
    while i < chars.len()
        invariant
            chars@ == text@,
            i <= chars@.len(),
            done.push(current@) == spaced_pieces(text@.take(i as int)),
            views(list@) == nonempty(done),
        decreases chars@.len() - i,
    {
        proof {
            assert(text@.take(i + 1).drop_last() =~= text@.take(i as int));
            assert(done.push(current@).drop_last() =~= done);
        }
        if space(chars[i]) {
            let ghost listed = list@;
            let ghost finished = current@;
            if !current.as_str().is_empty() {
                list.push(current);
                proof {
                    assert(views(list@) =~= views(listed).push(finished));
                }
            }
            current = String::new();
            proof {
                assert(done.push(finished).drop_last() =~= done);
                done = done.push(finished);
            }
        } else {
            current.push(chars[i]);
        }
        i = i + 1;
    }
    proof {
        assert(text@.take(i as int) =~= text@);
        assert(done.push(current@).drop_last() =~= done);
    }
    if !current.as_str().is_empty() {
        let ghost listed = list@;
        let ghost finished = current@;
        list.push(current);
        proof {
            assert(views(list@) =~= views(listed).push(finished));
        }
    }
    list
}

/// The texts of `list` with `separator` between neighbours.
pub open spec fn joined(list: Seq<Seq<char>>, separator: Seq<char>) -> Seq<char>
    decreases list.len(),
{
    if list.len() == 0 {
        Seq::empty()
    } else if list.len() == 1 {
        list[0]
    } else {
        joined(list.drop_last(), separator) + separator + list.last()
    }
}

/// The texts of `list` with `separator` between neighbours.
pub fn join(list: &Vec<String>, separator: &str) -> (text: String)
    ensures
        text@ == joined(views(list@), separator@),
{
    let mut text = String::new();
    let mut i: usize = 0;
    while i < list.len()
        invariant
            i <= list@.len(),
            text@ == joined(views(list@).take(i as int), separator@),
        decreases list@.len() - i,
    {
        let ghost before = text@;
        if i > 0 {
            text.append(separator);
        }
        text.append(list[i].as_str());
        proof {
            let shorter = views(list@).take(i as int);
            let longer = views(list@).take(i + 1);
            assert(longer.drop_last() =~= shorter);
            assert(longer.last() == list@[i as int]@);
            if i == 0 {
                assert(text@ =~= list@[0]@);
            }
        }
        i = i + 1;
    }
    proof {
        assert(views(list@).take(i as int) =~= views(list@));
    }
    text
}

/// The decimal digit of `n`.
pub open spec fn digit_char(n: nat) -> char {
    (48 + n) as char
}

/// `n` in decimal notation, without leading zeros.
pub open spec fn decimal(n: nat) -> Seq<char>
    decreases n,
{
    if n < 10 {
        seq![digit_char(n)]
    } else {
        decimal(n / 10).push(digit_char(n % 10))
    }
}

/// `n` in decimal notation, without leading zeros.
pub fn decimal_text(n: u64) -> (text: String)
    ensures
        text@ == decimal(n as nat),
    decreases n,
{
    if n < 10 {
        let mut text = String::new();
        let byte: u8 = 48 + n as u8;
        text.push(byte as char);
        proof {
            assert(text@ =~= decimal(n as nat));
        }
        text
    } else {
        let mut text = decimal_text(n / 10);
        let byte: u8 = 48 + (n % 10) as u8;
        text.push(byte as char);
        text
    }
}

/// A text contains another exactly where it is that text with something before it and something after
/// it; it begins with one exactly where nothing is before it.
pub proof fn containing_is_standing_between(text: Seq<char>, needle: Seq<char>)
    ensures
        contains_text(text, needle) <==> exists|before: Seq<char>, after: Seq<char>|
            text == #[trigger] ((before + needle) + after),
        has_prefix(text, needle) <==> exists|after: Seq<char>| text == #[trigger] (needle + after),
{
    if contains_text(text, needle) {
        let at = choose|at: int| occurs_at(text, needle, at);
        let before = text.take(at);
        let after = text.skip(at + needle.len());
        assert(text == (before + needle) + after) by {
            assert forall|i: int| at <= i < at + needle.len() implies text[i] == needle[i - at] by {
                assert(text.subrange(at, at + needle.len())[i - at] == needle[i - at]);
            }
        }
    }
    if exists|before: Seq<char>, after: Seq<char>| text == #[trigger] ((before + needle) + after) {
        let (before, after) = choose|before: Seq<char>, after: Seq<char>|
            text == #[trigger] ((before + needle) + after);
        parts_are_contained(before, needle, after);
    }
    if has_prefix(text, needle) {
        assert(text == needle + text.skip(needle.len() as int)) by {
            assert forall|i: int| 0 <= i < needle.len() implies text[i] == needle[i] by {
                assert(text.subrange(0, needle.len() as int)[i] == needle[i]);
            }
        }
    }
    if exists|after: Seq<char>| text == #[trigger] (needle + after) {
        let after = choose|after: Seq<char>| text == #[trigger] (needle + after);
        assert(text.subrange(0, needle.len() as int) == needle);
    }
}

/// What stands between two texts is contained in the whole.
pub proof fn parts_are_contained(before: Seq<char>, part: Seq<char>, after: Seq<char>)
    ensures
        contains_text(before + part + after, part),
{
    let whole = before + part + after;
    assert(whole.subrange(before.len() as int, (before.len() + part.len()) as int) == part);
    assert(occurs_at(whole, part, before.len() as int));
}

/// A text cut to a bound is the beginning of the text, as long as the bound lets it be: texts within
/// the bound stay as they are.
pub proof fn cut_texts_are_beginnings(text: Seq<char>, limit: nat)
    ensures
        first_chars(text, limit).is_prefix_of(text),
        first_chars(text, limit).len() == if text.len() < limit {
            text.len()
        } else {
            limit
        },
        text.len() <= limit ==> first_chars(text, limit) == text,
{
}

/// Lower case keeps the length of a text and every character that is no capital letter of ASCII; a
/// capital becomes the letter thirty-two code points on, and lowering twice is lowering once.
pub proof fn lowering_changes_capitals_alone(text: Seq<char>, i: int)
    requires
        0 <= i < text.len(),
    ensures
        lowered(text).len() == text.len(),
        !('A' <= text[i] <= 'Z') ==> lowered(text)[i] == text[i],
        'A' <= text[i] <= 'Z' ==> lowered(text)[i] as u32 == text[i] as u32 + 32,
        lowered(lowered(text)) == lowered(text),
{
    let twice = lowered(lowered(text));
    assert(twice =~= lowered(text));
}

/// Trimming leaves a part of the text that neither begins nor ends with white space, and takes nothing
/// but white space away: what has none at its ends stays as it is.
pub proof fn trimming_takes_white_space_alone(text: Seq<char>)
    ensures
        exists|from: int, to: int| #[trigger]
            text.subrange(from, to) == trimmed(text) && 0 <= from <= to <= text.len() && (forall|i: int|
                0 <= i < from || to <= i < text.len() ==> is_space(#[trigger] text[i])),
        trimmed(text).len() > 0 ==> !is_space(trimmed(text)[0]) && !is_space(trimmed(text).last()),
{
    let from = trimmed_start_at(text);
    let rest = trimmed_start(text);
    let to = trimmed_end_at(rest);
    assert(text.subrange(from, from + to) == trimmed(text));
    assert forall|i: int| 0 <= i < from || from + to <= i < text.len() implies is_space(#[trigger] text[i]) by {
        if from + to <= i {
            assert(rest[i - from] == text[i]);
        }
    }
    if trimmed(text).len() > 0 {
        assert(trimmed(text)[0] == rest[0]);
    }
}

proof fn trimmed_start_at(text: Seq<char>) -> (from: int)
    ensures
        0 <= from <= text.len(),
        trimmed_start(text) == text.skip(from),
        forall|i: int| 0 <= i < from ==> is_space(#[trigger] text[i]),
        from < text.len() ==> !is_space(text[from]),
    decreases text.len(),
{
    if text.len() > 0 && is_space(text[0]) {
        let from = trimmed_start_at(text.skip(1)) + 1;
        assert(text.skip(1).skip(from - 1) == text.skip(from));
        assert forall|i: int| 0 <= i < from implies is_space(#[trigger] text[i]) by {
            if i > 0 {
                assert(text.skip(1)[i - 1] == text[i]);
            }
        }
        if from < text.len() {
            assert(text.skip(1)[from - 1] == text[from]);
        }
        from
    } else {
        assert(text.skip(0) == text);
        0
    }
}

proof fn trimmed_end_at(text: Seq<char>) -> (to: int)
    ensures
        0 <= to <= text.len(),
        trimmed_end(text) == text.take(to),
        forall|i: int| to <= i < text.len() ==> is_space(#[trigger] text[i]),
        to > 0 ==> !is_space(text[to - 1]),
    decreases text.len(),
{
    if text.len() > 0 && is_space(text.last()) {
        let to = trimmed_end_at(text.drop_last());
        assert(text.drop_last().take(to) == text.take(to));
        assert forall|i: int| to <= i < text.len() implies is_space(#[trigger] text[i]) by {
            if i < text.len() - 1 {
                assert(text.drop_last()[i] == text[i]);
            }
        }
        to
    } else {
        assert(text.take(text.len() as int) == text);
        text.len() as int
    }
}

/// The pieces of a text hold no separator, and joined by it they are the text again.
pub proof fn pieces_join_to_the_text(text: Seq<char>, separator: char)
    ensures
        joined(pieces(text, separator), seq![separator]) == text,
        pieces(text, separator).len() > 0,
        forall|i: int|
            0 <= i < pieces(text, separator).len() ==> !(#[trigger] pieces(text, separator)[i]).contains(separator),
    decreases text.len(),
{
    let list = pieces(text, separator);
    let between = seq![separator];
    if text.len() > 0 {
        let before = pieces(text.drop_last(), separator);
        pieces_join_to_the_text(text.drop_last(), separator);
        if text.last() == separator {
            assert(list.drop_last() == before);
            assert(joined(before, between) + between + Seq::<char>::empty() == text);
        } else {
            let last = before.last().push(text.last());
            assert(list.drop_last() == before.drop_last());
            assert(list.last() == last);
            if before.len() == 1 {
                assert(joined(before, between) == before[0]);
                assert(list[0] == text);
            } else {
                assert(joined(before.drop_last(), between) + between + last == (joined(before.drop_last(), between)
                    + between + before.last()).push(text.last()));
                assert(joined(before, between).push(text.last()) == text);
            }
            assert forall|i: int| 0 <= i < list.len() implies !(#[trigger] list[i]).contains(separator) by {
                if i == list.len() - 1 {
                    assert forall|j: int| 0 <= j < last.len() implies last[j] != separator by {
                        if j < before.last().len() {
                            assert(before.last()[j] == last[j]);
                            assert(before.last().contains(last[j]));
                        }
                    }
                } else {
                    assert(list[i] == before[i]);
                }
            }
        }
    }
}

/// Joining lists one after the other is joining their joined texts, and each item of a list stands in
/// its joined text.
pub proof fn every_item_is_joined(list: Seq<Seq<char>>, separator: Seq<char>, at: int)
    requires
        0 <= at < list.len(),
    ensures
        contains_text(joined(list, separator), list[at]),
        joined(list.take(1), separator) == list[0],
        list.len() > 1 ==> joined(list, separator) == joined(list.drop_last(), separator) + separator + list.last(),
    decreases list.len(),
{
    let whole = joined(list, separator);
    let empty = Seq::<char>::empty();
    if list.len() == 1 {
        assert(empty + list[0] + empty == whole);
        parts_are_contained(empty, list[0], empty);
    } else if at == list.len() - 1 {
        let before = joined(list.drop_last(), separator) + separator;
        assert(before + list.last() + empty == whole);
        parts_are_contained(before, list.last(), empty);
    } else {
        let front = joined(list.drop_last(), separator);
        every_item_is_joined(list.drop_last(), separator, at);
        let found = choose|found: int| occurs_at(front, list[at], found);
        assert(whole.subrange(found, found + list[at].len()) == front.subrange(found, found + list[at].len()));
        assert(occurs_at(whole, list[at], found));
    }
}

/// The decimal text of a number is made of digits and worth the number, so two numbers have two texts.
pub proof fn decimals_tell_numbers_apart(first: nat, second: nat)
    ensures
        decimal(first).len() > 0,
        forall|i: int| 0 <= i < decimal(first).len() ==> '0' <= (#[trigger] decimal(first)[i]) <= '9',
        first >= 10 ==> decimal(first).len() == decimal(first / 10).len() + 1,
        decimal(first).last() as nat == 48 + first % 10,
        first != second ==> decimal(first) != decimal(second),
    decreases first + second,
{
    if first >= 10 {
        decimals_tell_numbers_apart(first / 10, 0);
    }
    if second >= 10 {
        decimals_tell_numbers_apart(second / 10, 0);
    }
    if first != second && decimal(first) == decimal(second) {
        if first >= 10 && second >= 10 {
            assert(decimal(first).drop_last() == decimal(first / 10));
            assert(decimal(second).drop_last() == decimal(second / 10));
            decimals_tell_numbers_apart(first / 10, second / 10);
            assert(decimal(first).last() == decimal(second).last());
            assert(first % 10 == second % 10);
        } else {
            assert(decimal(first).last() == decimal(second).last());
        }
    }
}

/// The words of a text are nonempty and hold no white space.
pub proof fn words_hold_no_white_space(text: Seq<char>, i: int)
    requires
        0 <= i < word_list(text).len(),
    ensures
        word_list(text)[i].len() > 0,
        forall|j: int| 0 <= j < word_list(text)[i].len() ==> !is_space(#[trigger] word_list(text)[i][j]),
{
    spaced_pieces_hold_none(text);
    nonempty_are_some(spaced_pieces(text), i);
}

proof fn spaced_pieces_hold_none(text: Seq<char>)
    ensures
        spaced_pieces(text).len() > 0,
        forall|i: int, j: int|
            0 <= i < spaced_pieces(text).len() && 0 <= j < spaced_pieces(text)[i].len() ==> !is_space(
                #[trigger] spaced_pieces(text)[i][j],
            ),
    decreases text.len(),
{
    if text.len() > 0 {
        spaced_pieces_hold_none(text.drop_last());
        let before = spaced_pieces(text.drop_last());
        let list = spaced_pieces(text);
        assert forall|i: int, j: int| 0 <= i < list.len() && 0 <= j < list[i].len() implies !is_space(
            #[trigger] list[i][j],
        ) by {
            if i < before.len() && j < before[i].len() {
                assert(before[i][j] == list[i][j]);
            }
        }
    }
}

proof fn nonempty_are_some(list: Seq<Seq<char>>, i: int)
    requires
        0 <= i < nonempty(list).len(),
    ensures
        nonempty(list)[i].len() > 0,
        list.contains(nonempty(list)[i]),
    decreases list.len(),
{
    let front = nonempty(list.drop_last());
    if i < front.len() {
        nonempty_are_some(list.drop_last(), i);
        let at = choose|at: int| 0 <= at < list.drop_last().len() && list.drop_last()[at] == front[i];
        assert(list[at] == front[i]);
        assert(nonempty(list)[i] == front[i]);
    } else {
        assert(list[list.len() - 1] == nonempty(list)[i]);
    }
}

/// Digits, small letters and capital letters are those of ASCII, and no character is of two of the
/// classes.
pub proof fn characters_have_one_class(c: char)
    ensures
        is_digit(c) <==> 0x30 <= c as u32 <= 0x39,
        is_upper(c) <==> 0x41 <= c as u32 <= 0x5a,
        is_lower(c) <==> 0x61 <= c as u32 <= 0x7a,
        is_alphanumeric(c) <==> is_digit(c) || is_upper(c) || is_lower(c),
        is_digit(c) || is_upper(c) || is_lower(c) ==> !is_space(c),
{
}

/// White space is what Unicode takes for it: of ASCII, the blank and the five controls from the tabulator
/// to the return.
pub proof fn white_space_is_that_of_unicode(c: char)
    ensures
        c as u32 <= 0x7f ==> (is_space(c) <==> c as u32 == 0x20 || 0x09 <= c as u32 <= 0x0d),
        0x80 <= c as u32 <= 0xff ==> (is_space(c) <==> c as u32 == 0x85 || c as u32 == 0xa0),
        0x100 <= c as u32 <= 0x1fff ==> (is_space(c) <==> c as u32 == 0x1680),
        0x2000 <= c as u32 <= 0x20ff ==> (is_space(c) <==> c as u32 <= 0x200a || c as u32 == 0x2028 || c as u32
            == 0x2029 || c as u32 == 0x202f || c as u32 == 0x205f),
        c as u32 >= 0x2100 ==> (is_space(c) <==> c as u32 == 0x3000),
{
}

} // verus!
