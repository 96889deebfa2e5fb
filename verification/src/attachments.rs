//! Text files that are attached to a prompt.

use crate::config::Platform;
use crate::encoding::utf8_text;
use crate::error::{config_error, is_config_error, RuntimeError};
use crate::paths::{file_name, path_file_name};
use crate::text::{contains_text, parts_are_contained};
use vstd::prelude::*;
use vstd::string::*;
use vstd::utf8::*;

verus! {

/// Most attachments of a prompt.
pub const MAX_ATTACHMENTS: usize = 16;

/// Most bytes of a prompt with its attachments.
pub const MAX_INPUT_BYTES: usize = 1_048_576;

/// What stands for an attachment in a prompt: its name and its text between two marks.
pub open spec fn rendered_attachment(name: Seq<char>, content: Seq<char>) -> Seq<char> {
    "\n\n[Attached file: "@ + name + "]\n"@ + content + "\n[End attached file]"@
}

/// The length of a text in bytes.
pub open spec fn byte_length(text: Seq<char>) -> nat {
    encode_utf8(text).len()
}

/// A sum of lengths, at most the largest length.
pub open spec fn capped(total: int) -> int {
    if total > usize::MAX {
        usize::MAX as int
    } else {
        total
    }
}

/// Bytes that an attachment adds.
pub open spec fn added_bytes(name: Seq<char>, content: Seq<char>) -> nat {
    byte_length("\n\n[Attached file: "@) + byte_length(name) + byte_length("]\n"@) + byte_length(content)
        + byte_length("\n[End attached file]"@)
}

/// Why an attachment is refused, if so.
pub open spec fn attachment_refusal(
    platform: Platform,
    rendered: Seq<char>,
    path: Seq<char>,
    bytes: Seq<u8>,
    most: int,
) -> Option<
    Seq<char>,
> {
    if !valid_utf8(bytes) {
        Some("CLI attachments must contain UTF-8 text"@)
    } else {
        match file_name(platform, path) {
            None => Some("attachment name is invalid"@),
            Some(name) => if name.len() == 0 {
                Some("attachment name is invalid"@)
            } else if capped((byte_length(rendered) + added_bytes(name, decode_utf8(bytes))) as int) > most {
                Some("combined prompt and attachments exceed 1 MiB"@)
            } else {
                None
            },
        }
    }
}

/// Appends an attachment to a prompt, by its file name alone. A prompt that is refused stays as it
/// was.
pub fn append_text_attachment(
    platform: Platform,
    rendered: &mut String,
    path: &str,
    bytes: &[u8],
    max_input_bytes: usize,
) -> (result: Result<
    (),
    RuntimeError,
>)
    ensures
        match attachment_refusal(platform, old(rendered)@, path@, bytes@, max_input_bytes as int) {
            Some(text) => is_config_error(result, text) && final(rendered)@ == old(rendered)@,
            None => result is Ok && final(rendered)@ == old(rendered)@ + rendered_attachment(
                file_name(platform, path@)->0,
                decode_utf8(bytes@),
            ),
        },
{
    broadcast use encode_utf8_decode_utf8;

    let content = match utf8_text(bytes) {
        Ok(text) => text,
        Err(_) => {
            return config_error("CLI attachments must contain UTF-8 text");
        },
    };
    let name = match path_file_name(platform, path) {
        Some(name) => name,
        None => {
            return config_error("attachment name is invalid");
        },
    };
    if name.as_str().is_empty() {
        return config_error("attachment name is invalid");
    }
    let required: usize = "\n\n[Attached file: ".as_bytes().len().saturating_add(
        name.as_str().as_bytes().len(),
    ).saturating_add("]\n".as_bytes().len()).saturating_add(content.as_str().as_bytes().len()).saturating_add(
        "\n[End attached file]".as_bytes().len(),
    );
    if rendered.as_str().as_bytes().len().saturating_add(required) > max_input_bytes {
        return config_error("combined prompt and attachments exceed 1 MiB");
    }
    rendered.append("\n\n[Attached file: ");
    rendered.append(name.as_str());
    rendered.append("]\n");
    rendered.append(content.as_str());
    rendered.append("\n[End attached file]");
    proof {
        assert(rendered@ =~= old(rendered)@ + rendered_attachment(name@, content@));
    }
    Ok(())
}

/// A file that is attached to a prompt.
#[derive(Debug)]
pub struct Attachment {
    pub path: String,
    pub bytes: Vec<u8>,
}

/// A prompt with attachments, or why one is refused.
pub open spec fn attached(
    platform: Platform,
    rendered: Seq<char>,
    attachments: Seq<Attachment>,
) -> Result<Seq<char>, Seq<char>>
    decreases attachments.len(),
{
    if attachments.len() == 0 {
        Ok(rendered)
    } else {
        let next = attachments[0];
        match attachment_refusal(platform, rendered, next.path@, next.bytes@, MAX_INPUT_BYTES as int) {
            Some(text) => Err(text),
            None => attached(
                platform,
                rendered + rendered_attachment(file_name(platform, next.path@)->0, decode_utf8(next.bytes@)),
                attachments.skip(1),
            ),
        }
    }
}

/// A prompt with its attachments, or why they are refused.
pub open spec fn prompt_with_attachments(platform: Platform, prompt: Seq<char>, attachments: Seq<Attachment>) -> Result<
    Seq<char>,
    Seq<char>,
> {
    if attachments.len() > MAX_ATTACHMENTS {
        Err("at most 16 attachments may be supplied"@)
    } else if byte_length(prompt) > MAX_INPUT_BYTES {
        Err("combined prompt and attachments exceed 1 MiB"@)
    } else {
        attached(platform, prompt, attachments)
    }
}

/// A prompt with its attachments: at most 16, and at most 1 MiB together.
pub fn prompt_with_text_attachment_bytes(
    platform: Platform,
    prompt: &str,
    attachments: &Vec<Attachment>,
) -> (result: Result<
    String,
    RuntimeError,
>)
    ensures
        match prompt_with_attachments(platform, prompt@, attachments@) {
            Ok(text) => result matches Ok(rendered) && rendered@ == text,
            Err(text) => is_config_error(result, text),
        },
{
    if attachments.len() > MAX_ATTACHMENTS {
        return config_error("at most 16 attachments may be supplied");
    }
    if prompt.as_bytes().len() > MAX_INPUT_BYTES {
        return config_error("combined prompt and attachments exceed 1 MiB");
    }
    let mut rendered = prompt.to_owned();
    let mut i: usize = 0;
    proof {
        assert(attachments@.skip(0) =~= attachments@);
    }
    while i < attachments.len()
        invariant
            i <= attachments@.len(),
            attachments@.len() <= MAX_ATTACHMENTS,
            byte_length(prompt@) <= MAX_INPUT_BYTES,
            attached(platform, prompt@, attachments@) == attached(platform, rendered@, attachments@.skip(i as int)),
        decreases attachments@.len() - i,
    {
        proof {
            assert(attachments@.skip(i as int)[0] == attachments@[i as int]);
            assert(attachments@.skip(i as int).skip(1) =~= attachments@.skip(i + 1));
        }
        match append_text_attachment(
            platform,
            &mut rendered,
            attachments[i].path.as_str(),
            attachments[i].bytes.as_slice(),
            MAX_INPUT_BYTES,
        ) {
            Ok(_) => {},
            Err(error) => {
                return Err(error);
            },
        }
        i = i + 1;
    }
    Ok(rendered)
}

/// The bytes of two texts are those of both together.
proof fn lengths_add(left: Seq<char>, right: Seq<char>)
    ensures
        byte_length(left + right) == byte_length(left) + byte_length(right),
    decreases left.len(),
{
    if left.len() == 0 {
        assert(left + right =~= right);
        assert(encode_utf8(left) =~= Seq::<u8>::empty());
    } else {
        let whole = left + right;
        assert(whole.drop_first() =~= left.drop_first() + right);
        lengths_add(left.drop_first(), right);
    }
}

/// A prompt with its attachments holds the prompt first, and never exceeds 1 MiB.
pub proof fn rendered_prompts_are_bounded(platform: Platform, rendered: Seq<char>, attachments: Seq<Attachment>)
    requires
        byte_length(rendered) <= MAX_INPUT_BYTES,
    ensures
        attached(
            platform,
            rendered,
            attachments,
        ) matches Ok(text) ==> byte_length(text) <= MAX_INPUT_BYTES && text.len()
            >= rendered.len() && text.take(rendered.len() as int) == rendered,
    decreases attachments.len(),
{
    if attachments.len() == 0 {
        assert(rendered.take(rendered.len() as int) =~= rendered);
    } else {
        let next = attachments[0];
        if attachment_refusal(platform, rendered, next.path@, next.bytes@, MAX_INPUT_BYTES as int) is None {
            let name = file_name(platform, next.path@)->0;
            let content = decode_utf8(next.bytes@);
            let a = "\n\n[Attached file: "@;
            let b = "]\n"@;
            let c = "\n[End attached file]"@;
            lengths_add(a, name);
            lengths_add(a + name, b);
            lengths_add(a + name + b, content);
            lengths_add(a + name + b + content, c);
            let longer = rendered + rendered_attachment(name, content);
            lengths_add(rendered, rendered_attachment(name, content));
            assert(byte_length(longer) <= MAX_INPUT_BYTES);
            rendered_prompts_are_bounded(platform, longer, attachments.skip(1));
            if let Ok(text) = attached(platform, longer, attachments.skip(1)) {
                assert(text.take(rendered.len() as int) =~= text.take(longer.len() as int).take(
                    rendered.len() as int,
                ));
                assert(longer.take(rendered.len() as int) =~= rendered);
            }
        }
    }
}

/// Every attachment stands in the prompt with its name and its whole text, after the prompt and in the
/// order given; without one the prompt stays as it is.
pub proof fn attachments_stand_in_the_prompt(
    platform: Platform,
    prompt: Seq<char>,
    attachments: Seq<Attachment>,
    at: int,
)
    requires
        attached(platform, prompt, attachments) is Ok,
        0 <= at < attachments.len(),
    ensures
        prompt.is_prefix_of(attached(platform, prompt, attachments)->Ok_0),
        valid_utf8(attachments[at].bytes@),
        file_name(platform, attachments[at].path@) is Some,
        contains_text(attached(platform, prompt, attachments)->Ok_0, decode_utf8(attachments[at].bytes@)),
        contains_text(
            attached(platform, prompt, attachments)->Ok_0,
            file_name(platform, attachments[at].path@)->0,
        ),
    decreases attachments.len(),
{
    let next = attachments[0];
    let name = file_name(platform, next.path@)->0;
    let content = decode_utf8(next.bytes@);
    let block = rendered_attachment(name, content);
    let longer = prompt + block;
    let rest = attachments.skip(1);
    let whole = attached(platform, prompt, attachments)->Ok_0;
    assert(attached(platform, longer, rest) == attached(platform, prompt, attachments));
    if rest.len() > 0 {
        attachments_stand_in_the_prompt(
            platform,
            longer,
            rest,
            if at > 0 {
                at - 1
            } else {
                0
            },
        );
    } else {
        assert(whole == longer);
    }
    if at == 0 {
        let tail = whole.skip(longer.len() as int);
        assert(whole == longer + tail);
        let before = prompt + ("\n\n[Attached file: "@ + name + "]\n"@);
        let after = "\n[End attached file]"@ + tail;
        parts_are_contained(before, content, after);
        assert(before + content + after == whole);
        let head = prompt + "\n\n[Attached file: "@;
        let remainder = "]\n"@ + content + "\n[End attached file]"@ + tail;
        parts_are_contained(head, name, remainder);
        assert(head + name + remainder == whole);
    } else {
        assert(rest[at - 1] == attachments[at]);
    }
}

/// A prompt without attachments is the prompt; sixteen attachments may be given and no more, and a
/// prompt over a mebibyte is refused.
pub proof fn prompts_without_attachments_stay(platform: Platform, prompt: Seq<char>, attachments: Seq<Attachment>)
    ensures
        encode_utf8(prompt).len() <= 1_048_576 ==> prompt_with_attachments(platform, prompt, Seq::empty()) == Ok::<
            Seq<char>,
            Seq<char>,
        >(prompt),
        attachments.len() > 16 ==> prompt_with_attachments(platform, prompt, attachments) is Err,
        encode_utf8(prompt).len() > 1_048_576 ==> prompt_with_attachments(platform, prompt, attachments) is Err,
        attachments.len() <= 16 && encode_utf8(prompt).len() <= 1_048_576 ==> prompt_with_attachments(
            platform,
            prompt,
            attachments,
        ) == attached(platform, prompt, attachments),
{
}

/// An attachment is refused exactly where it is no text, has no name, or makes the prompt too long.
pub proof fn readable_attachments_are_taken(
    platform: Platform,
    rendered: Seq<char>,
    path: Seq<char>,
    bytes: Seq<u8>,
    most: int,
)
    requires
        most < usize::MAX,
    ensures
        attachment_refusal(platform, rendered, path, bytes, most) is None <==> {
            &&& valid_utf8(bytes)
            &&& file_name(platform, path) is Some && file_name(platform, path)->0.len() > 0
            &&& encode_utf8(rendered).len() + added_bytes(file_name(platform, path)->0, decode_utf8(bytes)) <= most
        },
{
}

/// Sizes are counted exactly as far as the machine can count, and stay at the largest beyond.
pub proof fn sizes_are_counted_as_far_as_possible(total: int)
    ensures
        total <= usize::MAX ==> capped(total) == total,
        total > usize::MAX ==> capped(total) == usize::MAX,
{
}

} // verus!
