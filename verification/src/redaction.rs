//! Removing secrets from the output of processes.

use crate::effects::{fails, ExecutionError};
use crate::encoding::{base64_decode, base64_decoded, base64_encode, base64_encoded, decodes_to, MAX_BASE64_INPUT};
use crate::json::{failure, field_text, json_error, json_field_text, json_with_texts, with_texts};
use crate::text::optional_view;
use vstd::prelude::*;
use vstd::string::*;
use vstd::utf8::*;

verus! {

/// What stands in place of a secret.
pub open spec fn marker() -> Seq<u8> {
    encode_utf8("[REDACTED]"@)
}

/// `secret` is not empty and stands at the start of `bytes`.
pub open spec fn starts(bytes: Seq<u8>, secret: Seq<u8>) -> bool {
    0 < secret.len() <= bytes.len() && bytes.take(secret.len() as int) == secret
}

/// `bytes` with every occurrence of `secret`, found from the left, replaced by the marker.
pub open spec fn redacted(bytes: Seq<u8>, secret: Seq<u8>) -> Seq<u8>
    decreases bytes.len(),
{
    if bytes.len() == 0 {
        Seq::empty()
    } else if starts(bytes, secret) {
        marker() + redacted(bytes.skip(secret.len() as int), secret)
    } else {
        seq![bytes[0]] + redacted(bytes.skip(1), secret)
    }
}

/// `bytes` after the redaction of each secret in turn.
pub open spec fn redacted_all(bytes: Seq<u8>, secrets: Seq<Vec<u8>>) -> Seq<u8>
    decreases secrets.len(),
{
    if secrets.len() == 0 {
        bytes
    } else {
        redacted(redacted_all(bytes, secrets.drop_last()), secrets.last()@)
    }
}

fn starts_at(bytes: &Vec<u8>, secret: &Vec<u8>, at: usize) -> (yes: bool)
    requires
        at <= bytes@.len(),
    ensures
        yes == starts(bytes@.skip(at as int), secret@),
{
    let length: usize = secret.len();
    let total: usize = bytes.len();
    if length == 0 || length > total - at {
        return false;
    }
    let mut i: usize = 0;
    while i < length
        invariant
            length == secret@.len(),
            i <= length,
            total == bytes@.len(),
            at + length <= total,
            forall|j: int| 0 <= j < i ==> bytes@[at + j] == #[trigger] secret@[j],
        decreases length - i,
    {
        if bytes[at + i] != secret[i] {
            proof {
                assert(bytes@.skip(at as int).take(length as int)[i as int] != secret@[i as int]);
            }
            return false;
        }
        i = i + 1;
    }
    proof {
        assert(bytes@.skip(at as int).take(length as int) =~= secret@);
    }
    true
}

/// `bytes` with every occurrence of `secret` replaced by `[REDACTED]`.
pub fn redact_bytes(bytes: &Vec<u8>, secret: &Vec<u8>) -> (result: Vec<u8>)
    ensures
        result@ == redacted(bytes@, secret@),
{
    let mark = "[REDACTED]".as_bytes();
    let mut result: Vec<u8> = Vec::new();
    let mut at: usize = 0;
    proof {
        assert(bytes@.skip(0) =~= bytes@);
        assert(result@ + redacted(bytes@, secret@) =~= redacted(bytes@, secret@));
    }
    while at < bytes.len()
        invariant
            at <= bytes@.len(),
            mark@ == marker(),
            redacted(bytes@, secret@) == result@ + redacted(bytes@.skip(at as int), secret@),
        decreases bytes@.len() - at,
    {
        let ghost rest = bytes@.skip(at as int);
        let ghost before = result@;
        if starts_at(bytes, secret, at) {
            let mut i: usize = 0;
            while i < mark.len()
                invariant
                    i <= mark@.len(),
                    result@ == before + mark@.take(i as int),
                decreases mark@.len() - i,
            {
                result.push(mark[i]);
                proof {
                    assert(mark@.take(i + 1) =~= mark@.take(i as int).push(mark@[i as int]));
                    assert(result@ =~= before + mark@.take(i + 1));
                }
                i = i + 1;
            }
            proof {
                assert(mark@.take(i as int) =~= mark@);
                assert(rest.skip(secret@.len() as int) =~= bytes@.skip(at + secret@.len()));
                assert(before + (marker() + redacted(rest.skip(secret@.len() as int), secret@)) =~= before + marker()
                    + redacted(rest.skip(secret@.len() as int), secret@));
            }
            at = at + secret.len();
        } else {
            result.push(bytes[at]);
            proof {
                assert(rest[0] == bytes@[at as int]);
                assert(rest.skip(1) =~= bytes@.skip(at + 1));
                assert(before + (seq![rest[0]] + redacted(rest.skip(1), secret@)) =~= result@ + redacted(
                    rest.skip(1),
                    secret@,
                ));
            }
            at = at + 1;
        }
    }
    proof {
        assert(bytes@.skip(at as int) =~= Seq::<u8>::empty());
        assert(result@ + redacted(bytes@.skip(at as int), secret@) =~= result@);
    }
    result
}

fn redact_all(bytes: Vec<u8>, secrets: &Vec<Vec<u8>>) -> (result: Vec<u8>)
    ensures
        result@ == redacted_all(bytes@, secrets@),
{
    let ghost given = bytes@;
    let mut result = bytes;
    let mut i: usize = 0;
    while i < secrets.len()
        invariant
            i <= secrets@.len(),
            result@ == redacted_all(given, secrets@.take(i as int)),
        decreases secrets@.len() - i,
    {
        proof {
            assert(secrets@.take(i + 1).drop_last() =~= secrets@.take(i as int));
            assert(secrets@.take(i + 1).last() == secrets@[i as int]);
        }
        result = redact_bytes(&result, &secrets[i]);
        i = i + 1;
    }
    proof {
        assert(secrets@.take(i as int) =~= secrets@);
    }
    result
}

/// What becomes of one encoded output: nothing where there is none, else its redacted encoding or
/// the failure.
pub open spec fn redacted_output(document: Seq<u8>, field: Seq<char>, secrets: Seq<Vec<u8>>) -> Result<
    Option<Seq<char>>,
    Seq<char>,
> {
    match json_field_text(document, field) {
        None => Ok(None),
        Some(encoded) => match base64_decoded(encoded) {
            Err(text) => Err(text),
            Ok(bytes) => Ok(Some(base64_encoded(redacted_all(bytes, secrets)))),
        },
    }
}

/// The redacted bytes of an output can be encoded at all.
pub open spec fn output_fits(document: Seq<u8>, field: Seq<char>, secrets: Seq<Vec<u8>>) -> bool {
    match json_field_text(document, field) {
        None => true,
        Some(encoded) => base64_decoded(encoded) matches Ok(bytes) ==> redacted_all(bytes, secrets).len()
            <= MAX_BASE64_INPUT,
    }
}

/// The redacted bytes of both outputs can be encoded, of the second where the first is in order.
pub open spec fn outputs_fit(document: Seq<u8>, secrets: Seq<Vec<u8>>) -> bool {
    &&& output_fits(document, "stdout_base64"@, secrets)
    &&& redacted_output(document, "stdout_base64"@, secrets) is Ok ==> output_fits(
        document,
        "stderr_base64"@,
        secrets,
    )
}

/// The outcome of one output as texts.
pub open spec fn output_view(result: Result<Option<String>, ExecutionError>) -> Result<Option<Seq<char>>, Seq<char>> {
    match result {
        Ok(text) => Ok(optional_view(text)),
        Err(ExecutionError::Failed(text)) => Err(text@),
        Err(ExecutionError::OutcomeUnknown(text)) => Err(text@),
    }
}

/// An encoding holds none of what was redacted: it decodes to the redacted bytes.
pub open spec fn shows_redacted(
    document: Seq<u8>,
    field: Seq<char>,
    secrets: Seq<Vec<u8>>,
    text: Option<Seq<char>>,
) -> bool {
    match text {
        None => json_field_text(document, field) is None,
        Some(encoded) => json_field_text(document, field) matches Some(given) && (base64_decoded(given) matches Ok(
            bytes,
        ) && decodes_to(encoded, redacted_all(bytes, secrets))),
    }
}

fn redact_output(document: &[u8], field: &str, secrets: &Vec<Vec<u8>>) -> (result: Result<
    Option<String>,
    ExecutionError,
>)
    requires
        output_fits(document@, field@, secrets@),
    ensures
        output_view(result) == redacted_output(document@, field@, secrets@),
        !(result matches Err(ExecutionError::OutcomeUnknown(_))),
        result matches Ok(text) ==> shows_redacted(document@, field@, secrets@, optional_view(text)),
{
    match field_text(document, field) {
        None => Ok(None),
        Some(encoded) => match base64_decode(encoded.as_str()) {
            Err(text) => Err(ExecutionError::Failed(text)),
            Ok(bytes) => {
                let kept = redact_all(bytes, secrets);
                Ok(Some(base64_encode(kept.as_slice())))
            },
        },
    }
}

/// Why the output of a process cannot be redacted, if so.
pub open spec fn redaction_failure(document: Seq<u8>, secrets: Seq<Vec<u8>>) -> Option<Seq<char>> {
    match json_error(document) {
        Some(text) => Some(text),
        None => match redacted_output(document, "stdout_base64"@, secrets) {
            Err(text) => Some(text),
            Ok(_) => match redacted_output(document, "stderr_base64"@, secrets) {
                Err(text) => Some(text),
                Ok(_) => None,
            },
        },
    }
}

/// What redacting the result document of a process gives.
pub open spec fn redacts(document: Seq<u8>, secrets: Seq<Vec<u8>>, result: Result<Vec<u8>, ExecutionError>) -> bool {
    if secrets.len() == 0 {
        result matches Ok(bytes) && bytes@ == document
    } else {
        match redaction_failure(document, secrets) {
            Some(text) => fails(result, text),
            None => result matches Ok(bytes) && json_with_texts(
                document,
                "stdout_base64"@,
                redacted_output(document, "stdout_base64"@, secrets)->Ok_0,
                "stderr_base64"@,
                redacted_output(document, "stderr_base64"@, secrets)->Ok_0,
            ) == Some(bytes@) && shows_redacted(
                document,
                "stdout_base64"@,
                secrets,
                json_field_text(bytes@, "stdout_base64"@),
            ) && shows_redacted(
                document,
                "stderr_base64"@,
                secrets,
                json_field_text(bytes@, "stderr_base64"@),
            ),
        }
    }
}

/// The result document of a process without its secrets: both outputs are decoded, redacted and
/// encoded again. Without secrets the document is left as it is.
pub fn redact_process_credentials(document: Vec<u8>, secrets: &Vec<Vec<u8>>) -> (result: Result<
    Vec<u8>,
    ExecutionError,
>)
    requires
        outputs_fit(document@, secrets@),
    ensures
        redacts(document@, secrets@, result),
{
    if secrets.len() == 0 {
        return Ok(document);
    }
    if let Some(text) = failure(document.as_slice()) {
        return Err(ExecutionError::Failed(text));
    }
    let stdout = redact_output(document.as_slice(), "stdout_base64", secrets)?;
    let stderr = redact_output(document.as_slice(), "stderr_base64", secrets)?;
    proof {
        reveal_strlit("stdout_base64");
        reveal_strlit("stderr_base64");
        assert("stdout_base64"@[3] != "stderr_base64"@[3]);
    }
    match with_texts(document.as_slice(), "stdout_base64", &stdout, "stderr_base64", &stderr) {
        Some(bytes) => Ok(bytes),
        None => {
            proof {
                assert(false);
            }
            Ok(document)
        },
    }
}

fn does_output_fit(document: &[u8], field: &str, secrets: &Vec<Vec<u8>>) -> (yes: bool)
    ensures
        yes == output_fits(document@, field@, secrets@),
{
    match field_text(document, field) {
        None => true,
        Some(encoded) => match base64_decode(encoded.as_str()) {
            Err(_) => true,
            Ok(bytes) => redact_all(bytes, secrets).len() <= MAX_BASE64_INPUT,
        },
    }
}

/// The result document of a process without its secrets; nothing where a redacted output is longer
/// than can be encoded.
pub fn checked_redaction(document: Vec<u8>, secrets: &Vec<Vec<u8>>) -> (result: Option<Result<Vec<u8>, ExecutionError>>)
    ensures
        result is Some == (output_fits(document@, "stdout_base64"@, secrets@) && output_fits(
            document@,
            "stderr_base64"@,
            secrets@,
        )),
        result matches Some(outcome) ==> redacts(document@, secrets@, outcome),
{
    if does_output_fit(document.as_slice(), "stdout_base64", secrets) && does_output_fit(
        document.as_slice(),
        "stderr_base64",
        secrets,
    ) {
        Some(redact_process_credentials(document, secrets))
    } else {
        None
    }
}

/// Which bytes of the redaction were kept; the others belong to a marker.
pub open spec fn kept(bytes: Seq<u8>, secret: Seq<u8>) -> Seq<bool>
    decreases bytes.len(),
{
    if bytes.len() == 0 {
        Seq::empty()
    } else if starts(bytes, secret) {
        Seq::new(marker().len(), |i: int| false) + kept(bytes.skip(secret.len() as int), secret)
    } else {
        seq![true] + kept(bytes.skip(1), secret)
    }
}

/// `secret` stands in `bytes` at a position.
pub open spec fn occurs(bytes: Seq<u8>, secret: Seq<u8>, at: int) -> bool {
    0 <= at && at + secret.len() <= bytes.len() && bytes.subrange(at, at + secret.len()) == secret
}

proof fn kept_length(bytes: Seq<u8>, secret: Seq<u8>)
    ensures
        kept(bytes, secret).len() == redacted(bytes, secret).len(),
    decreases bytes.len(),
{
    if bytes.len() > 0 {
        if starts(bytes, secret) {
            kept_length(bytes.skip(secret.len() as int), secret);
        } else {
            kept_length(bytes.skip(1), secret);
        }
    }
}

/// Where all bytes of a stretch were kept, the stretch stood in the bytes as it is.
proof fn kept_stretch(bytes: Seq<u8>, secret: Seq<u8>, from: int, to: int) -> (at: int)
    requires
        0 <= from <= to <= redacted(bytes, secret).len(),
        forall|j: int| from <= j < to ==> #[trigger] kept(bytes, secret)[j],
    ensures
        0 <= at,
        at + (to - from) <= bytes.len(),
        bytes.subrange(at, at + (to - from)) == redacted(bytes, secret).subrange(from, to),
        from == 0 ==> at == 0,
    decreases bytes.len(),
{
    kept_length(bytes, secret);
    let out = redacted(bytes, secret);
    let flags = kept(bytes, secret);
    if from == to {
        assert(bytes.subrange(0, 0) =~= out.subrange(from, to));
        0
    } else if starts(bytes, secret) {
        let rest = bytes.skip(secret.len() as int);
        let width = marker().len() as int;
        kept_length(rest, secret);
        assert(from >= width) by {
            if from < width {
                assert(flags[from] == false);
            }
        }
        assert forall|j: int| from - width <= j < to - width implies #[trigger] kept(rest, secret)[j] by {
            assert(flags[j + width]);
        }
        let inner = kept_stretch(rest, secret, from - width, to - width);
        let at = inner + secret.len();
        assert(bytes.subrange(at, at + (to - from)) =~= rest.subrange(inner, inner + (to - from)));
        assert(out.subrange(from, to) =~= redacted(rest, secret).subrange(from - width, to - width));
        reveal_strlit("[REDACTED]");
        marker_holds_bytes();
        at
    } else {
        let rest = bytes.skip(1);
        kept_length(rest, secret);
        let start = if from == 0 {
            0
        } else {
            from - 1
        };
        assert forall|j: int| start <= j < to - 1 implies #[trigger] kept(rest, secret)[j] by {
            assert(flags[j + 1]);
        }
        let inner = kept_stretch(rest, secret, start, to - 1);
        if from == 0 {
            assert(bytes.subrange(0, to) =~= seq![bytes[0]] + rest.subrange(0, to - 1));
            assert(out.subrange(0, to) =~= seq![bytes[0]] + redacted(rest, secret).subrange(0, to - 1));
            0
        } else {
            assert(bytes.subrange(inner + 1, inner + 1 + (to - from)) =~= rest.subrange(inner, inner + (to - from)));
            assert(out.subrange(from, to) =~= redacted(rest, secret).subrange(from - 1, to - 1));
            inner + 1
        }
    }
}

proof fn marker_holds_bytes()
    ensures
        marker().len() > 0,
{
    reveal_strlit("[REDACTED]");
    assert("[REDACTED]"@.len() > 0);
    encode_utf8_decode_utf8("[REDACTED]"@);
    if marker().len() == 0 {
        assert(marker() =~= Seq::empty());
        assert(decode_utf8(marker()).len() == 0);
    }
}

/// Wherever the secret still stands in a redaction, it touches a marker: no stretch of kept bytes
/// holds it.
pub proof fn redaction_keeps_no_secret(bytes: Seq<u8>, secret: Seq<u8>, at: int)
    requires
        secret.len() > 0,
        occurs(redacted(bytes, secret), secret, at),
    ensures
        kept(bytes, secret).len() == redacted(bytes, secret).len(),
        exists|j: int| at <= j < at + secret.len() && !#[trigger] kept(bytes, secret)[j],
    decreases bytes.len(),
{
    kept_length(bytes, secret);
    let out = redacted(bytes, secret);
    let flags = kept(bytes, secret);
    if bytes.len() == 0 {
    } else if starts(bytes, secret) {
        let width = marker().len() as int;
        let rest = bytes.skip(secret.len() as int);
        marker_holds_bytes();
        if at < width {
            assert(!flags[at]);
        } else {
            assert(out.subrange(at, at + secret.len()) =~= redacted(rest, secret).subrange(
                at - width,
                at - width + secret.len(),
            ));
            redaction_keeps_no_secret(rest, secret, at - width);
            let j = choose|j: int| at - width <= j < at - width + secret.len() && !#[trigger] kept(rest, secret)[j];
            assert(!flags[j + width]);
        }
    } else if at > 0 {
        let rest = bytes.skip(1);
        assert(out.subrange(at, at + secret.len()) =~= redacted(rest, secret).subrange(
            at - 1,
            at - 1 + secret.len(),
        ));
        redaction_keeps_no_secret(rest, secret, at - 1);
        let j = choose|j: int| at - 1 <= j < at - 1 + secret.len() && !#[trigger] kept(rest, secret)[j];
        assert(!flags[j + 1]);
    } else if forall|j: int| 0 <= j < secret.len() ==> #[trigger] flags[j] {
        let found = kept_stretch(bytes, secret, 0, secret.len() as int);
        assert(bytes.take(secret.len() as int) =~= bytes.subrange(0, secret.len() as int));
        assert(false);
    }
}

/// No byte of the secret stands in the marker.
pub open spec fn apart(secret: Seq<u8>) -> bool {
    forall|i: int| 0 <= i < secret.len() ==> !marker().contains(#[trigger] secret[i])
}

proof fn unkept_is_marked(bytes: Seq<u8>, secret: Seq<u8>, at: int)
    requires
        0 <= at < redacted(bytes, secret).len(),
        !kept(bytes, secret)[at],
    ensures
        marker().contains(redacted(bytes, secret)[at]),
    decreases bytes.len(),
{
    kept_length(bytes, secret);
    if starts(bytes, secret) {
        let width = marker().len() as int;
        let rest = bytes.skip(secret.len() as int);
        kept_length(rest, secret);
        if at < width {
            assert(marker()[at] == redacted(bytes, secret)[at]);
        } else {
            unkept_is_marked(rest, secret, at - width);
        }
    } else if at > 0 {
        kept_length(bytes.skip(1), secret);
        unkept_is_marked(bytes.skip(1), secret, at - 1);
    }
}

/// A secret that is apart from the marker stands only in kept bytes.
proof fn occurrence_is_kept(bytes: Seq<u8>, other: Seq<u8>, secret: Seq<u8>, at: int)
    requires
        apart(secret),
        occurs(redacted(bytes, other), secret, at),
    ensures
        forall|j: int| at <= j < at + secret.len() ==> #[trigger] kept(bytes, other)[j],
{
    let out = redacted(bytes, other);
    assert forall|j: int| at <= j < at + secret.len() implies #[trigger] kept(bytes, other)[j] by {
        assert(out.subrange(at, at + secret.len())[j - at] == out[j]);
        assert(secret[j - at] == out[j]);
        if !kept(bytes, other)[j] {
            unkept_is_marked(bytes, other, j);
        }
    }
}

/// After the redaction of all secrets none is left that is apart from the marker: whatever the bytes
/// and the other secrets are, it stands nowhere in what remains.
pub proof fn no_secret_is_left(bytes: Seq<u8>, secrets: Seq<Vec<u8>>, i: int, at: int)
    requires
        0 <= i < secrets.len(),
        secrets[i]@.len() > 0,
        apart(secrets[i]@),
    ensures
        !occurs(redacted_all(bytes, secrets), secrets[i]@, at),
    decreases secrets.len(),
{
    let secret = secrets[i]@;
    let before = redacted_all(bytes, secrets.drop_last());
    let last = secrets.last()@;
    if occurs(redacted(before, last), secret, at) {
        occurrence_is_kept(before, last, secret, at);
        if i == secrets.len() - 1 {
            redaction_keeps_no_secret(before, secret, at);
        } else {
            let found = kept_stretch(before, last, at, at + secret.len());
            assert(occurs(before, secret, found));
            assert(secrets.drop_last()[i] == secrets[i]);
            no_secret_is_left(bytes, secrets.drop_last(), i, found);
        }
    }
}

/// Bytes in which the secret does not occur stay as they are, and redacting for no secret changes nothing.
pub proof fn bytes_without_the_secret_stay(bytes: Seq<u8>, secret: Seq<u8>)
    requires
        forall|at: int| !#[trigger] occurs(bytes, secret, at) || secret.len() == 0,
    ensures
        redacted(bytes, secret) == bytes,
        redacted_all(bytes, Seq::empty()) == bytes,
    decreases bytes.len(),
{
    if bytes.len() > 0 {
        if starts(bytes, secret) {
            assert(bytes.subrange(0, secret.len() as int) == bytes.take(secret.len() as int));
            assert(occurs(bytes, secret, 0));
        }
        let rest = bytes.skip(1);
        assert forall|at: int| !#[trigger] occurs(rest, secret, at) || secret.len() == 0 by {
            if occurs(rest, secret, at) {
                assert(bytes.subrange(at + 1, at + 1 + secret.len()) == rest.subrange(at, at + secret.len()));
                assert(occurs(bytes, secret, at + 1));
            }
        }
        bytes_without_the_secret_stay(rest, secret);
        assert(seq![bytes[0]] + rest == bytes);
    } else {
        assert(redacted(bytes, secret) == bytes);
    }
}

/// A secret at the beginning becomes the marker, and what follows is redacted in the same way.
pub proof fn secrets_become_the_marker(secret: Seq<u8>, after: Seq<u8>)
    requires
        secret.len() > 0,
    ensures
        redacted(secret + after, secret) == encode_utf8("[REDACTED]"@) + redacted(after, secret),
{
    let whole = secret + after;
    assert(whole.take(secret.len() as int) == secret);
    assert(whole.skip(secret.len() as int) == after);
}

/// Secrets are taken out one after the other, every one of them.
pub proof fn every_secret_is_taken_out(bytes: Seq<u8>, secrets: Seq<Vec<u8>>, secret: Vec<u8>)
    ensures
        redacted_all(bytes, secrets.push(secret)) == redacted(redacted_all(bytes, secrets), secret@),
{
    assert(secrets.push(secret).drop_last() == secrets);
}

/// Both streams of a result are redacted, each from its own field, and a result without secrets to
/// hide is handed on as it is.
pub proof fn both_streams_are_redacted(document: Seq<u8>, secrets: Seq<Vec<u8>>, result: Result<Vec<u8>, ExecutionError>)
    requires
        redacts(document, secrets, result),
    ensures
        secrets.len() == 0 ==> result is Ok && result->Ok_0@ == document,
        secrets.len() > 0 && result is Ok ==> {
            &&& shows_redacted(
                document,
                "stdout_base64"@,
                secrets,
                json_field_text(result->Ok_0@, "stdout_base64"@),
            )
            &&& shows_redacted(
                document,
                "stderr_base64"@,
                secrets,
                json_field_text(result->Ok_0@, "stderr_base64"@),
            )
        },
        secrets.len() > 0 ==> (result is Ok <==> redaction_failure(document, secrets) is None),
{
}

} // verus!
