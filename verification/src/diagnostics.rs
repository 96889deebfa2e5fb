//! Diagnostics of providers, models and the sandbox.

use crate::config::Platform;
use crate::error::{
    config_error, displayed, gateway_message, gateway_text, is_config_error, GatewayError, ProviderResponseDiagnostic,
    RuntimeError,
};
use crate::json::{json_pointer_length, json_pointer_text, json_pretty, pointer_length, pointer_text, pretty};
use crate::text::{
    bounded, concat2, concat3, contains_text, decimal, decimal_text, every_item_is_joined, first_chars, has_prefix,
    join, joined, list_contains, parts_are_contained, same_text, views,
};
use vstd::prelude::*;
use vstd::string::*;
use vstd::utf8::*;

verus! {

/// Most characters of a rendered diagnostic.
pub const MAX_DISPLAY_CHARS: usize = 0x1_0000;

/// The name of an offered tool of a request, in either form that providers use.
pub open spec fn offered_name(document: Seq<u8>, index: nat) -> Option<Seq<char>> {
    match json_pointer_text(document, "/tools/"@ + decimal(index) + "/name"@) {
        Some(name) => Some(name),
        None => json_pointer_text(document, "/tools/"@ + decimal(index) + "/function/name"@),
    }
}

/// The names of the first offered tools of a request.
pub open spec fn offered_names(document: Seq<u8>, count: nat) -> Seq<Seq<char>>
    decreases count,
{
    if count == 0 {
        Seq::empty()
    } else {
        let before = offered_names(document, (count - 1) as nat);
        match offered_name(document, (count - 1) as nat) {
            Some(name) => before.push(name),
            None => before,
        }
    }
}

/// The names of the tools that a request offered.
pub open spec fn offered(body: Option<String>) -> Seq<Seq<char>> {
    match body {
        None => Seq::empty(),
        Some(text) => match json_pointer_length(encode_utf8(text@), "/tools"@) {
            None => Seq::empty(),
            Some(count) => offered_names(encode_utf8(text@), count),
        },
    }
}

/// The body of a request as it is shown.
pub open spec fn shown_body(body: Option<String>) -> Seq<char> {
    match body {
        None => "<none>"@,
        Some(text) => match json_pretty(encode_utf8(text@)) {
            Some(indented) => indented,
            None => "<request body could not be rendered>"@,
        },
    }
}

/// The names of offered tools as they are shown.
pub open spec fn shown_names(names: Seq<Seq<char>>) -> Seq<char> {
    if names.len() == 0 {
        "<none>"@
    } else {
        joined(names, ", "@)
    }
}

/// What the response says, and which tools were offered.
pub open spec fn evidence(diagnostic: ProviderResponseDiagnostic) -> Seq<char> {
    "Provider response diagnostics (explicit local opt-in; not written to durable run history)\nResponse: HTTP "@
        + decimal(diagnostic.status as nat) + " ("@ + (match diagnostic.content_type {
        Some(text) => text@,
        None => "unknown"@,
    }) + ", "@ + diagnostic.body_encoding@ + ")"@ + (if diagnostic.body_truncated {
        " (truncated at 16 KiB)"@
    } else {
        Seq::empty()
    }) + "\nResponse body:\n"@ + diagnostic.body@ + "\n\nOffered tool names ("@ + decimal(
        offered(diagnostic.request_body).len(),
    ) + "): "@ + shown_names(offered(diagnostic.request_body))
}

/// What was requested.
pub open spec fn requested(diagnostic: ProviderResponseDiagnostic) -> Seq<char> {
    "\n\nRequest: "@ + diagnostic.request_method@ + " "@ + diagnostic.request_url@ + "\nRequest body:\n"@ + shown_body(
        diagnostic.request_body,
    )
        + "\n\nWarning: the request can contain user, session, and tool-result data. Review before sharing."@
}

/// A diagnostic as it is shown.
pub open spec fn shown_diagnostic(diagnostic: ProviderResponseDiagnostic) -> Seq<char> {
    let whole = evidence(diagnostic) + requested(diagnostic);
    if whole.len() > MAX_DISPLAY_CHARS {
        first_chars(whole, MAX_DISPLAY_CHARS as nat) + "\n[diagnostic display truncated]"@
    } else {
        whole
    }
}

fn read_offered(body: &Option<String>) -> (names: Vec<String>)
    ensures
        views(names@) == offered(*body),
{
    let mut names: Vec<String> = Vec::new();
    proof {
        assert(views(names@) =~= Seq::<Seq<char>>::empty());
    }
    if let Some(text) = body {
        let document = text.as_str().as_bytes();
        if let Some(count) = pointer_length(document, "/tools") {
            let mut i: usize = 0;
            while i < count
                invariant
                    i <= count,
                    views(names@) == offered_names(document@, i as nat),
                decreases count - i,
            {
                let number = decimal_text(i as u64);
                let ghost before = names@;
                let plain = concat3("/tools/", number.as_str(), "/name");
                let nested = concat3("/tools/", number.as_str(), "/function/name");
                let name = match pointer_text(document, plain.as_str()) {
                    Some(name) => Some(name),
                    None => pointer_text(document, nested.as_str()),
                };
                if let Some(name) = name {
                    names.push(name);
                    proof {
                        assert(views(names@) =~= views(before).push(name@));
                    }
                }
                i = i + 1;
            }
        }
    }
    names
}

fn character_count(text: &str) -> (count: usize)
    ensures
        count == text@.len(),
{
    crate::text::characters(text).len()
}

fn show_evidence(diagnostic: &ProviderResponseDiagnostic) -> (output: String)
    ensures
        output@ == evidence(*diagnostic),
{
    let names = read_offered(&diagnostic.request_body);
    let status = decimal_text(diagnostic.status as u64);
    let count = decimal_text(names.len() as u64);
    proof {
        assert(views(names@).len() == names@.len());
    }
    let mut output =
        "Provider response diagnostics (explicit local opt-in; not written to durable run history)\nResponse: HTTP ".to_owned();
    output.append(status.as_str());
    output.append(" (");
    match &diagnostic.content_type {
        Some(text) => output.append(text.as_str()),
        None => output.append("unknown"),
    }
    output.append(", ");
    output.append(diagnostic.body_encoding.as_str());
    output.append(")");
    if diagnostic.body_truncated {
        output.append(" (truncated at 16 KiB)");
    } else {
        proof {
            assert(output@ + Seq::<char>::empty() =~= output@);
        }
    }
    output.append("\nResponse body:\n");
    output.append(diagnostic.body.as_str());
    output.append("\n\nOffered tool names (");
    output.append(count.as_str());
    output.append("): ");
    if names.len() == 0 {
        output.append("<none>");
    } else {
        let list = join(&names, ", ");
        output.append(list.as_str());
    }
    output
}

fn show_request(diagnostic: &ProviderResponseDiagnostic) -> (output: String)
    ensures
        output@ == requested(*diagnostic),
{
    let mut output = "\n\nRequest: ".to_owned();
    output.append(diagnostic.request_method.as_str());
    output.append(" ");
    output.append(diagnostic.request_url.as_str());
    output.append("\nRequest body:\n");
    match &diagnostic.request_body {
        None => output.append("<none>"),
        Some(text) => match pretty(text.as_str().as_bytes()) {
            Some(indented) => output.append(indented.as_str()),
            None => output.append("<request body could not be rendered>"),
        },
    }
    output.append(
        "\n\nWarning: the request can contain user, session, and tool-result data. Review before sharing.",
    );
    output
}

/// A diagnostic as it is shown: the response and the offered tools first, so that they survive the
/// bound on what is shown, then the request.
pub fn format_provider_response_diagnostic(diagnostic: &ProviderResponseDiagnostic) -> (output: String)
    ensures
        output@ == shown_diagnostic(*diagnostic),
{
    let mut output = show_evidence(diagnostic);
    let request = show_request(diagnostic);
    output.append(request.as_str());
    if character_count(output.as_str()) > MAX_DISPLAY_CHARS {
        let mut cut = bounded(output.as_str(), MAX_DISPLAY_CHARS);
        cut.append("\n[diagnostic display truncated]");
        return cut;
    }
    output
}

/// What the response says and the names of the offered tools are shown whole, however large the
/// request is, as long as they fit the bound themselves.
pub proof fn evidence_survives_the_bound(diagnostic: ProviderResponseDiagnostic)
    requires
        evidence(diagnostic).len() <= MAX_DISPLAY_CHARS,
    ensures
        has_prefix(shown_diagnostic(diagnostic), evidence(diagnostic)),
        shown_diagnostic(diagnostic).len() <= MAX_DISPLAY_CHARS + 31,
{
    reveal_strlit("\n[diagnostic display truncated]");
    let shown = shown_diagnostic(diagnostic);
    assert(shown.subrange(0, evidence(diagnostic).len() as int) =~= evidence(diagnostic));
}

/// One check of readiness.
#[derive(Debug)]
pub struct ReadinessCheck {
    pub name: String,
    pub passed: bool,
    pub detail: String,
    pub provider_response: Option<ProviderResponseDiagnostic>,
}

/// The status of a check, as it is reported.
pub fn check_status(check: &ReadinessCheck) -> (status: &'static str)
    ensures
        status@ == if check.passed {
            "pass"@
        } else {
            "fail"@
        },
{
    if check.passed {
        "pass"
    } else {
        "fail"
    }
}

/// What the catalog of a provider answered.
#[derive(Debug)]
pub enum ModelsProbe {
    /// So many models.
    Models(usize),
    /// An HTTP failure.
    HttpError(ProviderResponseDiagnostic),
}

/// What a released answer of a catalog stands for: its models, else, where it was asked for, the
/// evidence of an HTTP failure. `models` and `diagnostic` are what the answer could be read as.
pub fn settle_models_probe(
    models: Option<usize>,
    diagnostic: Option<ProviderResponseDiagnostic>,
    include_response_diagnostics: bool,
) -> (result: Result<ModelsProbe, RuntimeError>)
    ensures
        match (models, diagnostic) {
            (Some(count), _) => result == Ok::<ModelsProbe, RuntimeError>(ModelsProbe::Models(count)),
            (None, Some(failure)) => if include_response_diagnostics {
                result == Ok::<ModelsProbe, RuntimeError>(ModelsProbe::HttpError(failure))
            } else {
                is_config_error(result, "released provider catalog output violated its normalized contract"@)
            },
            (None, None) => is_config_error(
                result,
                "released provider catalog output violated its normalized contract"@,
            ),
        },
{
    match (models, diagnostic) {
        (Some(count), _) => Ok(ModelsProbe::Models(count)),
        (None, Some(failure)) if include_response_diagnostics => Ok(ModelsProbe::HttpError(failure)),
        _ => config_error("released provider catalog output violated its normalized contract"),
    }
}

/// The models of a provider, where no evidence was asked for.
pub fn require_models(probe: ModelsProbe) -> (result: Result<usize, RuntimeError>)
    ensures
        match probe {
            ModelsProbe::Models(count) => result == Ok::<usize, RuntimeError>(count),
            ModelsProbe::HttpError(_) => is_config_error(
                result,
                "provider returned diagnostics without an explicit request"@,
            ),
        },
{
    match probe {
        ModelsProbe::Models(count) => Ok(count),
        ModelsProbe::HttpError(_) => config_error("provider returned diagnostics without an explicit request"),
    }
}

/// Requires a provider to have a catalog.
pub fn require_models_endpoint(endpoint: Option<String>) -> (result: Result<String, RuntimeError>)
    ensures
        match endpoint {
            Some(url) => result == Ok::<String, RuntimeError>(url),
            None => is_config_error(result, "provider has no models endpoint"@),
        },
{
    match endpoint {
        Some(url) => Ok(url),
        None => config_error("provider has no models endpoint"),
    }
}

/// A check says how the catalog of a provider answered.
pub open spec fn is_models_check(check: ReadinessCheck, probe: Result<ModelsProbe, RuntimeError>) -> bool {
    &&& check.name@ == "models_endpoint"@
    &&& match probe {
        Ok(ModelsProbe::Models(count)) => check.passed && check.provider_response is None && check.detail@
            == "Reached the configured models endpoint and normalized "@ + decimal(count as nat)
            + " model records."@,
        Ok(ModelsProbe::HttpError(failure)) => !check.passed && check.provider_response == Some(failure)
            && check.detail@ == "provider endpoint returned HTTP "@ + decimal(failure.status as nat),
        Err(error) => !check.passed && check.provider_response is None && check.detail@ == displayed(error),
    }
}

/// The check of a provider's catalog.
pub fn models_check(probe: Result<ModelsProbe, RuntimeError>) -> (check: ReadinessCheck)
    ensures
        is_models_check(check, probe),
{
    match probe {
        Ok(ModelsProbe::Models(count)) => {
            let number = decimal_text(count as u64);
            ReadinessCheck {
                name: "models_endpoint".to_owned(),
                passed: true,
                detail: concat3(
                    "Reached the configured models endpoint and normalized ",
                    number.as_str(),
                    " model records.",
                ),
                provider_response: None,
            }
        },
        Ok(ModelsProbe::HttpError(failure)) => {
            let number = decimal_text(failure.status as u64);
            ReadinessCheck {
                name: "models_endpoint".to_owned(),
                passed: false,
                detail: concat2("provider endpoint returned HTTP ", number.as_str()),
                provider_response: Some(failure),
            }
        },
        Err(error) => ReadinessCheck {
            name: "models_endpoint".to_owned(),
            passed: false,
            detail: error.shown(),
            provider_response: None,
        },
    }
}

/// Most tokens that a probe of a model may generate.
pub const PROBE_OUTPUT_TOKENS: u32 = 32;

/// How many tokens a probe of a model may generate.
pub fn probe_output_tokens(max_output_tokens: u32) -> (limit: u32)
    ensures
        limit == if max_output_tokens < PROBE_OUTPUT_TOKENS {
            max_output_tokens
        } else {
            PROBE_OUTPUT_TOKENS
        },
{
    if max_output_tokens < PROBE_OUTPUT_TOKENS {
        max_output_tokens
    } else {
        PROBE_OUTPUT_TOKENS
    }
}

/// What a probe of a model handed back: what the answer could be read as.
#[derive(Debug)]
pub struct GenerationAnswer {
    pub diagnostic: Option<ProviderResponseDiagnostic>,
    /// The model profile and the provider profile of the answer.
    pub turn: Option<(String, String)>,
}

/// An answer comes from the selected route.
pub open spec fn from_route(answer: GenerationAnswer, model_profile: Seq<char>, provider_profile: Seq<char>) -> bool {
    answer.turn matches Some(turn) && turn.0@ == model_profile && turn.1@ == provider_profile
}

/// The detail of a passed probe of a model.
pub open spec fn generation_detail(tool_calls: bool) -> Seq<char> {
    if tool_calls {
        "Completed and normalized one bounded model generation with a representative tool schema."@
    } else {
        "Completed and normalized one bounded text-only model generation."@
    }
}

/// The check of a model: an answer that is evidence of a failure fails it where evidence was asked
/// for; any other answer has to come from the selected route.
pub fn generation_check(
    outcome: Result<GenerationAnswer, GatewayError>,
    include_response_diagnostics: bool,
    model_profile: &str,
    provider_profile: &str,
    tool_calls: bool,
) -> (check: ReadinessCheck)
    ensures
        check.name@ == "generation"@,
        match outcome {
            Err(error) => !check.passed && check.provider_response is None && check.detail@ == gateway_text(error),
            Ok(answer) => if include_response_diagnostics && answer.diagnostic is Some {
                !check.passed && check.provider_response == answer.diagnostic && check.detail@
                    == "provider endpoint returned HTTP "@ + decimal(answer.diagnostic->0.status as nat)
            } else if from_route(answer, model_profile@, provider_profile@) {
                check.passed && check.provider_response is None && check.detail@ == generation_detail(tool_calls)
            } else {
                !check.passed && check.provider_response is None && check.detail@
                    == "Released generation metadata violated the selected model route."@
            },
        },
{
    match outcome {
        Err(error) => ReadinessCheck {
            name: "generation".to_owned(),
            passed: false,
            detail: gateway_message(&error),
            provider_response: None,
        },
        Ok(answer) => {
            let routed = match &answer.turn {
                Some(turn) => same_text(turn.0.as_str(), model_profile) && same_text(turn.1.as_str(), provider_profile),
                None => false,
            };
            match answer.diagnostic {
                Some(failure) if include_response_diagnostics => {
                    let number = decimal_text(failure.status as u64);
                    ReadinessCheck {
                        name: "generation".to_owned(),
                        passed: false,
                        detail: concat2("provider endpoint returned HTTP ", number.as_str()),
                        provider_response: Some(failure),
                    }
                },
                _ => if routed {
                    ReadinessCheck {
                        name: "generation".to_owned(),
                        passed: true,
                        detail: if tool_calls {
                            "Completed and normalized one bounded model generation with a representative tool schema.".to_owned()
                        } else {
                            "Completed and normalized one bounded text-only model generation.".to_owned()
                        },
                        provider_response: None,
                    }
                } else {
                    ReadinessCheck {
                        name: "generation".to_owned(),
                        passed: false,
                        detail: "Released generation metadata violated the selected model route.".to_owned(),
                        provider_response: None,
                    }
                },
            }
        },
    }
}

/// Whether the backend of the sandbox can keep paths from its processes. `native` is what the native
/// helper says of itself.
pub fn protected_paths_supported(backend: &str, native: bool, platform: Platform) -> (supported: bool)
    ensures
        supported == if backend@ == "native"@ {
            native
        } else if backend@ == "windows_job"@ {
            platform is Windows
        } else {
            backend@ == "oci"@
        },
{
    if same_text(backend, "native") {
        native
    } else if same_text(backend, "windows_job") {
        match platform {
            Platform::Windows => true,
            _ => false,
        }
    } else {
        same_text(backend, "oci")
    }
}

/// What the wildcard among network destinations means.
pub const PUBLIC_WILDCARD: &'static str =
    "public HTTP(S) only; private, loopback, link-local, and metadata origins require exact entries";

/// Whether every public destination is allowed.
pub fn has_public_wildcard(destinations: &Vec<String>) -> (yes: bool)
    ensures
        yes == views(destinations@).contains("*"@),
{
    list_contains(destinations, "*")
}

/// A diagnostic shows the status, the response's body, the request's method and address, and its
/// body, as long as there is room.
pub proof fn diagnostics_show_both_sides(diagnostic: ProviderResponseDiagnostic)
    ensures
        contains_text(evidence(diagnostic), decimal(diagnostic.status as nat)),
        contains_text(evidence(diagnostic), diagnostic.body@),
        contains_text(requested(diagnostic), diagnostic.request_method@),
        contains_text(requested(diagnostic), diagnostic.request_url@),
        contains_text(requested(diagnostic), shown_body(diagnostic.request_body)),
        evidence(diagnostic).len() + requested(diagnostic).len() <= 65_536 ==> shown_diagnostic(diagnostic)
            == evidence(diagnostic) + requested(diagnostic),
        (evidence(diagnostic) + requested(diagnostic)).take(
            if evidence(diagnostic).len() + requested(diagnostic).len() <= 65_536 {
                (evidence(diagnostic).len() + requested(diagnostic).len()) as int
            } else {
                65_536
            },
        ).is_prefix_of(shown_diagnostic(diagnostic)),
{
    let head =
        "Provider response diagnostics (explicit local opt-in; not written to durable run history)\nResponse: HTTP "@;
    let kind = match diagnostic.content_type {
        Some(text) => text@,
        None => "unknown"@,
    };
    let cut = if diagnostic.body_truncated {
        " (truncated at 16 KiB)"@
    } else {
        Seq::empty()
    };
    let status = decimal(diagnostic.status as nat);
    let names = "\n\nOffered tool names ("@ + decimal(offered(diagnostic.request_body).len()) + "): "@ + shown_names(
        offered(diagnostic.request_body),
    );
    let middle = " ("@ + kind + ", "@ + diagnostic.body_encoding@ + ")"@ + cut + "\nResponse body:\n"@;
    parts_are_contained(head, status, middle + diagnostic.body@ + names);
    assert(head + status + (middle + diagnostic.body@ + names) == evidence(diagnostic));
    parts_are_contained(head + status + middle, diagnostic.body@, names);
    assert(head + status + middle + diagnostic.body@ + names == evidence(diagnostic));
    let warning = "\n\nWarning: the request can contain user, session, and tool-result data. Review before sharing."@;
    let body = shown_body(diagnostic.request_body);
    let rest = "\nRequest body:\n"@ + body + warning;
    parts_are_contained("\n\nRequest: "@, diagnostic.request_method@, " "@ + diagnostic.request_url@ + rest);
    assert("\n\nRequest: "@ + diagnostic.request_method@ + (" "@ + diagnostic.request_url@ + rest) == requested(
        diagnostic,
    ));
    parts_are_contained("\n\nRequest: "@ + diagnostic.request_method@ + " "@, diagnostic.request_url@, rest);
    assert("\n\nRequest: "@ + diagnostic.request_method@ + " "@ + diagnostic.request_url@ + rest == requested(
        diagnostic,
    ));
    let before = "\n\nRequest: "@ + diagnostic.request_method@ + " "@ + diagnostic.request_url@
        + "\nRequest body:\n"@;
    parts_are_contained(before, body, warning);
    assert(before + body + warning == requested(diagnostic));
}

/// The offered names are those of the request's tools in their order.
pub proof fn offered_names_are_counted(document: Seq<u8>, count: nat)
    ensures
        offered_names(document, count).len() <= count,
        offered_name(document, count) matches Some(name) ==> offered_names(document, count + 1) == offered_names(
            document,
            count,
        ).push(name),
        offered_name(document, count) is None ==> offered_names(document, count + 1) == offered_names(document, count),
    decreases count,
{
    if count > 0 {
        offered_names_are_counted(document, (count - 1) as nat);
    }
}

/// A list of names shows each of them, and an empty one says that there are none.
pub proof fn every_name_is_shown(names: Seq<Seq<char>>, at: int)
    ensures
        0 <= at < names.len() ==> contains_text(shown_names(names), names[at]),
        names.len() == 0 ==> shown_names(names) == "<none>"@,
{
    if 0 <= at < names.len() {
        every_item_is_joined(names, ", "@, at);
    }
}

/// A check of the models endpoint passes exactly where models were counted, and carries the response
/// exactly where the provider answered with an error.
pub proof fn models_checks_pass_with_models(check: ReadinessCheck, probe: Result<ModelsProbe, RuntimeError>)
    requires
        is_models_check(check, probe),
    ensures
        check.name@ == "models_endpoint"@,
        check.passed <==> probe is Ok && probe->Ok_0 is Models,
        check.provider_response is Some <==> probe is Ok && probe->Ok_0 is HttpError,
        probe matches Ok(ModelsProbe::HttpError(failure)) ==> check.provider_response == Some(failure)
            && contains_text(check.detail@, decimal(failure.status as nat)),
        probe matches Ok(ModelsProbe::Models(count)) ==> contains_text(check.detail@, decimal(count as nat)),
        probe matches Err(error) ==> check.detail@ == displayed(error),
{
    let empty = Seq::<char>::empty();
    match probe {
        Ok(ModelsProbe::HttpError(failure)) => {
            let number = decimal(failure.status as nat);
            parts_are_contained("provider endpoint returned HTTP "@, number, empty);
            assert("provider endpoint returned HTTP "@ + number + empty == check.detail@);
        },
        Ok(ModelsProbe::Models(count)) => {
            parts_are_contained(
                "Reached the configured models endpoint and normalized "@,
                decimal(count as nat),
                " model records."@,
            );
        },
        Err(_) => {},
    }
}

/// A generation belongs to a route only where it bears both of its profiles.
pub proof fn generations_bear_their_route(answer: GenerationAnswer, model: Seq<char>, provider: Seq<char>)
    ensures
        from_route(answer, model, provider) ==> answer.turn is Some,
        answer.turn matches Some((given_model, given_provider)) ==> (from_route(answer, model, provider)
            <==> given_model@ == model && given_provider@ == provider),
        generation_detail(true) != generation_detail(false),
{
    reveal_strlit("Completed and normalized one bounded model generation with a representative tool schema.");
    reveal_strlit("Completed and normalized one bounded text-only model generation.");
    assert(generation_detail(true).len() != generation_detail(false).len());
}

/// A tool that was offered is named by its own name, or by that of its function where it has none.
pub proof fn offered_tools_are_named(document: Seq<u8>, index: nat)
    ensures
        ({
            let own = json_pointer_text(document, "/tools/"@ + decimal(index) + "/name"@);
            let function = json_pointer_text(document, "/tools/"@ + decimal(index) + "/function/name"@);
            &&& own is Some ==> offered_name(document, index) == own
            &&& own is None ==> offered_name(document, index) == function
        }),
{
}

} // verus!
