//! Probing providers and models: what is asked of them before they are called ready.

use crate::config::ProviderKind;
use crate::diagnostics::{
    is_models_check, models_check, probe_output_tokens, require_models_endpoint, ModelsProbe, ReadinessCheck,
};
use crate::error::{is_config_error, RuntimeError};
use crate::text::{optional_view, views};
use vstd::prelude::*;
use vstd::string::*;

verus! {

/// A tool that a model is shown for a probe; the schema of its input is a document.
#[derive(Debug)]
pub struct ProbeTool {
    pub name: String,
    pub description: String,
    pub input_schema: String,
}

/// A generation that is asked of a model for a probe.
#[derive(Debug)]
pub struct ProbeGeneration {
    pub instructions: String,
    /// The only message, of a user.
    pub message: String,
    pub tool: Option<ProbeTool>,
    pub max_output_tokens: u32,
}

/// What a probe asks the gateway for, in the name of the system.
#[derive(Debug)]
pub struct ProbeRequest {
    pub actor_id: String,
    pub action: String,
    /// The endpoint.
    pub resource: String,
    pub capabilities: Vec<String>,
    pub provider_profile: String,
    pub model_profile: Option<String>,
    pub model: Option<String>,
    pub generation: Option<ProbeGeneration>,
    pub include_response_diagnostics: bool,
}

/// A model of a provider.
#[derive(Debug)]
pub struct ModelInfo {
    pub id: String,
    pub object: Option<String>,
    pub owned_by: Option<String>,
}

/// How the models of a provider are found.
#[derive(Debug)]
pub enum ModelsPlan {
    /// They are the configured ones.
    Known(Vec<ModelInfo>),
    /// The provider is asked.
    Ask(ProbeRequest),
}

/// The models are exactly the configured ones.
pub open spec fn known_models(list: Seq<ModelInfo>, models: Seq<String>) -> bool {
    &&& list.len() == models.len()
    &&& forall|i: int|
        0 <= i < models.len() ==> (#[trigger] list[i]).id == models[i] && optional_view(list[i].object) == Some(
            "model"@,
        ) && optional_view(list[i].owned_by) == Some("colossus"@)
}

/// The request asks for the catalogue of a provider.
pub open spec fn asks_for_models(
    request: ProbeRequest,
    endpoint: Seq<char>,
    profile: Seq<char>,
    evidence: bool,
) -> bool {
    &&& request.actor_id@ == "provider-diagnostics"@
    &&& request.action@ == "provider.models"@
    &&& request.resource@ == endpoint
    &&& views(request.capabilities@) == seq!["provider.call"@]
    &&& request.provider_profile@ == profile
    &&& request.model_profile is None
    &&& request.model is None
    &&& request.generation is None
    &&& request.include_response_diagnostics == evidence
}

fn list_models(models: &Vec<String>) -> (list: Vec<ModelInfo>)
    ensures
        known_models(list@, models@),
{
    let mut list: Vec<ModelInfo> = Vec::new();
    let mut i: usize = 0;
    while i < models.len()
        invariant
            i <= models@.len(),
            known_models(list@, models@.take(i as int)),
        decreases models@.len() - i,
    {
        list.push(
            ModelInfo {
                id: models[i].clone(),
                object: Some("model".to_owned()),
                owned_by: Some("colossus".to_owned()),
            },
        );
        i = i + 1;
    }
    proof {
        assert(models@.take(i as int) =~= models@);
    }
    list
}

fn provider_call() -> (list: Vec<String>)
    ensures
        views(list@) == seq!["provider.call"@],
{
    let list = vec!["provider.call".to_owned()];
    proof {
        assert(views(list@) =~= seq!["provider.call"@]);
    }
    list
}

/// How the models of a provider are found: an echo provider has the configured `models`, another one is
/// asked at its endpoint, which it has to have.
pub fn plan_models_probe(
    kind: ProviderKind,
    profile: &str,
    models: &Vec<String>,
    endpoint: Result<Option<String>, RuntimeError>,
    include_response_diagnostics: bool,
) -> (result: Result<ModelsPlan, RuntimeError>)
    ensures
        if kind is Echo {
            result matches Ok(ModelsPlan::Known(list)) && known_models(list@, models@)
        } else {
            match endpoint {
                Err(error) => result == Err::<ModelsPlan, RuntimeError>(error),
                Ok(None) => is_config_error(result, "provider has no models endpoint"@),
                Ok(Some(address)) => result matches Ok(ModelsPlan::Ask(request)) && asks_for_models(
                    request,
                    address@,
                    profile@,
                    include_response_diagnostics,
                ),
            }
        },
{
    if let ProviderKind::Echo = kind {
        return Ok(ModelsPlan::Known(list_models(models)));
    }
    let stated = match endpoint {
        Ok(stated) => stated,
        Err(error) => {
            return Err(error);
        },
    };
    match require_models_endpoint(stated) {
        Err(error) => Err(error),
        Ok(resource) => Ok(
            ModelsPlan::Ask(
                ProbeRequest {
                    actor_id: "provider-diagnostics".to_owned(),
                    action: "provider.models".to_owned(),
                    resource,
                    capabilities: provider_call(),
                    provider_profile: profile.to_owned(),
                    model_profile: None,
                    model: None,
                    generation: None,
                    include_response_diagnostics,
                },
            ),
        ),
    }
}

/// What is configured of a model that is probed.
#[derive(Debug)]
pub struct ProbeRoute {
    pub provider_profile: String,
    pub model_profile: String,
    pub model: String,
    pub max_output_tokens: u32,
    pub tool_calls: bool,
}

/// The schema that stands for those of tools in a probe.
pub const PROBE_SCHEMA: &'static str =
    "{\"additionalProperties\":false,\"properties\":{\"paths\":{\"items\":{\"maxLength\":4096,\"minLength\":1,\"type\":\"string\"},\"maxItems\":4,\"type\":\"array\"}},\"required\":[\"paths\"],\"type\":\"object\"}";

/// The generation asks for one word, and shows a tool to a model that calls tools.
pub open spec fn probes(generation: ProbeGeneration, route: ProbeRoute) -> bool {
    &&& generation.instructions@ == "This is a model readiness probe. Reply with exactly: ok"@
    &&& generation.message@ == "Reply with exactly: ok"@
    &&& generation.max_output_tokens == if route.max_output_tokens > 32 {
        32
    } else {
        route.max_output_tokens
    }
    &&& match generation.tool {
        Some(tool) => route.tool_calls && tool.name@ == "colossus.readiness"@ && tool.description@
            == "Representative tool-schema compatibility probe."@ && tool.input_schema@ == PROBE_SCHEMA@,
        None => !route.tool_calls,
    }
}

/// What is asked of a model to see whether it generates.
pub fn plan_generation_probe(
    route: &ProbeRoute,
    action: &str,
    endpoint: Result<String, RuntimeError>,
    include_response_diagnostics: bool,
) -> (result: Result<ProbeRequest, RuntimeError>)
    ensures
        match endpoint {
            Err(error) => result == Err::<ProbeRequest, RuntimeError>(error),
            Ok(address) => result matches Ok(request) && {
                &&& request.actor_id@ == "model-diagnostics"@
                &&& request.action@ == action@
                &&& request.resource == address
                &&& views(request.capabilities@) == seq!["provider.call"@]
                &&& request.provider_profile == route.provider_profile
                &&& request.model_profile == Some(route.model_profile)
                &&& request.model == Some(route.model)
                &&& request.generation matches Some(generation) && probes(generation, *route)
                &&& request.include_response_diagnostics == include_response_diagnostics
            },
        },
{
    let resource = match endpoint {
        Ok(address) => address,
        Err(error) => {
            return Err(error);
        },
    };
    let tool = if route.tool_calls {
        Some(
            ProbeTool {
                name: "colossus.readiness".to_owned(),
                description: "Representative tool-schema compatibility probe.".to_owned(),
                input_schema: PROBE_SCHEMA.to_owned(),
            },
        )
    } else {
        None
    };
    let generation = ProbeGeneration {
        instructions: "This is a model readiness probe. Reply with exactly: ok".to_owned(),
        message: "Reply with exactly: ok".to_owned(),
        tool,
        max_output_tokens: probe_output_tokens(route.max_output_tokens),
    };
    Ok(
        ProbeRequest {
            actor_id: "model-diagnostics".to_owned(),
            action: action.to_owned(),
            resource,
            capabilities: provider_call(),
            provider_profile: route.provider_profile.clone(),
            model_profile: Some(route.model_profile.clone()),
            model: Some(route.model.clone()),
            generation: Some(generation),
            include_response_diagnostics,
        },
    )
}

/// Whether a provider is ready, and by which checks.
#[derive(Debug)]
pub struct Readiness {
    pub ready: bool,
    pub checks: Vec<ReadinessCheck>,
}

/// Whether a provider is ready: an echo provider as it is configured, another one where its catalog
/// answered.
pub fn provider_readiness(
    kind: ProviderKind,
    configured: Readiness,
    probe: Result<ModelsProbe, RuntimeError>,
) -> (readiness: Readiness)
    ensures
        if kind is Echo {
            readiness == configured
        } else {
            readiness.checks@.len() == 1 && is_models_check(readiness.checks@[0], probe) && readiness.ready
                == readiness.checks@[0].passed
        },
{
    if let ProviderKind::Echo = kind {
        return configured;
    }
    let check = models_check(probe);
    Readiness { ready: check.passed, checks: vec![check] }
}

/// The models that are known are those configured, one for one.
pub proof fn known_models_are_the_configured_ones(list: Seq<ModelInfo>, models: Seq<String>, at: int)
    requires
        known_models(list, models),
        0 <= at < models.len(),
    ensures
        list.len() == models.len(),
        list[at].id == models[at],
{
}

/// A request for models goes to the endpoint of its provider and asks for nothing to be generated;
/// evidence comes back only where it was asked for.
pub proof fn models_are_asked_at_their_endpoint(
    request: ProbeRequest,
    endpoint: Seq<char>,
    profile: Seq<char>,
    evidence: bool,
)
    requires
        asks_for_models(request, endpoint, profile, evidence),
    ensures
        request.action@ == "provider.models"@,
        request.resource@ == endpoint,
        request.provider_profile@ == profile,
        request.model is None && request.model_profile is None && request.generation is None,
        request.include_response_diagnostics == evidence,
        request.capabilities@.len() == 1 && request.capabilities@[0]@ == "provider.call"@,
{
    assert(views(request.capabilities@).len() == request.capabilities@.len());
    assert(views(request.capabilities@)[0] == "provider.call"@);
}

/// A probe generates at most thirty-two tokens and no more than its model may, and shows a tool exactly
/// where the model calls tools.
pub proof fn probes_are_small(generation: ProbeGeneration, route: ProbeRoute)
    requires
        probes(generation, route),
    ensures
        generation.max_output_tokens <= 32,
        generation.max_output_tokens <= route.max_output_tokens,
        route.max_output_tokens <= 32 ==> generation.max_output_tokens == route.max_output_tokens,
        route.max_output_tokens > 32 ==> generation.max_output_tokens == 32,
        generation.tool is Some <==> route.tool_calls,
{
}

} // verus!
