//! Errors of the `add service` command, with their messages.
use vstd::prelude::*;

use crate::text::concat;

verus! {

/// Why adding a service failed.
#[derive(Debug, Clone, PartialEq, Eq)]
pub enum AddServiceError {
    MissingRequiredInput(String),
    InvalidServiceName(String),
    InvalidWorkspaceContext(String),
    GeneratorNotFound(String),
    InvalidGeneratorType { generator_id: String, generator_type: String },
    AmbiguousGenerator(String),
    PromptFailed(String),
    TargetDirectoryAlreadyExists(String),
    RenderFailed(String),
    DependencyRuleViolation(String),
    HealthEndpointsMissing(String),
    GeneratorReadError(String),
    GeneratorConfigError(String),
    ProvenanceWriteFailed(String),
    CleanupFailed(String),
    Interrupted,
    Internal(String),
}

/// The message of an `add service` error.
pub open spec fn add_service_error_message(e: AddServiceError) -> Seq<char> {
    match e {
        AddServiceError::MissingRequiredInput(f) => "required input '"@ + f@
            + "' is missing in non-interactive mode"@,
        AddServiceError::InvalidServiceName(n) => "service name '"@ + n@
            + "' is invalid; use letters, numbers, '-' or '_'"@,
        AddServiceError::InvalidWorkspaceContext(m) => "invalid workspace context: "@ + m@,
        AddServiceError::GeneratorNotFound(g) => "service generator '"@ + g@
            + "' was not found; use 'nfw generators list'"@,
        AddServiceError::InvalidGeneratorType { generator_id, generator_type } => "generator '"@
            + generator_id@ + "' has type '"@ + generator_type@ + "', expected 'service'"@,
        AddServiceError::AmbiguousGenerator(g) => "generator identifier '"@ + g@
            + "' is ambiguous"@,
        AddServiceError::PromptFailed(r) => "interactive generator prompt failed: "@ + r@,
        AddServiceError::TargetDirectoryAlreadyExists(p) => "target directory '"@ + p@
            + "' already exists"@,
        AddServiceError::RenderFailed(r) => "failed to render service generator: "@ + r@,
        AddServiceError::DependencyRuleViolation(r) =>
            "generated service violates layer dependency rules: "@ + r@,
        AddServiceError::HealthEndpointsMissing(r) => "generated API health endpoints are missing: "@
            + r@,
        AddServiceError::ProvenanceWriteFailed(r) =>
            "failed to persist service generator provenance: "@ + r@,
        AddServiceError::GeneratorReadError(r) => "failed to read service generator structure: "@
            + r@,
        AddServiceError::GeneratorConfigError(r) => "service generator configuration is invalid: "@
            + r@,
        AddServiceError::CleanupFailed(r) =>
            "service generation failed and cleanup was incomplete: "@ + r@,
        AddServiceError::Interrupted => "service generation interrupted"@,
        AddServiceError::Internal(r) => "service generation failed: "@ + r@,
    }
}

/// `a`, then `b`, then `c`.
fn concat3(a: &str, b: &str, c: &str) -> (r: String)
    ensures
        r@ == a@ + b@ + c@,
{
    let mut s = concat(a, b);
    s.append(c);
    s
}

impl AddServiceError {
    /// The message of the error.
    pub fn message(&self) -> (r: String)
        ensures
            r@ == add_service_error_message(*self),
    {
        match self {
            AddServiceError::MissingRequiredInput(f) => concat3(
                "required input '",
                f.as_str(),
                "' is missing in non-interactive mode",
            ),
            AddServiceError::InvalidServiceName(n) => concat3(
                "service name '",
                n.as_str(),
                "' is invalid; use letters, numbers, '-' or '_'",
            ),
            AddServiceError::InvalidWorkspaceContext(m) => concat(
                "invalid workspace context: ",
                m.as_str(),
            ),
            AddServiceError::GeneratorNotFound(g) => concat3(
                "service generator '",
                g.as_str(),
                "' was not found; use 'nfw generators list'",
            ),
            AddServiceError::InvalidGeneratorType { generator_id, generator_type } => {
                let mut s = concat3("generator '", generator_id.as_str(), "' has type '");
                s.append(generator_type.as_str());
                s.append("', expected 'service'");
                s
            },
            AddServiceError::AmbiguousGenerator(g) => concat3(
                "generator identifier '",
                g.as_str(),
                "' is ambiguous",
            ),
            AddServiceError::PromptFailed(r) => concat(
                "interactive generator prompt failed: ",
                r.as_str(),
            ),
            AddServiceError::TargetDirectoryAlreadyExists(p) => concat3(
                "target directory '",
                p.as_str(),
                "' already exists",
            ),
            AddServiceError::RenderFailed(r) => concat(
                "failed to render service generator: ",
                r.as_str(),
            ),
            AddServiceError::DependencyRuleViolation(r) => concat(
                "generated service violates layer dependency rules: ",
                r.as_str(),
            ),
            AddServiceError::HealthEndpointsMissing(r) => concat(
                "generated API health endpoints are missing: ",
                r.as_str(),
            ),
            AddServiceError::ProvenanceWriteFailed(r) => concat(
                "failed to persist service generator provenance: ",
                r.as_str(),
            ),
            AddServiceError::GeneratorReadError(r) => concat(
                "failed to read service generator structure: ",
                r.as_str(),
            ),
            AddServiceError::GeneratorConfigError(r) => concat(
                "service generator configuration is invalid: ",
                r.as_str(),
            ),
            AddServiceError::CleanupFailed(r) => concat(
                "service generation failed and cleanup was incomplete: ",
                r.as_str(),
            ),
            AddServiceError::Interrupted => "service generation interrupted".to_owned(),
            AddServiceError::Internal(r) => concat("service generation failed: ", r.as_str()),
        }
    }
}

} // verus!
