//! The decisions of `add service` around its inputs and its outcome: when to
//! prompt, how prompt failures and cleanup failures are reported, and what the
//! command reports once the service is generated.
use vstd::prelude::*;

use crate::service_management::add_service_command::{
    AddServiceCommandRequest, AddServiceCommandResult,
};
use crate::service_management::add_service_error::{add_service_error_message, AddServiceError};
use crate::service_management::plan_builder::ServiceGenerationPlan;
use crate::template_management::model::version_text;
use crate::text::concat;

verus! {

/// The service name of the request, `None` when it must be asked for; an error when
/// it is missing and no prompt may be shown.
pub fn service_name_decision(request: &AddServiceCommandRequest, prompt_is_interactive: bool) -> (r:
    Result<Option<String>, AddServiceError>)
    ensures
        match request.service_name {
            Some(n) => r matches Ok(Some(s)) && s@ == n@,
            None => if request.no_input || !request.is_interactive_terminal || !prompt_is_interactive {
                r matches Err(AddServiceError::MissingRequiredInput(f)) && f@ == "name"@
            } else {
                r matches Ok(None)
            },
        },
{
    match &request.service_name {
        Some(n) => Ok(Some(n.clone())),
        None => if request.is_non_interactive() || !prompt_is_interactive {
            Err(AddServiceError::MissingRequiredInput("name".to_owned()))
        } else {
            Ok(None)
        },
    }
}

/// The generator identifier of the request, `None` when one must be chosen from the
/// list; an error when it is missing and no prompt may be shown.
pub fn generator_decision(request: &AddServiceCommandRequest) -> (r: Result<Option<String>, AddServiceError>)
    ensures
        match request.template_id {
            Some(g) => r matches Ok(Some(s)) && s@ == g@,
            None => if request.no_input || !request.is_interactive_terminal {
                r matches Err(AddServiceError::MissingRequiredInput(f)) && f@ == "generator"@
            } else {
                r matches Ok(None)
            },
        },
{
    match &request.template_id {
        Some(g) => Ok(Some(g.clone())),
        None => if request.is_non_interactive() {
            Err(AddServiceError::MissingRequiredInput("generator".to_owned()))
        } else {
            Ok(None)
        },
    }
}

/// Checks that some service generator was found to choose from.
pub fn check_generators_found(count: usize) -> (r: Result<(), AddServiceError>)
    ensures
        count == 0 ==> (r matches Err(AddServiceError::GeneratorNotFound(g)) && g@
            == "<service generator>"@),
        count > 0 ==> r is Ok,
{
    if count == 0 {
        Err(AddServiceError::GeneratorNotFound("<service generator>".to_owned()))
    } else {
        Ok(())
    }
}

/// The error for a failed prompt: `Interrupted` when the user cancelled it.
pub fn map_prompt_error(cancelled: bool, message: String) -> (r: AddServiceError)
    ensures
        cancelled ==> r is Interrupted,
        !cancelled ==> r == AddServiceError::PromptFailed(message),
{
    if cancelled {
        AddServiceError::Interrupted
    } else {
        AddServiceError::PromptFailed(message)
    }
}

/// The error to report after cleaning up a failed generation: the original one, or,
/// when the cleanup failed too, both.
pub fn wrap_cleanup_failure(cleanup: Result<(), String>, error: AddServiceError) -> (r: AddServiceError)
    ensures
        match cleanup {
            Ok(()) => r == error,
            Err(c) => r matches AddServiceError::CleanupFailed(m) && m@ == c@ + "; original error: "@
                + add_service_error_message(error),
        },
{
    match cleanup {
        Ok(()) => error,
        Err(c) => {
            let mut m = concat(c.as_str(), "; original error: ");
            m.append(error.message().as_str());
            AddServiceError::CleanupFailed(m)
        },
    }
}

/// What the command reports for a generated service.
pub fn command_result(plan: &ServiceGenerationPlan) -> (r: AddServiceCommandResult)
    ensures
        r.service_name@ == plan.service_name@,
        r.output_path@ == plan.output_root@,
        r.template_id@ == plan.generator_id@,
        r.template_version@ == version_text(plan.generator_version),
{
    AddServiceCommandResult {
        service_name: plan.service_name.clone(),
        output_path: plan.output_root.clone(),
        template_id: plan.generator_id.clone(),
        template_version: plan.generator_version.to_text(),
    }
}

} // verus!
