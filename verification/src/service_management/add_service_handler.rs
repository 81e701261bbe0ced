//! The `add service` command as a sequence of steps: the handler decides, the
//! caller prompts, looks at the disk, renders, and reports back what happened.
use vstd::prelude::*;

use crate::service_management::add_service_command::{
    opt_string_view, AddServiceCommand, AddServiceCommandResult,
};
use crate::service_management::add_service_error::{add_service_error_message, AddServiceError};
use crate::service_management::add_service_request_validator::{
    is_error_of_kind, is_valid_service_name, request_error, AddServiceRequestValidator,
};
use crate::service_management::generator_selection::ServiceGeneratorResolution;
use crate::service_management::input_resolution::{
    check_generators_found, command_result, generator_decision, map_prompt_error, service_name_decision,
    wrap_cleanup_failure,
};
use crate::service_management::plan_builder::{
    plan_outcome, ServiceGenerationPlan, ServiceGenerationPlanBuilder,
};
use crate::service_management::provenance::{
    provenance_outcome, provenance_record, ServiceGeneratorProvenanceRecord, ServiceProvenanceStore,
    ServiceTemplateProvenanceService,
};
use crate::service_management::workspace_guard::AddServiceWorkspaceContextGuard;
use crate::template_management::model::version_text;
use crate::workspace_root::{is_first_marked, none_marked};
use crate::yaml::YamlValue;

verus! {

/// Why a prompt gave no answer.
#[derive(Debug)]
pub struct PromptFailure {
    /// The user cancelled the prompt.
    pub cancelled: bool,
    pub message: String,
}

/// Where the preparation of a service stands: what it asks the caller to do next,
/// or the plan it came to.
#[derive(Debug)]
pub enum PrepareStep {
    /// Ask the user for the name of the service.
    PromptServiceName,
    /// Look for the workspace: the current directory and its ancestors, nearest
    /// first, each with whether it holds `nfw.yaml`.
    LocateWorkspace { service_name: String },
    /// List the service generators of all catalogs.
    ListGenerators { service_name: String, workspace_root: String },
    /// Ask the user to choose one of `generators`.
    PromptGenerator {
        service_name: String,
        workspace_root: String,
        generators: Vec<ServiceGeneratorResolution>,
    },
    /// Resolve the generator named `generator_identifier` in the workspace.
    ResolveGenerator { service_name: String, workspace_root: String, generator_identifier: String },
    /// Tell whether the directory of the service exists, and read `nfw.yaml`.
    InspectWorkspace {
        service_name: String,
        workspace_root: String,
        resolution: ServiceGeneratorResolution,
    },
    /// The preparation is over.
    Planned(Result<ServiceGenerationPlan, AddServiceError>),
}

/// What the caller did for the preparation step it was asked to take.
#[derive(Debug)]
pub enum PrepareEvent {
    ServiceNamePrompted(Result<String, PromptFailure>),
    /// The directories looked at, or why the current directory is unknown.
    WorkspaceLocated(Result<Vec<(String, bool)>, String>),
    GeneratorsListed(Result<Vec<ServiceGeneratorResolution>, AddServiceError>),
    /// The identifier chosen, or why the prompt failed.
    GeneratorPrompted(Result<String, String>),
    GeneratorResolved(Result<ServiceGeneratorResolution, AddServiceError>),
    WorkspaceInspected {
        output_root_exists: bool,
        workspace_file: Result<Result<YamlValue, String>, String>,
    },
}

/// The directories of a workspace scan.
pub open spec fn scan_dirs(scan: Seq<(String, bool)>) -> Seq<String> {
    scan.map_values(|p: (String, bool)| p.0)
}

/// Whether each directory of a workspace scan holds `nfw.yaml`.
pub open spec fn scan_marks(scan: Seq<(String, bool)>) -> Seq<bool> {
    scan.map_values(|p: (String, bool)| p.1)
}

/// The message when no directory of the scan holds `nfw.yaml`.
pub open spec fn no_workspace_message() -> Seq<char> {
    "could not find nfw.yaml in current directory or parent directories"@
}

/// The directories and their marks, apart.
fn split_scan(scan: &Vec<(String, bool)>) -> (r: (Vec<String>, Vec<bool>))
    ensures
        r.0@ == scan_dirs(scan@),
        r.1@ == scan_marks(scan@),
{
    let mut dirs: Vec<String> = Vec::new();
    let mut marks: Vec<bool> = Vec::new();
    let mut i: usize = 0;
    while i < scan.len()
        invariant
            i <= scan@.len(),
            dirs@ == scan_dirs(scan@).take(i as int),
            marks@ == scan_marks(scan@).take(i as int),
        decreases scan@.len() - i,
    {
        dirs.push(scan[i].0.clone());
        marks.push(scan[i].1);
        i = i + 1;
        assert(dirs@ =~= scan_dirs(scan@).take(i as int));
        assert(marks@ =~= scan_marks(scan@).take(i as int));
    }
    assert(dirs@ =~= scan_dirs(scan@));
    assert(marks@ =~= scan_marks(scan@));
    (dirs, marks)
}

/// Where carrying out a plan stands: what it asks the caller to do next, or its
/// outcome.
#[derive(Debug)]
pub enum ExecuteStep {
    /// Look for the workspace again, as the preparation did.
    LocateWorkspace { plan: ServiceGenerationPlan },
    /// Render the service from its plan.
    Render { plan: ServiceGenerationPlan, workspace_root: String },
    /// Hand the provenance store `record`, for the workspace at `workspace_root`.
    RecordProvenance {
        plan: ServiceGenerationPlan,
        workspace_root: String,
        record: ServiceGeneratorProvenanceRecord,
    },
    /// Remove what was rendered below `output_root`, then fail with `error`.
    CleanUp { output_root: String, error: AddServiceError },
    /// The command is done.
    Finished(Result<AddServiceCommandResult, AddServiceError>),
}

/// What the caller did for the execution step it was asked to take.
#[derive(Debug)]
pub enum ExecuteEvent {
    /// The directories looked at, or why the current directory is unknown.
    WorkspaceLocated(Result<Vec<(String, bool)>, String>),
    Rendered(Result<(), AddServiceError>),
    /// What the provenance store answered.
    ProvenanceRecorded(Result<(), String>),
    /// Whether the partial output could be removed, and if not, why.
    CleanedUp(Result<(), String>),
}

/// What the command reports for a generated service, as `command_result` builds it.
pub open spec fn reports_plan(r: AddServiceCommandResult, plan: ServiceGenerationPlan) -> bool {
    &&& r.service_name@ == plan.service_name@
    &&& r.output_path@ == plan.output_root@
    &&& r.template_id@ == plan.generator_id@
    &&& r.template_version@ == version_text(plan.generator_version)
}

/// The step that follows `step` when `event` answers it (see
/// `AddServiceCommandHandler::resume_execution`).
pub open spec fn execution_next(step: ExecuteStep, event: ExecuteEvent, r: ExecuteStep) -> bool {
    match (step, event) {
        (ExecuteStep::LocateWorkspace { .. }, ExecuteEvent::WorkspaceLocated(Err(e))) => r
            == ExecuteStep::Finished(Err(AddServiceError::Internal(e))),
        (ExecuteStep::LocateWorkspace { plan }, ExecuteEvent::WorkspaceLocated(Ok(scan))) => if none_marked(
            scan_marks(scan@),
        ) {
            r matches ExecuteStep::Finished(Err(AddServiceError::InvalidWorkspaceContext(m))) && m@
                == no_workspace_message()
        } else {
            r matches ExecuteStep::Render { plan: p, workspace_root } && p == plan && is_first_marked(
                scan_dirs(scan@),
                scan_marks(scan@),
                workspace_root@,
            )
        },
        (ExecuteStep::Render { plan, .. }, ExecuteEvent::Rendered(Err(e))) => r == (ExecuteStep::CleanUp {
            output_root: plan.output_root,
            error: e,
        }),
        (ExecuteStep::Render { plan, workspace_root }, ExecuteEvent::Rendered(Ok(()))) => r matches ExecuteStep::RecordProvenance {
            plan: p,
            workspace_root: w,
            record,
        } && p == plan && w == workspace_root && record.service_name@ == plan.service_name@
            && record.generator_id@ == plan.generator_id@ && record.generator_version@ == version_text(
            plan.generator_version,
        ),
        (ExecuteStep::RecordProvenance { plan, .. }, ExecuteEvent::ProvenanceRecorded(Ok(()))) => r matches ExecuteStep::Finished(
            Ok(result),
        ) && reports_plan(result, plan),
        (ExecuteStep::RecordProvenance { plan, .. }, ExecuteEvent::ProvenanceRecorded(Err(m))) => r
            == (ExecuteStep::CleanUp {
            output_root: plan.output_root,
            error: AddServiceError::ProvenanceWriteFailed(m),
        }),
        (ExecuteStep::CleanUp { error, .. }, ExecuteEvent::CleanedUp(Ok(()))) => r == ExecuteStep::Finished(
            Err(error),
        ),
        (ExecuteStep::CleanUp { error, .. }, ExecuteEvent::CleanedUp(Err(c))) => r matches ExecuteStep::Finished(
            Err(AddServiceError::CleanupFailed(m)),
        ) && m@ == c@ + "; original error: "@ + add_service_error_message(error),
        (s, _) => r == s,
    }
}

/// `event` answers what `step` asked for.
pub open spec fn execution_answers(step: ExecuteStep, event: ExecuteEvent) -> bool {
    match step {
        ExecuteStep::LocateWorkspace { .. } => event is WorkspaceLocated,
        ExecuteStep::Render { .. } => event is Rendered,
        ExecuteStep::RecordProvenance { .. } => event is ProvenanceRecorded,
        ExecuteStep::CleanUp { .. } => event is CleanedUp,
        ExecuteStep::Finished(_) => false,
    }
}

/// A run of carrying out a plan: from looking for the workspace, each step
/// answered by what it asked for and followed by the step `resume_execution` gives.
pub open spec fn execution_run(steps: Seq<ExecuteStep>, events: Seq<ExecuteEvent>) -> bool {
    &&& steps.len() == events.len() + 1
    &&& steps[0] is LocateWorkspace
    &&& forall|i: int|
        0 <= i < events.len() ==> execution_answers(steps[i], #[trigger] events[i]) && execution_next(
            steps[i],
            events[i],
            steps[i + 1],
        )
}

/// When rendering fails, the partial output below the service's directory is
/// cleaned up once, with the render error kept, and the run then ends in an error:
/// no provenance is recorded and no second cleanup is asked for.
pub proof fn law_render_failure_cleans_up_once(steps: Seq<ExecuteStep>, events: Seq<ExecuteEvent>, i: int)
    requires
        execution_run(steps, events),
        0 <= i < events.len(),
        steps[i] is Render,
        events[i] matches ExecuteEvent::Rendered(Err(_)),
    ensures
        match (steps[i], events[i]) {
            (ExecuteStep::Render { plan, .. }, ExecuteEvent::Rendered(Err(e))) => steps[i + 1] == (ExecuteStep::CleanUp {
                output_root: plan.output_root,
                error: e,
            }),
            _ => false,
        },
        steps.len() <= i + 3,
        steps.len() == i + 3 ==> steps[i + 2] matches ExecuteStep::Finished(Err(_)),
{
    assert(execution_answers(steps[i], events[i]) && execution_next(steps[i], events[i], steps[i + 1]));
    if i + 1 < events.len() {
        assert(execution_answers(steps[i + 1], events[i + 1]) && execution_next(
            steps[i + 1],
            events[i + 1],
            steps[i + 2],
        ));
        if i + 2 < events.len() {
            assert(execution_answers(steps[i + 2], events[i + 2]));
        }
    }
}

/// Runs `add service`: checks the request, gets the service name and the
/// generator, plans the service, then renders it and records its provenance,
/// cleaning up when either fails.
#[derive(Debug)]
pub struct AddServiceCommandHandler<PS> {
    pub request_validator: AddServiceRequestValidator,
    pub workspace_context_guard: AddServiceWorkspaceContextGuard,
    pub plan_builder: ServiceGenerationPlanBuilder,
    pub provenance_service: ServiceTemplateProvenanceService<PS>,
}

impl<PS: ServiceProvenanceStore> AddServiceCommandHandler<PS> {
    pub fn new(provenance_service: ServiceTemplateProvenanceService<PS>) -> (r: Self)
        ensures
            r.provenance_service == provenance_service,
    {
        AddServiceCommandHandler {
            request_validator: AddServiceRequestValidator::new(),
            workspace_context_guard: AddServiceWorkspaceContextGuard::new(),
            plan_builder: ServiceGenerationPlanBuilder::new(),
            provenance_service,
        }
    }

    /// The step after the service name is known: check it, then look for the workspace.
    fn after_service_name(&self, service_name: String) -> (r: PrepareStep)
        ensures
            is_valid_service_name(service_name@) ==> r == (PrepareStep::LocateWorkspace { service_name }),
            !is_valid_service_name(service_name@) ==> (r matches PrepareStep::Planned(
                Err(AddServiceError::InvalidServiceName(n)),
            ) && n@ == service_name@),
    {
        match self.request_validator.validate_service_name(service_name.as_str()) {
            Ok(()) => PrepareStep::LocateWorkspace { service_name },
            Err(e) => PrepareStep::Planned(Err(e)),
        }
    }

    /// Starts preparing the plan: checks the request and takes the service name
    /// from it, or asks for one when a prompt may be shown (`prompt_is_interactive`
    /// tells whether the prompt can reach a user).
    pub fn prepare_generation_plan(&self, command: &AddServiceCommand, prompt_is_interactive: bool) -> (r:
        PrepareStep)
        ensures
            match request_error(
                opt_string_view(command.service_name),
                opt_string_view(command.template_id),
                command.no_input || !command.is_interactive_terminal,
            ) {
                Some(k) => r matches PrepareStep::Planned(Err(e)) && is_error_of_kind(e, k),
                None => match command.service_name {
                    Some(n) => r matches PrepareStep::LocateWorkspace { service_name } && service_name@ == n@,
                    None => if !prompt_is_interactive {
                        r matches PrepareStep::Planned(Err(AddServiceError::MissingRequiredInput(f))) && f@
                            == "name"@
                    } else {
                        r is PromptServiceName
                    },
                },
            },
    {
        let request = command.to_request();
        if let Err(e) = self.request_validator.validate_request(&request) {
            return PrepareStep::Planned(Err(e));
        }
        match service_name_decision(&request, prompt_is_interactive) {
            Err(e) => PrepareStep::Planned(Err(e)),
            Ok(None) => PrepareStep::PromptServiceName,
            Ok(Some(name)) => self.after_service_name(name),
        }
    }

    /// Takes the next preparation step with what the caller did for the current
    /// one. A step that does not expect the event is returned as it is.
    pub fn resume_preparation(&self, command: &AddServiceCommand, step: PrepareStep, event: PrepareEvent) -> (r:
        PrepareStep)
        ensures
            match (step, event) {
                (PrepareStep::PromptServiceName, PrepareEvent::ServiceNamePrompted(Err(f))) => if f.cancelled {
                    r matches PrepareStep::Planned(Err(AddServiceError::Interrupted))
                } else {
                    r == PrepareStep::Planned(Err(AddServiceError::PromptFailed(f.message)))
                },
                (PrepareStep::PromptServiceName, PrepareEvent::ServiceNamePrompted(Ok(name))) => if is_valid_service_name(
                    name@,
                ) {
                    r == (PrepareStep::LocateWorkspace { service_name: name })
                } else {
                    r matches PrepareStep::Planned(Err(AddServiceError::InvalidServiceName(n))) && n@ == name@
                },
                (PrepareStep::LocateWorkspace { .. }, PrepareEvent::WorkspaceLocated(Err(e))) => r
                    == PrepareStep::Planned(Err(AddServiceError::Internal(e))),
                (PrepareStep::LocateWorkspace { service_name }, PrepareEvent::WorkspaceLocated(Ok(scan))) => {
                    if none_marked(scan_marks(scan@)) {
                        r matches PrepareStep::Planned(Err(AddServiceError::InvalidWorkspaceContext(m))) && m@
                            == no_workspace_message()
                    } else {
                        match command.template_id {
                            Some(g) => r matches PrepareStep::ResolveGenerator {
                                service_name: n,
                                workspace_root,
                                generator_identifier,
                            } && n == service_name && is_first_marked(
                                scan_dirs(scan@),
                                scan_marks(scan@),
                                workspace_root@,
                            ) && generator_identifier@ == g@,
                            None => if command.no_input || !command.is_interactive_terminal {
                                r matches PrepareStep::Planned(Err(AddServiceError::MissingRequiredInput(f)))
                                    && f@ == "generator"@
                            } else {
                                r matches PrepareStep::ListGenerators { service_name: n, workspace_root } && n
                                    == service_name && is_first_marked(
                                    scan_dirs(scan@),
                                    scan_marks(scan@),
                                    workspace_root@,
                                )
                            },
                        }
                    }
                },
                (PrepareStep::ListGenerators { .. }, PrepareEvent::GeneratorsListed(Err(e))) => r
                    == PrepareStep::Planned(Err(e)),
                (
                    PrepareStep::ListGenerators { service_name, workspace_root },
                    PrepareEvent::GeneratorsListed(Ok(generators)),
                ) => if generators@.len() == 0 {
                    r matches PrepareStep::Planned(Err(AddServiceError::GeneratorNotFound(g))) && g@
                        == "<service generator>"@
                } else {
                    r == (PrepareStep::PromptGenerator { service_name, workspace_root, generators })
                },
                (PrepareStep::PromptGenerator { .. }, PrepareEvent::GeneratorPrompted(Err(m))) => r
                    == PrepareStep::Planned(Err(AddServiceError::PromptFailed(m))),
                (
                    PrepareStep::PromptGenerator { service_name, workspace_root, .. },
                    PrepareEvent::GeneratorPrompted(Ok(id)),
                ) => r == (PrepareStep::ResolveGenerator {
                    service_name,
                    workspace_root,
                    generator_identifier: id,
                }),
                (PrepareStep::ResolveGenerator { .. }, PrepareEvent::GeneratorResolved(Err(e))) => r
                    == PrepareStep::Planned(Err(e)),
                (
                    PrepareStep::ResolveGenerator { service_name, workspace_root, .. },
                    PrepareEvent::GeneratorResolved(Ok(resolution)),
                ) => r == (PrepareStep::InspectWorkspace { service_name, workspace_root, resolution }),
                (
                    PrepareStep::InspectWorkspace { service_name, workspace_root, resolution },
                    PrepareEvent::WorkspaceInspected { output_root_exists, workspace_file },
                ) => r matches PrepareStep::Planned(outcome) && plan_outcome(
                    service_name@,
                    workspace_root@,
                    resolution,
                    output_root_exists,
                    workspace_file,
                    outcome,
                ),
                (s, _) => r == s,
            },
    {
        match (step, event) {
            (PrepareStep::PromptServiceName, PrepareEvent::ServiceNamePrompted(prompted)) => match prompted {
                Err(f) => PrepareStep::Planned(Err(map_prompt_error(f.cancelled, f.message))),
                Ok(name) => self.after_service_name(name),
            },
            (PrepareStep::LocateWorkspace { service_name }, PrepareEvent::WorkspaceLocated(located)) => {
                match located {
                    Err(e) => PrepareStep::Planned(Err(AddServiceError::Internal(e))),
                    Ok(scan) => {
                        let (dirs, marks) = split_scan(&scan);
                        match self.workspace_context_guard.ensure_workspace_root(&dirs, &marks) {
                            Err(e) => PrepareStep::Planned(Err(e)),
                            Ok(workspace_root) => {
                                let request = command.to_request();
                                match generator_decision(&request) {
                                    Err(e) => PrepareStep::Planned(Err(e)),
                                    Ok(Some(generator_identifier)) => PrepareStep::ResolveGenerator {
                                        service_name,
                                        workspace_root,
                                        generator_identifier,
                                    },
                                    Ok(None) => PrepareStep::ListGenerators { service_name, workspace_root },
                                }
                            },
                        }
                    },
                }
            },
            (
                PrepareStep::ListGenerators { service_name, workspace_root },
                PrepareEvent::GeneratorsListed(listed),
            ) => match listed {
                Err(e) => PrepareStep::Planned(Err(e)),
                Ok(generators) => match check_generators_found(generators.len()) {
                    Err(e) => PrepareStep::Planned(Err(e)),
                    Ok(()) => PrepareStep::PromptGenerator { service_name, workspace_root, generators },
                },
            },
            (
                PrepareStep::PromptGenerator { service_name, workspace_root, generators },
                PrepareEvent::GeneratorPrompted(prompted),
            ) => match prompted {
                Err(m) => PrepareStep::Planned(Err(AddServiceError::PromptFailed(m))),
                Ok(generator_identifier) => PrepareStep::ResolveGenerator {
                    service_name,
                    workspace_root,
                    generator_identifier,
                },
            },
            (
                PrepareStep::ResolveGenerator { service_name, workspace_root, generator_identifier },
                PrepareEvent::GeneratorResolved(resolved),
            ) => match resolved {
                Err(e) => PrepareStep::Planned(Err(e)),
                Ok(resolution) => PrepareStep::InspectWorkspace { service_name, workspace_root, resolution },
            },
            (
                PrepareStep::InspectWorkspace { service_name, workspace_root, resolution },
                PrepareEvent::WorkspaceInspected { output_root_exists, workspace_file },
            ) => PrepareStep::Planned(
                self.plan_builder.build(
                    service_name.as_str(),
                    workspace_root.as_str(),
                    &resolution,
                    output_root_exists,
                    workspace_file,
                ),
            ),
            (s, _) => s,
        }
    }

    /// Starts carrying out a plan: the workspace is looked for again first.
    pub fn execute_generation_plan(&self, plan: ServiceGenerationPlan) -> (r: ExecuteStep)
        ensures
            r == (ExecuteStep::LocateWorkspace { plan }),
    {
        ExecuteStep::LocateWorkspace { plan }
    }

    /// Takes the next execution step with what the caller did for the current one:
    /// once the service is rendered, its provenance record is handed to the store; a
    /// failure of either asks for a cleanup. A step that does not expect the event is
    /// returned as it is.
    pub fn resume_execution(&self, step: ExecuteStep, event: ExecuteEvent) -> (r: ExecuteStep)
        ensures
            execution_next(step, event, r),
    {
        match (step, event) {
            (ExecuteStep::LocateWorkspace { plan }, ExecuteEvent::WorkspaceLocated(located)) => match located {
                Err(e) => ExecuteStep::Finished(Err(AddServiceError::Internal(e))),
                Ok(scan) => {
                    let (dirs, marks) = split_scan(&scan);
                    match self.workspace_context_guard.ensure_workspace_root(&dirs, &marks) {
                        Err(e) => ExecuteStep::Finished(Err(e)),
                        Ok(workspace_root) => ExecuteStep::Render { plan, workspace_root },
                    }
                },
            },
            (ExecuteStep::Render { plan, workspace_root }, ExecuteEvent::Rendered(rendered)) => match rendered {
                Err(e) => ExecuteStep::CleanUp { output_root: plan.output_root, error: e },
                Ok(()) => {
                    let version = plan.generator_version.to_text();
                    let record = provenance_record(
                        plan.service_name.as_str(),
                        plan.generator_id.as_str(),
                        version.as_str(),
                    );
                    ExecuteStep::RecordProvenance { plan, workspace_root, record }
                },
            },
            (
                ExecuteStep::RecordProvenance { plan, workspace_root, record },
                ExecuteEvent::ProvenanceRecorded(recorded),
            ) => match provenance_outcome(recorded) {
                Ok(()) => ExecuteStep::Finished(Ok(command_result(&plan))),
                Err(e) => ExecuteStep::CleanUp { output_root: plan.output_root, error: e },
            },
            (ExecuteStep::CleanUp { output_root, error }, ExecuteEvent::CleanedUp(cleaned)) => ExecuteStep::Finished(
                Err(wrap_cleanup_failure(cleaned, error)),
            ),
            (s, _) => s,
        }
    }
}

} // verus!
