//! Commands that add a module (web API, persistence, mediator) to a service, and
//! the parameters, checks and workspace-file edits their handlers make.
use vstd::prelude::*;

use crate::template_management::artifact_generation_service::{
    add_module_error, add_module_to_yaml, missing_namespace_message, module_added, service_views,
    spec_extract_services, spec_namespace, AddArtifactContext, ArtifactGenerationService, ServiceInfo, TemplateEngine, TemplateRootResolver,
    WorkspaceContext, WorkingDirectoryProvider,
};
use crate::template_management::errors::{AddArtifactError, TemplateError};
use crate::template_management::feature_paths::{join_path, spec_join};
use crate::template_management::transaction::YamlBackup;
use crate::template_management::model::{
    last_value, pair_views, param_lookup, param_str, params_from_pairs, string_parameters,
    ParamValue, TemplateParameters,
};
use crate::text::concat;
use crate::yaml::YamlValue;

verus! {

/// The parameter naming the presentation layer a persistence module serves.
pub const PRESENTATION_LAYER: &'static str = "PresentationLayer";

/// The text of a flag: `true` or `false`.
pub open spec fn bool_text(b: bool) -> Seq<char> {
    if b {
        "true"@
    } else {
        "false"@
    }
}

/// The text of a flag, as `bool::to_string` gives it.
pub fn bool_string(b: bool) -> (r: String)
    ensures
        r@ == bool_text(b),
{
    if b {
        "true".to_owned()
    } else {
        "false".to_owned()
    }
}

/// The namespace of the workspace, or the configuration error for its absence.
fn namespace_of(yaml: &YamlValue) -> (r: Result<String, AddArtifactError>)
    ensures
        match spec_namespace(*yaml) {
            Some(n) => r matches Ok(s) && s@ == n,
            None => r matches Err(AddArtifactError::ConfigError(m)) && m@
                == missing_namespace_message(),
        },
{
    match yaml.str_at("workspace", "namespace") {
        Some(n) => Ok(n.clone()),
        None => Err(
            AddArtifactError::ConfigError(
                "Missing 'workspace.namespace' in nfw.yaml. This is required for feature discovery.".to_owned(),
            ),
        ),
    }
}

/// The options of a web API module.
#[derive(Debug, Clone, Copy, Default, PartialEq, Eq)]
pub struct WebApiConfig {
    pub use_openapi: bool,
    pub use_health_checks: bool,
    pub use_cors: bool,
    pub use_problem_details: bool,
}

impl WebApiConfig {
    /// All options off.
    pub fn new() -> (r: WebApiConfig)
        ensures
            !r.use_openapi && !r.use_health_checks && !r.use_cors && !r.use_problem_details,
    {
        WebApiConfig {
            use_openapi: false,
            use_health_checks: false,
            use_cors: false,
            use_problem_details: false,
        }
    }

    pub fn with_openapi(self, on: bool) -> (r: WebApiConfig)
        ensures
            r == (WebApiConfig { use_openapi: on, ..self }),
    {
        WebApiConfig { use_openapi: on, ..self }
    }

    pub fn with_health_checks(self, on: bool) -> (r: WebApiConfig)
        ensures
            r == (WebApiConfig { use_health_checks: on, ..self }),
    {
        WebApiConfig { use_health_checks: on, ..self }
    }

    pub fn with_cors(self, on: bool) -> (r: WebApiConfig)
        ensures
            r == (WebApiConfig { use_cors: on, ..self }),
    {
        WebApiConfig { use_cors: on, ..self }
    }

    pub fn with_problem_details(self, on: bool) -> (r: WebApiConfig)
        ensures
            r == (WebApiConfig { use_problem_details: on, ..self }),
    {
        WebApiConfig { use_problem_details: on, ..self }
    }
}

/// Adds a web API module to a service.
#[derive(Debug)]
pub struct AddWebApiCommand {
    pub service_info: ServiceInfo,
    pub workspace_context: WorkspaceContext,
    pub config: WebApiConfig,
}

impl AddWebApiCommand {
    /// The generator type of the module.
    pub const GENERATOR_TYPE: &'static str = "webapi";

    pub fn new(service_info: ServiceInfo, workspace_context: WorkspaceContext, config: WebApiConfig) -> (r:
        AddWebApiCommand)
        ensures
            r.service_info == service_info,
            r.workspace_context == workspace_context,
            r.config == config,
    {
        AddWebApiCommand { service_info, workspace_context, config }
    }

    pub fn service_info(&self) -> (r: &ServiceInfo)
        ensures
            *r == self.service_info,
    {
        &self.service_info
    }

    pub fn workspace_context(&self) -> (r: &WorkspaceContext)
        ensures
            *r == self.workspace_context,
    {
        &self.workspace_context
    }

    pub fn config(&self) -> (r: WebApiConfig)
        ensures
            r == self.config,
    {
        self.config
    }
}

/// The parameters of a web API module: the standard ones, then the options.
pub open spec fn webapi_pairs(name: Seq<char>, namespace: Seq<char>, config: WebApiConfig) -> Seq<
    (Seq<char>, Seq<char>),
> {
    seq![
        ("Name"@, name),
        ("Namespace"@, namespace),
        ("Service"@, name),
        ("UseOpenApi"@, bool_text(config.use_openapi)),
        ("UseHealthChecks"@, bool_text(config.use_health_checks)),
        ("UseCors"@, bool_text(config.use_cors)),
        ("UseProblemDetails"@, bool_text(config.use_problem_details)),
    ]
}

/// The parameters a web API module is rendered with.
pub fn webapi_parameters(yaml: &YamlValue, service_name: &str, config: WebApiConfig) -> (r: Result<
    TemplateParameters,
    AddArtifactError,
>)
    ensures
        match spec_namespace(*yaml) {
            Some(ns) => r matches Ok(p) && params_from_pairs(
                p.entries@,
                webapi_pairs(service_name@, ns, config),
            ),
            None => r matches Err(AddArtifactError::ConfigError(m)) && m@
                == missing_namespace_message(),
        },
{
    let namespace = namespace_of(yaml)?;
    let mut pairs: Vec<(String, String)> = Vec::new();
    pairs.push(("Name".to_owned(), service_name.to_owned()));
    pairs.push(("Namespace".to_owned(), namespace));
    pairs.push(("Service".to_owned(), service_name.to_owned()));
    pairs.push(("UseOpenApi".to_owned(), bool_string(config.use_openapi)));
    pairs.push(("UseHealthChecks".to_owned(), bool_string(config.use_health_checks)));
    pairs.push(("UseCors".to_owned(), bool_string(config.use_cors)));
    pairs.push(("UseProblemDetails".to_owned(), bool_string(config.use_problem_details)));
    proof {
        reveal_strlit("Name");
        reveal_strlit("Namespace");
        reveal_strlit("Service");
        reveal_strlit("UseOpenApi");
        reveal_strlit("UseHealthChecks");
        reveal_strlit("UseCors");
        reveal_strlit("UseProblemDetails");
        assert(pair_views(pairs@) =~= webapi_pairs(
            service_name@,
            spec_namespace(*yaml).unwrap(),
            config,
        ));
    }
    Ok(string_parameters(&pairs))
}

/// The message when the service already has a web API module.
pub open spec fn webapi_exists_message(service: Seq<char>) -> Seq<char> {
    "WebAPI module already exists for service '"@ + service + "'. No changes were made."@
}

/// The error when the service already has a web API module.
pub fn webapi_exists_error(service_name: &str) -> (r: AddArtifactError)
    ensures
        r matches AddArtifactError::WorkspaceError(m) && m@ == webapi_exists_message(service_name@),
{
    let mut m = concat("WebAPI module already exists for service '", service_name);
    m.append("'. No changes were made.");
    AddArtifactError::WorkspaceError(m)
}

/// Adds a persistence module to a service, for one of its presentation layers.
#[derive(Debug)]
pub struct AddPersistenceCommand {
    pub service_info: ServiceInfo,
    pub workspace_context: WorkspaceContext,
    pub presentation_layer: String,
}

impl AddPersistenceCommand {
    /// The generator type of the module.
    pub const GENERATOR_TYPE: &'static str = "persistence";

    /// A persistence command; the presentation layer must not be empty.
    pub fn new(service_info: ServiceInfo, workspace_context: WorkspaceContext, presentation_layer: String) -> (r:
        Result<AddPersistenceCommand, String>)
        ensures
            presentation_layer@.len() == 0 <==> r is Err,
            r matches Err(m) ==> m@ == "Presentation layer cannot be empty"@,
            r matches Ok(c) ==> c.service_info == service_info && c.workspace_context
                == workspace_context && c.presentation_layer == presentation_layer,
    {
        if presentation_layer.unicode_len() == 0 {
            return Err("Presentation layer cannot be empty".to_owned());
        }
        Ok(AddPersistenceCommand { service_info, workspace_context, presentation_layer })
    }

    pub fn service_info(&self) -> (r: &ServiceInfo)
        ensures
            *r == self.service_info,
    {
        &self.service_info
    }

    pub fn workspace_context(&self) -> (r: &WorkspaceContext)
        ensures
            *r == self.workspace_context,
    {
        &self.workspace_context
    }

    pub fn presentation_layer(&self) -> (r: &str)
        ensures
            r@ == self.presentation_layer@,
    {
        self.presentation_layer.as_str()
    }
}

/// The parameters of a persistence module: the standard ones and the presentation layer.
pub open spec fn persistence_pairs(name: Seq<char>, namespace: Seq<char>, layer: Seq<char>) -> Seq<
    (Seq<char>, Seq<char>),
> {
    seq![("Name"@, name), ("Namespace"@, namespace), ("Service"@, name), (PRESENTATION_LAYER@, layer)]
}

/// The parameters a persistence module is rendered with.
pub fn persistence_parameters(yaml: &YamlValue, service_name: &str, presentation_layer: &str) -> (r:
    Result<TemplateParameters, AddArtifactError>)
    ensures
        match spec_namespace(*yaml) {
            Some(ns) => r matches Ok(p) && params_from_pairs(
                p.entries@,
                persistence_pairs(service_name@, ns, presentation_layer@),
            ),
            None => r matches Err(AddArtifactError::ConfigError(m)) && m@
                == missing_namespace_message(),
        },
{
    let namespace = namespace_of(yaml)?;
    let mut pairs: Vec<(String, String)> = Vec::new();
    pairs.push(("Name".to_owned(), service_name.to_owned()));
    pairs.push(("Namespace".to_owned(), namespace));
    pairs.push(("Service".to_owned(), service_name.to_owned()));
    pairs.push((PRESENTATION_LAYER.to_owned(), presentation_layer.to_owned()));
    proof {
        reveal_strlit("Name");
        reveal_strlit("Namespace");
        reveal_strlit("Service");
        reveal_strlit("PresentationLayer");
        assert(pair_views(pairs@) =~= persistence_pairs(
            service_name@,
            spec_namespace(*yaml).unwrap(),
            presentation_layer@,
        ));
    }
    Ok(string_parameters(&pairs))
}

/// Adds a mediator module to a service.
#[derive(Debug)]
pub struct AddMediatorCommand {
    pub service_name: String,
}

impl AddMediatorCommand {
    pub fn new(service_name: String) -> (r: AddMediatorCommand)
        ensures
            r.service_name == service_name,
    {
        AddMediatorCommand { service_name }
    }
}

/// The parameters of a mediator module: its name and the namespace.
pub open spec fn mediator_pairs(name: Seq<char>, namespace: Seq<char>) -> Seq<(Seq<char>, Seq<char>)> {
    seq![("Name"@, name), ("Namespace"@, namespace)]
}

/// The parameters a mediator module is rendered with.
pub fn mediator_parameters(yaml: &YamlValue, command: &AddMediatorCommand) -> (r: Result<
    TemplateParameters,
    AddArtifactError,
>)
    ensures
        match spec_namespace(*yaml) {
            Some(ns) => r matches Ok(p) && params_from_pairs(
                p.entries@,
                mediator_pairs(command.service_name@, ns),
            ),
            None => r matches Err(AddArtifactError::ConfigError(m)) && m@
                == missing_namespace_message(),
        },
{
    let namespace = namespace_of(yaml)?;
    let mut pairs: Vec<(String, String)> = Vec::new();
    pairs.push(("Name".to_owned(), command.service_name.clone()));
    pairs.push(("Namespace".to_owned(), namespace));
    proof {
        reveal_strlit("Name");
        reveal_strlit("Namespace");
        assert(pair_views(pairs@) =~= mediator_pairs(
            command.service_name@,
            spec_namespace(*yaml).unwrap(),
        ));
    }
    Ok(string_parameters(&pairs))
}

/// Tests whether a module can be registered for `service`: the document has a
/// `services` mapping whose entry for the service is a mapping.
pub fn can_register_module(yaml: &YamlValue, service: &str) -> (r: bool)
    ensures
        r == (add_module_error(*yaml, service@) is None),
{
    match yaml.get("services") {
        Some(s) => match s {
            YamlValue::Mapping(_) => match s.get(service) {
                Some(YamlValue::Mapping(_)) => true,
                _ => false,
            },
            _ => false,
        },
        None => false,
    }
}

/// The workspace document after registering the mediator (or another) module for
/// `service`, as the mediator handler does it: a document without the service is
/// left as it is.
pub fn register_module_if_present(yaml: YamlValue, service: &str, module: &str) -> (r: YamlValue)
    ensures
        add_module_error(yaml, service@) is None ==> module_added(yaml, r, service@, module@),
        add_module_error(yaml, service@) is Some ==> r == yaml,
{
    if can_register_module(&yaml, service) {
        match add_module_to_yaml(yaml, service, module) {
            Ok(after) => after,
            Err(_) => {
                assert(false);
                YamlValue::Null
            },
        }
    } else {
        yaml
    }
}

/// Handles the command that adds a web API module.
#[derive(Debug)]
pub struct AddWebApiCommandHandler<W, R, E> {
    pub service: ArtifactGenerationService<W, R, E>,
}

impl<W: WorkingDirectoryProvider, R: TemplateRootResolver, E: TemplateEngine> AddWebApiCommandHandler<W, R, E> {
    pub fn new(working_dir_provider: W, root_resolver: R, engine: E) -> (r: Self)
        ensures
            r.service.working_dir_provider == working_dir_provider,
            r.service.root_resolver == root_resolver,
            r.service.engine == engine,
    {
        AddWebApiCommandHandler {
            service: ArtifactGenerationService::new(working_dir_provider, root_resolver, engine),
        }
    }

    /// The services declared in the workspace.
    pub fn extract_services(&self, workspace: &WorkspaceContext) -> (r: Result<Vec<ServiceInfo>, AddArtifactError>)
        ensures
            match r {
                Ok(v) => spec_extract_services(workspace.nfw_yaml) == Ok::<
                    Seq<(Seq<char>, Seq<char>, Seq<char>)>,
                    Seq<char>,
                >(service_views(v@)),
                Err(AddArtifactError::ConfigError(m)) => spec_extract_services(workspace.nfw_yaml)
                    == Err::<Seq<(Seq<char>, Seq<char>, Seq<char>)>, Seq<char>>(m@),
                Err(_) => false,
            },
    {
        self.service.extract_services(workspace)
    }
}

/// Handles the command that adds a persistence module.
#[derive(Debug)]
pub struct AddPersistenceCommandHandler<W, R, E> {
    pub service: ArtifactGenerationService<W, R, E>,
}

impl<W: WorkingDirectoryProvider, R: TemplateRootResolver, E: TemplateEngine> AddPersistenceCommandHandler<W, R, E> {
    pub fn new(working_dir_provider: W, root_resolver: R, engine: E) -> (r: Self)
        ensures
            r.service.working_dir_provider == working_dir_provider,
            r.service.root_resolver == root_resolver,
            r.service.engine == engine,
    {
        AddPersistenceCommandHandler {
            service: ArtifactGenerationService::new(working_dir_provider, root_resolver, engine),
        }
    }

    /// The services declared in the workspace.
    pub fn extract_services(&self, workspace: &WorkspaceContext) -> (r: Result<Vec<ServiceInfo>, AddArtifactError>)
        ensures
            match r {
                Ok(v) => spec_extract_services(workspace.nfw_yaml) == Ok::<
                    Seq<(Seq<char>, Seq<char>, Seq<char>)>,
                    Seq<char>,
                >(service_views(v@)),
                Err(AddArtifactError::ConfigError(m)) => spec_extract_services(workspace.nfw_yaml)
                    == Err::<Seq<(Seq<char>, Seq<char>, Seq<char>)>, Seq<char>>(m@),
                Err(_) => false,
            },
    {
        self.service.extract_services(workspace)
    }
}

/// Handles the command that adds a mediator module.
#[derive(Debug)]
pub struct AddMediatorCommandHandler<W, R, E> {
    pub service: ArtifactGenerationService<W, R, E>,
}

impl<W: WorkingDirectoryProvider, R: TemplateRootResolver, E: TemplateEngine> AddMediatorCommandHandler<W, R, E> {
    pub fn new(working_dir_provider: W, root_resolver: R, engine: E) -> (r: Self)
        ensures
            r.service.working_dir_provider == working_dir_provider,
            r.service.root_resolver == root_resolver,
            r.service.engine == engine,
    {
        AddMediatorCommandHandler {
            service: ArtifactGenerationService::new(working_dir_provider, root_resolver, engine),
        }
    }
}

/// Why preparing a module generation failed.
#[derive(Debug)]
pub enum PrepareFailure {
    /// `nfw.yaml` could not be backed up.
    Backup(String),
    /// The files below the output directory could not be listed.
    Tracking(String),
}

/// Where a module command (web API or persistence) stands: what it asks the caller
/// to do next, or its outcome.
#[derive(Debug)]
pub enum ModuleStep {
    /// Tell whether the module is already registered for the service.
    CheckRegistered,
    /// Load the template context of the module's generator.
    LoadContext,
    /// Back up `nfw.yaml` and start tracking the files below the output directory.
    Prepare { context: AddArtifactContext, parameters: TemplateParameters, output_root: String },
    /// Run the template engine on the template of `context` (its configuration and
    /// root) into `output_root`, with `parameters`.
    Render { context: AddArtifactContext, parameters: TemplateParameters, output_root: String },
    /// Register the module for the service in `nfw.yaml`.
    Register,
    /// Remove the files the generation created, restore `nfw.yaml` from its backup
    /// when `restore_workspace_file`, then fail with `error`.
    RollBack { restore_workspace_file: bool, error: AddArtifactError },
    /// The command is done.
    Finished(Result<(), AddArtifactError>),
}

/// What the caller did for the step it was asked to take.
#[derive(Debug)]
pub enum ModuleEvent {
    RegistrationChecked(Result<bool, AddArtifactError>),
    ContextLoaded(Result<AddArtifactContext, AddArtifactError>),
    Prepared(Result<(), PrepareFailure>),
    /// What the template engine answered.
    Rendered(Result<(), TemplateError>),
    Registered(Result<(), AddArtifactError>),
    RolledBack,
}

/// The message when file tracking cannot start.
pub open spec fn tracking_failure_message(reason: Seq<char>) -> Seq<char> {
    "Failed to initialize file tracking: "@ + reason
}

/// The next step of the steps every module command shares once its parameters are
/// built: prepare, render, register, and roll back on failure. A step that is not
/// one of them, or that does not expect the event, stays as it is.
pub open spec fn shared_next(step: ModuleStep, event: ModuleEvent, r: ModuleStep) -> bool {
    match (step, event) {
        (ModuleStep::Prepare { .. }, ModuleEvent::Prepared(Err(PrepareFailure::Backup(e)))) => r matches ModuleStep::Finished(
            Err(AddArtifactError::WorkspaceError(m)),
        ) && m@ == "Failed to backup nfw.yaml: "@ + e@,
        (ModuleStep::Prepare { .. }, ModuleEvent::Prepared(Err(PrepareFailure::Tracking(e)))) => r matches ModuleStep::Finished(
            Err(AddArtifactError::WorkspaceError(m)),
        ) && m@ == tracking_failure_message(e@),
        (ModuleStep::Prepare { context, parameters, output_root }, ModuleEvent::Prepared(Ok(()))) => r
            == (ModuleStep::Render { context, parameters, output_root }),
        (ModuleStep::Render { .. }, ModuleEvent::Rendered(Ok(()))) => r is Register,
        (ModuleStep::Render { .. }, ModuleEvent::Rendered(Err(e))) => r matches ModuleStep::RollBack {
            restore_workspace_file: false,
            error: AddArtifactError::ExecutionFailed(b),
        } && *b == e,
        (ModuleStep::Register, ModuleEvent::Registered(Ok(()))) => r == ModuleStep::Finished(Ok(())),
        (ModuleStep::Register, ModuleEvent::Registered(Err(e))) => r == (ModuleStep::RollBack {
            restore_workspace_file: true,
            error: e,
        }),
        (ModuleStep::RollBack { error, .. }, ModuleEvent::RolledBack) => r == ModuleStep::Finished(Err(error)),
        (s, _) => r == s,
    }
}

/// Takes the next of the steps every module command shares (see `shared_next`).
fn shared_module_step(step: ModuleStep, event: ModuleEvent) -> (r: ModuleStep)
    ensures
        shared_next(step, event, r),
{
    match (step, event) {
        (ModuleStep::Prepare { context, parameters, output_root }, ModuleEvent::Prepared(prepared)) => {
            match prepared {
                Err(PrepareFailure::Backup(e)) => ModuleStep::Finished(Err(YamlBackup::backup_failed(e.as_str()))),
                Err(PrepareFailure::Tracking(e)) => ModuleStep::Finished(
                    Err(AddArtifactError::WorkspaceError(concat("Failed to initialize file tracking: ", e.as_str()))),
                ),
                Ok(()) => ModuleStep::Render { context, parameters, output_root },
            }
        },
        (ModuleStep::Render { .. }, ModuleEvent::Rendered(rendered)) => match rendered {
            Ok(()) => ModuleStep::Register,
            Err(e) => ModuleStep::RollBack {
                restore_workspace_file: false,
                error: AddArtifactError::ExecutionFailed(Box::new(e)),
            },
        },
        (ModuleStep::Register, ModuleEvent::Registered(registered)) => match registered {
            Ok(()) => ModuleStep::Finished(Ok(())),
            Err(e) => ModuleStep::RollBack { restore_workspace_file: true, error: e },
        },
        (ModuleStep::RollBack { restore_workspace_file, error }, ModuleEvent::RolledBack) => ModuleStep::Finished(
            Err(error),
        ),
        (s, _) => s,
    }
}

impl<W: WorkingDirectoryProvider, R: TemplateRootResolver, E: TemplateEngine> AddWebApiCommandHandler<W, R, E> {
    /// Starts the command: asks whether the web API module is registered already.
    pub fn handle(&self, cmd: &AddWebApiCommand) -> (r: ModuleStep)
        ensures
            r is CheckRegistered,
    {
        ModuleStep::CheckRegistered
    }

    /// Takes the next step with what the caller did for the current one. A step
    /// that does not expect the event is returned as it is.
    pub fn resume(&self, cmd: &AddWebApiCommand, step: ModuleStep, event: ModuleEvent) -> (r: ModuleStep)
        ensures
            match (step, event) {
                (ModuleStep::CheckRegistered, ModuleEvent::RegistrationChecked(Err(e))) => r
                    == ModuleStep::Finished(Err(e)),
                (ModuleStep::CheckRegistered, ModuleEvent::RegistrationChecked(Ok(true))) => r matches ModuleStep::Finished(
                    Err(AddArtifactError::WorkspaceError(m)),
                ) && m@ == webapi_exists_message(cmd.service_info.name@),
                (ModuleStep::CheckRegistered, ModuleEvent::RegistrationChecked(Ok(false))) => r is LoadContext,
                (ModuleStep::LoadContext, ModuleEvent::ContextLoaded(Err(e))) => r == ModuleStep::Finished(
                    Err(e),
                ),
                (ModuleStep::LoadContext, ModuleEvent::ContextLoaded(Ok(c))) => match spec_namespace(
                    cmd.workspace_context.nfw_yaml,
                ) {
                    None => r matches ModuleStep::Finished(Err(AddArtifactError::ConfigError(m))) && m@
                        == missing_namespace_message(),
                    Some(ns) => r matches ModuleStep::Prepare { context, parameters, output_root } && context
                        == c && params_from_pairs(
                        parameters.entries@,
                        webapi_pairs(cmd.service_info.name@, ns, cmd.config),
                    ) && output_root@ == spec_join(
                        cmd.workspace_context.workspace_root@,
                        cmd.service_info.path@,
                    ),
                },
                (s, ev) => shared_next(s, ev, r),
            },
    {
        match (step, event) {
            (ModuleStep::CheckRegistered, ModuleEvent::RegistrationChecked(checked)) => match checked {
                Err(e) => ModuleStep::Finished(Err(e)),
                Ok(true) => ModuleStep::Finished(Err(webapi_exists_error(cmd.service_info.name.as_str()))),
                Ok(false) => ModuleStep::LoadContext,
            },
            (ModuleStep::LoadContext, ModuleEvent::ContextLoaded(loaded)) => match loaded {
                Err(e) => ModuleStep::Finished(Err(e)),
                Ok(context) => match webapi_parameters(
                    &cmd.workspace_context.nfw_yaml,
                    cmd.service_info.name.as_str(),
                    cmd.config,
                ) {
                    Err(e) => ModuleStep::Finished(Err(e)),
                    Ok(parameters) => ModuleStep::Prepare {
                        context,
                        parameters,
                        output_root: join_path(
                            cmd.workspace_context.workspace_root.as_str(),
                            cmd.service_info.path.as_str(),
                        ),
                    },
                },
            },
            (s, ev) => shared_module_step(s, ev),
        }
    }
}

impl<W: WorkingDirectoryProvider, R: TemplateRootResolver, E: TemplateEngine> AddPersistenceCommandHandler<
    W,
    R,
    E,
> {
    /// Starts the command: asks for the template context of the persistence generator.
    pub fn handle(&self, cmd: &AddPersistenceCommand) -> (r: ModuleStep)
        ensures
            r is LoadContext,
    {
        ModuleStep::LoadContext
    }

    /// Takes the next step with what the caller did for the current one. A step
    /// that does not expect the event is returned as it is.
    pub fn resume(&self, cmd: &AddPersistenceCommand, step: ModuleStep, event: ModuleEvent) -> (r: ModuleStep)
        ensures
            match (step, event) {
                (ModuleStep::LoadContext, ModuleEvent::ContextLoaded(Err(e))) => r == ModuleStep::Finished(
                    Err(e),
                ),
                (ModuleStep::LoadContext, ModuleEvent::ContextLoaded(Ok(c))) => match spec_namespace(
                    cmd.workspace_context.nfw_yaml,
                ) {
                    None => r matches ModuleStep::Finished(Err(AddArtifactError::ConfigError(m))) && m@
                        == missing_namespace_message(),
                    Some(ns) => r matches ModuleStep::Prepare { context, parameters, output_root } && context
                        == c && params_from_pairs(
                        parameters.entries@,
                        persistence_pairs(cmd.service_info.name@, ns, cmd.presentation_layer@),
                    ) && output_root@ == spec_join(
                        cmd.workspace_context.workspace_root@,
                        cmd.service_info.path@,
                    ),
                },
                (s, ev) => shared_next(s, ev, r),
            },
    {
        match (step, event) {
            (ModuleStep::LoadContext, ModuleEvent::ContextLoaded(loaded)) => match loaded {
                Err(e) => ModuleStep::Finished(Err(e)),
                Ok(context) => match persistence_parameters(
                    &cmd.workspace_context.nfw_yaml,
                    cmd.service_info.name.as_str(),
                    cmd.presentation_layer.as_str(),
                ) {
                    Err(e) => ModuleStep::Finished(Err(e)),
                    Ok(parameters) => ModuleStep::Prepare {
                        context,
                        parameters,
                        output_root: join_path(
                            cmd.workspace_context.workspace_root.as_str(),
                            cmd.service_info.path.as_str(),
                        ),
                    },
                },
            },
            (s, ev) => shared_module_step(s, ev),
        }
    }
}

/// Why the updated `nfw.yaml` could not be written.
#[derive(Debug)]
pub enum WriteFailure {
    /// The document could not be turned into text.
    Serialize(String),
    /// The file could not be written.
    Write(String),
}

/// Where the mediator command stands: what it asks the caller to do next, or its
/// outcome.
#[derive(Debug)]
pub enum MediatorStep {
    /// Load the template context of the mediator generator.
    LoadContext,
    /// Run the template engine on the template of `context` (its configuration and
    /// root) into `output_root`, with `parameters`.
    Render { context: AddArtifactContext, parameters: TemplateParameters, output_root: String },
    /// Read `nfw.yaml` to register the module.
    ReadWorkspaceFile,
    /// Write `document` to `nfw.yaml`.
    WriteWorkspaceFile { document: YamlValue },
    /// The command is done.
    Finished(Result<(), AddArtifactError>),
}

/// What the caller did for the mediator step it was asked to take.
#[derive(Debug)]
pub enum MediatorEvent {
    ContextLoaded(Result<AddArtifactContext, AddArtifactError>),
    /// What the template engine answered.
    Rendered(Result<(), TemplateError>),
    /// The read error, the parse error, or the document.
    WorkspaceFileRead(Result<Result<YamlValue, String>, String>),
    WorkspaceFileWritten(Result<(), WriteFailure>),
}

impl<W: WorkingDirectoryProvider, R: TemplateRootResolver, E: TemplateEngine> AddMediatorCommandHandler<W, R, E> {
    /// The services declared in the workspace.
    pub fn extract_services(&self, workspace: &WorkspaceContext) -> (r: Result<Vec<ServiceInfo>, AddArtifactError>)
        ensures
            match r {
                Ok(v) => spec_extract_services(workspace.nfw_yaml) == Ok::<
                    Seq<(Seq<char>, Seq<char>, Seq<char>)>,
                    Seq<char>,
                >(service_views(v@)),
                Err(AddArtifactError::ConfigError(m)) => spec_extract_services(workspace.nfw_yaml)
                    == Err::<Seq<(Seq<char>, Seq<char>, Seq<char>)>, Seq<char>>(m@),
                Err(_) => false,
            },
    {
        self.service.extract_services(workspace)
    }

    /// Starts the command: asks for the template context of the mediator generator.
    pub fn handle(&self, command: &AddMediatorCommand, workspace: &WorkspaceContext, selected_service: &ServiceInfo) -> (r:
        MediatorStep)
        ensures
            r is LoadContext,
    {
        MediatorStep::LoadContext
    }

    /// Takes the next step with what the caller did for the current one: renders
    /// the mediator module into the directory of `selected_service`, then registers
    /// the module in `nfw.yaml`. A step that does not expect the event is returned
    /// as it is.
    pub fn resume(
        &self,
        command: &AddMediatorCommand,
        workspace: &WorkspaceContext,
        selected_service: &ServiceInfo,
        step: MediatorStep,
        event: MediatorEvent,
    ) -> (r: MediatorStep)
        ensures
            match (step, event) {
                (MediatorStep::LoadContext, MediatorEvent::ContextLoaded(Err(e))) => r == MediatorStep::Finished(
                    Err(e),
                ),
                (MediatorStep::LoadContext, MediatorEvent::ContextLoaded(Ok(c))) => match spec_namespace(
                    workspace.nfw_yaml,
                ) {
                    None => r matches MediatorStep::Finished(Err(AddArtifactError::ConfigError(m))) && m@
                        == missing_namespace_message(),
                    Some(ns) => r matches MediatorStep::Render { context, parameters, output_root } && context
                        == c && params_from_pairs(parameters.entries@, mediator_pairs(command.service_name@, ns))
                        && output_root@ == spec_join(workspace.workspace_root@, selected_service.path@),
                },
                (MediatorStep::Render { .. }, MediatorEvent::Rendered(Ok(()))) => r is ReadWorkspaceFile,
                (MediatorStep::Render { .. }, MediatorEvent::Rendered(Err(e))) => r matches MediatorStep::Finished(
                    Err(AddArtifactError::ExecutionFailed(b)),
                ) && *b == e,
                (MediatorStep::ReadWorkspaceFile, MediatorEvent::WorkspaceFileRead(Err(e))) => r matches MediatorStep::Finished(
                    Err(AddArtifactError::WorkspaceError(m)),
                ) && m@ == "failed to read nfw.yaml: "@ + e@,
                (MediatorStep::ReadWorkspaceFile, MediatorEvent::WorkspaceFileRead(Ok(Err(e)))) => r matches MediatorStep::Finished(
                    Err(AddArtifactError::WorkspaceError(m)),
                ) && m@ == "invalid nfw.yaml: "@ + e@,
                (MediatorStep::ReadWorkspaceFile, MediatorEvent::WorkspaceFileRead(Ok(Ok(y)))) => r matches MediatorStep::WriteWorkspaceFile {
                    document,
                } && (add_module_error(y, selected_service.name@) is None ==> module_added(
                    y,
                    document,
                    selected_service.name@,
                    "mediator"@,
                )) && (add_module_error(y, selected_service.name@) is Some ==> document == y),
                (MediatorStep::WriteWorkspaceFile { .. }, MediatorEvent::WorkspaceFileWritten(Ok(()))) => r
                    == MediatorStep::Finished(Ok(())),
                (
                    MediatorStep::WriteWorkspaceFile { .. },
                    MediatorEvent::WorkspaceFileWritten(Err(WriteFailure::Serialize(e))),
                ) => r matches MediatorStep::Finished(Err(AddArtifactError::WorkspaceError(m))) && m@
                    == "failed to serialize nfw.yaml: "@ + e@,
                (
                    MediatorStep::WriteWorkspaceFile { .. },
                    MediatorEvent::WorkspaceFileWritten(Err(WriteFailure::Write(e))),
                ) => r matches MediatorStep::Finished(Err(AddArtifactError::WorkspaceError(m))) && m@
                    == "failed to write nfw.yaml: "@ + e@,
                (s, _) => r == s,
            },
    {
        match (step, event) {
            (MediatorStep::LoadContext, MediatorEvent::ContextLoaded(loaded)) => match loaded {
                Err(e) => MediatorStep::Finished(Err(e)),
                Ok(context) => match mediator_parameters(&workspace.nfw_yaml, command) {
                    Err(e) => MediatorStep::Finished(Err(e)),
                    Ok(parameters) => MediatorStep::Render {
                        context,
                        parameters,
                        output_root: join_path(
                            workspace.workspace_root.as_str(),
                            selected_service.path.as_str(),
                        ),
                    },
                },
            },
            (MediatorStep::Render { .. }, MediatorEvent::Rendered(rendered)) => match rendered {
                Ok(()) => MediatorStep::ReadWorkspaceFile,
                Err(e) => MediatorStep::Finished(Err(AddArtifactError::ExecutionFailed(Box::new(e)))),
            },
            (MediatorStep::ReadWorkspaceFile, MediatorEvent::WorkspaceFileRead(read)) => match read {
                Err(e) => MediatorStep::Finished(
                    Err(AddArtifactError::WorkspaceError(concat("failed to read nfw.yaml: ", e.as_str()))),
                ),
                Ok(Err(e)) => MediatorStep::Finished(
                    Err(AddArtifactError::WorkspaceError(concat("invalid nfw.yaml: ", e.as_str()))),
                ),
                Ok(Ok(yaml)) => MediatorStep::WriteWorkspaceFile {
                    document: register_module_if_present(yaml, selected_service.name.as_str(), "mediator"),
                },
            },
            (MediatorStep::WriteWorkspaceFile { document }, MediatorEvent::WorkspaceFileWritten(written)) => {
                match written {
                    Ok(()) => MediatorStep::Finished(Ok(())),
                    Err(WriteFailure::Serialize(e)) => MediatorStep::Finished(
                        Err(
                            AddArtifactError::WorkspaceError(
                                concat("failed to serialize nfw.yaml: ", e.as_str()),
                            ),
                        ),
                    ),
                    Err(WriteFailure::Write(e)) => MediatorStep::Finished(
                        Err(AddArtifactError::WorkspaceError(concat("failed to write nfw.yaml: ", e.as_str()))),
                    ),
                }
            },
            (s, _) => s,
        }
    }
}


/// The last pair named `key` is the pair at `i` when no later pair is named `key`.
proof fn lemma_last_value_at(pairs: Seq<(Seq<char>, Seq<char>)>, key: Seq<char>, i: int)
    requires
        0 <= i < pairs.len(),
        pairs[i].0 == key,
        forall|j: int| i < j < pairs.len() ==> pairs[j].0 != key,
    ensures
        last_value(pairs, key) == Some(pairs[i].1),
    decreases pairs.len(),
{
    if i < pairs.len() - 1 {
        let front = pairs.drop_last();
        assert forall|j: int| i < j < front.len() implies front[j].0 != key by {
            assert(front[j] == pairs[j]);
        }
        lemma_last_value_at(front, key, i);
    }
}

/// The parameters of a web API module: `Name` and `Service` are the service's name,
/// `Namespace` the workspace namespace, and each option parameter is the text of
/// its own option (`true` or `false`).
pub proof fn law_webapi_parameters_follow_their_options(
    name: Seq<char>,
    namespace: Seq<char>,
    config: WebApiConfig,
    p: Seq<(String, ParamValue)>,
)
    requires
        params_from_pairs(p, webapi_pairs(name, namespace, config)),
    ensures
        param_str(p, "Name"@) == Some(name),
        param_str(p, "Namespace"@) == Some(namespace),
        param_str(p, "Service"@) == Some(name),
        param_str(p, "UseOpenApi"@) == Some(if config.use_openapi { "true"@ } else { "false"@ }),
        param_str(p, "UseHealthChecks"@) == Some(
            if config.use_health_checks { "true"@ } else { "false"@ },
        ),
        param_str(p, "UseCors"@) == Some(if config.use_cors { "true"@ } else { "false"@ }),
        param_str(p, "UseProblemDetails"@) == Some(
            if config.use_problem_details { "true"@ } else { "false"@ },
        ),
{
    reveal_strlit("Name");
    reveal_strlit("Namespace");
    reveal_strlit("Service");
    reveal_strlit("UseOpenApi");
    reveal_strlit("UseHealthChecks");
    reveal_strlit("UseCors");
    reveal_strlit("UseProblemDetails");
    let pairs = webapi_pairs(name, namespace, config);
    let keys = seq![
        "Name"@,
        "Namespace"@,
        "Service"@,
        "UseOpenApi"@,
        "UseHealthChecks"@,
        "UseCors"@,
        "UseProblemDetails"@,
    ];
    assert forall|i: int| 0 <= i < 7 implies pairs[i].0 == keys[i] by {}
    assert forall|i: int, j: int| 0 <= i < j < 7 implies keys[i] != keys[j] by {
        if keys[i].len() == keys[j].len() {
            assert(keys[i][3] != keys[j][3] || keys[i][0] != keys[j][0]);
        }
    }
    assert forall|i: int| 0 <= i < 7 implies last_value(pairs, #[trigger] keys[i]) == Some(
        pairs[i].1,
    ) by {
        assert forall|j: int| i < j < pairs.len() implies pairs[j].0 != keys[i] by {
            assert(pairs[j].0 == keys[j]);
        }
        lemma_last_value_at(pairs, keys[i], i);
        assert(param_lookup(p, keys[i]) == param_lookup(p, keys[i]));
    }
    assert(last_value(pairs, keys[0]) == Some(pairs[0].1));
    assert(last_value(pairs, keys[1]) == Some(pairs[1].1));
    assert(last_value(pairs, keys[2]) == Some(pairs[2].1));
    assert(last_value(pairs, keys[3]) == Some(pairs[3].1));
    assert(last_value(pairs, keys[4]) == Some(pairs[4].1));
    assert(last_value(pairs, keys[5]) == Some(pairs[5].1));
    assert(last_value(pairs, keys[6]) == Some(pairs[6].1));
    assert(param_lookup(p, keys[0]) == param_lookup(p, keys[0]));
    assert(param_lookup(p, keys[1]) == param_lookup(p, keys[1]));
    assert(param_lookup(p, keys[2]) == param_lookup(p, keys[2]));
    assert(param_lookup(p, keys[3]) == param_lookup(p, keys[3]));
    assert(param_lookup(p, keys[4]) == param_lookup(p, keys[4]));
    assert(param_lookup(p, keys[5]) == param_lookup(p, keys[5]));
    assert(param_lookup(p, keys[6]) == param_lookup(p, keys[6]));
}
} // verus!
