use nfw_core_application::service_management::add_service_command::{
    AddServiceCommand, AddServiceCommandRequest,
};
use nfw_core_application::service_management::add_service_error::AddServiceError;
use nfw_core_application::service_management::add_service_handler::{
    AddServiceCommandHandler, ExecuteEvent, ExecuteStep, PrepareEvent, PrepareStep, PromptFailure,
};
use nfw_core_application::service_management::add_service_request_validator::AddServiceRequestValidator;
use nfw_core_application::service_management::generator_selection::{
    parse_identifier, resolution_from_metadata, service_generators, ServiceGeneratorResolution,
};
use nfw_core_application::service_management::input_resolution::{
    check_generators_found, command_result, generator_decision, map_prompt_error,
    service_name_decision, wrap_cleanup_failure,
};
use nfw_core_application::service_management::plan_builder::{
    output_root_for, read_workspace_name, read_workspace_namespace, stable_project_guid,
    ServiceGenerationPlanBuilder,
};
use nfw_core_application::service_management::provenance::{
    ServiceGeneratorProvenanceRecord, ServiceGeneratorProvenanceService, ServiceProvenanceStore,
    ServiceTemplateProvenanceService,
};
use nfw_core_application::service_management::workspace_guard::AddServiceWorkspaceContextGuard;
use nfw_core_application::template_management::model::Version;
use nfw_core_application::template_management::template_catalog_parser::RawTemplateMetadata;
use nfw_core_application::yaml::YamlValue;
use std::cell::RefCell;

fn yaml(text: &str) -> YamlValue {
    convert(&serde_yaml::from_str::<serde_yaml::Value>(text).unwrap())
}

fn convert(value: &serde_yaml::Value) -> YamlValue {
    match value {
        serde_yaml::Value::Null => YamlValue::Null,
        serde_yaml::Value::Bool(b) => YamlValue::Bool(*b),
        serde_yaml::Value::Number(n) => YamlValue::Number(n.to_string()),
        serde_yaml::Value::String(s) => YamlValue::Str(s.clone()),
        serde_yaml::Value::Sequence(items) => YamlValue::Sequence(items.iter().map(convert).collect()),
        serde_yaml::Value::Mapping(m) => {
            YamlValue::Mapping(m.iter().map(|(k, v)| (convert(k), convert(v))).collect())
        }
        serde_yaml::Value::Tagged(t) => convert(&t.value),
    }
}

fn version(text: &str) -> Version {
    Version::parse(text).unwrap()
}

fn raw(id: Option<&str>, name: Option<&str>, version: Option<&str>) -> RawTemplateMetadata {
    RawTemplateMetadata {
        id: id.map(str::to_owned),
        name: name.map(str::to_owned),
        description: Some("test".to_owned()),
        version: version.map(str::to_owned),
        language: None,
        tags: None,
        author: None,
        min_cli_version: None,
        source_url: None,
        generators: None,
    }
}

fn resolution(source: &str, id: &str, generator_type: &str) -> ServiceGeneratorResolution {
    ServiceGeneratorResolution {
        source_name: source.to_owned(),
        generator_name: format!("Generator {id}"),
        generator_id: id.to_owned(),
        resolved_version: version("1.0.0"),
        generator_type: generator_type.to_owned(),
        generator_cache_path: format!("/cache/{id}"),
        description: "Generator description".to_owned(),
    }
}

#[test]
fn rejects_missing_template_in_non_interactive_mode() {
    let validator = AddServiceRequestValidator::new();
    let request = AddServiceCommandRequest::new(Some("Orders".to_owned()), None, true, false);

    let error = validator
        .validate_request(&request)
        .expect_err("missing template should fail in non-interactive mode");
    assert_eq!(
        error,
        AddServiceError::MissingRequiredInput("template".to_owned())
    );
}

#[test]
fn rejects_missing_name_in_non_interactive_mode() {
    let validator = AddServiceRequestValidator::new();
    let request = AddServiceCommandRequest::new(
        None,
        Some("official/dotnet-service".to_owned()),
        true,
        false,
    );

    let error = validator
        .validate_request(&request)
        .expect_err("missing name should fail in non-interactive mode");
    assert_eq!(
        error,
        AddServiceError::MissingRequiredInput("name".to_owned())
    );
}

#[test]
fn rejects_invalid_service_name() {
    let validator = AddServiceRequestValidator::new();
    let request = AddServiceCommandRequest::new(
        Some("invalid service".to_owned()),
        Some("official/dotnet-service".to_owned()),
        true,
        false,
    );

    let error = validator
        .validate_request(&request)
        .expect_err("invalid service name should fail");
    assert_eq!(
        error,
        AddServiceError::InvalidServiceName("invalid service".to_owned())
    );
}

#[test]
fn accepts_valid_request() {
    let validator = AddServiceRequestValidator::new();
    let request = AddServiceCommandRequest::new(
        Some("Orders".to_owned()),
        Some("official/dotnet-service".to_owned()),
        true,
        false,
    );

    validator
        .validate_request(&request)
        .expect("valid request should pass");
}

#[test]
fn accepts_missing_name_when_interactive_mode_can_prompt() {
    let validator = AddServiceRequestValidator::new();
    let request = AddServiceCommandRequest::new(
        None,
        Some("official/dotnet-service".to_owned()),
        false,
        true,
    );

    validator
        .validate_request(&request)
        .expect("interactive mode should allow prompting for missing name");
}

#[test]
fn command_carries_its_arguments_into_the_request() {
    let command = AddServiceCommand::new(Some("Orders".to_owned()), None, false, true);
    let request = command.to_request();
    assert_eq!(request.service_name.as_deref(), Some("Orders"));
    assert_eq!(request.template_id, None);
    assert!(!request.is_non_interactive());
    let quiet = AddServiceCommandRequest::new(None, None, false, false);
    assert!(quiet.is_non_interactive());
}

#[test]
fn error_messages_name_the_failure() {
    assert_eq!(
        AddServiceError::MissingRequiredInput("name".to_owned()).message(),
        "required input 'name' is missing in non-interactive mode"
    );
    assert_eq!(
        AddServiceError::InvalidGeneratorType {
            generator_id: "official/blank".to_owned(),
            generator_type: "workspace".to_owned(),
        }
        .message(),
        "generator 'official/blank' has type 'workspace', expected 'service'"
    );
    assert_eq!(AddServiceError::Interrupted.message(), "service generation interrupted");
}

#[test]
fn workspace_root_is_the_nearest_directory_with_the_workspace_file() {
    let guard = AddServiceWorkspaceContextGuard::new();
    let candidates = vec!["/w/a/b".to_owned(), "/w/a".to_owned(), "/w".to_owned(), "/".to_owned()];
    let root = guard
        .ensure_workspace_root(&candidates, &vec![false, true, true, false])
        .unwrap();
    assert_eq!(root, "/w/a");
    let missing = guard
        .ensure_workspace_root(&candidates, &vec![false, false, false, false])
        .unwrap_err();
    assert_eq!(
        missing,
        AddServiceError::InvalidWorkspaceContext(
            "could not find nfw.yaml in current directory or parent directories".to_owned()
        )
    );
}

#[test]
fn project_guid_is_the_hash_of_name_and_generator() {
    assert_eq!(
        stable_project_guid("Orders", "official/dotnet-service"),
        "44db6aac-cc49-e432-8af0-42f2b676649e"
    );
    assert_eq!(stable_project_guid("", ""), "cbf29ce4-8422-2325-8422-2325cbf29ce4");
    assert_eq!(
        stable_project_guid("Orders", "official/dotnet-service"),
        stable_project_guid("Orders", "official/dotnet-service")
    );
}

#[test]
fn workspace_namespace_and_name_are_read_from_the_workspace_section() {
    let doc = yaml("workspace:\n  name: Shop\n  namespace: Acme.Shop\n");
    assert_eq!(read_workspace_namespace(&doc).unwrap(), "Acme.Shop");
    assert_eq!(read_workspace_name(&doc).unwrap(), "Shop");
    let empty = yaml("workspace: {}");
    assert_eq!(
        read_workspace_namespace(&empty).unwrap_err(),
        "missing 'workspace.namespace' in nfw.yaml"
    );
    assert_eq!(read_workspace_name(&empty).unwrap_err(), "missing 'workspace.name' in nfw.yaml");
}

#[test]
fn plan_holds_paths_identifiers_and_placeholders() {
    let builder = ServiceGenerationPlanBuilder::new();
    let generator = resolution("official", "dotnet-service", "service");
    let doc = yaml("workspace:\n  name: Shop\n  namespace: Acme\n");
    let plan = builder
        .build("Orders", "/w", &generator, false, Ok(Ok(doc)))
        .unwrap();
    assert_eq!(plan.output_root, "/w/src/Orders");
    assert_eq!(output_root_for("/w", "Orders"), "/w/src/Orders");
    assert_eq!(plan.generator_id, "official/dotnet-service");
    assert_eq!(plan.namespace, "Acme.Orders");
    assert_eq!(plan.generator_cache_path, "/cache/dotnet-service");
    let params = &plan.placeholder_values;
    assert_eq!(params.get_str("Name").as_deref(), Some("Orders"));
    assert_eq!(params.get_str("Namespace").as_deref(), Some("Acme.Orders"));
    assert_eq!(params.get_str("WorkspaceName").as_deref(), Some("Shop"));
    assert_eq!(params.get_str("ServiceName").as_deref(), Some("Orders"));
    assert_eq!(
        params.get_str("ProjectGuid").as_deref(),
        Some("44db6aac-cc49-e432-8af0-42f2b676649e")
    );
}

#[test]
fn plan_is_refused_for_existing_directory_or_incomplete_workspace() {
    let builder = ServiceGenerationPlanBuilder::new();
    let generator = resolution("official", "dotnet-service", "service");
    let exists = builder
        .build("Orders", "/w", &generator, true, Ok(Ok(YamlValue::Null)))
        .unwrap_err();
    assert_eq!(exists, AddServiceError::TargetDirectoryAlreadyExists("/w/src/Orders".to_owned()));
    let no_name = builder
        .build("Orders", "/w", &generator, false, Ok(Ok(yaml("workspace:\n  namespace: Acme\n"))))
        .unwrap_err();
    assert_eq!(
        no_name,
        AddServiceError::InvalidWorkspaceContext(
            "failed to read workspace name from nfw.yaml: missing 'workspace.name' in nfw.yaml"
                .to_owned()
        )
    );
    let unreadable = builder
        .build("Orders", "/w", &generator, false, Err("denied".to_owned()))
        .unwrap_err();
    assert_eq!(
        unreadable,
        AddServiceError::InvalidWorkspaceContext(
            "failed to read workspace namespace from nfw.yaml: failed to read /w/nfw.yaml: denied"
                .to_owned()
        )
    );
    let unparsable = builder
        .build("Orders", "/w", &generator, false, Ok(Err("bad".to_owned())))
        .unwrap_err();
    assert_eq!(
        unparsable,
        AddServiceError::InvalidWorkspaceContext(
            "failed to read workspace namespace from nfw.yaml: failed to parse nfw.yaml: bad"
                .to_owned()
        )
    );
}

#[test]
fn identifiers_split_at_the_first_slash() {
    assert_eq!(
        parse_identifier("official/dotnet-service"),
        ("official".to_owned(), "dotnet-service".to_owned())
    );
    assert_eq!(parse_identifier("a/b/c"), ("a".to_owned(), "b/c".to_owned()));
    assert_eq!(parse_identifier("mine"), ("local".to_owned(), "mine".to_owned()));
    assert_eq!(
        resolution("official", "dotnet-service", "service").qualified_generator_id(),
        "official/dotnet-service"
    );
}

#[test]
fn resolve_service_generator_rejects_wrong_generator_type() {
    let error = resolution_from_metadata(
        "official/blank-workspace",
        Ok("/cache/blank-workspace".to_owned()),
        Ok("workspace".to_owned()),
        Ok(Ok(raw(Some("blank-workspace"), Some("blank-workspace"), Some("1.0.0")))),
    )
    .unwrap_err();
    match error {
        AddServiceError::InvalidGeneratorType { generator_id, .. } => {
            assert_eq!(generator_id, "official/blank-workspace");
        }
        other => panic!("unexpected error: {}", other.message()),
    }
}

#[test]
fn resolve_service_generator_accepts_service_tag_without_type_field() {
    let resolution = resolution_from_metadata(
        "official/dotnet-service",
        Ok("/cache/dotnet-service".to_owned()),
        Ok("service".to_owned()),
        Ok(Ok(raw(Some("dotnet-service"), Some("dotnet-service"), Some("1.0.0")))),
    )
    .expect("service tag should classify generator as service");
    assert_eq!(resolution.generator_type, "service");
    assert_eq!(resolution.qualified_generator_id(), "official/dotnet-service");
}

#[test]
fn resolve_service_generator_accepts_case_insensitive_type_field() {
    let resolution = resolution_from_metadata(
        "official/dotnet-service",
        Ok("/cache/dotnet-service".to_owned()),
        Ok("Service".to_owned()),
        Ok(Ok(raw(Some("dotnet-service"), Some("dotnet-service"), Some("1.0.0")))),
    )
    .expect("type field should be matched case-insensitively");
    assert_eq!(resolution.qualified_generator_id(), "official/dotnet-service");
}

#[test]
fn generator_resolution_reports_each_missing_piece() {
    let not_found = resolution_from_metadata("x/y", Err("gone".to_owned()), Ok("service".to_owned()), Err(String::new()));
    assert_eq!(not_found.unwrap_err(), AddServiceError::GeneratorNotFound("x/y".to_owned()));
    let unreadable = resolution_from_metadata("x/y", Ok("/g".to_owned()), Err("no type".to_owned()), Err(String::new()));
    assert_eq!(unreadable.unwrap_err(), AddServiceError::GeneratorReadError("no type".to_owned()));
    let no_name = resolution_from_metadata(
        "x/y",
        Ok("/g".to_owned()),
        Ok("service".to_owned()),
        Ok(Ok(raw(Some("y"), None, Some("1.0.0")))),
    );
    assert_eq!(
        no_name.unwrap_err(),
        AddServiceError::GeneratorConfigError(
            "Generator metadata 'name' is missing in /g/nfw.generator.yaml".to_owned()
        )
    );
    let no_version = resolution_from_metadata(
        "x/y",
        Ok("/g".to_owned()),
        Ok("service".to_owned()),
        Ok(Ok(raw(Some("y"), Some("Y"), None))),
    );
    assert_eq!(
        no_version.unwrap_err(),
        AddServiceError::Internal("Generator metadata 'version' is missing in /g/nfw.generator.yaml".to_owned())
    );
    let bad_version = resolution_from_metadata(
        "x/y",
        Ok("/g".to_owned()),
        Ok("service".to_owned()),
        Ok(Ok(raw(Some("y"), Some("Y"), Some("one")))),
    );
    assert_eq!(
        bad_version.unwrap_err(),
        AddServiceError::GeneratorConfigError(
            "Generator metadata 'version' is invalid ('one') in /g/nfw.generator.yaml".to_owned()
        )
    );
    let parse_failure = resolution_from_metadata("x/y", Ok("/g".to_owned()), Ok("service".to_owned()), Ok(Err("eof".to_owned())));
    assert_eq!(
        parse_failure.unwrap_err(),
        AddServiceError::GeneratorConfigError("failed to parse generator.yaml: eof".to_owned())
    );
}

#[test]
fn list_service_generators_filters_non_service_generators() {
    let generators = service_generators(vec![
        resolution("official", "dotnet-service", "service"),
        resolution("official", "blank-workspace", "workspace"),
    ]);
    assert_eq!(generators.len(), 1);
    assert_eq!(generators[0].qualified_generator_id(), "official/dotnet-service");
}

#[test]
fn list_service_generators_accepts_service_tag_without_type_field() {
    let generators = service_generators(vec![
        resolution("official", "dotnet-service", "service"),
        resolution("official", "blank-workspace", "workspace"),
    ]);
    assert_eq!(generators.len(), 1);
    assert_eq!(generators[0].qualified_generator_id(), "official/dotnet-service");
}

#[test]
fn service_generators_come_sorted_by_identifier_then_source() {
    let generators = service_generators(vec![
        resolution("team", "web", "Service"),
        resolution("official", "web", "service"),
        resolution("official", "api", "SERVICE"),
        resolution("official", "lib", "feature"),
    ]);
    let ids: Vec<String> = generators.iter().map(|g| g.qualified_generator_id()).collect();
    assert_eq!(ids, vec!["official/api", "official/web", "team/web"]);
}

#[test]
fn inputs_are_asked_for_only_when_a_prompt_may_be_shown() {
    let given = AddServiceCommandRequest::new(Some("Orders".to_owned()), None, true, false);
    assert_eq!(service_name_decision(&given, false).unwrap(), Some("Orders".to_owned()));
    let quiet = AddServiceCommandRequest::new(None, None, true, true);
    assert_eq!(
        service_name_decision(&quiet, true).unwrap_err(),
        AddServiceError::MissingRequiredInput("name".to_owned())
    );
    assert_eq!(
        generator_decision(&quiet).unwrap_err(),
        AddServiceError::MissingRequiredInput("generator".to_owned())
    );
    let interactive = AddServiceCommandRequest::new(None, None, false, true);
    assert_eq!(service_name_decision(&interactive, true).unwrap(), None);
    assert_eq!(
        service_name_decision(&interactive, false).unwrap_err(),
        AddServiceError::MissingRequiredInput("name".to_owned())
    );
    assert_eq!(generator_decision(&interactive).unwrap(), None);
    assert_eq!(
        check_generators_found(0).unwrap_err(),
        AddServiceError::GeneratorNotFound("<service generator>".to_owned())
    );
    assert!(check_generators_found(2).is_ok());
}

#[test]
fn prompt_and_cleanup_failures_are_reported() {
    assert_eq!(map_prompt_error(true, "x".to_owned()), AddServiceError::Interrupted);
    assert_eq!(map_prompt_error(false, "x".to_owned()), AddServiceError::PromptFailed("x".to_owned()));
    let original = AddServiceError::RenderFailed("boom".to_owned());
    assert_eq!(wrap_cleanup_failure(Ok(()), original.clone()), original);
    assert_eq!(
        wrap_cleanup_failure(Err("locked".to_owned()), original),
        AddServiceError::CleanupFailed(
            "locked; original error: failed to render service generator: boom".to_owned()
        )
    );
}

#[test]
fn command_result_reports_the_plan() {
    let builder = ServiceGenerationPlanBuilder::new();
    let generator = ServiceGeneratorResolution {
        resolved_version: version("2.1.0-beta.1"),
        ..resolution("official", "dotnet-service", "service")
    };
    let doc = yaml("workspace:\n  name: Shop\n  namespace: Acme\n");
    let plan = builder.build("Orders", "/w", &generator, false, Ok(Ok(doc))).unwrap();
    let result = command_result(&plan);
    assert_eq!(result.service_name, "Orders");
    assert_eq!(result.output_path, "/w/src/Orders");
    assert_eq!(result.template_id, "official/dotnet-service");
    assert_eq!(result.template_version, "2.1.0-beta.1");
}

struct RecordingStore {
    records: RefCell<Vec<ServiceGeneratorProvenanceRecord>>,
    fail: bool,
}

impl ServiceProvenanceStore for RecordingStore {
    fn persist_service_provenance(
        &self,
        _workspace_root: &str,
        record: &ServiceGeneratorProvenanceRecord,
    ) -> Result<(), String> {
        if self.fail {
            return Err("disk full".to_owned());
        }
        self.records.borrow_mut().push(record.clone());
        Ok(())
    }
}

#[test]
fn provenance_is_handed_to_the_store() {
    let service = ServiceGeneratorProvenanceService::new(RecordingStore {
        records: RefCell::new(Vec::new()),
        fail: false,
    });
    service.persist("/w", "Orders", "official/dotnet-service", "1.0.0").unwrap();
    assert_eq!(
        service.store.records.borrow()[0],
        ServiceGeneratorProvenanceRecord {
            service_name: "Orders".to_owned(),
            generator_id: "official/dotnet-service".to_owned(),
            generator_version: "1.0.0".to_owned(),
        }
    );
    let failing = ServiceTemplateProvenanceService::new(RecordingStore {
        records: RefCell::new(Vec::new()),
        fail: true,
    });
    assert_eq!(
        failing.persist("/w", "Orders", "t", "1.0.0").unwrap_err(),
        AddServiceError::ProvenanceWriteFailed("disk full".to_owned())
    );
}

fn handler(fail: bool) -> AddServiceCommandHandler<RecordingStore> {
    AddServiceCommandHandler::new(ServiceTemplateProvenanceService::new(RecordingStore {
        records: RefCell::new(Vec::new()),
        fail,
    }))
}

fn scan() -> Vec<(String, bool)> {
    vec![("/w/src".to_owned(), false), ("/w".to_owned(), true), ("/".to_owned(), true)]
}

#[test]
fn add_service_preparation_prompts_for_what_is_missing() {
    let h = handler(false);
    let command = AddServiceCommand::new(None, None, false, true);
    let step = h.prepare_generation_plan(&command, true);
    assert!(matches!(step, PrepareStep::PromptServiceName));
    assert!(matches!(
        h.prepare_generation_plan(&command, false),
        PrepareStep::Planned(Err(AddServiceError::MissingRequiredInput(ref f))) if f == "name"
    ));
    let cancelled = h.resume_preparation(
        &command,
        PrepareStep::PromptServiceName,
        PrepareEvent::ServiceNamePrompted(Err(PromptFailure { cancelled: true, message: "esc".to_owned() })),
    );
    assert!(matches!(cancelled, PrepareStep::Planned(Err(AddServiceError::Interrupted))));
    let bad = h.resume_preparation(
        &command,
        PrepareStep::PromptServiceName,
        PrepareEvent::ServiceNamePrompted(Ok("bad name".to_owned())),
    );
    assert!(matches!(bad, PrepareStep::Planned(Err(AddServiceError::InvalidServiceName(ref n))) if n == "bad name"));
    let step = h.resume_preparation(&command, step, PrepareEvent::ServiceNamePrompted(Ok("Orders".to_owned())));
    assert!(matches!(&step, PrepareStep::LocateWorkspace { service_name } if service_name == "Orders"));
    let step = h.resume_preparation(&command, step, PrepareEvent::WorkspaceLocated(Ok(scan())));
    assert!(matches!(&step, PrepareStep::ListGenerators { workspace_root, .. } if workspace_root == "/w"));
    let empty = h.resume_preparation(
        &command,
        PrepareStep::ListGenerators { service_name: "Orders".to_owned(), workspace_root: "/w".to_owned() },
        PrepareEvent::GeneratorsListed(Ok(Vec::new())),
    );
    assert!(matches!(
        empty,
        PrepareStep::Planned(Err(AddServiceError::GeneratorNotFound(ref g))) if g == "<service generator>"
    ));
    let step = h.resume_preparation(
        &command,
        step,
        PrepareEvent::GeneratorsListed(Ok(vec![resolution("official", "dotnet-service", "service")])),
    );
    assert!(matches!(&step, PrepareStep::PromptGenerator { generators, .. } if generators.len() == 1));
    let step = h.resume_preparation(
        &command,
        step,
        PrepareEvent::GeneratorPrompted(Ok("official/dotnet-service".to_owned())),
    );
    assert!(matches!(
        &step,
        PrepareStep::ResolveGenerator { generator_identifier, .. } if generator_identifier == "official/dotnet-service"
    ));
    let step = h.resume_preparation(
        &command,
        step,
        PrepareEvent::GeneratorResolved(Ok(resolution("official", "dotnet-service", "service"))),
    );
    assert!(matches!(step, PrepareStep::InspectWorkspace { .. }));
    let planned = h.resume_preparation(
        &command,
        step,
        PrepareEvent::WorkspaceInspected {
            output_root_exists: false,
            workspace_file: Ok(Ok(yaml("workspace:\n  name: Shop\n  namespace: Acme\n"))),
        },
    );
    match planned {
        PrepareStep::Planned(Ok(plan)) => {
            assert_eq!(plan.output_root, "/w/src/Orders");
            assert_eq!(plan.namespace, "Acme.Orders");
            assert_eq!(plan.generator_id, "official/dotnet-service");
        }
        other => panic!("unexpected step: {other:?}"),
    }
}

#[test]
fn add_service_preparation_stops_on_errors() {
    let h = handler(false);
    let refused = AddServiceCommand::new(None, Some("official/dotnet-service".to_owned()), true, true);
    assert!(matches!(
        h.prepare_generation_plan(&refused, true),
        PrepareStep::Planned(Err(AddServiceError::MissingRequiredInput(ref f))) if f == "name"
    ));
    let command = AddServiceCommand::new(Some("Orders".to_owned()), Some("official/dotnet-service".to_owned()), true, false);
    let step = h.prepare_generation_plan(&command, false);
    assert!(matches!(&step, PrepareStep::LocateWorkspace { service_name } if service_name == "Orders"));
    let outside = h.resume_preparation(
        &command,
        PrepareStep::LocateWorkspace { service_name: "Orders".to_owned() },
        PrepareEvent::WorkspaceLocated(Ok(vec![("/tmp".to_owned(), false)])),
    );
    match outside {
        PrepareStep::Planned(Err(AddServiceError::InvalidWorkspaceContext(m))) => {
            assert_eq!(m, "could not find nfw.yaml in current directory or parent directories")
        }
        other => panic!("unexpected step: {other:?}"),
    }
    let no_dir = h.resume_preparation(
        &command,
        PrepareStep::LocateWorkspace { service_name: "Orders".to_owned() },
        PrepareEvent::WorkspaceLocated(Err("gone".to_owned())),
    );
    assert!(matches!(no_dir, PrepareStep::Planned(Err(AddServiceError::Internal(ref m))) if m == "gone"));
    let step = h.resume_preparation(&command, step, PrepareEvent::WorkspaceLocated(Ok(scan())));
    assert!(matches!(
        &step,
        PrepareStep::ResolveGenerator { workspace_root, generator_identifier, .. }
            if workspace_root == "/w" && generator_identifier == "official/dotnet-service"
    ));
    let exists = h.resume_preparation(
        &command,
        PrepareStep::InspectWorkspace {
            service_name: "Orders".to_owned(),
            workspace_root: "/w".to_owned(),
            resolution: resolution("official", "dotnet-service", "service"),
        },
        PrepareEvent::WorkspaceInspected { output_root_exists: true, workspace_file: Err("unused".to_owned()) },
    );
    assert!(matches!(
        exists,
        PrepareStep::Planned(Err(AddServiceError::TargetDirectoryAlreadyExists(ref p))) if p == "/w/src/Orders"
    ));
    let unexpected = h.resume_preparation(&command, step, PrepareEvent::GeneratorPrompted(Ok("x".to_owned())));
    assert!(matches!(unexpected, PrepareStep::ResolveGenerator { .. }));
}

fn orders_plan() -> nfw_core_application::service_management::plan_builder::ServiceGenerationPlan {
    ServiceGenerationPlanBuilder::new()
        .build(
            "Orders",
            "/w",
            &resolution("official", "dotnet-service", "service"),
            false,
            Ok(Ok(yaml("workspace:\n  name: Shop\n  namespace: Acme\n"))),
        )
        .unwrap()
}

#[test]
fn add_service_execution_renders_and_records_provenance() {
    let h = handler(false);
    let step = h.execute_generation_plan(orders_plan());
    assert!(matches!(step, ExecuteStep::LocateWorkspace { .. }));
    let step = h.resume_execution(step, ExecuteEvent::WorkspaceLocated(Ok(scan())));
    assert!(matches!(&step, ExecuteStep::Render { workspace_root, .. } if workspace_root == "/w"));
    let record = h.resume_execution(step, ExecuteEvent::Rendered(Ok(())));
    let stored = match &record {
        ExecuteStep::RecordProvenance { workspace_root, record, .. } => {
            assert_eq!(record.service_name, "Orders");
            assert_eq!(record.generator_version, "1.0.0");
            h.provenance_service.store.persist_service_provenance(workspace_root, record)
        }
        other => panic!("unexpected step: {other:?}"),
    };
    match h.resume_execution(record, ExecuteEvent::ProvenanceRecorded(stored)) {
        ExecuteStep::Finished(Ok(result)) => {
            assert_eq!(result.service_name, "Orders");
            assert_eq!(result.output_path, "/w/src/Orders");
            assert_eq!(result.template_id, "official/dotnet-service");
            assert_eq!(result.template_version, "1.0.0");
        }
        other => panic!("unexpected step: {other:?}"),
    }
    assert_eq!(h.provenance_service.store.records.borrow()[0].generator_id, "official/dotnet-service");
}

#[test]
fn add_service_execution_cleans_up_after_failures() {
    let h = handler(true);
    let render = ExecuteStep::Render { plan: orders_plan(), workspace_root: "/w".to_owned() };
    let record = h.resume_execution(render, ExecuteEvent::Rendered(Ok(())));
    let stored = match &record {
        ExecuteStep::RecordProvenance { workspace_root, record, .. } => {
            h.provenance_service.store.persist_service_provenance(workspace_root, record)
        }
        other => panic!("unexpected step: {other:?}"),
    };
    let cleanup = h.resume_execution(record, ExecuteEvent::ProvenanceRecorded(stored));
    match &cleanup {
        ExecuteStep::CleanUp { output_root, error } => {
            assert_eq!(output_root, "/w/src/Orders");
            assert_eq!(error, &AddServiceError::ProvenanceWriteFailed("disk full".to_owned()));
        }
        other => panic!("unexpected step: {other:?}"),
    }
    match h.resume_execution(cleanup, ExecuteEvent::CleanedUp(Err("busy".to_owned()))) {
        ExecuteStep::Finished(Err(AddServiceError::CleanupFailed(m))) => assert_eq!(
            m,
            "busy; original error: failed to persist service generator provenance: disk full"
        ),
        other => panic!("unexpected step: {other:?}"),
    }
    let render = ExecuteStep::Render { plan: orders_plan(), workspace_root: "/w".to_owned() };
    let cleanup = h.resume_execution(render, ExecuteEvent::Rendered(Err(AddServiceError::RenderFailed("x".to_owned()))));
    assert!(matches!(
        h.resume_execution(cleanup, ExecuteEvent::CleanedUp(Ok(()))),
        ExecuteStep::Finished(Err(AddServiceError::RenderFailed(ref m))) if m == "x"
    ));
}

#[test]
fn provenance_records_name_the_service_and_its_origin() {
    let store = || RecordingStore { records: RefCell::new(Vec::new()), fail: false };
    let expected = ServiceGeneratorProvenanceRecord {
        service_name: "Orders".to_owned(),
        generator_id: "official/dotnet-service".to_owned(),
        generator_version: "2.1.0".to_owned(),
    };
    assert_eq!(
        ServiceGeneratorProvenanceService::new(store()).record("Orders", "official/dotnet-service", "2.1.0"),
        expected
    );
    assert_eq!(
        ServiceTemplateProvenanceService::new(store()).record("Orders", "official/dotnet-service", "2.1.0"),
        expected
    );
}
