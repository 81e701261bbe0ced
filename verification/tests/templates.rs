use nfw_core_application::template_management::artifact_generation_service::{
    add_module_to_yaml, TemplateEngine, declares_generator, extract_services_from, has_module_in_yaml, sub_template_root,
    AddArtifactContext, ServiceInfo, WorkspaceContext,
};
use nfw_core_application::template_management::errors::AddArtifactError;
use nfw_core_application::template_management::feature_paths::{
    artifact_file_matches, features_of_root, features_with_artifact, find_matching_features,
    join_path, presentation_layers, presentation_layers_of,
};
use nfw_core_application::template_management::gen_endpoint::{GenEndpointCommand, HttpMethod};
use nfw_core_application::template_management::gen_repository::{
    repository_service, GenRepositoryCommandHandler, RepositoryEvent, RepositoryStep,
    check_entity_name, check_entity_present, check_persistence, check_repository_absent,
    choose_feature, repository_parameters, service_template_id,
};
use nfw_core_application::template_management::model::{ParamValue, TemplateConfig, TemplateParameters};
use nfw_core_application::template_management::module_commands::{
    bool_string, mediator_parameters, persistence_parameters, register_module_if_present,
    webapi_exists_error, webapi_parameters, AddMediatorCommand, AddPersistenceCommand,
    AddMediatorCommandHandler, AddPersistenceCommandHandler, AddWebApiCommand,
    AddWebApiCommandHandler, MediatorEvent, MediatorStep, ModuleEvent, ModuleStep, PrepareFailure,
    WebApiConfig, WriteFailure,
};
use nfw_core_application::template_management::template_type_resolver::infer_template_type;
use nfw_core_application::template_management::transaction::{rollback_outcome, FileTracker, YamlBackup};
use nfw_core_application::yaml::YamlValue;

fn yaml(text: &str) -> YamlValue {
    convert(&serde_yaml::from_str::<serde_yaml::Value>(text).unwrap())
}

fn convert(value: &serde_yaml::Value) -> YamlValue {
    match value {
        serde_yaml::Value::Null => YamlValue::Null,
        serde_yaml::Value::Bool(b) => YamlValue::Bool(*b),
        serde_yaml::Value::Number(n) => YamlValue::Number(n.to_string()),
        serde_yaml::Value::String(s) => YamlValue::Str(s.clone()),
        serde_yaml::Value::Sequence(items) => YamlValue::Sequence(items.iter().map(convert).collect()),
        serde_yaml::Value::Mapping(m) => {
            YamlValue::Mapping(m.iter().map(|(k, v)| (convert(k), convert(v))).collect())
        }
        serde_yaml::Value::Tagged(t) => convert(&t.value),
    }
}

fn modules_of(doc: &YamlValue, service: &str) -> Vec<String> {
    match doc.get("services").and_then(|s| s.get(service)).and_then(|d| d.get("modules")) {
        Some(YamlValue::Sequence(items)) => items
            .iter()
            .filter_map(|v| v.as_str().cloned())
            .collect(),
        _ => Vec::new(),
    }
}

fn workspace(text: &str) -> WorkspaceContext {
    WorkspaceContext::new("/w".to_owned(), yaml(text), Vec::new(), true).unwrap()
}

fn empty_config() -> TemplateConfig {
    TemplateConfig { id: None, steps: Vec::new(), generators: None, required_modules: Vec::new() }
}

#[test]
fn template_type_resolver_infer_template_type_uses_explicit_type_when_available() {
    assert_eq!(infer_template_type(&yaml("type: explicit_type")), "explicit_type");
}

#[test]
fn template_type_resolver_infer_template_type_trims_explicit_type() {
    assert_eq!(infer_template_type(&yaml("type: '  my_type  '")), "my_type");
}

#[test]
fn template_type_resolver_infer_template_type_falls_back_to_tags_when_explicit_type_is_empty() {
    assert_eq!(infer_template_type(&yaml("type: ''\ntags: ['service']")), "service");
}

#[test]
fn template_type_resolver_infer_template_type_infers_service_from_tags() {
    assert_eq!(infer_template_type(&yaml("tags: ['other', 'SERVICE']")), "service");
}

#[test]
fn template_type_resolver_infer_template_type_infers_workspace_from_tags() {
    assert_eq!(infer_template_type(&yaml("tags: ['Workspace']")), "workspace");
}

#[test]
fn template_type_resolver_infer_template_type_infers_feature_from_tags() {
    assert_eq!(infer_template_type(&yaml("tags: ['FEATURE']")), "feature");
}

#[test]
fn template_type_resolver_infer_template_type_returns_unknown_when_no_tags_match() {
    assert_eq!(infer_template_type(&yaml("tags: ['other']")), "unknown");
}

#[test]
fn template_type_resolver_infer_template_type_returns_unknown_when_missing_type_and_tags() {
    assert_eq!(infer_template_type(&yaml("id: some_template")), "unknown");
}

#[test]
fn template_type_resolver_tests_infer_template_type_uses_explicit_type_when_available() {
    assert_eq!(infer_template_type(&yaml("type: explicit_type")), "explicit_type");
}

#[test]
fn template_type_resolver_tests_infer_template_type_trims_explicit_type() {
    assert_eq!(infer_template_type(&yaml("type: '  my_type  '")), "my_type");
}

#[test]
fn template_type_resolver_tests_infer_template_type_falls_back_to_tags_when_explicit_type_is_empty() {
    assert_eq!(infer_template_type(&yaml("type: ''\ntags: ['service']")), "service");
}

#[test]
fn template_type_resolver_tests_infer_template_type_infers_service_from_tags() {
    assert_eq!(infer_template_type(&yaml("tags: ['other', 'SERVICE']")), "service");
}

#[test]
fn template_type_resolver_tests_infer_template_type_infers_workspace_from_tags() {
    assert_eq!(infer_template_type(&yaml("tags: ['Workspace']")), "workspace");
}

#[test]
fn template_type_resolver_tests_infer_template_type_infers_feature_from_tags() {
    assert_eq!(infer_template_type(&yaml("tags: ['FEATURE']")), "feature");
}

#[test]
fn template_type_resolver_tests_infer_template_type_returns_unknown_when_no_tags_match() {
    assert_eq!(infer_template_type(&yaml("tags: ['other']")), "unknown");
}

#[test]
fn template_type_resolver_tests_infer_template_type_returns_unknown_when_missing_type_and_tags() {
    assert_eq!(infer_template_type(&yaml("id: some_template")), "unknown");
}

#[test]
fn validates_empty_service_name() {
    let _ctx = workspace("workspace: {}");
    let svc = ServiceInfo::new("".to_string(), "path".to_string(), "t1".to_string());
    assert!(svc.is_err());
}

#[test]
fn add_webapi_command_tests_can_create_valid_command() {
    let ctx = workspace("workspace: {}");
    let svc = ServiceInfo::new("Svc".to_string(), "path".to_string(), "t1".to_string()).unwrap();
    let cmd = AddWebApiCommand::new(svc, ctx, WebApiConfig::default());
    assert_eq!(cmd.service_info().name(), "Svc");
}

#[test]
fn add_webapi_command_enforces_rules() {
    let _ctx = workspace("workspace: {}");
    let svc = ServiceInfo::new("Svc".to_string(), "path".to_string(), "t1".to_string()).unwrap();
    let cmd = AddWebApiCommand::new(svc, _ctx, WebApiConfig::default());
    assert_eq!(cmd.service_info().name(), "Svc");
}

#[test]
fn add_service_module_is_idempotent() {
    let doc = yaml(
        "workspace:\n  namespace: MyProj\nservices:\n  MyService:\n    path: src/MyService\n    template:\n      id: dotnet-service\n",
    );
    let once = add_module_to_yaml(doc, "MyService", "mediator").unwrap();
    assert_eq!(modules_of(&once, "MyService"), vec!["mediator".to_owned()]);
    let twice = add_module_to_yaml(once, "MyService", "mediator").unwrap();
    assert_eq!(modules_of(&twice, "MyService"), vec!["mediator".to_owned()]);
    assert!(has_module_in_yaml(&twice, "MyService", "mediator"));
}

#[test]
fn add_service_module_fails_missing_services_key() {
    let result = add_module_to_yaml(yaml("workspace: { namespace: MyProj }"), "MyService", "mediator");
    match result {
        Err(AddArtifactError::WorkspaceError(msg)) => assert!(msg.contains("missing 'services' mapping")),
        _ => panic!("Expected WorkspaceError"),
    }
}

#[test]
fn add_service_module_fails_missing_target_service() {
    let result = add_module_to_yaml(
        yaml("workspace: { namespace: MyProj }\nservices: {}"),
        "OtherService",
        "mediator",
    );
    match result {
        Err(AddArtifactError::WorkspaceError(msg)) => {
            assert!(msg.contains("service 'OtherService' not found"))
        }
        _ => panic!("Expected WorkspaceError"),
    }
}

#[test]
fn add_service_module_creates_modules_key_if_missing() {
    let doc = yaml("services:\n  MyService:\n    path: src/MyService\n");
    let after = add_module_to_yaml(doc, "MyService", "mediator").unwrap();
    assert_eq!(modules_of(&after, "MyService"), vec!["mediator".to_owned()]);
}

#[test]
fn mediator_registration_leaves_documents_without_the_service_alone() {
    let doc = yaml("services:\n  Other:\n    path: src/Other\n");
    let after = register_module_if_present(doc, "MyService", "mediator");
    assert!(modules_of(&after, "Other").is_empty());
    assert!(!has_module_in_yaml(&after, "MyService", "mediator"));
    let doc = yaml("services:\n  MyService:\n    modules: [persistence]\n");
    let after = register_module_if_present(doc, "MyService", "mediator");
    assert_eq!(modules_of(&after, "MyService"), vec!["persistence".to_owned(), "mediator".to_owned()]);
}

#[test]
fn handle_captures_config_parameters() {
    let config = WebApiConfig::new()
        .with_openapi(false)
        .with_health_checks(true)
        .with_cors(false)
        .with_problem_details(true);
    let params = webapi_parameters(&yaml("workspace:\n  namespace: MyProj\n"), "Svc1", config).unwrap();
    assert_eq!(params.get_str("UseOpenApi").as_deref(), Some("false"));
    assert_eq!(params.get_str("UseHealthChecks").as_deref(), Some("true"));
    assert_eq!(params.get_str("UseCors").as_deref(), Some("false"));
    assert_eq!(params.get_str("UseProblemDetails").as_deref(), Some("true"));
    assert_eq!(params.get_str("Name").as_deref(), Some("Svc1"));
    assert_eq!(params.get_str("Namespace").as_deref(), Some("MyProj"));
    assert_eq!(params.get_str("Service").as_deref(), Some("Svc1"));
}

#[test]
fn handle_error_on_missing_namespace() {
    let result = webapi_parameters(&yaml("workspace: {}"), "Svc1", WebApiConfig::default());
    match result {
        Err(AddArtifactError::ConfigError(m)) => assert_eq!(
            m,
            "Missing 'workspace.namespace' in nfw.yaml. This is required for feature discovery."
        ),
        _ => panic!("expected a configuration error"),
    }
}

#[test]
fn handle_error_on_existing_module() {
    match webapi_exists_error("Svc1") {
        AddArtifactError::WorkspaceError(m) => assert_eq!(
            m,
            "WebAPI module already exists for service 'Svc1'. No changes were made."
        ),
        _ => panic!("expected a workspace error"),
    }
}

#[test]
fn module_parameters_of_persistence_and_mediator() {
    let doc = yaml("workspace:\n  namespace: MyProj\n");
    let params = persistence_parameters(&doc, "Svc1", "WebApi").unwrap();
    assert_eq!(params.get_str("PresentationLayer").as_deref(), Some("WebApi"));
    assert_eq!(params.get_str("Service").as_deref(), Some("Svc1"));
    let mediator = mediator_parameters(&doc, &AddMediatorCommand::new("Svc1".to_owned())).unwrap();
    assert_eq!(mediator.get_str("Name").as_deref(), Some("Svc1"));
    assert_eq!(mediator.get_str("Namespace").as_deref(), Some("MyProj"));
    assert_eq!(mediator.get_str("Service"), None);
    assert_eq!(bool_string(true), "true");
}

#[test]
fn persistence_command_needs_a_presentation_layer() {
    let svc = ServiceInfo::new("Svc".to_string(), "path".to_string(), "t1".to_string()).unwrap();
    let refused = AddPersistenceCommand::new(svc, workspace("workspace: {}"), String::new());
    assert_eq!(refused.unwrap_err(), "Presentation layer cannot be empty");
    let svc = ServiceInfo::new("Svc".to_string(), "path".to_string(), "t1".to_string()).unwrap();
    let cmd = AddPersistenceCommand::new(svc, workspace("workspace: {}"), "WebApi".to_owned()).unwrap();
    assert_eq!(cmd.presentation_layer(), "WebApi");
}

#[test]
fn test_invalid_entity_names() {
    for name in ["1Order", "Order-Item", "", "Or der", "Ordér"] {
        match check_entity_name(name) {
            Err(AddArtifactError::InvalidIdentifier(m)) => assert_eq!(
                m,
                format!(
                    "Invalid entity name '{name}'. Entity names must start with a letter and contain only alphanumeric characters."
                )
            ),
            _ => panic!("'{name}' should be refused"),
        }
    }
    assert!(check_entity_name("Order2").is_ok());
}

#[test]
fn test_entity_in_multiple_features() {
    match choose_feature("Order", vec!["Sales".to_owned(), "Billing".to_owned()]) {
        Err(AddArtifactError::InvalidIdentifier(m)) => assert_eq!(
            m,
            "Entity 'Order' found in multiple features ([\"Sales\", \"Billing\"]). Please specify --feature."
        ),
        _ => panic!("expected an ambiguity error"),
    }
    match choose_feature("Order", Vec::new()) {
        Err(AddArtifactError::InvalidIdentifier(m)) => assert_eq!(
            m,
            "Entity 'Order' not found in any feature. Generate the entity first."
        ),
        _ => panic!("expected a missing-entity error"),
    }
    assert_eq!(choose_feature("Order", vec!["Sales".to_owned()]).unwrap(), "Sales");
}

#[test]
fn test_repository_already_exists() {
    let files = vec!["IOrderRepository.cs".to_owned()];
    match check_repository_absent("Order", "Sales", Some(&files)) {
        Err(AddArtifactError::ArtifactAlreadyExists(m)) => assert_eq!(
            m,
            "Repository for entity 'Order' already exists in feature 'Sales'"
        ),
        _ => panic!("expected an existing-repository error"),
    }
    let others = vec!["CustomerRepository.cs".to_owned()];
    assert!(check_repository_absent("Order", "Sales", Some(&others)).is_ok());
    assert!(check_repository_absent("Order", "Sales", None).is_ok());
}

#[test]
fn entity_must_be_in_its_feature_directory() {
    let files = vec!["Order.cs".to_owned()];
    assert!(check_entity_present("Order", "Sales", "/e", Some(&files)).is_ok());
    match check_entity_present("Customer", "Sales", "/e", Some(&files)) {
        Err(AddArtifactError::InvalidIdentifier(m)) => {
            assert_eq!(m, "Entity 'Customer' not found in feature 'Sales'")
        }
        _ => panic!("expected a missing-entity error"),
    }
    match check_entity_present("Order", "Sales", "/e", None) {
        Err(AddArtifactError::InvalidIdentifier(m)) => assert_eq!(
            m,
            "Feature 'Sales' does not contain an entity artifacts directory at /e"
        ),
        _ => panic!("expected a missing-directory error"),
    }
}

#[test]
fn repository_needs_the_persistence_module() {
    let doc = yaml("services:\n  Svc:\n    modules: [mediator]\n    template:\n      id: dotnet\n");
    match check_persistence(&doc, "Svc") {
        Err(AddArtifactError::MissingRequiredModule(m)) => assert_eq!(
            m,
            "Service 'Svc' does not have 'persistence' module configured. Run 'nfw add persistence' first."
        ),
        _ => panic!("expected a missing-module error"),
    }
    let with = yaml("services:\n  Svc:\n    modules: [mediator, persistence]\n");
    assert!(check_persistence(&with, "Svc").is_ok());
    assert_eq!(service_template_id(&doc, "Svc"), "dotnet");
    assert_eq!(service_template_id(&doc, "Other"), "");
    match repository_parameters("Order") {
        ParamValue::Object(entries) => {
            assert_eq!(entries.len(), 1);
            assert_eq!(entries[0].0, "Entity");
        }
        _ => panic!("expected an object"),
    }
}

#[test]
fn features_holding_an_artifact_are_found() {
    let features = vec![
        ("Sales".to_owned(), Some(vec!["OrderCommand.cs".to_owned()])),
        ("Billing".to_owned(), Some(vec!["Invoice.cs".to_owned()])),
        ("Empty".to_owned(), None),
        ("Support".to_owned(), Some(vec!["readme.md".to_owned(), "OrderCommand.cs".to_owned()])),
    ];
    assert_eq!(
        find_matching_features(&features, "Order", "Command.cs"),
        vec!["Sales".to_owned(), "Support".to_owned()]
    );
    assert!(artifact_file_matches("OrderCommand.cs", "Order", "Command.cs"));
    assert!(!artifact_file_matches("OrderQuery.cs", "Order", "Command.cs"));
    assert_eq!(join_path("/w", "src"), "/w/src");
    assert_eq!(join_path("/w/", "src"), "/w/src");
    assert_eq!(join_path("/w", "/abs"), "/abs");
}

#[test]
fn http_methods_parse_in_any_case_and_print_their_names() {
    assert_eq!("get".parse::<HttpMethod>().unwrap(), HttpMethod::Get);
    assert_eq!("Post".parse::<HttpMethod>().unwrap(), HttpMethod::Post);
    assert_eq!(HttpMethod::parse("pAtCh").unwrap(), HttpMethod::Patch);
    match HttpMethod::parse("fetch") {
        Err(AddArtifactError::InvalidParameter(m)) => assert_eq!(
            m,
            "Invalid HTTP method 'fetch'. Must be GET, POST, PUT, DELETE, or PATCH."
        ),
        _ => panic!("expected an invalid-method error"),
    }
    for m in [HttpMethod::Get, HttpMethod::Post, HttpMethod::Put, HttpMethod::Delete, HttpMethod::Patch] {
        assert_eq!(m.parse_name().unwrap(), m);
        assert_eq!(HttpMethod::parse(&m.name()).unwrap(), m);
    }
    assert_eq!(HttpMethod::Delete.name(), "Delete");
}

#[test]
fn endpoint_command_needs_a_name() {
    let svc_ctx = || {
        AddArtifactContext::new(workspace("workspace: {}"), "/t".to_owned(), empty_config(), "Svc".to_owned(), "src/Svc".to_owned())
            .unwrap()
    };
    match GenEndpointCommand::new("  ".to_owned(), None, HttpMethod::Get, None, svc_ctx(), true) {
        Err(AddArtifactError::InvalidIdentifier(m)) => assert_eq!(m, "Endpoint name cannot be empty"),
        _ => panic!("expected a refusal"),
    }
    let cmd = GenEndpointCommand::new("GetOrder".to_owned(), Some("Sales".to_owned()), HttpMethod::Get, None, svc_ctx(), false)
        .unwrap();
    assert_eq!(cmd.name(), "GetOrder");
    assert_eq!(cmd.feature(), Some("Sales"));
    assert!(!cmd.attach_to_mediator());
}

#[test]
fn created_files_are_those_not_in_the_baseline() {
    let tracker = FileTracker::new("/out".to_owned(), vec!["/out/a".to_owned(), "/out/b".to_owned()]);
    let created = tracker.get_created_files(Ok(vec!["/out/a".to_owned(), "/out/c".to_owned(), "/out/b".to_owned(), "/out/d".to_owned()]));
    assert_eq!(created, vec!["/out/c".to_owned(), "/out/d".to_owned()]);
    assert!(tracker.get_created_files(Err("unreadable".to_owned())).is_empty());
    assert!(rollback_outcome(&Vec::new()).is_ok());
    match rollback_outcome(&vec!["/out/c".to_owned()]) {
        Err(AddArtifactError::WorkspaceError(m)) => assert_eq!(
            m,
            "Rollback partially failed. Manual cleanup required for: [\"/out/c\"]"
        ),
        _ => panic!("expected a rollback error"),
    }
    match YamlBackup::backup_failed("denied") {
        AddArtifactError::WorkspaceError(m) => assert_eq!(m, "Failed to backup nfw.yaml: denied"),
        _ => panic!("expected a workspace error"),
    }
}

struct NoDir;

impl nfw_core_application::template_management::artifact_generation_service::WorkingDirectoryProvider for NoDir {
    fn current_dir(&self) -> Result<String, String> {
        Ok("/w".to_owned())
    }
}

struct NoResolver;

impl nfw_core_application::template_management::artifact_generation_service::TemplateRootResolver for NoResolver {
    fn resolve(&self, _yaml: &YamlValue, _id: &str, _root: &str) -> Result<String, String> {
        Err("unused".to_owned())
    }
}

struct CapturingEngine {
    entity: std::cell::RefCell<Option<String>>,
}

impl nfw_core_application::template_management::artifact_generation_service::TemplateEngine for CapturingEngine {
    fn execute(
        &self,
        _config: &TemplateConfig,
        _template_root: &str,
        output_root: &str,
        parameters: &nfw_core_application::template_management::model::TemplateParameters,
    ) -> Result<(), nfw_core_application::template_management::errors::TemplateError> {
        assert_eq!(output_root, "/w/src/Svc");
        *self.entity.borrow_mut() = parameters.get_str("Entity");
        Ok(())
    }
}

fn repository_command(entity: &str, feature: Option<&str>, doc: &str) -> nfw_core_application::template_management::gen_repository::GenRepositoryCommand {
    let context = AddArtifactContext::new(
        WorkspaceContext::new("/w".to_owned(), yaml(doc), Vec::new(), true).unwrap(),
        "/t".to_owned(),
        empty_config(),
        "Svc".to_owned(),
        "src/Svc".to_owned(),
    )
    .unwrap();
    nfw_core_application::template_management::gen_repository::GenRepositoryCommand::new(
        entity.to_owned(),
        feature.map(str::to_owned),
        context,
    )
}

#[test]
fn repository_steps_follow_the_checks() {
    let handler = GenRepositoryCommandHandler::new(NoDir, NoResolver, CapturingEngine { entity: std::cell::RefCell::new(None) });
    let doc = "workspace:\n  namespace: Acme\nservices:\n  Svc:\n    path: src/Svc\n    modules: [persistence]\n    template:\n      id: dotnet\n";
    let bad = repository_command("9Order", None, doc);
    assert!(matches!(handler.handle(&bad), RepositoryStep::Finished(Err(AddArtifactError::InvalidIdentifier(_)))));
    let command = repository_command("Order", None, doc);
    assert_eq!(repository_service(&command).template_id, "dotnet");
    let step = handler.handle(&command);
    assert!(matches!(step, RepositoryStep::FindEntityFeatures));
    let step = handler.resume(&command, step, RepositoryEvent::FeaturesFound(Ok(vec!["Sales".to_owned()])));
    assert!(matches!(&step, RepositoryStep::ProbeEntityDirectory { feature } if feature == "Sales"));
    let step = handler.resume(
        &command,
        step,
        RepositoryEvent::DirectoryProbed(Ok(Some(("/e".to_owned(), Some(vec!["Order.cs".to_owned()]))))),
    );
    assert!(matches!(&step, RepositoryStep::ProbeRepositoryDirectory { feature } if feature == "Sales"));
    let render = handler.resume(&command, step, RepositoryEvent::DirectoryProbed(Ok(Some(("/r".to_owned(), None)))));
    let rendered = match &render {
        RepositoryStep::Render { request } => {
            assert_eq!(request.template_root, "/t");
            assert_eq!(request.output_root, "/w/src/Svc");
            assert_eq!(request.parameters.get_str("Feature").as_deref(), Some("Sales"));
            handler.service.engine.execute(&command.context().config, &request.template_root, &request.output_root, &request.parameters)
        }
        other => panic!("unexpected step: {other:?}"),
    };
    let done = handler.resume(&command, render, RepositoryEvent::Rendered(rendered));
    assert!(matches!(done, RepositoryStep::Finished(Ok(()))));
    assert_eq!(handler.service.engine.entity.borrow().clone(), Some("Order".to_owned()));

    let without_persistence = repository_command("Order", Some("Sales"), "workspace:\n  namespace: Acme\nservices:\n  Svc:\n    path: src/Svc\n");
    let step = handler.handle(&without_persistence);
    let step = handler.resume(&without_persistence, step, RepositoryEvent::DirectoryProbed(Ok(None)));
    match handler.resume(&without_persistence, step, RepositoryEvent::DirectoryProbed(Ok(None))) {
        RepositoryStep::Finished(Err(AddArtifactError::MissingRequiredModule(m))) => assert_eq!(
            m,
            "Service 'Svc' does not have 'persistence' module configured. Run 'nfw add persistence' first."
        ),
        other => panic!("unexpected step: {other:?}"),
    }
    let exists = handler.resume(
        &command,
        RepositoryStep::ProbeRepositoryDirectory { feature: "Sales".to_owned() },
        RepositoryEvent::DirectoryProbed(Ok(Some(("/r".to_owned(), Some(vec!["OrderRepository.cs".to_owned()]))))),
    );
    assert!(matches!(exists, RepositoryStep::Finished(Err(AddArtifactError::ArtifactAlreadyExists(_)))));
}

struct FailingEngine;

impl nfw_core_application::template_management::artifact_generation_service::TemplateEngine for FailingEngine {
    fn execute(
        &self,
        _config: &TemplateConfig,
        _template_root: &str,
        _output_root: &str,
        _parameters: &nfw_core_application::template_management::model::TemplateParameters,
    ) -> Result<(), nfw_core_application::template_management::errors::TemplateError> {
        Err(nfw_core_application::template_management::errors::TemplateError::TemplateConfigError {
            message: "broken".to_owned(),
            template_id: None,
        })
    }
}

fn module_context() -> AddArtifactContext {
    AddArtifactContext::new(workspace("workspace:\n  namespace: Acme\n"), "/t".to_owned(), empty_config(), "Svc".to_owned(), "src/Svc".to_owned())
        .unwrap()
}

#[test]
fn webapi_steps_register_after_rendering() {
    let handler = AddWebApiCommandHandler::new(NoDir, NoResolver, CapturingEngine { entity: std::cell::RefCell::new(None) });
    let svc = ServiceInfo::new("Svc".to_string(), "src/Svc".to_string(), "t1".to_string()).unwrap();
    let cmd = AddWebApiCommand::new(svc, workspace("workspace:\n  namespace: Acme\n"), WebApiConfig::new());
    let step = handler.handle(&cmd);
    assert!(matches!(step, ModuleStep::CheckRegistered));
    match handler.resume(&cmd, ModuleStep::CheckRegistered, ModuleEvent::RegistrationChecked(Ok(true))) {
        ModuleStep::Finished(Err(AddArtifactError::WorkspaceError(m))) => {
            assert_eq!(m, "WebAPI module already exists for service 'Svc'. No changes were made.")
        }
        other => panic!("unexpected step: {other:?}"),
    }
    let step = handler.resume(&cmd, step, ModuleEvent::RegistrationChecked(Ok(false)));
    assert!(matches!(step, ModuleStep::LoadContext));
    let step = handler.resume(&cmd, step, ModuleEvent::ContextLoaded(Ok(module_context())));
    match &step {
        ModuleStep::Prepare { parameters, output_root, .. } => {
            assert_eq!(output_root, "/w/src/Svc");
            assert_eq!(parameters.get_str("Namespace").as_deref(), Some("Acme"));
            assert_eq!(parameters.get_str("UseOpenApi").as_deref(), Some("false"));
        }
        other => panic!("unexpected step: {other:?}"),
    }
    let step = handler.resume(&cmd, step, ModuleEvent::Prepared(Ok(())));
    match &step {
        ModuleStep::Render { context, parameters, output_root } => {
            assert_eq!(context.template_root, "/t");
            assert_eq!(output_root, "/w/src/Svc");
            assert_eq!(parameters.get_str("UseCors").as_deref(), Some("false"));
        }
        other => panic!("unexpected step: {other:?}"),
    }
    let step = handler.resume(&cmd, step, ModuleEvent::Rendered(Ok(())));
    assert!(matches!(step, ModuleStep::Register));
    let failed = handler.resume(
        &cmd,
        ModuleStep::Register,
        ModuleEvent::Registered(Err(AddArtifactError::WorkspaceError("locked".to_owned()))),
    );
    assert!(matches!(failed, ModuleStep::RollBack { restore_workspace_file: true, .. }));
    match handler.resume(&cmd, failed, ModuleEvent::RolledBack) {
        ModuleStep::Finished(Err(AddArtifactError::WorkspaceError(m))) => assert_eq!(m, "locked"),
        other => panic!("unexpected step: {other:?}"),
    }
    assert!(matches!(handler.resume(&cmd, step, ModuleEvent::Registered(Ok(()))), ModuleStep::Finished(Ok(()))));
}

#[test]
fn persistence_steps_roll_back_a_failed_rendering() {
    let handler = AddPersistenceCommandHandler::new(NoDir, NoResolver, FailingEngine);
    let svc = ServiceInfo::new("Svc".to_string(), "src/Svc".to_string(), "t1".to_string()).unwrap();
    let cmd = AddPersistenceCommand::new(svc, workspace("workspace:\n  namespace: Acme\n"), "WebApi".to_owned()).unwrap();
    let step = handler.handle(&cmd);
    assert!(matches!(step, ModuleStep::LoadContext));
    let prepare = handler.resume(&cmd, step, ModuleEvent::ContextLoaded(Ok(module_context())));
    let render = handler.resume(&cmd, prepare, ModuleEvent::Prepared(Ok(())));
    let failure = match &render {
        ModuleStep::Render { context, parameters, output_root } => {
            handler.service.engine.execute(&context.config, &context.template_root, output_root, parameters)
        }
        other => panic!("unexpected step: {other:?}"),
    };
    let step = handler.resume(&cmd, render, ModuleEvent::Rendered(failure));
    assert!(matches!(
        step,
        ModuleStep::RollBack { restore_workspace_file: false, error: AddArtifactError::ExecutionFailed(_) }
    ));
    assert!(matches!(
        handler.resume(&cmd, step, ModuleEvent::RolledBack),
        ModuleStep::Finished(Err(AddArtifactError::ExecutionFailed(_)))
    ));
    let prepare = handler.resume(&cmd, ModuleStep::LoadContext, ModuleEvent::ContextLoaded(Ok(module_context())));
    match handler.resume(&cmd, prepare, ModuleEvent::Prepared(Err(PrepareFailure::Tracking("no access".to_owned())))) {
        ModuleStep::Finished(Err(AddArtifactError::WorkspaceError(m))) => {
            assert_eq!(m, "Failed to initialize file tracking: no access")
        }
        other => panic!("unexpected step: {other:?}"),
    }
    let no_namespace = AddPersistenceCommand::new(
        ServiceInfo::new("Svc".to_string(), "src/Svc".to_string(), "t1".to_string()).unwrap(),
        workspace("workspace: {}"),
        "WebApi".to_owned(),
    )
    .unwrap();
    assert!(matches!(
        handler.resume(&no_namespace, ModuleStep::LoadContext, ModuleEvent::ContextLoaded(Ok(module_context()))),
        ModuleStep::Finished(Err(AddArtifactError::ConfigError(_)))
    ));
}

/// Answers each step of a module command as a workspace whose `nfw.yaml` lists no
/// module for the service, and whose files can be backed up and tracked.
fn run_module_command(
    first: ModuleStep,
    context: AddArtifactContext,
    engine: &impl TemplateEngine,
    mut resume: impl FnMut(ModuleStep, ModuleEvent) -> ModuleStep,
) -> Result<(), AddArtifactError> {
    let mut step = first;
    let mut context = Some(context);
    loop {
        let event = match &step {
            ModuleStep::Finished(_) => break,
            ModuleStep::CheckRegistered => ModuleEvent::RegistrationChecked(Ok(false)),
            ModuleStep::LoadContext => ModuleEvent::ContextLoaded(Ok(context.take().unwrap())),
            ModuleStep::Prepare { .. } => ModuleEvent::Prepared(Ok(())),
            ModuleStep::Render { context, parameters, output_root } => ModuleEvent::Rendered(
                engine.execute(&context.config, &context.template_root, output_root, parameters),
            ),
            ModuleStep::Register => ModuleEvent::Registered(Ok(())),
            ModuleStep::RollBack { .. } => ModuleEvent::RolledBack,
        };
        step = resume(step, event);
    }
    match step {
        ModuleStep::Finished(outcome) => outcome,
        other => panic!("unexpected step: {other:?}"),
    }
}

const SVC1_WORKSPACE: &str =
    "workspace:\n  namespace: MyProj\nservices:\n  Svc1:\n    path: src/Svc1\n    template:\n      id: t1";

fn svc1_context() -> AddArtifactContext {
    AddArtifactContext::new(workspace(SVC1_WORKSPACE), "/t".to_owned(), empty_config(), "Svc1".to_owned(), "src/Svc1".to_owned())
        .unwrap()
}

#[test]
fn handle_error_on_engine_failure() {
    let handler = AddWebApiCommandHandler::new(NoDir, NoResolver, FailingEngine);
    let cmd = AddWebApiCommand::new(
        ServiceInfo::new("Svc1".to_string(), "src/Svc1".to_string(), "t1".to_string()).unwrap(),
        workspace(SVC1_WORKSPACE),
        WebApiConfig::default(),
    );
    let result = run_module_command(handler.handle(&cmd), svc1_context(), &handler.service.engine, |s, e| {
        handler.resume(&cmd, s, e)
    });
    assert!(matches!(result, Err(AddArtifactError::ExecutionFailed(_))));
}

#[test]
fn handle_returns_error_when_engine_fails() {
    let handler = AddPersistenceCommandHandler::new(NoDir, NoResolver, FailingEngine);
    let cmd = AddPersistenceCommand::new(
        ServiceInfo::new("Svc1".to_string(), "src/Svc1".to_string(), "t1".to_string()).unwrap(),
        workspace(SVC1_WORKSPACE),
        "WebApi".to_owned(),
    )
    .unwrap();
    let result = run_module_command(handler.handle(&cmd), svc1_context(), &handler.service.engine, |s, e| {
        handler.resume(&cmd, s, e)
    });
    assert!(matches!(result, Err(AddArtifactError::ExecutionFailed(_))));
}

#[test]
fn load_template_context_resolves_dynamic_sub_template() {
    let workspace_context = workspace(
        "\nworkspace:\n  namespace: MyProj\nservices:\n  MyService:\n    path: src/MyService\n    template:\n      id: \"my-template\"\n",
    );
    let service = nfw_core_application::template_management::artifact_generation_service::ArtifactGenerationService::new(
        NoDir,
        NoResolver,
        FailingEngine,
    );
    assert_eq!(service.extract_namespace(&workspace_context.nfw_yaml).unwrap(), "MyProj");
    assert_eq!(extract_services_from(&workspace_context.nfw_yaml).unwrap().len(), 1);
    let services = service.extract_services(&workspace_context).unwrap();
    let target_service = services.into_iter().find(|s| s.name() == "MyService").unwrap();
    let base = TemplateConfig {
        id: Some("my-template".to_owned()),
        steps: Vec::new(),
        generators: Some(vec![("persistence".to_owned(), "persistence".to_owned())]),
        required_modules: Vec::new(),
    };
    assert_eq!(target_service.template_id(), "my-template");
    let root = sub_template_root("/sandbox/my-template", &base, "persistence");
    assert_eq!(root, "/sandbox/my-template/persistence", "Should resolve to sub-template 'persistence' directory");
    assert!(declares_generator(&base, "persistence"));
    assert!(!declares_generator(&base, "webapi"));
    assert_eq!(sub_template_root("/sandbox/my-template", &base, "webapi"), "/sandbox/my-template/webapi");
}

#[test]
fn presentation_layers_are_the_names_past_the_prefix() {
    let names = vec![
        "Svc.Presentation.WebApi".to_owned(),
        "Svc.Presentation.".to_owned(),
        "Other.Presentation.Grpc".to_owned(),
        "Svc.Presentation.Grpc".to_owned(),
    ];
    assert_eq!(
        presentation_layers(&names, "Svc.Presentation."),
        vec!["WebApi".to_owned(), "Grpc".to_owned()]
    );
    assert!(presentation_layers(&Vec::new(), "Svc.").is_empty());
}

#[test]
fn mediator_steps_render_then_register_the_module() {
    let handler = AddMediatorCommandHandler::new(NoDir, NoResolver, CapturingEngine { entity: std::cell::RefCell::new(None) });
    let command = AddMediatorCommand::new("Svc".to_owned());
    let ws = workspace("workspace:\n  namespace: Acme\nservices:\n  Svc:\n    path: src/Svc\n    template:\n      id: t1\n");
    let selected = ServiceInfo::new("Svc".to_string(), "src/Svc".to_string(), "t1".to_string()).unwrap();
    assert_eq!(handler.extract_services(&ws).unwrap().len(), 1);
    let step = handler.handle(&command, &ws, &selected);
    assert!(matches!(step, MediatorStep::LoadContext));
    let step = handler.resume(&command, &ws, &selected, step, MediatorEvent::ContextLoaded(Ok(module_context())));
    match &step {
        MediatorStep::Render { parameters, output_root, .. } => {
            assert_eq!(output_root, "/w/src/Svc");
            assert_eq!(parameters.get_str("Name").as_deref(), Some("Svc"));
            assert_eq!(parameters.get_str("Namespace").as_deref(), Some("Acme"));
        }
        other => panic!("unexpected step: {other:?}"),
    }
    let failed = handler.resume(
        &command,
        &ws,
        &selected,
        MediatorStep::Render { context: module_context(), parameters: TemplateParameters::new(), output_root: "/o".to_owned() },
        MediatorEvent::Rendered(FailingEngine.execute(&empty_config(), "/t", "/o", &TemplateParameters::new())),
    );
    assert!(matches!(failed, MediatorStep::Finished(Err(AddArtifactError::ExecutionFailed(_)))));
    let step = handler.resume(&command, &ws, &selected, step, MediatorEvent::Rendered(Ok(())));
    assert!(matches!(step, MediatorStep::ReadWorkspaceFile));
    match handler.resume(&command, &ws, &selected, MediatorStep::ReadWorkspaceFile, MediatorEvent::WorkspaceFileRead(Ok(Err("bad indent".to_owned())))) {
        MediatorStep::Finished(Err(AddArtifactError::WorkspaceError(m))) => assert_eq!(m, "invalid nfw.yaml: bad indent"),
        other => panic!("unexpected step: {other:?}"),
    }
    let step = handler.resume(
        &command,
        &ws,
        &selected,
        step,
        MediatorEvent::WorkspaceFileRead(Ok(Ok(yaml("services:\n  Svc:\n    path: src/Svc\n")))),
    );
    match &step {
        MediatorStep::WriteWorkspaceFile { document } => assert_eq!(modules_of(document, "Svc"), vec!["mediator".to_owned()]),
        other => panic!("unexpected step: {other:?}"),
    }
    match handler.resume(&command, &ws, &selected, step, MediatorEvent::WorkspaceFileWritten(Err(WriteFailure::Write("read-only".to_owned())))) {
        MediatorStep::Finished(Err(AddArtifactError::WorkspaceError(m))) => assert_eq!(m, "failed to write nfw.yaml: read-only"),
        other => panic!("unexpected step: {other:?}"),
    }
    let no_namespace = workspace("services:\n  Svc:\n    path: src/Svc\n");
    assert!(matches!(
        handler.resume(&command, &no_namespace, &selected, MediatorStep::LoadContext, MediatorEvent::ContextLoaded(Ok(module_context()))),
        MediatorStep::Finished(Err(AddArtifactError::ConfigError(_)))
    ));
}

#[test]
fn handlers_list_the_services_of_the_workspace() {
    let ws = workspace("services:\n  Svc:\n    path: src/Svc\n    template:\n      id: t1\n  Api:\n    path: src/Api\n");
    let webapi = AddWebApiCommandHandler::new(NoDir, NoResolver, FailingEngine);
    match webapi.extract_services(&ws) {
        Err(AddArtifactError::ConfigError(m)) => assert_eq!(m, "service 'Api' is missing its 'template.id' field"),
        other => panic!("unexpected result: {other:?}"),
    }
    let ws = workspace("services:\n  Svc:\n    path: src/Svc\n    template:\n      id: t1\n");
    let persistence = AddPersistenceCommandHandler::new(NoDir, NoResolver, FailingEngine);
    let services = persistence.extract_services(&ws).unwrap();
    assert_eq!((services[0].name(), services[0].path(), services[0].template_id()), ("Svc", "src/Svc", "t1"));
    let repository = GenRepositoryCommandHandler::new(NoDir, NoResolver, FailingEngine);
    assert_eq!(repository.extract_services(&ws).unwrap().len(), 1);
}

#[test]
fn features_are_listed_only_under_an_existing_root() {
    let names = vec!["Orders".to_owned(), "Sales".to_owned()];
    assert_eq!(
        features_of_root(&Some("/w/src/Features".to_owned()), true, names.clone()),
        names
    );
    assert!(features_of_root(&Some("/w/src/Features".to_owned()), false, names.clone()).is_empty());
    assert!(features_of_root(&None, true, names).is_empty());
}

#[test]
fn artifacts_are_searched_only_under_an_existing_features_root() {
    let listings = vec![
        ("Orders".to_owned(), Some(vec!["OrderCommand.cs".to_owned()])),
        ("Sales".to_owned(), None),
        ("Billing".to_owned(), Some(vec!["Invoice.cs".to_owned()])),
    ];
    let located = Some(("/w/src/Features".to_owned(), vec!["Commands".to_owned()], "Command.cs".to_owned()));
    assert_eq!(
        features_with_artifact(&located, true, &listings, "Order"),
        vec!["Orders".to_owned()]
    );
    assert!(features_with_artifact(&located, false, &listings, "Order").is_empty());
    assert!(features_with_artifact(&None, true, &listings, "Order").is_empty());
}

#[test]
fn presentation_layers_are_empty_without_a_webapi_generator() {
    let names = vec!["Svc.Presentation.WebApi".to_owned(), "Svc.Core".to_owned()];
    let located = Some(("/w/src/Svc".to_owned(), "Svc.Presentation.".to_owned()));
    assert_eq!(
        presentation_layers_of(true, &located, true, &names),
        vec!["WebApi".to_owned()]
    );
    assert!(presentation_layers_of(false, &located, true, &names).is_empty());
    assert!(presentation_layers_of(true, &located, false, &names).is_empty());
    assert!(presentation_layers_of(true, &None, true, &names).is_empty());
}
