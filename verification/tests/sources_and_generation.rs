use nfw_core_application::template_management::errors::{GenerateError, TemplateError};
use nfw_core_application::template_management::artifact_generation_service::{
    TemplateEngine, TemplateRootResolver, WorkingDirectoryProvider,
};
use nfw_core_application::template_management::generate::{
    extract_template_id, parse_param_pairs, GenerateCommand, GenerateCommandHandler, GenerateEvent,
    GenerateStep, TemplateConfigFailure,
};
use nfw_core_application::template_management::model::{
    Language, TemplateCatalog, TemplateConfig, TemplateDescriptor, TemplateMetadata,
    TemplateParameters, TemplateSource, Version,
};
use nfw_core_application::template_management::source_commands::{
    default_source_step, discovery_step, registration_step, removal_step, AddTemplateSourceCommand,
    AddTemplateSourceCommandHandler, ConfigStore, DiscoveryEvent, DiscoveryStep, GitRepository,
    SourceStoreEvent, SourceStoreStep, TemplateCatalogSourceResolver, TemplateSourceSynchronizer,
    TemplatesService,
};
use nfw_core_application::template_management::template_catalog_parser::{
    filter_tags, metadata_from, normalize_optional, parse_language, required_non_empty,
    MetadataChecks, RawTemplateMetadata, TemplateCatalogError, TemplateCatalogParser, Validator,
    VersionComparator,
};
use nfw_core_application::template_management::templates_service::{
    add_source_to, enabled_sources, is_critical_discovery_error, is_transient_sync_failure,
    listed_templates, remove_source_from, with_default_source, CatalogDiscovery,
    TemplatesServiceError, OFFICIAL_NAME, OFFICIAL_URL,
};
use nfw_core_application::yaml::YamlValue;
use std::cell::RefCell;

fn yaml(text: &str) -> YamlValue {
    convert(&serde_yaml::from_str::<serde_yaml::Value>(text).unwrap())
}

fn convert(value: &serde_yaml::Value) -> YamlValue {
    match value {
        serde_yaml::Value::Null => YamlValue::Null,
        serde_yaml::Value::Bool(b) => YamlValue::Bool(*b),
        serde_yaml::Value::Number(n) => YamlValue::Number(n.to_string()),
        serde_yaml::Value::String(s) => YamlValue::Str(s.clone()),
        serde_yaml::Value::Sequence(items) => YamlValue::Sequence(items.iter().map(convert).collect()),
        serde_yaml::Value::Mapping(m) => {
            YamlValue::Mapping(m.iter().map(|(k, v)| (convert(k), convert(v))).collect())
        }
        serde_yaml::Value::Tagged(t) => convert(&t.value),
    }
}

fn source(name: &str, url: &str) -> TemplateSource {
    TemplateSource::new(name.to_owned(), url.to_owned())
}

fn names(sources: &[TemplateSource]) -> Vec<String> {
    sources.iter().map(|s| s.name.clone()).collect()
}

fn metadata(id: &str) -> TemplateMetadata {
    TemplateMetadata {
        id: id.to_owned(),
        name: format!("Template {id}"),
        description: "Valid template".to_owned(),
        version: Version::parse("1.0.0").unwrap(),
        language: Language::Rust,
        tags: Vec::new(),
        author: None,
        min_cli_version: None,
        source_url: None,
    }
}

fn catalog(source: &str, ids: &[&str]) -> TemplateCatalog {
    TemplateCatalog {
        source_name: source.to_owned(),
        templates: ids
            .iter()
            .map(|id| TemplateDescriptor { metadata: metadata(id), cache_path: format!("/c/{id}") })
            .collect(),
    }
}

struct TrackingConfigStore {
    sources: RefCell<Vec<TemplateSource>>,
}

impl ConfigStore for TrackingConfigStore {
    fn load_sources(&self) -> Result<Vec<TemplateSource>, String> {
        Ok(self.sources.borrow().iter().map(|s| s.copy()).collect())
    }

    fn save_sources(&self, sources: &Vec<TemplateSource>) -> Result<(), String> {
        *self.sources.borrow_mut() = sources.iter().map(|s| s.copy()).collect();
        Ok(())
    }
}

struct TestValidator;

impl Validator for TestValidator {
    fn is_kebab_case(&self, value: &str) -> bool {
        if value.starts_with('-') || value.ends_with('-') || value.contains("--") {
            return false;
        }
        value.chars().all(|c| c.is_ascii_lowercase() || c.is_ascii_digit() || c == '-')
    }

    fn is_git_url(&self, value: &str) -> bool {
        value.starts_with("http://") || value.starts_with("https://") || value.starts_with("git@")
    }
}

struct MockGitRepository;

impl GitRepository for MockGitRepository {
    fn is_valid_git_url_format(&self, url: &str) -> bool {
        url.starts_with("http://") || url.starts_with("https://") || url.starts_with("git@") || url.starts_with('/')
    }
}

struct TrackingSourceSynchronizer {
    removed_sources: RefCell<Vec<String>>,
}

impl TemplateSourceSynchronizer for TrackingSourceSynchronizer {
    fn sync_source(&self, _source: &TemplateSource) -> Result<(String, Option<String>), String> {
        Ok(("/tmp/nfw/unused".to_owned(), None))
    }

    fn clear_source_cache(&self, source_name: &str) -> Result<(), String> {
        self.removed_sources.borrow_mut().push(source_name.to_owned());
        Ok(())
    }
}

fn service(
    sources: Vec<TemplateSource>,
) -> TemplatesService<TrackingSourceSynchronizer, (), TrackingConfigStore, TestValidator, MockGitRepository> {
    TemplatesService::new(
        TrackingSourceSynchronizer { removed_sources: RefCell::new(Vec::new()) },
        (),
        TrackingConfigStore { sources: RefCell::new(sources) },
        TestValidator,
        MockGitRepository,
    )
}

#[test]
fn adds_source_when_url_is_valid() {
    let service = service(vec![source("official", "https://github.com/n-framework/nfw-templates")]);
    let result = service.add_source("my-team", "https://example.com/my-team.git");
    assert!(result.is_ok());
    let sources = service.config_store.load_sources().expect("sources should be loadable");
    assert_eq!(sources.len(), 2);
    assert!(sources.iter().any(|source| source.name == "my-team"));
}

#[test]
fn removes_source_and_clears_cache() {
    let service = service(vec![
        source("official", "https://github.com/n-framework/nfw-templates"),
        source("my-team", "https://example.com/my-team.git"),
    ]);
    let result = service.remove_source("my-team");
    assert!(result.is_ok());
    let sources = service.config_store.load_sources().expect("sources should be loadable");
    assert_eq!(sources.len(), 1);
    assert!(sources.iter().all(|source| source.name != "my-team"));
    assert_eq!(service.source_synchronizer.removed_sources.borrow().as_slice(), ["my-team"]);
}

#[test]
fn initializes_default_official_source_once() {
    let service = service(Vec::new());
    service.ensure_default_source_registered().expect("default source should be initialized");
    service
        .ensure_default_source_registered()
        .expect("default source initialization should be idempotent");
    let sources = service.config_store.load_sources().expect("sources should be loadable");
    assert_eq!(sources.len(), 1);
    assert_eq!(sources[0].name, "official");
}

#[test]
fn source_names_and_urls_are_checked() {
    let service = service(Vec::new());
    match service.add_source("My Team", "https://example.com/x.git") {
        Err(TemplatesServiceError::InvalidSourceName(n)) => assert_eq!(n, "My Team"),
        other => panic!("unexpected: {other:?}"),
    }
    match service.add_source("team", "  ") {
        Err(TemplatesServiceError::InvalidSourceUrl(u)) => assert_eq!(u, "  "),
        other => panic!("unexpected: {other:?}"),
    }
    service.add_source("  team  ", " https://example.com/x.git ").unwrap();
    match service.add_source("team", "https://example.com/y.git") {
        Err(TemplatesServiceError::SourceAlreadyExists(n)) => assert_eq!(n, "team"),
        other => panic!("unexpected: {other:?}"),
    }
    match service.remove_source("nobody") {
        Err(TemplatesServiceError::SourceNotFound(n)) => assert_eq!(n, "nobody"),
        other => panic!("unexpected: {other:?}"),
    }
    let handler = AddTemplateSourceCommandHandler::new(
        TrackingConfigStore { sources: RefCell::new(Vec::new()) },
        TestValidator,
        MockGitRepository,
    );
    let result = handler
        .handle(&AddTemplateSourceCommand { name: " zeta ".to_owned(), url: "git@host:z.git".to_owned() })
        .unwrap();
    assert_eq!(result.source_name, "zeta");
}

#[test]
fn sources_stay_sorted_and_default_is_added_once() {
    let added = add_source_to(vec![source("zeta", "u"), source("beta", "u")], source("alpha", "u")).unwrap();
    assert_eq!(names(&added), vec!["alpha", "beta", "zeta"]);
    let (with_default, changed) = with_default_source(Vec::new());
    assert!(changed);
    assert_eq!(with_default[0].name, OFFICIAL_NAME);
    assert_eq!(with_default[0].url, OFFICIAL_URL);
    let (again, changed_again) = with_default_source(with_default);
    assert!(!changed_again);
    assert_eq!(again.len(), 1);
    let removed = remove_source_from(added, "beta").unwrap();
    assert_eq!(names(&removed), vec!["alpha", "zeta"]);
    let mut disabled = source("off", "u");
    disabled.enabled = false;
    assert_eq!(names(&enabled_sources(vec![source("on", "u"), disabled])), vec!["on"]);
}

struct SyncOutcomes(Vec<(String, Result<(String, Option<String>), String>)>);

impl TemplateSourceSynchronizer for SyncOutcomes {
    fn sync_source(&self, source: &TemplateSource) -> Result<(String, Option<String>), String> {
        self.0
            .iter()
            .find(|(name, _)| name == &source.name)
            .map(|(_, outcome)| outcome.clone())
            .unwrap_or_else(|| Ok(("/tmp/nfw/unused".to_owned(), None)))
    }

    fn clear_source_cache(&self, _source_name: &str) -> Result<(), String> {
        Ok(())
    }
}

struct CatalogsByRoot(Vec<(String, Vec<&'static str>)>);

impl TemplateCatalogSourceResolver for CatalogsByRoot {
    fn resolve(&self, source_name: &str, cache_path: &str) -> Result<TemplateCatalog, String> {
        self.0
            .iter()
            .find(|(root, _)| root == cache_path)
            .map(|(_, ids)| catalog(source_name, ids))
            .ok_or_else(|| format!("no templates configured for '{cache_path}'"))
    }
}

fn discovering_service(
    sources: Vec<TemplateSource>,
    outcomes: Vec<(String, Result<(String, Option<String>), String>)>,
    catalogs: Vec<(String, Vec<&'static str>)>,
) -> TemplatesService<SyncOutcomes, CatalogsByRoot, TrackingConfigStore, TestValidator, MockGitRepository> {
    TemplatesService::new(
        SyncOutcomes(outcomes),
        CatalogsByRoot(catalogs),
        TrackingConfigStore { sources: RefCell::new(sources) },
        TestValidator,
        MockGitRepository,
    )
}

#[test]
fn lists_templates_from_single_source() {
    let root = "/tmp/nfw/source-official".to_owned();
    let service = discovering_service(
        vec![source("official", "https://example.com/official.git")],
        vec![("official".to_owned(), Ok((root.clone(), None)))],
        vec![(root, vec!["web-api"])],
    );
    let (templates, warnings) = service.list_templates().expect("list should succeed");
    assert!(warnings.is_empty());
    assert_eq!(templates.len(), 1);
    assert_eq!(templates[0].id, "web-api");
    assert_eq!(templates[0].source_name, "official");
}

#[test]
fn catalogs_are_discovered_for_enabled_sources_in_name_order() {
    let mut disabled = source("beta", "https://example.com/beta.git");
    disabled.enabled = false;
    let service = discovering_service(
        vec![
            source("zeta", "https://example.com/zeta.git"),
            disabled,
            source("alpha", "https://example.com/alpha.git"),
            source("gamma", "https://example.com/gamma.git"),
        ],
        vec![
            ("zeta".to_owned(), Ok(("/c/zeta".to_owned(), Some("offline".to_owned())))),
            ("alpha".to_owned(), Ok(("/c/alpha".to_owned(), None))),
            ("gamma".to_owned(), Err("network unreachable".to_owned())),
        ],
        vec![("/c/zeta".to_owned(), vec!["api"]), ("/c/alpha".to_owned(), vec!["worker"])],
    );
    let (catalogs, warnings) = service.discover_catalogs().expect("discovery should succeed");
    let names: Vec<String> = catalogs.iter().map(|c| c.source_name.clone()).collect();
    assert_eq!(names, vec!["alpha", "zeta"]);
    assert_eq!(
        warnings,
        vec![
            "template source 'zeta' using cached data: offline".to_owned(),
            "Could not reach 1 template source(s): gamma. Using cached data if available.".to_owned(),
        ]
    );
    let failing = discovering_service(
        vec![source("official", "https://example.com/official.git")],
        vec![("official".to_owned(), Err("repository not found".to_owned()))],
        Vec::new(),
    );
    match failing.discover_catalogs() {
        Err(TemplatesServiceError::SourceSyncFailed { source, reason }) => {
            assert_eq!(source, "official");
            assert_eq!(reason, "repository not found");
        }
        other => panic!("unexpected: {other:?}"),
    }
}

#[test]
fn listed_templates_are_sorted_by_identifier_then_source() {
    let templates = listed_templates(vec![
        catalog("team", &["worker", "api"]),
        catalog("official", &["worker"]),
    ]);
    let keys: Vec<(String, String)> = templates.iter().map(|t| (t.id.clone(), t.source_name.clone())).collect();
    assert_eq!(
        keys,
        vec![
            ("api".to_owned(), "team".to_owned()),
            ("worker".to_owned(), "official".to_owned()),
            ("worker".to_owned(), "team".to_owned()),
        ]
    );
}

#[test]
fn discovery_collects_catalogs_and_warnings() {
    let mut discovery = CatalogDiscovery::new();
    assert_eq!(
        discovery.record_sync("zeta", Ok(("/c/zeta".to_owned(), Some("offline".to_owned())))).unwrap(),
        Some("/c/zeta".to_owned())
    );
    discovery.record_catalog("zeta", Ok(catalog("zeta", &[]))).unwrap();
    assert_eq!(discovery.record_sync("alpha", Err("network unreachable".to_owned())).unwrap(), None);
    assert_eq!(discovery.record_sync("beta", Err("connection reset".to_owned())).unwrap(), None);
    discovery.record_sync("gamma", Ok(("/c/gamma".to_owned(), None))).unwrap();
    discovery.record_catalog("gamma", Err("template 'x' is invalid".to_owned())).unwrap();
    discovery.record_catalog("delta", Ok(catalog("delta", &["api"]))).unwrap();
    let (catalogs, warnings) = discovery.finish();
    let sources: Vec<String> = catalogs.iter().map(|c| c.source_name.clone()).collect();
    assert_eq!(sources, vec!["delta", "zeta"]);
    assert_eq!(
        warnings,
        vec![
            "template source 'zeta' using cached data: offline".to_owned(),
            "template source 'zeta' contains no valid templates".to_owned(),
            "template source 'gamma' discovery warning: template 'x' is invalid".to_owned(),
            "Could not reach 2 template source(s): alpha, beta. Using cached data if available."
                .to_owned(),
        ]
    );
}

#[test]
fn discovery_stops_on_fatal_failures() {
    let mut discovery = CatalogDiscovery::new();
    match discovery.record_sync("official", Err("repository not found".to_owned())) {
        Err(TemplatesServiceError::SourceSyncFailed { source, reason }) => {
            assert_eq!(source, "official");
            assert_eq!(reason, "repository not found");
        }
        other => panic!("unexpected: {other:?}"),
    }
    match discovery.record_catalog("official", Err("cache is corrupted".to_owned())) {
        Err(TemplatesServiceError::SourceDiscoveryFailed { source, .. }) => assert_eq!(source, "official"),
        other => panic!("unexpected: {other:?}"),
    }
    assert!(is_transient_sync_failure("could not fast-forward main"));
    assert!(!is_transient_sync_failure("bad credentials"));
    assert!(is_critical_discovery_error("permission denied (os error 13)"));
    assert!(!is_critical_discovery_error("missing field"));
}

fn raw_metadata() -> RawTemplateMetadata {
    RawTemplateMetadata {
        id: Some(" web-api ".to_owned()),
        name: Some("Web API".to_owned()),
        description: Some("Valid template".to_owned()),
        version: Some("1.0.0".to_owned()),
        language: Some("rust".to_owned()),
        tags: Some(vec!["web".to_owned(), "  ".to_owned(), "api".to_owned()]),
        author: Some("  ".to_owned()),
        min_cli_version: None,
        source_url: None,
        generators: None,
    }
}

fn accepting() -> MetadataChecks {
    MetadataChecks {
        id_is_kebab: true,
        version_check: Ok(()),
        min_cli_version_check: Ok(()),
        source_url_is_git: true,
    }
}

struct SemverComparator;

impl VersionComparator for SemverComparator {
    fn parse(&self, version: &str) -> Result<(), String> {
        semver::Version::parse(version).map(|_| ()).map_err(|e| e.to_string())
    }
}

#[test]
fn metadata_is_read_from_its_raw_fields() {
    let m = metadata_from(raw_metadata(), accepting()).unwrap();
    assert_eq!(m.id, "web-api");
    assert_eq!(m.name, "Web API");
    assert_eq!(m.language, Language::Rust);
    assert_eq!(m.tags, vec!["web".to_owned(), "api".to_owned()]);
    assert_eq!(m.author, None);
    assert_eq!(m.version.to_text(), "1.0.0");
    let parser = TemplateCatalogParser::new((), TestValidator, SemverComparator);
    let parsed = parser.parse_template_metadata(raw_metadata()).unwrap();
    assert_eq!(parsed.id, "web-api");
    assert_eq!(parser.parse_template_document(Ok(raw_metadata())).unwrap().id, "web-api");
    match parser.parse_template_document(Err("mapping values are not allowed".to_owned())) {
        Err(TemplateCatalogError::InvalidYaml(m)) => assert_eq!(m, "mapping values are not allowed"),
        other => panic!("unexpected: {other:?}"),
    }
}

#[test]
fn metadata_refusals_name_the_field() {
    let missing = RawTemplateMetadata { id: None, ..raw_metadata() };
    match metadata_from(missing, accepting()) {
        Err(TemplateCatalogError::MissingField { field }) => assert_eq!(field, "id"),
        other => panic!("unexpected: {other:?}"),
    }
    match metadata_from(raw_metadata(), MetadataChecks { id_is_kebab: false, ..accepting() }) {
        Err(TemplateCatalogError::InvalidField { field, reason }) => {
            assert_eq!(field, "id");
            assert_eq!(reason, "must use kebab-case (example: web-api)");
        }
        other => panic!("unexpected: {other:?}"),
    }
    let blank_name = RawTemplateMetadata { name: Some(" ".to_owned()), ..raw_metadata() };
    match metadata_from(blank_name, accepting()) {
        Err(TemplateCatalogError::EmptyField { field }) => assert_eq!(field, "name"),
        other => panic!("unexpected: {other:?}"),
    }
    let cobol = RawTemplateMetadata { language: Some("cobol".to_owned()), ..raw_metadata() };
    match metadata_from(cobol, accepting()) {
        Err(TemplateCatalogError::UnsupportedLanguage { value }) => assert_eq!(value, "cobol"),
        other => panic!("unexpected: {other:?}"),
    }
    let no_git = RawTemplateMetadata { source_url: Some("ftp://x".to_owned()), ..raw_metadata() };
    match metadata_from(no_git, MetadataChecks { source_url_is_git: false, ..accepting() }) {
        Err(TemplateCatalogError::InvalidField { field, reason }) => {
            assert_eq!(field, "source_url");
            assert_eq!(reason, "must be a valid git URL");
        }
        other => panic!("unexpected: {other:?}"),
    }
    let bad_version = RawTemplateMetadata { version: Some("1.0".to_owned()), ..raw_metadata() };
    let parser = TemplateCatalogParser::new((), TestValidator, SemverComparator);
    match parser.parse_template_metadata(bad_version) {
        Err(TemplateCatalogError::InvalidField { field, .. }) => assert_eq!(field, "version"),
        other => panic!("unexpected: {other:?}"),
    }
}

#[test]
fn field_helpers_trim_and_classify() {
    assert_eq!(required_non_empty(Some("  x ".to_owned()), "id").unwrap(), "x");
    assert_eq!(normalize_optional(Some("   ".to_owned())), None);
    assert_eq!(normalize_optional(Some(" a ".to_owned())), Some("a".to_owned()));
    assert_eq!(parse_language("c#".to_owned()).unwrap(), Language::Dotnet);
    assert_eq!(parse_language("neutral".to_owned()).unwrap(), Language::Neutral);
    assert_eq!(filter_tags(None), Vec::<String>::new());
}

#[test]
fn parameters_pairs_are_trimmed_and_checked() {
    assert_eq!(
        parse_param_pairs(" Entity = Order ,Table=orders").unwrap(),
        vec![("Entity".to_owned(), "Order".to_owned()), ("Table".to_owned(), "orders".to_owned())]
    );
    assert_eq!(
        parse_param_pairs("Entity=Order,broken").unwrap_err(),
        "invalid parameter format 'broken'. expected Key=Value"
    );
    assert_eq!(parse_param_pairs(" =x").unwrap_err(), "parameter name cannot be empty");
    assert_eq!(parse_param_pairs("a=b=c").unwrap(), vec![("a".to_owned(), "b=c".to_owned())]);
}

struct Dir(String);

impl WorkingDirectoryProvider for Dir {
    fn current_dir(&self) -> Result<String, String> {
        Ok(self.0.clone())
    }
}

struct Resolver;

impl TemplateRootResolver for Resolver {
    fn resolve(&self, _yaml: &YamlValue, template_id: &str, workspace_root: &str) -> Result<String, String> {
        Ok(format!("{workspace_root}/templates/{template_id}"))
    }
}

struct Engine {
    seen: RefCell<Option<(String, String, Option<String>)>>,
}

impl TemplateEngine for Engine {
    fn execute(
        &self,
        _config: &TemplateConfig,
        template_root: &str,
        output_root: &str,
        parameters: &TemplateParameters,
    ) -> Result<(), TemplateError> {
        *self.seen.borrow_mut() =
            Some((template_root.to_owned(), output_root.to_owned(), parameters.get_str("Feature")));
        Ok(())
    }
}

#[test]
fn generate_command_runs_step_by_step() {
    let handler = GenerateCommandHandler::new(Dir("/w/a".to_owned()), Resolver, Engine { seen: RefCell::new(None) });
    let command = GenerateCommand::new("command".to_owned(), "CreateOrder".to_owned(), Some("Sales".to_owned()), Some("Entity=Order".to_owned()));
    let step = handler.handle(&command);
    assert!(matches!(step, GenerateStep::LocateWorkspace { ref start_directory } if start_directory == "/w/a"));
    let step = handler.resume(&command, step, GenerateEvent::WorkspaceLocated(Some("/w".to_owned())));
    assert!(matches!(step, GenerateStep::ReadWorkspaceFile { .. }));
    let doc = yaml("workspace:\n  namespace: Acme\ntemplates:\n  command: official/cmd\n");
    let step = handler.resume(&command, step, GenerateEvent::WorkspaceFileRead(Ok(Ok(doc))));
    match &step {
        GenerateStep::ReadTemplateConfig { template_root, parameters, .. } => {
            assert_eq!(template_root, "/w/templates/official/cmd");
            assert_eq!(parameters.get_str("Entity").as_deref(), Some("Order"));
            assert_eq!(parameters.get_str("Namespace").as_deref(), Some("Acme"));
        }
        other => panic!("unexpected step: {other:?}"),
    }
    let config = TemplateConfig { id: None, steps: Vec::new(), generators: None, required_modules: Vec::new() };
    let step = handler.resume(&command, step, GenerateEvent::TemplateConfigRead(Ok(config)));
    let rendered = match &step {
        GenerateStep::Render { config, template_root, output_root, parameters } => {
            assert_eq!(output_root, "/w");
            assert_eq!(parameters.get_str("Name").as_deref(), Some("CreateOrder"));
            assert_eq!(parameters.get_str("Feature").as_deref(), Some("Sales"));
            handler.engine.execute(config, template_root, output_root, parameters)
        }
        other => panic!("unexpected step: {other:?}"),
    };
    let step = handler.resume(&command, step, GenerateEvent::Rendered(rendered));
    assert!(matches!(step, GenerateStep::Finished(Ok(()))));
    assert_eq!(
        handler.engine.seen.borrow().clone(),
        Some(("/w/templates/official/cmd".to_owned(), "/w".to_owned(), Some("Sales".to_owned())))
    );
}

#[test]
fn generate_command_reports_each_failure() {
    let handler = GenerateCommandHandler::new(Dir("/w".to_owned()), Resolver, Engine { seen: RefCell::new(None) });
    let bad = GenerateCommand::new("command".to_owned(), "bad name".to_owned(), None, None);
    match handler.handle(&bad) {
        GenerateStep::Finished(Err(GenerateError::InvalidIdentifier(m))) => assert_eq!(
            m,
            "invalid name 'bad name'. Only alphanumeric characters, hyphens, and underscores are allowed."
        ),
        other => panic!("unexpected step: {other:?}"),
    }
    let command = GenerateCommand::new("query".to_owned(), "GetOrder".to_owned(), None, None);
    let located = GenerateStep::LocateWorkspace { start_directory: "/w".to_owned() };
    match handler.resume(&command, located, GenerateEvent::WorkspaceLocated(None)) {
        GenerateStep::Finished(Err(GenerateError::WorkspaceError(m))) => {
            assert_eq!(m, "could not find nfw.yaml in current or parent directories")
        }
        other => panic!("unexpected step: {other:?}"),
    }
    let reading = GenerateStep::ReadWorkspaceFile { workspace_root: "/w".to_owned() };
    let doc = yaml("workspace:\n  namespace: Acme\n");
    match handler.resume(&command, reading, GenerateEvent::WorkspaceFileRead(Ok(Ok(doc)))) {
        GenerateStep::Finished(Err(GenerateError::ConfigError(m))) => assert_eq!(
            m,
            "generator type 'query' not found in nfw.yaml. Add templates.query: <template-id> to your nfw.yaml."
        ),
        other => panic!("unexpected step: {other:?}"),
    }
    let loading = GenerateStep::ReadTemplateConfig {
        workspace_root: "/w".to_owned(),
        template_root: "/t".to_owned(),
        parameters: TemplateParameters::new(),
    };
    match handler.resume(&command, loading, GenerateEvent::TemplateConfigRead(Err(TemplateConfigFailure::Read("gone".to_owned())))) {
        GenerateStep::Finished(Err(GenerateError::ConfigError(m))) => {
            assert_eq!(m, "failed to read template.yaml at /t/template.yaml: gone")
        }
        other => panic!("unexpected step: {other:?}"),
    }
    assert!(extract_template_id(&yaml("templates:\n  entity: e1\n"), "entity").unwrap() == "e1");
}

#[test]
fn tied_templates_keep_their_catalog_order() {
    let mut first = catalog("official", &["api"]);
    first.templates[0].metadata.name = "First".to_owned();
    let mut second = catalog("official", &["api"]);
    second.templates[0].metadata.name = "Second".to_owned();
    let templates = listed_templates(vec![second, catalog("alpha", &["api"]), first]);
    let names: Vec<String> = templates.iter().map(|t| t.name.clone()).collect();
    assert_eq!(names, vec!["Template api", "Second", "First"]);
}

#[test]
fn parser_checks_identifier_url_and_language_with_its_validator() {
    let parser = TemplateCatalogParser::new((), TestValidator, SemverComparator);
    assert_eq!(parser.validate_and_parse_id(Some(" web-api ".to_owned())).unwrap(), "web-api");
    match parser.validate_and_parse_id(Some("Web_Api".to_owned())) {
        Err(TemplateCatalogError::InvalidField { field, .. }) => assert_eq!(field, "id"),
        other => panic!("unexpected: {other:?}"),
    }
    match parser.validate_and_parse_id(None) {
        Err(TemplateCatalogError::MissingField { field }) => assert_eq!(field, "id"),
        other => panic!("unexpected: {other:?}"),
    }
    assert_eq!(parser.validate_source_url(Some("  ".to_owned())).unwrap(), None);
    assert_eq!(
        parser.validate_source_url(Some(" https://x/y.git ".to_owned())).unwrap(),
        Some("https://x/y.git".to_owned())
    );
    assert!(parser.validate_source_url(Some("ftp://x".to_owned())).is_err());
    assert_eq!(parser.parse_optional_language(None).unwrap(), Language::Neutral);
    assert_eq!(parser.parse_optional_language(Some(" go ".to_owned())).unwrap(), Language::Go);
    assert_eq!(parser.filter_tags(Some(vec!["a".to_owned(), "".to_owned()])), vec!["a".to_owned()]);
}

#[test]
fn workspace_root_is_the_nearest_marked_directory() {
    let handler = GenerateCommandHandler::new(Dir("/w".to_owned()), Resolver, Engine { seen: RefCell::new(None) });
    let candidates = vec!["/w/a".to_owned(), "/w".to_owned(), "/".to_owned()];
    assert_eq!(handler.resolve_workspace_root(&candidates, &vec![false, true, true]), Some("/w".to_owned()));
    assert_eq!(handler.resolve_workspace_root(&candidates, &vec![false, false, false]), None);
}

#[test]
fn source_changes_hand_the_stores_what_they_decide() {
    let loaded = vec![source("zeta", "https://example.com/zeta.git"), source("official", OFFICIAL_URL)];
    match removal_step(" zeta ", SourceStoreStep::LoadSources, SourceStoreEvent::SourcesLoaded(Ok(loaded))) {
        SourceStoreStep::ClearCache { source_name, sources } => {
            assert_eq!(source_name, "zeta");
            assert_eq!(names(&sources), vec!["official"]);
            let saved = removal_step(
                "zeta",
                SourceStoreStep::ClearCache { source_name, sources },
                SourceStoreEvent::CacheCleared(Ok(())),
            );
            assert!(matches!(saved, SourceStoreStep::SaveSources { .. }));
        }
        other => panic!("unexpected: {other:?}"),
    }
    assert!(matches!(
        removal_step("beta", SourceStoreStep::LoadSources, SourceStoreEvent::SourcesLoaded(Ok(Vec::new()))),
        SourceStoreStep::Finished(Err(TemplatesServiceError::SourceNotFound(ref n))) if n == "beta"
    ));
    match registration_step(
        " my-team ",
        " https://example.com/my-team.git ",
        SourceStoreStep::LoadSources,
        SourceStoreEvent::SourcesLoaded(Ok(vec![source("official", OFFICIAL_URL)])),
    ) {
        SourceStoreStep::SaveSources { sources } => {
            assert_eq!(names(&sources), vec!["my-team", "official"]);
            assert_eq!(sources[0].url, "https://example.com/my-team.git");
        }
        other => panic!("unexpected: {other:?}"),
    }
    match default_source_step(SourceStoreStep::LoadSources, SourceStoreEvent::SourcesLoaded(Ok(Vec::new()))) {
        SourceStoreStep::SaveSources { sources } => assert_eq!(names(&sources), vec!["official"]),
        other => panic!("unexpected: {other:?}"),
    }
    assert!(matches!(
        default_source_step(
            SourceStoreStep::SaveSources { sources: Vec::new() },
            SourceStoreEvent::SourcesSaved(Err("read-only".to_owned()))
        ),
        SourceStoreStep::Finished(Err(TemplatesServiceError::SaveSourcesFailed(ref m))) if m == "read-only"
    ));
}

#[test]
fn discovery_steps_sync_each_enabled_source_in_order() {
    let mut disabled = source("beta", "https://example.com/beta.git");
    disabled.enabled = false;
    let loaded = vec![source("zeta", "z"), disabled, source("alpha", "a")];
    let step = discovery_step(DiscoveryStep::LoadSources, DiscoveryEvent::SourcesLoaded(Ok(loaded)));
    assert!(matches!(&step, DiscoveryStep::Sync { source, .. } if source.name == "zeta"));
    let step = discovery_step(step, DiscoveryEvent::Synced(Err("connection reset".to_owned())));
    assert!(matches!(&step, DiscoveryStep::Sync { source, pending, .. } if source.name == "alpha" && pending.is_empty()));
    let step = discovery_step(step, DiscoveryEvent::Synced(Ok(("/c/alpha".to_owned(), None))));
    assert!(matches!(&step, DiscoveryStep::Resolve { source_name, cache_path, .. } if source_name == "alpha" && cache_path == "/c/alpha"));
    match discovery_step(step, DiscoveryEvent::Resolved(Ok(catalog("alpha", &["api"])))) {
        DiscoveryStep::Finished(Ok((catalogs, warnings))) => {
            assert_eq!(catalogs.len(), 1);
            assert_eq!(
                warnings,
                vec!["Could not reach 1 template source(s): zeta. Using cached data if available.".to_owned()]
            );
        }
        other => panic!("unexpected: {other:?}"),
    }
}
