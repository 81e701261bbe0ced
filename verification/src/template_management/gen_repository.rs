//! Generating a repository for an entity: the command and the checks its handler
//! makes before rendering the repository template.
use vstd::prelude::*;

use crate::template_management::artifact_generation_service::{
    generation_outcome, has_module_in_yaml, service_views, spec_extract_services, GenerationRequest, spec_has_module, AddArtifactContext,
    ArtifactGenerationService, ServiceInfo, TemplateEngine, TemplateRootResolver, WorkspaceContext,
    WorkingDirectoryProvider,
};
use crate::template_management::errors::{AddArtifactError, TemplateError};
use crate::template_management::model::ParamValue;
use crate::text::{concat, debug_list, debug_string_list, has_prefix, starts_with, views};
use crate::yaml::{spec_as_str, spec_get, YamlValue};

verus! {

/// An ASCII letter.
pub open spec fn is_ascii_letter(c: char) -> bool {
    ('a' <= c <= 'z') || ('A' <= c <= 'Z')
}

/// An ASCII letter or digit.
pub open spec fn is_ascii_alnum(c: char) -> bool {
    is_ascii_letter(c) || ('0' <= c <= '9')
}

/// A valid entity name: a letter followed by letters and digits.
pub open spec fn is_entity_name(s: Seq<char>) -> bool {
    &&& s.len() > 0
    &&& is_ascii_letter(s[0])
    &&& forall|i: int| 1 <= i < s.len() ==> is_ascii_alnum(#[trigger] s[i])
}

/// Matches `s` against the regular expression `^[a-zA-Z][a-zA-Z0-9]*$` of the
/// `regex` crate. Without the multi-line flag `^` and `$` anchor at the ends of the
/// whole text, so this holds exactly of a letter followed by letters and digits.
#[verifier::external_body]
fn entity_regex_matches(s: &str) -> (r: bool)
    ensures
        r == is_entity_name(s@),
{
    regex::Regex::new(r"^[a-zA-Z][a-zA-Z0-9]*$").unwrap().is_match(s)
}

/// Generates the repository of an entity, in a feature of a service.
#[derive(Debug)]
pub struct GenRepositoryCommand {
    pub entity_name: String,
    pub feature: Option<String>,
    pub context: AddArtifactContext,
}

impl GenRepositoryCommand {
    pub fn new(entity_name: String, feature: Option<String>, context: AddArtifactContext) -> (r:
        GenRepositoryCommand)
        ensures
            r.entity_name == entity_name,
            r.feature == feature,
            r.context == context,
    {
        GenRepositoryCommand { entity_name, feature, context }
    }

    pub fn entity_name(&self) -> (r: &str)
        ensures
            r@ == self.entity_name@,
    {
        self.entity_name.as_str()
    }

    pub fn feature(&self) -> (r: Option<&str>)
        ensures
            match r {
                Some(f) => self.feature matches Some(g) && f@ == g@,
                None => self.feature is None,
            },
    {
        match &self.feature {
            Some(f) => Some(f.as_str()),
            None => None,
        }
    }

    pub fn context(&self) -> (r: &AddArtifactContext)
        ensures
            *r == self.context,
    {
        &self.context
    }
}

/// The message for an entity name that is not a letter followed by letters and digits.
pub open spec fn entity_name_message(entity: Seq<char>) -> Seq<char> {
    "Invalid entity name '"@ + entity
        + "'. Entity names must start with a letter and contain only alphanumeric characters."@
}

/// Checks the entity name of a repository command.
pub fn check_entity_name(entity: &str) -> (r: Result<(), AddArtifactError>)
    ensures
        r is Ok <==> is_entity_name(entity@),
        r matches Err(e) ==> (e matches AddArtifactError::InvalidIdentifier(m) && m@
            == entity_name_message(entity@)),
{
    if entity_regex_matches(entity) {
        Ok(())
    } else {
        let mut m = concat("Invalid entity name '", entity);
        m.append(
            "'. Entity names must start with a letter and contain only alphanumeric characters.",
        );
        Err(AddArtifactError::InvalidIdentifier(m))
    }
}

/// The message when no feature holds the entity.
pub open spec fn entity_missing_message(entity: Seq<char>) -> Seq<char> {
    "Entity '"@ + entity + "' not found in any feature. Generate the entity first."@
}

/// The message when several features hold the entity.
pub open spec fn entity_ambiguous_message(entity: Seq<char>, features: Seq<Seq<char>>) -> Seq<char> {
    "Entity '"@ + entity + "' found in multiple features ("@ + debug_list(features)
        + "). Please specify --feature."@
}

/// The feature a repository goes to, from the features whose entity directory holds
/// the entity: the only one; an error when there is none or more than one.
pub fn choose_feature(entity: &str, matching: Vec<String>) -> (r: Result<String, AddArtifactError>)
    ensures
        matching@.len() == 1 ==> (r matches Ok(f) && f@ == matching@[0]@),
        matching@.len() == 0 ==> (r matches Err(AddArtifactError::InvalidIdentifier(m)) && m@
            == entity_missing_message(entity@)),
        matching@.len() > 1 ==> (r matches Err(AddArtifactError::InvalidIdentifier(m)) && m@
            == entity_ambiguous_message(entity@, views(matching@))),
{
    if matching.len() == 0 {
        let mut m = concat("Entity '", entity);
        m.append("' not found in any feature. Generate the entity first.");
        Err(AddArtifactError::InvalidIdentifier(m))
    } else if matching.len() > 1 {
        let listed = debug_string_list(&matching);
        let mut m = concat("Entity '", entity);
        m.append("' found in multiple features (");
        m.append(listed.as_str());
        m.append("). Please specify --feature.");
        Err(AddArtifactError::InvalidIdentifier(m))
    } else {
        let mut matching = matching;
        Ok(matching.remove(0))
    }
}

/// Some name of the list starts with `prefix`.
pub open spec fn any_starts_with(names: Seq<Seq<char>>, prefix: Seq<char>) -> bool {
    exists|i: int| 0 <= i < names.len() && has_prefix(#[trigger] names[i], prefix)
}

/// Tests whether some name of the list starts with `prefix`.
pub fn any_name_starts_with(names: &Vec<String>, prefix: &str) -> (r: bool)
    ensures
        r == any_starts_with(views(names@), prefix@),
{
    let mut i: usize = 0;
    while i < names.len()
        invariant
            i <= names@.len(),
            forall|j: int| 0 <= j < i ==> !has_prefix(#[trigger] views(names@)[j], prefix@),
        decreases names@.len() - i,
    {
        if starts_with(names[i].as_str(), prefix) {
            assert(has_prefix(views(names@)[i as int], prefix@));
            return true;
        }
        i = i + 1;
    }
    false
}

/// The message when the entity directory of a feature is missing.
pub open spec fn entity_dir_missing_message(feature: Seq<char>, dir: Seq<char>) -> Seq<char> {
    "Feature '"@ + feature + "' does not contain an entity artifacts directory at "@ + dir
}

/// The message when the entity is not in its feature.
pub open spec fn entity_not_in_feature_message(entity: Seq<char>, feature: Seq<char>) -> Seq<char> {
    "Entity '"@ + entity + "' not found in feature '"@ + feature + "'"@
}

/// Checks that the entity directory `dir` of `feature` exists and holds a file whose
/// name starts with the entity name. `listing` holds the names in `dir` when it is a
/// directory (empty when it could not be read), and is `None` when it is not one.
pub fn check_entity_present(entity: &str, feature: &str, dir: &str, listing: Option<&Vec<String>>) -> (r:
    Result<(), AddArtifactError>)
    ensures
        match listing {
            None => r matches Err(AddArtifactError::InvalidIdentifier(m)) && m@
                == entity_dir_missing_message(feature@, dir@),
            Some(names) => if any_starts_with(views(names@), entity@) {
                r is Ok
            } else {
                r matches Err(AddArtifactError::InvalidIdentifier(m)) && m@
                    == entity_not_in_feature_message(entity@, feature@)
            },
        },
{
    match listing {
        None => {
            let mut m = concat("Feature '", feature);
            m.append("' does not contain an entity artifacts directory at ");
            m.append(dir);
            Err(AddArtifactError::InvalidIdentifier(m))
        },
        Some(names) => {
            if any_name_starts_with(names, entity) {
                Ok(())
            } else {
                let mut m = concat("Entity '", entity);
                m.append("' not found in feature '");
                m.append(feature);
                m.append("'");
                Err(AddArtifactError::InvalidIdentifier(m))
            }
        },
    }
}

/// The message when the repository of the entity is already there.
pub open spec fn repository_exists_message(entity: Seq<char>, feature: Seq<char>) -> Seq<char> {
    "Repository for entity '"@ + entity + "' already exists in feature '"@ + feature + "'"@
}

/// A file of the repository directory belongs to the entity's repository: its name
/// starts with the entity name or with `I` and the entity name.
pub open spec fn repository_present(names: Seq<Seq<char>>, entity: Seq<char>) -> bool {
    any_starts_with(names, entity) || any_starts_with(names, seq!['I'] + entity)
}

/// Checks that the repository of the entity is not already there. `listing` holds
/// the names in the repository directory when it is one (empty when it could not be
/// read), and is `None` otherwise.
pub fn check_repository_absent(entity: &str, feature: &str, listing: Option<&Vec<String>>) -> (r:
    Result<(), AddArtifactError>)
    ensures
        match listing {
            None => r is Ok,
            Some(names) => if repository_present(views(names@), entity@) {
                r matches Err(AddArtifactError::ArtifactAlreadyExists(m)) && m@
                    == repository_exists_message(entity@, feature@)
            } else {
                r is Ok
            },
        },
{
    match listing {
        None => Ok(()),
        Some(names) => {
            let interface = concat("I", entity);
            proof {
                reveal_strlit("I");
                assert(interface@ =~= seq!['I'] + entity@);
            }
            if any_name_starts_with(names, entity) || any_name_starts_with(names, interface.as_str()) {
                let mut m = concat("Repository for entity '", entity);
                m.append("' already exists in feature '");
                m.append(feature);
                m.append("'");
                Err(AddArtifactError::ArtifactAlreadyExists(m))
            } else {
                Ok(())
            }
        },
    }
}

/// The message when the service lacks the persistence module.
pub open spec fn persistence_missing_message(service: Seq<char>) -> Seq<char> {
    "Service '"@ + service
        + "' does not have 'persistence' module configured. Run 'nfw add persistence' first."@
}

/// Checks that the persistence module is registered for the service.
pub fn check_persistence(yaml: &YamlValue, service_name: &str) -> (r: Result<(), AddArtifactError>)
    ensures
        r is Ok <==> spec_has_module(*yaml, service_name@, "persistence"@),
        r matches Err(e) ==> (e matches AddArtifactError::MissingRequiredModule(m) && m@
            == persistence_missing_message(service_name@)),
{
    if has_module_in_yaml(yaml, service_name, "persistence") {
        Ok(())
    } else {
        let mut m = concat("Service '", service_name);
        m.append("' does not have 'persistence' module configured. Run 'nfw add persistence' first.");
        Err(AddArtifactError::MissingRequiredModule(m))
    }
}

/// The identifier of the template a service was generated from:
/// `services.<name>.template.id`, or empty.
pub open spec fn spec_service_template_id(yaml: YamlValue, service_name: Seq<char>) -> Seq<char> {
    match spec_get(yaml, "services"@) {
        Some(s) => match spec_get(s, service_name) {
            Some(d) => match spec_get(d, "template"@) {
                Some(t) => match t {
                    YamlValue::Mapping(_) => match spec_get(t, "id"@) {
                        Some(id) => match spec_as_str(id) {
                            Some(text) => text,
                            None => Seq::empty(),
                        },
                        None => Seq::empty(),
                    },
                    _ => Seq::empty(),
                },
                None => Seq::empty(),
            },
            None => Seq::empty(),
        },
        None => Seq::empty(),
    }
}

/// Reads `services.<name>.template.id` from the workspace document.
pub fn service_template_id(yaml: &YamlValue, service_name: &str) -> (r: String)
    ensures
        r@ == spec_service_template_id(*yaml, service_name@),
{
    match yaml.get("services") {
        Some(s) => match s.get(service_name) {
            Some(d) => match d.get("template") {
                Some(t) => match t {
                    YamlValue::Mapping(_) => match t.get("id") {
                        Some(id) => match id.as_str() {
                            Some(text) => text.clone(),
                            None => String::new(),
                        },
                        None => String::new(),
                    },
                    _ => String::new(),
                },
                None => String::new(),
            },
            None => String::new(),
        },
        None => String::new(),
    }
}

/// The parameters a repository is rendered with besides the standard ones:
/// `Entity`, the entity name.
pub fn repository_parameters(entity: &str) -> (r: ParamValue)
    ensures
        r matches ParamValue::Object(entries) && (entries@.len() == 1 && entries@[0].0@
            == "Entity"@ && (entries@[0].1 matches ParamValue::Str(v) && v@ == entity@)),
{
    let mut entries: Vec<(String, ParamValue)> = Vec::new();
    entries.push(("Entity".to_owned(), ParamValue::Str(entity.to_owned())));
    ParamValue::Object(entries)
}

/// Handles the command that generates the repository of an entity.
#[derive(Debug)]
pub struct GenRepositoryCommandHandler<W, R, E> {
    pub service: ArtifactGenerationService<W, R, E>,
}

impl<W: WorkingDirectoryProvider, R: TemplateRootResolver, E: TemplateEngine> GenRepositoryCommandHandler<W, R, E> {
    pub fn new(working_dir_provider: W, root_resolver: R, engine: E) -> (r: Self)
        ensures
            r.service.working_dir_provider == working_dir_provider,
            r.service.root_resolver == root_resolver,
            r.service.engine == engine,
    {
        GenRepositoryCommandHandler {
            service: ArtifactGenerationService::new(working_dir_provider, root_resolver, engine),
        }
    }

    /// The services declared in the workspace.
    pub fn extract_services(&self, workspace: &WorkspaceContext) -> (r: Result<Vec<ServiceInfo>, AddArtifactError>)
        ensures
            match r {
                Ok(v) => spec_extract_services(workspace.nfw_yaml) == Ok::<
                    Seq<(Seq<char>, Seq<char>, Seq<char>)>,
                    Seq<char>,
                >(service_views(v@)),
                Err(AddArtifactError::ConfigError(m)) => spec_extract_services(workspace.nfw_yaml)
                    == Err::<Seq<(Seq<char>, Seq<char>, Seq<char>)>, Seq<char>>(m@),
                Err(_) => false,
            },
    {
        self.service.extract_services(workspace)
    }
}

/// The service a repository command works in: its name and path from the context,
/// and the template it was generated from, as the workspace records it.
pub fn repository_service(command: &GenRepositoryCommand) -> (r: ServiceInfo)
    ensures
        r.name@ == command.context.service_name@,
        r.path@ == command.context.service_path@,
        r.template_id@ == spec_service_template_id(
            command.context.workspace.nfw_yaml,
            command.context.service_name@,
        ),
{
    ServiceInfo {
        name: command.context.service_name.clone(),
        path: command.context.service_path.clone(),
        template_id: service_template_id(
            &command.context.workspace.nfw_yaml,
            command.context.service_name.as_str(),
        ),
    }
}

/// Where a repository command stands: what it asks the caller to look up next, or
/// its outcome.
#[derive(Debug)]
pub enum RepositoryStep {
    /// Find the features whose entity directory holds the entity.
    FindEntityFeatures,
    /// Look up the entity directory of the feature and list it.
    ProbeEntityDirectory { feature: String },
    /// Look up the repository directory of the feature and list it.
    ProbeRepositoryDirectory { feature: String },
    /// Run the template engine on the configuration of the command's context with
    /// `request`: its template root, output root and parameters.
    Render { request: GenerationRequest },
    /// The command is done.
    Finished(Result<(), AddArtifactError>),
}

/// What the caller found for the step it was asked to take.
#[derive(Debug)]
pub enum RepositoryEvent {
    /// The features whose entity directory holds the entity.
    FeaturesFound(Result<Vec<String>, AddArtifactError>),
    /// The directory the template gives for the feature, if any, with its listing
    /// when it is a directory (`None` when it is not one).
    DirectoryProbed(Result<Option<(String, Option<Vec<String>>)>, AddArtifactError>),
    /// What the template engine answered.
    Rendered(Result<(), TemplateError>),
}

/// The extra parameters of a repository: the one entry `Entity`, the entity name.
pub open spec fn is_repository_params(p: ParamValue, entity: Seq<char>) -> bool {
    p matches ParamValue::Object(entries) && entries@.len() == 1 && entries@[0].0@ == "Entity"@ && (
    entries@[0].1 matches ParamValue::Str(v) && v@ == entity)
}

/// The listing of a probed directory, when there is a directory.
pub open spec fn probed_listing(probe: Option<(String, Option<Vec<String>>)>) -> Option<Vec<String>> {
    match probe {
        Some((_, listing)) => listing,
        None => None,
    }
}

/// The first step of a repository command (see `GenRepositoryCommandHandler::handle`).
pub open spec fn repository_start(command: GenRepositoryCommand, r: RepositoryStep) -> bool {
    &&& !is_entity_name(command.entity_name@) ==> (r matches RepositoryStep::Finished(
        Err(AddArtifactError::InvalidIdentifier(m)),
    ) && m@ == entity_name_message(command.entity_name@))
    &&& is_entity_name(command.entity_name@) ==> match command.feature {
        Some(f) => r matches RepositoryStep::ProbeEntityDirectory { feature } && feature@ == f@,
        None => r is FindEntityFeatures,
    }
}

/// The step that follows `step` when `event` answers it (see
/// `GenRepositoryCommandHandler::resume`).
pub open spec fn repository_next(
    command: GenRepositoryCommand,
    step: RepositoryStep,
    event: RepositoryEvent,
    r: RepositoryStep,
) -> bool {
    match (step, event) {
        (RepositoryStep::FindEntityFeatures, RepositoryEvent::FeaturesFound(Err(e))) => r
            == RepositoryStep::Finished(Err(e)),
        (RepositoryStep::FindEntityFeatures, RepositoryEvent::FeaturesFound(Ok(m))) => if m@.len()
            == 1 {
            r matches RepositoryStep::ProbeEntityDirectory { feature } && feature@ == m@[0]@
        } else if m@.len() == 0 {
            r matches RepositoryStep::Finished(Err(AddArtifactError::InvalidIdentifier(e)))
                && e@ == entity_missing_message(command.entity_name@)
        } else {
            r matches RepositoryStep::Finished(Err(AddArtifactError::InvalidIdentifier(e)))
                && e@ == entity_ambiguous_message(command.entity_name@, views(m@))
        },
        (RepositoryStep::ProbeEntityDirectory { .. }, RepositoryEvent::DirectoryProbed(Err(e))) => r
            == RepositoryStep::Finished(Err(e)),
        (
            RepositoryStep::ProbeEntityDirectory { feature },
            RepositoryEvent::DirectoryProbed(Ok(None)),
        ) => r matches RepositoryStep::ProbeRepositoryDirectory { feature: f } && f == feature,
        (
            RepositoryStep::ProbeEntityDirectory { feature },
            RepositoryEvent::DirectoryProbed(Ok(Some((dir, listing)))),
        ) => match listing {
            None => r matches RepositoryStep::Finished(Err(AddArtifactError::InvalidIdentifier(e)))
                && e@ == entity_dir_missing_message(feature@, dir@),
            Some(names) => if any_starts_with(views(names@), command.entity_name@) {
                r matches RepositoryStep::ProbeRepositoryDirectory { feature: f } && f == feature
            } else {
                r matches RepositoryStep::Finished(Err(AddArtifactError::InvalidIdentifier(e)))
                    && e@ == entity_not_in_feature_message(command.entity_name@, feature@)
            },
        },
        (RepositoryStep::ProbeRepositoryDirectory { .. }, RepositoryEvent::DirectoryProbed(Err(e))) => r
            == RepositoryStep::Finished(Err(e)),
        (
            RepositoryStep::ProbeRepositoryDirectory { feature },
            RepositoryEvent::DirectoryProbed(Ok(probe)),
        ) => match probed_listing(probe) {
            Some(names) if repository_present(views(names@), command.entity_name@) => r matches RepositoryStep::Finished(
                Err(AddArtifactError::ArtifactAlreadyExists(e)),
            ) && e@ == repository_exists_message(command.entity_name@, feature@),
            _ => if !spec_has_module(
                command.context.workspace.nfw_yaml,
                command.context.service_name@,
                "persistence"@,
            ) {
                r matches RepositoryStep::Finished(Err(AddArtifactError::MissingRequiredModule(e)))
                    && e@ == persistence_missing_message(command.context.service_name@)
            } else {
                exists|p: ParamValue|
                    #[trigger] is_repository_params(p, command.entity_name@) && match r {
                        RepositoryStep::Render { request } => generation_outcome(
                            command.entity_name@,
                            Some(feature@),
                            Some(p),
                            command.context,
                            Ok(request),
                        ),
                        RepositoryStep::Finished(Err(e)) => generation_outcome(
                            command.entity_name@,
                            Some(feature@),
                            Some(p),
                            command.context,
                            Err(e),
                        ),
                        _ => false,
                    }
            },
        },
        (RepositoryStep::Render { .. }, RepositoryEvent::Rendered(Ok(()))) => r == RepositoryStep::Finished(
            Ok(()),
        ),
        (RepositoryStep::Render { .. }, RepositoryEvent::Rendered(Err(e))) => r matches RepositoryStep::Finished(
            Err(AddArtifactError::ExecutionFailed(b)),
        ) && *b == e,
        (s, _) => r == s,
    }
}

/// `event` answers what `step` asked for.
pub open spec fn repository_answers(step: RepositoryStep, event: RepositoryEvent) -> bool {
    match step {
        RepositoryStep::FindEntityFeatures => event is FeaturesFound,
        RepositoryStep::ProbeEntityDirectory { .. } => event is DirectoryProbed,
        RepositoryStep::ProbeRepositoryDirectory { .. } => event is DirectoryProbed,
        RepositoryStep::Render { .. } => event is Rendered,
        RepositoryStep::Finished(_) => false,
    }
}

/// A run of a repository command: its first step, each step answered by what it
/// asked for and followed by the step `resume` gives.
pub open spec fn repository_run(
    command: GenRepositoryCommand,
    steps: Seq<RepositoryStep>,
    events: Seq<RepositoryEvent>,
) -> bool {
    &&& steps.len() == events.len() + 1
    &&& repository_start(command, steps[0])
    &&& forall|i: int|
        0 <= i < events.len() ==> repository_answers(steps[i], #[trigger] events[i]) && repository_next(
            command,
            steps[i],
            events[i],
            steps[i + 1],
        )
}

/// The service of the command lists the persistence module.
pub open spec fn has_persistence(command: GenRepositoryCommand) -> bool {
    spec_has_module(command.context.workspace.nfw_yaml, command.context.service_name@, "persistence"@)
}

/// A repository is rendered, and a repository command ends in `Ok`, only for a
/// service that lists the persistence module: without it the template engine is
/// never asked to run.
pub proof fn law_repository_needs_persistence(
    command: GenRepositoryCommand,
    steps: Seq<RepositoryStep>,
    events: Seq<RepositoryEvent>,
)
    requires
        repository_run(command, steps, events),
    ensures
        forall|i: int| 0 <= i < steps.len() && (#[trigger] steps[i] is Render) ==> has_persistence(command),
        steps.last() == RepositoryStep::Finished(Ok(())) ==> has_persistence(command),
    decreases events.len(),
{
    if events.len() == 0 {
        assert(steps.last() == steps[0]);
    } else {
        let n = events.len() - 1;
        let s0 = steps.drop_last();
        let e0 = events.drop_last();
        assert forall|i: int| 0 <= i < e0.len() implies repository_answers(s0[i], #[trigger] e0[i])
            && repository_next(command, s0[i], e0[i], s0[i + 1]) by {
            assert(s0[i] == steps[i] && s0[i + 1] == steps[i + 1] && e0[i] == events[i]);
        }
        law_repository_needs_persistence(command, s0, e0);
        assert(repository_next(command, steps[n], events[n], steps[n + 1]));
        assert(s0.last() == steps[n]);
        assert forall|i: int| 0 <= i < steps.len() && (#[trigger] steps[i] is Render) implies has_persistence(
            command,
        ) by {
            if i < n + 1 {
                assert(s0[i] == steps[i]);
            } else {
                lemma_step_keeps_persistence(command, steps[n], events[n], steps[n + 1]);
            }
        }
        lemma_step_keeps_persistence(command, steps[n], events[n], steps[n + 1]);
    }
}

/// A rendering or an `Ok` end comes only from a probe of a service with the
/// persistence module, from a rendering, or from itself.
proof fn lemma_step_keeps_persistence(
    command: GenRepositoryCommand,
    s: RepositoryStep,
    e: RepositoryEvent,
    r: RepositoryStep,
)
    requires
        repository_next(command, s, e, r),
        (s is Render || s == RepositoryStep::Finished(Ok(()))) ==> has_persistence(command),
    ensures
        (r is Render || r == RepositoryStep::Finished(Ok(()))) ==> has_persistence(command),
{
}

impl<W: WorkingDirectoryProvider, R: TemplateRootResolver, E: TemplateEngine> GenRepositoryCommandHandler<W, R, E> {
    /// Starts the command: checks the entity name, then asks for the features that
    /// hold the entity, unless the command names the feature.
    pub fn handle(&self, command: &GenRepositoryCommand) -> (r: RepositoryStep)
        ensures
            repository_start(*command, r),
    {
        match check_entity_name(command.entity_name.as_str()) {
            Err(e) => RepositoryStep::Finished(Err(e)),
            Ok(()) => match &command.feature {
                Some(f) => RepositoryStep::ProbeEntityDirectory { feature: f.clone() },
                None => RepositoryStep::FindEntityFeatures,
            },
        }
    }

    /// Takes the next step with what the caller found for the current one. A step
    /// that does not expect the event is returned as it is.
    pub fn resume(&self, command: &GenRepositoryCommand, step: RepositoryStep, event: RepositoryEvent) -> (r:
        RepositoryStep)
        ensures
            repository_next(*command, step, event, r),
    {
        match step {
            RepositoryStep::FindEntityFeatures => match event {
                RepositoryEvent::FeaturesFound(Err(e)) => RepositoryStep::Finished(Err(e)),
                RepositoryEvent::FeaturesFound(Ok(matching)) => {
                    match choose_feature(command.entity_name.as_str(), matching) {
                        Ok(feature) => RepositoryStep::ProbeEntityDirectory { feature },
                        Err(e) => RepositoryStep::Finished(Err(e)),
                    }
                },
                _ => RepositoryStep::FindEntityFeatures,
            },
            RepositoryStep::ProbeEntityDirectory { feature } => match event {
                RepositoryEvent::DirectoryProbed(Err(e)) => RepositoryStep::Finished(Err(e)),
                RepositoryEvent::DirectoryProbed(Ok(None)) => RepositoryStep::ProbeRepositoryDirectory {
                    feature,
                },
                RepositoryEvent::DirectoryProbed(Ok(Some((dir, listing)))) => {
                    let listed = match &listing {
                        Some(names) => Some(names),
                        None => None,
                    };
                    match check_entity_present(
                        command.entity_name.as_str(),
                        feature.as_str(),
                        dir.as_str(),
                        listed,
                    ) {
                        Ok(()) => RepositoryStep::ProbeRepositoryDirectory { feature },
                        Err(e) => RepositoryStep::Finished(Err(e)),
                    }
                },
                _ => RepositoryStep::ProbeEntityDirectory { feature },
            },
            RepositoryStep::ProbeRepositoryDirectory { feature } => match event {
                RepositoryEvent::DirectoryProbed(Err(e)) => RepositoryStep::Finished(Err(e)),
                RepositoryEvent::DirectoryProbed(Ok(probe)) => {
                    let listed = match &probe {
                        Some((_, Some(names))) => Some(names),
                        _ => None,
                    };
                    match check_repository_absent(command.entity_name.as_str(), feature.as_str(), listed) {
                        Err(e) => {
                            return RepositoryStep::Finished(Err(e));
                        },
                        Ok(()) => {},
                    }
                    match check_persistence(
                        &command.context.workspace.nfw_yaml,
                        command.context.service_name.as_str(),
                    ) {
                        Err(e) => {
                            return RepositoryStep::Finished(Err(e));
                        },
                        Ok(()) => {},
                    }
                    let params = repository_parameters(command.entity_name.as_str());
                    let ghost p = params;
                    let requested = self.service.generation_request(
                        command.entity_name.as_str(),
                        Some(feature.as_str()),
                        Some(params),
                        &command.context,
                    );
                    assert(is_repository_params(p, command.entity_name@));
                    match requested {
                        Ok(request) => RepositoryStep::Render { request },
                        Err(e) => RepositoryStep::Finished(Err(e)),
                    }
                },
                _ => RepositoryStep::ProbeRepositoryDirectory { feature },
            },
            RepositoryStep::Render { request } => match event {
                RepositoryEvent::Rendered(Ok(())) => RepositoryStep::Finished(Ok(())),
                RepositoryEvent::Rendered(Err(e)) => RepositoryStep::Finished(
                    Err(AddArtifactError::ExecutionFailed(Box::new(e))),
                ),
                _ => RepositoryStep::Render { request },
            },
            RepositoryStep::Finished(res) => RepositoryStep::Finished(res),
        }
    }
}

} // verus!
