//! The `generate` command: renders the template that `templates.<type>` of the
//! workspace names, with the name, namespace, feature and `Key=Value` parameters of
//! the command. The handler runs as a sequence of steps; between two steps the
//! caller reads what the next step asks for from the file system.
use vstd::prelude::*;

use crate::template_management::artifact_generation_service::{
    check_identifiers, identifier_error, TemplateEngine, TemplateRootResolver,
    WorkingDirectoryProvider,
};
use crate::template_management::errors::{GenerateError, TemplateError};
use crate::template_management::feature_paths::{join_path, spec_join};
use crate::template_management::model::{
    pair_views, params_from_pairs, string_parameters, TemplateConfig,
    TemplateParameters,
};
use crate::text::{chars_of, concat, find_char, spec_find_char, spec_split, spec_trim, split, string_from, trim, views};
use crate::yaml::{spec_str_at, YamlValue};
use crate::workspace_root::{first_marked_directory, is_first_marked, none_marked};

verus! {

/// Generates an artifact of a generator type, with a name, an optional feature and
/// optional `Key=Value` parameters separated by commas.
#[derive(Debug)]
pub struct GenerateCommand {
    pub generator_type: String,
    pub name: String,
    pub feature: Option<String>,
    pub params: Option<String>,
}

impl GenerateCommand {
    pub fn new(generator_type: String, name: String, feature: Option<String>, params: Option<String>) -> (r:
        GenerateCommand)
        ensures
            r.generator_type == generator_type,
            r.name == name,
            r.feature == feature,
            r.params == params,
    {
        GenerateCommand { generator_type, name, feature, params }
    }
}

/// The text of an optional string.
pub open spec fn text_of(o: Option<String>) -> Option<Seq<char>> {
    match o {
        Some(s) => Some(s@),
        None => None,
    }
}

/// The message for a parameter without `=`.
pub open spec fn param_format_message(piece: Seq<char>) -> Seq<char> {
    "invalid parameter format '"@ + piece + "'. expected Key=Value"@
}

/// The pieces of a `Key=Value,...` text as trimmed name and value pairs, or the
/// message of the first piece that is not one.
pub open spec fn parsed_pairs(pieces: Seq<Seq<char>>) -> Result<Seq<(Seq<char>, Seq<char>)>, Seq<char>>
    decreases pieces.len(),
{
    if pieces.len() == 0 {
        Ok(Seq::empty())
    } else {
        match parsed_pairs(pieces.drop_last()) {
            Err(e) => Err(e),
            Ok(ps) => {
                let piece = pieces.last();
                match spec_find_char(piece, '=') {
                    None => Err(param_format_message(piece)),
                    Some(i) => if spec_trim(piece.take(i)).len() == 0 {
                        Err("parameter name cannot be empty"@)
                    } else {
                        Ok(ps.push((spec_trim(piece.take(i)), spec_trim(piece.skip(i + 1)))))
                    },
                }
            },
        }
    }
}

/// The name and value pairs of the `params` of a command.
pub open spec fn command_pairs(params: Option<Seq<char>>) -> Result<Seq<(Seq<char>, Seq<char>)>, Seq<char>> {
    match params {
        Some(p) => parsed_pairs(spec_split(p, ',')),
        None => Ok(Seq::empty()),
    }
}

/// Reads `Key=Value` pieces into trimmed pairs.
pub fn parse_param_pairs(params: &str) -> (r: Result<Vec<(String, String)>, String>)
    ensures
        match parsed_pairs(spec_split(params@, ',')) {
            Ok(ps) => r matches Ok(v) && pair_views(v@) == ps,
            Err(e) => r matches Err(m) && m@ == e,
        },
{
    let pieces = split(params, ',');
    let ghost all = views(pieces@);
    let mut out: Vec<(String, String)> = Vec::new();
    let mut i: usize = 0;
    assert(all.take(0) =~= Seq::<Seq<char>>::empty());
    assert(pair_views(out@) =~= Seq::<(Seq<char>, Seq<char>)>::empty());
    while i < pieces.len()
        invariant
            i <= pieces@.len(),
            all == views(pieces@),
            all == spec_split(params@, ','),
            parsed_pairs(all.take(i as int)) == Ok::<Seq<(Seq<char>, Seq<char>)>, Seq<char>>(
                pair_views(out@),
            ),
        decreases pieces@.len() - i,
    {
        assert(all.take(i + 1).drop_last() =~= all.take(i as int));
        assert(all.take(i + 1).last() == pieces@[i as int]@);
        let piece = pieces[i].as_str();
        match find_char(piece, '=') {
            None => {
                let mut m = concat("invalid parameter format '", piece);
                m.append("'. expected Key=Value");
                proof {
                    lemma_parsed_pairs_error(all, i as int + 1, m@);
                }
                return Err(m);
            },
            Some(k) => {
                let cs = chars_of(piece);
                let key_raw = string_from(cs.as_slice(), 0, k);
                let value_raw = string_from(cs.as_slice(), k + 1, cs.len());
                assert(key_raw@ =~= piece@.take(k as int));
                assert(value_raw@ =~= piece@.skip(k + 1));
                let key = trim(key_raw.as_str());
                let value = trim(value_raw.as_str());
                if key.unicode_len() == 0 {
                    let m = "parameter name cannot be empty".to_owned();
                    proof {
                        lemma_parsed_pairs_error(all, i as int + 1, m@);
                    }
                    return Err(m);
                }
                let ghost before = out@;
                out.push((key, value));
                assert(pair_views(out@) =~= pair_views(before).push((key@, value@)));
            },
        }
        i = i + 1;
    }
    assert(all.take(pieces@.len() as int) =~= all);
    Ok(out)
}

/// An error in the first `n` pieces is the error of all of them.
proof fn lemma_parsed_pairs_error(pieces: Seq<Seq<char>>, n: int, e: Seq<char>)
    requires
        0 <= n <= pieces.len(),
        parsed_pairs(pieces.take(n)) == Err::<Seq<(Seq<char>, Seq<char>)>, Seq<char>>(e),
    ensures
        parsed_pairs(pieces) == Err::<Seq<(Seq<char>, Seq<char>)>, Seq<char>>(e),
    decreases pieces.len() - n,
{
    if n < pieces.len() {
        assert(pieces.take(n + 1).drop_last() =~= pieces.take(n));
        lemma_parsed_pairs_error(pieces, n + 1, e);
    } else {
        assert(pieces.take(n) =~= pieces);
    }
}

/// The message when `workspace.namespace` is missing, for generation.
pub open spec fn generate_namespace_message() -> Seq<char> {
    "missing 'workspace.namespace' in nfw.yaml. this is required for generation."@
}

/// The standard parameters of a generation: name, namespace, and the feature when given.
pub open spec fn standard_pairs(name: Seq<char>, namespace: Seq<char>, feature: Option<Seq<char>>) -> Seq<
    (Seq<char>, Seq<char>),
> {
    match feature {
        Some(f) => seq![("Name"@, name), ("Namespace"@, namespace), ("Feature"@, f)],
        None => seq![("Name"@, name), ("Namespace"@, namespace)],
    }
}

/// The name and value pairs of the parameters of a `generate` command, when they
/// can be built.
pub open spec fn spec_generate_pairs(yaml: YamlValue, command: GenerateCommand) -> Option<
    Seq<(Seq<char>, Seq<char>)>,
> {
    match spec_str_at(yaml, "workspace"@, "namespace"@) {
        None => None,
        Some(ns) => match command_pairs(text_of(command.params)) {
            Err(_) => None,
            Ok(ps) => Some(standard_pairs(command.name@, ns, text_of(command.feature)) + ps),
        },
    }
}

/// The message when the workspace names no template for a generator type.
pub open spec fn missing_template_message(generator_type: Seq<char>) -> Seq<char> {
    "generator type '"@ + generator_type + "' not found in nfw.yaml. Add templates."@
        + generator_type + ": <template-id> to your nfw.yaml."@
}

/// The template that `templates.<type>` names.
pub open spec fn spec_template_id(yaml: YamlValue, generator_type: Seq<char>) -> Option<Seq<char>> {
    spec_str_at(yaml, "templates"@, generator_type)
}

/// The template identifier `templates.<type>` of the workspace.
pub fn extract_template_id(yaml: &YamlValue, generator_type: &str) -> (r: Result<String, GenerateError>)
    ensures
        match spec_template_id(*yaml, generator_type@) {
            Some(id) => r matches Ok(s) && s@ == id,
            None => r matches Err(GenerateError::ConfigError(m)) && m@ == missing_template_message(
                generator_type@,
            ),
        },
{
    match yaml.str_at("templates", generator_type) {
        Some(id) => Ok(id.clone()),
        None => {
            let mut m = concat("generator type '", generator_type);
            m.append("' not found in nfw.yaml. Add templates.");
            m.append(generator_type);
            m.append(": <template-id> to your nfw.yaml.");
            Err(GenerateError::ConfigError(m))
        },
    }
}

/// Why reading `template.yaml` failed.
#[derive(Debug)]
pub enum TemplateConfigFailure {
    /// The file could not be read.
    Read(String),
    /// The file is not a template configuration.
    Parse(String),
    /// The configuration breaks a rule of templates.
    Invalid(String),
}

/// Where a `generate` command stands: what it asks the caller to read next, or its outcome.
#[derive(Debug)]
pub enum GenerateStep {
    /// Find the workspace root: the first of `start_directory` and its ancestors
    /// that holds `nfw.yaml`.
    LocateWorkspace { start_directory: String },
    /// Read and parse `nfw.yaml` in the workspace root.
    ReadWorkspaceFile { workspace_root: String },
    /// Read `template.yaml` in the template root.
    ReadTemplateConfig {
        workspace_root: String,
        template_root: String,
        parameters: TemplateParameters,
    },
    /// Run the template engine on `config`, the template at `template_root`, into
    /// `output_root`, with `parameters`.
    Render {
        config: TemplateConfig,
        template_root: String,
        output_root: String,
        parameters: TemplateParameters,
    },
    /// The command is done.
    Finished(Result<(), GenerateError>),
}

/// What the caller read for the step it was asked to take.
#[derive(Debug)]
pub enum GenerateEvent {
    /// The workspace root, when one was found.
    WorkspaceLocated(Option<String>),
    /// `nfw.yaml`: the read error, or the parse error, or the document.
    WorkspaceFileRead(Result<Result<YamlValue, String>, String>),
    /// `template.yaml`: the configuration, or why there is none.
    TemplateConfigRead(Result<TemplateConfig, TemplateConfigFailure>),
    /// What the template engine answered.
    Rendered(Result<(), TemplateError>),
}

/// Executes a generation request: renders a template configuration into an
/// output directory.
pub trait GenerateService {
    fn generate(
        &self,
        config: &TemplateConfig,
        template_root: &str,
        output_root: &str,
        parameters: &TemplateParameters,
    ) -> Result<(), TemplateError>;
}

/// Handles the `generate` command.
#[derive(Debug)]
pub struct GenerateCommandHandler<W, R, E> {
    pub working_dir_provider: W,
    pub root_resolver: R,
    pub engine: E,
}

impl<W: WorkingDirectoryProvider, R: TemplateRootResolver, E: TemplateEngine> GenerateCommandHandler<W, R, E> {
    pub fn new(working_dir_provider: W, root_resolver: R, engine: E) -> (r: Self)
        ensures
            r.working_dir_provider == working_dir_provider,
            r.root_resolver == root_resolver,
            r.engine == engine,
    {
        GenerateCommandHandler { working_dir_provider, root_resolver, engine }
    }

    /// The workspace root: the first of `candidates` (the start directory, then its
    /// ancestors, nearest first) that holds `nfw.yaml`, as `has_metadata` tells.
    pub fn resolve_workspace_root(&self, candidates: &Vec<String>, has_metadata: &Vec<bool>) -> (r:
        Option<String>)
        requires
            candidates@.len() == has_metadata@.len(),
        ensures
            match r {
                Some(root) => is_first_marked(candidates@, has_metadata@, root@),
                None => none_marked(has_metadata@),
            },
    {
        first_marked_directory(candidates, has_metadata)
    }

    /// Checks the name and the optional feature of the command against the identifier rule.
    pub fn validate_identifiers(&self, command: &GenerateCommand) -> (r: Result<(), GenerateError>)
        ensures
            match identifier_error(command.name@, text_of(command.feature)) {
                Some(m) => r matches Err(GenerateError::InvalidIdentifier(e)) && e@ == m,
                None => r is Ok,
            },
    {
        let feature = match &command.feature {
            Some(f) => Some(f.as_str()),
            None => None,
        };
        match check_identifiers(command.name.as_str(), feature) {
            Some(m) => Err(GenerateError::InvalidIdentifier(m)),
            None => Ok(()),
        }
    }

    /// The parameters of the command: `Name`, `Namespace` (from `workspace.namespace`),
    /// `Feature` when given, then the `Key=Value` pairs of `params`, trimmed.
    pub fn build_parameters(&self, nfw_yaml: &YamlValue, command: &GenerateCommand) -> (r: Result<
        TemplateParameters,
        GenerateError,
    >)
        ensures
            match spec_str_at(*nfw_yaml, "workspace"@, "namespace"@) {
                None => r matches Err(GenerateError::ConfigError(m)) && m@
                    == generate_namespace_message(),
                Some(ns) => match command_pairs(text_of(command.params)) {
                    Err(e) => r matches Err(GenerateError::InvalidParameter(m)) && m@ == e,
                    Ok(ps) => r matches Ok(p) && params_from_pairs(
                        p.entries@,
                        standard_pairs(command.name@, ns, text_of(command.feature)) + ps,
                    ),
                },
            },
    {
        let namespace = match nfw_yaml.str_at("workspace", "namespace") {
            Some(n) => n.clone(),
            None => {
                return Err(
                    GenerateError::ConfigError(
                        "missing 'workspace.namespace' in nfw.yaml. this is required for generation.".to_owned(),
                    ),
                );
            },
        };
        let extra = match &command.params {
            Some(p) => match parse_param_pairs(p.as_str()) {
                Ok(v) => v,
                Err(m) => {
                    return Err(GenerateError::InvalidParameter(m));
                },
            },
            None => Vec::new(),
        };
        let mut pairs: Vec<(String, String)> = Vec::new();
        pairs.push(("Name".to_owned(), command.name.clone()));
        pairs.push(("Namespace".to_owned(), namespace));
        match &command.feature {
            Some(f) => {
                pairs.push(("Feature".to_owned(), f.clone()));
            },
            None => {},
        }
        let ghost base = pairs@;
        let mut extra = extra;
        pairs.append(&mut extra);
        proof {
            reveal_strlit("Name");
            reveal_strlit("Namespace");
            reveal_strlit("Feature");
            let ps = command_pairs(text_of(command.params))->Ok_0;
            assert(pair_views(base) =~= standard_pairs(
                command.name@,
                spec_str_at(*nfw_yaml, "workspace"@, "namespace"@)->Some_0,
                text_of(command.feature),
            ));
            assert(pair_views(pairs@) =~= pair_views(base) + ps);
            assert forall|i: int| 0 <= i < pairs@.len() implies (#[trigger] pairs@[i]).0@.len() > 0 by {
                if i >= base.len() {
                    lemma_parsed_keys_non_empty(spec_split(command.params->Some_0@, ','), i - base.len());
                    assert(pair_views(pairs@)[i] == ps[i - base.len()]);
                } else {
                    assert(pair_views(pairs@)[i] == pair_views(base)[i]);
                }
            }
        }
        Ok(string_parameters(&pairs))
    }

    /// Starts the command: checks its identifiers and asks for the directory it runs in.
    pub fn handle(&self, command: &GenerateCommand) -> (r: GenerateStep)
        ensures
            identifier_error(command.name@, text_of(command.feature)) matches Some(m) ==> (r matches GenerateStep::Finished(
                Err(GenerateError::InvalidIdentifier(e)),
            ) && e@ == m),
            identifier_error(command.name@, text_of(command.feature)) is None ==> (r is LocateWorkspace || (
            r matches GenerateStep::Finished(Err(GenerateError::WorkspaceError(m))) && exists|e: Seq<char>|
                m@ == "failed to get current directory: "@ + e)),
    {
        match self.validate_identifiers(command) {
            Err(e) => {
                return GenerateStep::Finished(Err(e));
            },
            Ok(()) => {},
        }
        match self.working_dir_provider.current_dir() {
            Ok(dir) => GenerateStep::LocateWorkspace { start_directory: dir },
            Err(e) => {
                let m = concat("failed to get current directory: ", e.as_str());
                assert(m@ == "failed to get current directory: "@ + e@);
                GenerateStep::Finished(Err(GenerateError::WorkspaceError(m)))
            },
        }
    }

    /// Takes the next step with what the caller read for the current one. A step
    /// that does not expect the event is returned as it is.
    pub fn resume(&self, command: &GenerateCommand, step: GenerateStep, event: GenerateEvent) -> (r: GenerateStep)
        ensures
            match (step, event) {
                (GenerateStep::LocateWorkspace { .. }, GenerateEvent::WorkspaceLocated(None)) => r matches GenerateStep::Finished(
                    Err(GenerateError::WorkspaceError(m)),
                ) && m@ == "could not find nfw.yaml in current or parent directories"@,
                (GenerateStep::LocateWorkspace { .. }, GenerateEvent::WorkspaceLocated(Some(root))) => r matches GenerateStep::ReadWorkspaceFile { workspace_root } && workspace_root@ == root@,
                (GenerateStep::ReadWorkspaceFile { .. }, GenerateEvent::WorkspaceFileRead(Err(e))) => r matches GenerateStep::Finished(
                    Err(GenerateError::WorkspaceError(m)),
                ) && m@ == "failed to read nfw.yaml: "@ + e@,
                (GenerateStep::ReadWorkspaceFile { .. }, GenerateEvent::WorkspaceFileRead(Ok(Err(e)))) => r matches GenerateStep::Finished(
                    Err(GenerateError::WorkspaceError(m)),
                ) && m@ == "invalid nfw.yaml: "@ + e@,
                (GenerateStep::ReadWorkspaceFile { workspace_root: root }, GenerateEvent::WorkspaceFileRead(Ok(Ok(yaml)))) => match spec_generate_pairs(yaml, *command) {
                    None => match spec_str_at(yaml, "workspace"@, "namespace"@) {
                        None => r matches GenerateStep::Finished(Err(GenerateError::ConfigError(m))) && m@
                            == generate_namespace_message(),
                        Some(_) => r matches GenerateStep::Finished(Err(GenerateError::InvalidParameter(m)))
                            && command_pairs(text_of(command.params)) matches Err(e) && m@ == e,
                    },
                    Some(pairs) => match spec_template_id(yaml, command.generator_type@) {
                        None => r matches GenerateStep::Finished(Err(GenerateError::ConfigError(m))) && m@
                            == missing_template_message(command.generator_type@),
                        Some(_) => r matches GenerateStep::Finished(Err(GenerateError::TemplateNotFound(_)))
                            || (r matches GenerateStep::ReadTemplateConfig { workspace_root, parameters, .. }
                            && workspace_root@ == root@ && params_from_pairs(parameters.entries@, pairs)),
                    },
                },
                (GenerateStep::ReadTemplateConfig { template_root, .. }, GenerateEvent::TemplateConfigRead(Err(f))) => r matches GenerateStep::Finished(
                    Err(GenerateError::ConfigError(m)),
                ) && m@ == match f {
                    TemplateConfigFailure::Read(e) => "failed to read template.yaml at "@ + spec_join(
                        template_root@,
                        "template.yaml"@,
                    ) + ": "@ + e@,
                    TemplateConfigFailure::Parse(e) => "failed to parse template.yaml: "@ + e@,
                    TemplateConfigFailure::Invalid(e) => "template validation failed: "@ + e@,
                },
                (
                    GenerateStep::ReadTemplateConfig { workspace_root, template_root, parameters },
                    GenerateEvent::TemplateConfigRead(Ok(config)),
                ) => r == (GenerateStep::Render {
                    config,
                    template_root,
                    output_root: workspace_root,
                    parameters,
                }),
                (GenerateStep::Render { .. }, GenerateEvent::Rendered(Ok(()))) => r == GenerateStep::Finished(
                    Ok(()),
                ),
                (GenerateStep::Render { .. }, GenerateEvent::Rendered(Err(e))) => r == GenerateStep::Finished(
                    Err(GenerateError::ExecutionFailed(e)),
                ),
                (s, _) => r == s,
            },
    {
        match step {
            GenerateStep::LocateWorkspace { start_directory } => match event {
                GenerateEvent::WorkspaceLocated(None) => GenerateStep::Finished(
                    Err(
                        GenerateError::WorkspaceError(
                            "could not find nfw.yaml in current or parent directories".to_owned(),
                        ),
                    ),
                ),
                GenerateEvent::WorkspaceLocated(Some(root)) => GenerateStep::ReadWorkspaceFile {
                    workspace_root: root,
                },
                _ => GenerateStep::LocateWorkspace { start_directory },
            },
            GenerateStep::ReadWorkspaceFile { workspace_root } => match event {
                GenerateEvent::WorkspaceFileRead(Err(e)) => GenerateStep::Finished(
                    Err(GenerateError::WorkspaceError(concat("failed to read nfw.yaml: ", e.as_str()))),
                ),
                GenerateEvent::WorkspaceFileRead(Ok(Err(e))) => GenerateStep::Finished(
                    Err(GenerateError::WorkspaceError(concat("invalid nfw.yaml: ", e.as_str()))),
                ),
                GenerateEvent::WorkspaceFileRead(Ok(Ok(yaml))) => {
                    let parameters = match self.build_parameters(&yaml, command) {
                        Ok(p) => p,
                        Err(e) => {
                            return GenerateStep::Finished(Err(e));
                        },
                    };
                    let template_id = match extract_template_id(&yaml, command.generator_type.as_str()) {
                        Ok(id) => id,
                        Err(e) => {
                            return GenerateStep::Finished(Err(e));
                        },
                    };
                    match self.root_resolver.resolve(&yaml, template_id.as_str(), workspace_root.as_str()) {
                        Ok(template_root) => GenerateStep::ReadTemplateConfig {
                            workspace_root,
                            template_root,
                            parameters,
                        },
                        Err(e) => GenerateStep::Finished(Err(GenerateError::TemplateNotFound(e))),
                    }
                },
                _ => GenerateStep::ReadWorkspaceFile { workspace_root },
            },
            GenerateStep::ReadTemplateConfig { workspace_root, template_root, parameters } => match event {
                GenerateEvent::TemplateConfigRead(Err(f)) => {
                    let m = match f {
                        TemplateConfigFailure::Read(e) => {
                            let path = join_path(template_root.as_str(), "template.yaml");
                            let mut m = concat("failed to read template.yaml at ", path.as_str());
                            m.append(": ");
                            m.append(e.as_str());
                            m
                        },
                        TemplateConfigFailure::Parse(e) => concat(
                            "failed to parse template.yaml: ",
                            e.as_str(),
                        ),
                        TemplateConfigFailure::Invalid(e) => concat(
                            "template validation failed: ",
                            e.as_str(),
                        ),
                    };
                    GenerateStep::Finished(Err(GenerateError::ConfigError(m)))
                },
                GenerateEvent::TemplateConfigRead(Ok(config)) => GenerateStep::Render {
                    config,
                    template_root,
                    output_root: workspace_root,
                    parameters,
                },
                _ => GenerateStep::ReadTemplateConfig { workspace_root, template_root, parameters },
            },
            GenerateStep::Render { config, template_root, output_root, parameters } => match event {
                GenerateEvent::Rendered(Ok(())) => GenerateStep::Finished(Ok(())),
                GenerateEvent::Rendered(Err(e)) => GenerateStep::Finished(Err(GenerateError::ExecutionFailed(e))),
                _ => GenerateStep::Render { config, template_root, output_root, parameters },
            },
            GenerateStep::Finished(res) => GenerateStep::Finished(res),
        }
    }
}

/// The names of parsed pairs are not empty.
proof fn lemma_parsed_keys_non_empty(pieces: Seq<Seq<char>>, i: int)
    requires
        parsed_pairs(pieces) is Ok,
        0 <= i < parsed_pairs(pieces)->Ok_0.len(),
    ensures
        parsed_pairs(pieces)->Ok_0[i].0.len() > 0,
    decreases pieces.len(),
{
    if pieces.len() > 0 {
        let ps = parsed_pairs(pieces.drop_last())->Ok_0;
        if i < ps.len() {
            lemma_parsed_keys_non_empty(pieces.drop_last(), i);
        }
    }
}

} // verus!
