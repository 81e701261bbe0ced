//! Adding artifacts (modules, features, mediator and repository files) to a
//! service of a workspace: the checks, the workspace-file edits and the paths
//! that template step destinations lead to.
use vstd::prelude::*;

use crate::template_management::errors::{add_artifact_error_message, AddArtifactError, TemplateError};
use crate::template_management::model::{
    lemma_params_set_lookup, lookup_pair, pair_lookup, param_lookup, param_str,
    render_destination, ParamValue, TemplateConfig, TemplateParameters, TemplateStepAction,
};
use crate::template_management::feature_paths::{
    analyze_feature_destination, first_feature_destination, first_feature_step,
    first_presentation_layout, first_presentation_step, join_all, join_path, spec_analyze,
    spec_join, spec_join_all,
};
use crate::text::{concat, contains, has_sub, str_eq, views};
use crate::workspace_root::{first_marked_directory, is_first_marked, none_marked};
use crate::yaml::{
    collect_str_elements, entry_index, find_entry, is_str_value, key_is, lemma_entry_index,
    spec_as_str, spec_get, spec_str_at, str_elements, YamlValue,
};

verus! {

/// Provides the directory the command runs in.
pub trait WorkingDirectoryProvider {
    fn current_dir(&self) -> Result<String, String>;
}

/// Finds the root directory of a template from its identifier.
pub trait TemplateRootResolver {
    fn resolve(&self, nfw_yaml: &YamlValue, template_id: &str, workspace_root: &str) -> Result<
        String,
        String,
    >;
}

/// Renders a template configuration into an output directory.
pub trait TemplateEngine {
    fn execute(
        &self,
        config: &TemplateConfig,
        template_root: &str,
        output_root: &str,
        parameters: &TemplateParameters,
    ) -> Result<(), TemplateError>;
}

/// A character allowed in identifiers: an ASCII letter or digit, `_` or `-`.
pub open spec fn is_identifier_char(c: char) -> bool {
    ||| 'a' <= c <= 'z'
    ||| 'A' <= c <= 'Z'
    ||| '0' <= c <= '9'
    ||| c == '_'
    ||| c == '-'
}

/// A non-empty string of identifier characters: what `^[a-zA-Z0-9_-]+$` matches.
pub open spec fn is_identifier(s: Seq<char>) -> bool {
    s.len() > 0 && forall|i: int| 0 <= i < s.len() ==> is_identifier_char(#[trigger] s[i])
}

/// Matches `s` against the regular expression `^[a-zA-Z0-9_-]+$` of the `regex`
/// crate. Without the multi-line flag `^` and `$` anchor at the ends of the whole
/// text, so this holds exactly of the non-empty strings of the listed characters.
#[verifier::external_body]
pub(crate) fn identifier_regex_matches(s: &str) -> (r: bool)
    ensures
        r == is_identifier(s@),
{
    regex::Regex::new("^[a-zA-Z0-9_-]+$").unwrap().is_match(s)
}

/// A service of the workspace: its name, its path below the workspace root, and
/// the identifier of the template it was generated from.
#[derive(Debug)]
pub struct ServiceInfo {
    pub name: String,
    pub path: String,
    pub template_id: String,
}

impl ServiceInfo {
    /// A service description; none of the three parts may be empty.
    pub fn new(name: String, path: String, template_id: String) -> (r: Result<ServiceInfo, String>)
        ensures
            name@.len() == 0 ==> r == Err::<ServiceInfo, String>(r->Err_0) && r->Err_0@
                == "Service name cannot be empty"@,
            name@.len() > 0 && path@.len() == 0 ==> r is Err && r->Err_0@
                == "Service path cannot be empty"@,
            name@.len() > 0 && path@.len() > 0 && template_id@.len() == 0 ==> r is Err
                && r->Err_0@ == "Service template ID cannot be empty"@,
            name@.len() > 0 && path@.len() > 0 && template_id@.len() > 0 ==> r == Ok::<
                ServiceInfo,
                String,
            >(ServiceInfo { name, path, template_id }),
    {
        if name.unicode_len() == 0 {
            return Err("Service name cannot be empty".to_owned());
        }
        if path.unicode_len() == 0 {
            return Err("Service path cannot be empty".to_owned());
        }
        if template_id.unicode_len() == 0 {
            return Err("Service template ID cannot be empty".to_owned());
        }
        Ok(ServiceInfo { name, path, template_id })
    }

    pub fn name(&self) -> (r: &str)
        ensures
            r@ == self.name@,
    {
        self.name.as_str()
    }

    pub fn path(&self) -> (r: &str)
        ensures
            r@ == self.path@,
    {
        self.path.as_str()
    }

    pub fn template_id(&self) -> (r: &str)
        ensures
            r@ == self.template_id@,
    {
        self.template_id.as_str()
    }

    /// A field-by-field copy.
    pub fn copy(&self) -> (r: ServiceInfo)
        ensures
            r == *self,
    {
        ServiceInfo {
            name: self.name.clone(),
            path: self.path.clone(),
            template_id: self.template_id.clone(),
        }
    }
}

/// The workspace a command works in: its root directory, its parsed `nfw.yaml`
/// and the comment lines of that file that a rewrite keeps.
#[derive(Debug)]
pub struct WorkspaceContext {
    pub workspace_root: String,
    pub nfw_yaml: YamlValue,
    pub preserved_comments: Vec<String>,
}

impl WorkspaceContext {
    /// A workspace context; `root_is_dir` tells whether the root is an existing directory.
    pub fn new(
        workspace_root: String,
        nfw_yaml: YamlValue,
        preserved_comments: Vec<String>,
        root_is_dir: bool,
    ) -> (r: Result<WorkspaceContext, AddArtifactError>)
        ensures
            root_is_dir ==> r == Ok::<WorkspaceContext, AddArtifactError>(
                WorkspaceContext { workspace_root, nfw_yaml, preserved_comments },
            ),
            !root_is_dir ==> (r matches Err(AddArtifactError::WorkspaceError(m)) && m@
                == "Workspace root is not a valid directory: "@ + workspace_root@),
    {
        if !root_is_dir {
            return Err(
                AddArtifactError::WorkspaceError(
                    concat("Workspace root is not a valid directory: ", workspace_root.as_str()),
                ),
            );
        }
        Ok(WorkspaceContext { workspace_root, nfw_yaml, preserved_comments })
    }

    pub fn workspace_root(&self) -> (r: &String)
        ensures
            r == self.workspace_root,
    {
        &self.workspace_root
    }

    pub fn nfw_yaml(&self) -> (r: &YamlValue)
        ensures
            r == self.nfw_yaml,
    {
        &self.nfw_yaml
    }

    pub fn preserved_comments(&self) -> (r: &Vec<String>)
        ensures
            r == self.preserved_comments,
    {
        &self.preserved_comments
    }
}

/// Everything needed to render one generator of a service's template.
#[derive(Debug)]
pub struct AddArtifactContext {
    pub workspace: WorkspaceContext,
    pub template_root: String,
    pub config: TemplateConfig,
    pub service_name: String,
    pub service_path: String,
}

impl AddArtifactContext {
    /// A context; the service name and path may not be empty.
    pub fn new(
        workspace: WorkspaceContext,
        template_root: String,
        config: TemplateConfig,
        service_name: String,
        service_path: String,
    ) -> (r: Result<AddArtifactContext, AddArtifactError>)
        ensures
            service_name@.len() == 0 ==> (r matches Err(AddArtifactError::InvalidParameter(m))
                && m@ == "service_name cannot be empty"@),
            service_name@.len() > 0 && service_path@.len() == 0 ==> (r matches Err(
                AddArtifactError::InvalidParameter(m),
            ) && m@ == "service_path cannot be empty"@),
            service_name@.len() > 0 && service_path@.len() > 0 ==> r == Ok::<
                AddArtifactContext,
                AddArtifactError,
            >(AddArtifactContext { workspace, template_root, config, service_name, service_path }),
    {
        if service_name.unicode_len() == 0 {
            return Err(AddArtifactError::InvalidParameter("service_name cannot be empty".to_owned()));
        }
        if service_path.unicode_len() == 0 {
            return Err(AddArtifactError::InvalidParameter("service_path cannot be empty".to_owned()));
        }
        Ok(AddArtifactContext { workspace, template_root, config, service_name, service_path })
    }

    pub fn workspace_root(&self) -> (r: &String)
        ensures
            r == self.workspace.workspace_root,
    {
        &self.workspace.workspace_root
    }

    pub fn nfw_yaml(&self) -> (r: &YamlValue)
        ensures
            r == self.workspace.nfw_yaml,
    {
        &self.workspace.nfw_yaml
    }

    pub fn preserved_comments(&self) -> (r: &Vec<String>)
        ensures
            r == self.workspace.preserved_comments,
    {
        &self.workspace.preserved_comments
    }

    pub fn template_root(&self) -> (r: &String)
        ensures
            r == self.template_root,
    {
        &self.template_root
    }

    pub fn config(&self) -> (r: &TemplateConfig)
        ensures
            r == self.config,
    {
        &self.config
    }

    pub fn service_name(&self) -> (r: &str)
        ensures
            r@ == self.service_name@,
    {
        self.service_name.as_str()
    }

    pub fn service_path(&self) -> (r: &String)
        ensures
            r == self.service_path,
    {
        &self.service_path
    }
}

/// The error `validate_identifiers` gives for a name and an optional feature, if any.
pub open spec fn identifier_error(name: Seq<char>, feature: Option<Seq<char>>) -> Option<Seq<char>> {
    if name.len() == 0 {
        Some("name cannot be empty"@)
    } else if !is_identifier(name) {
        Some(
            "invalid name '"@ + name
                + "'. Only alphanumeric characters, hyphens, and underscores are allowed."@,
        )
    } else {
        match feature {
            Some(f) => if f.len() == 0 {
                Some("feature cannot be empty if provided"@)
            } else if !is_identifier(f) {
                Some(
                    "invalid feature '"@ + f
                        + "'. Only alphanumeric characters, hyphens, and underscores are allowed."@,
                )
            } else {
                None
            },
            None => None,
        }
    }
}

/// Checks a name and an optional feature against the identifier rule; the
/// message of the first violation, or `None`.
pub fn check_identifiers(name: &str, feature: Option<&str>) -> (r: Option<String>)
    ensures
        match r {
            Some(m) => identifier_error(name@, opt_view(feature)) == Some(m@),
            None => identifier_error(name@, opt_view(feature)) is None,
        },
{
    if name.unicode_len() == 0 {
        return Some("name cannot be empty".to_owned());
    }
    if !identifier_regex_matches(name) {
        let mut m = concat("invalid name '", name);
        m.append("'. Only alphanumeric characters, hyphens, and underscores are allowed.");
        return Some(m);
    }
    match feature {
        Some(f) => {
            if f.unicode_len() == 0 {
                return Some("feature cannot be empty if provided".to_owned());
            }
            if !identifier_regex_matches(f) {
                let mut m = concat("invalid feature '", f);
                m.append("'. Only alphanumeric characters, hyphens, and underscores are allowed.");
                return Some(m);
            }
            None
        },
        None => None,
    }
}

/// The text of an optional string.
pub open spec fn opt_view(o: Option<&str>) -> Option<Seq<char>> {
    match o {
        Some(s) => Some(s@),
        None => None,
    }
}

/// The namespace of the workspace: `workspace.namespace` of `nfw.yaml`.
pub open spec fn spec_namespace(yaml: YamlValue) -> Option<Seq<char>> {
    spec_str_at(yaml, "workspace"@, "namespace"@)
}

/// What `ServiceInfo`s an `nfw.yaml` entry of `services` gives, or the error message.
pub open spec fn service_entry(key: YamlValue, details: YamlValue) -> Result<
    (Seq<char>, Seq<char>, Seq<char>),
    Seq<char>,
> {
    match key {
        YamlValue::Str(name) => match details {
            YamlValue::Mapping(_) => match spec_get(details, "path"@) {
                Some(p) => match spec_as_str(p) {
                    Some(path) => match spec_get(details, "template"@) {
                        Some(YamlValue::Mapping(t)) => match spec_get(
                            YamlValue::Mapping(t),
                            "id"@,
                        ) {
                            Some(i) => match spec_as_str(i) {
                                Some(id) => Ok((name@, path, id)),
                                None => Err(missing_template_id(name@)),
                            },
                            None => Err(missing_template_id(name@)),
                        },
                        _ => Err(missing_template_id(name@)),
                    },
                    None => Err(missing_path(name@)),
                },
                None => Err(missing_path(name@)),
            },
            _ => Err("service '"@ + name@ + "' details must be a mapping"@),
        },
        _ => Err("service key in nfw.yaml must be a string"@),
    }
}

pub open spec fn missing_path(name: Seq<char>) -> Seq<char> {
    "service '"@ + name + "' is missing its 'path' field"@
}

pub open spec fn missing_template_id(name: Seq<char>) -> Seq<char> {
    "service '"@ + name + "' is missing its 'template.id' field"@
}

/// The services of a `services` mapping, in order, or the first entry's error.
pub open spec fn services_of(entries: Seq<(YamlValue, YamlValue)>) -> Result<
    Seq<(Seq<char>, Seq<char>, Seq<char>)>,
    Seq<char>,
>
    decreases entries.len(),
{
    if entries.len() == 0 {
        Ok(Seq::empty())
    } else {
        match services_of(entries.drop_last()) {
            Err(e) => Err(e),
            Ok(acc) => match service_entry(entries.last().0, entries.last().1) {
                Err(e) => Err(e),
                Ok(s) => Ok(acc.push(s)),
            },
        }
    }
}

/// The services declared in `nfw.yaml`, or the configuration error message.
pub open spec fn spec_extract_services(yaml: YamlValue) -> Result<
    Seq<(Seq<char>, Seq<char>, Seq<char>)>,
    Seq<char>,
> {
    match spec_get(yaml, "services"@) {
        None => Ok(Seq::empty()),
        Some(YamlValue::Mapping(entries)) => services_of(entries@),
        Some(_) => Err("nfw.yaml is missing its 'services' mapping"@),
    }
}

/// The name, path and template identifier of each service.
pub open spec fn service_views(s: Seq<ServiceInfo>) -> Seq<(Seq<char>, Seq<char>, Seq<char>)> {
    s.map_values(|x: ServiceInfo| (x.name@, x.path@, x.template_id@))
}

/// Reads one entry of the `services` mapping.
fn read_service_entry(key: &YamlValue, details: &YamlValue) -> (r: Result<ServiceInfo, String>)
    ensures
        match r {
            Ok(s) => service_entry(*key, *details) == Ok::<
                (Seq<char>, Seq<char>, Seq<char>),
                Seq<char>,
            >((s.name@, s.path@, s.template_id@)),
            Err(e) => service_entry(*key, *details) == Err::<
                (Seq<char>, Seq<char>, Seq<char>),
                Seq<char>,
            >(e@),
        },
{
    let name = match key {
        YamlValue::Str(n) => n,
        _ => {
            return Err("service key in nfw.yaml must be a string".to_owned());
        },
    };
    match details {
        YamlValue::Mapping(_) => {},
        _ => {
            let mut m = concat("service '", name.as_str());
            m.append("' details must be a mapping");
            return Err(m);
        },
    }
    let path = match details.get("path") {
        Some(p) => match p.as_str() {
            Some(s) => s.clone(),
            None => {
                let mut m = concat("service '", name.as_str());
                m.append("' is missing its 'path' field");
                return Err(m);
            },
        },
        None => {
            let mut m = concat("service '", name.as_str());
            m.append("' is missing its 'path' field");
            return Err(m);
        },
    };
    let id = match details.get("template") {
        Some(t) => match t {
            YamlValue::Mapping(_) => match t.get("id") {
                Some(i) => match i.as_str() {
                    Some(s) => Some(s.clone()),
                    None => None,
                },
                None => None,
            },
            _ => None,
        },
        None => None,
    };
    match id {
        Some(template_id) => Ok(ServiceInfo { name: name.clone(), path, template_id }),
        None => {
            let mut m = concat("service '", name.as_str());
            m.append("' is missing its 'template.id' field");
            Err(m)
        },
    }
}

/// The services declared in `nfw.yaml`: each entry of the `services` mapping must
/// have a string key, a mapping as details, a string `path` and a string `template.id`.
pub fn extract_services_from(yaml: &YamlValue) -> (r: Result<Vec<ServiceInfo>, AddArtifactError>)
    ensures
        match r {
            Ok(v) => spec_extract_services(*yaml) == Ok::<
                Seq<(Seq<char>, Seq<char>, Seq<char>)>,
                Seq<char>,
            >(service_views(v@)),
            Err(AddArtifactError::ConfigError(m)) => spec_extract_services(*yaml) == Err::<
                Seq<(Seq<char>, Seq<char>, Seq<char>)>,
                Seq<char>,
            >(m@),
            Err(_) => false,
        },
{
    let mut result: Vec<ServiceInfo> = Vec::new();
    match yaml.get("services") {
        None => {
            assert(service_views(result@) =~= Seq::empty());
            Ok(result)
        },
        Some(services) => {
            let entries = match services {
                YamlValue::Mapping(entries) => entries,
                _ => {
                    return Err(
                        AddArtifactError::ConfigError(
                            "nfw.yaml is missing its 'services' mapping".to_owned(),
                        ),
                    );
                },
            };
            let mut i: usize = 0;
            assert(service_views(result@) =~= Seq::empty());
            assert(entries@.subrange(0, 0) =~= Seq::<(YamlValue, YamlValue)>::empty());
            while i < entries.len()
                invariant
                    i <= entries@.len(),
                    spec_extract_services(*yaml) == services_of(entries@),
                    services_of(entries@.subrange(0, i as int)) == Ok::<
                        Seq<(Seq<char>, Seq<char>, Seq<char>)>,
                        Seq<char>,
                    >(service_views(result@)),
                decreases entries@.len() - i,
            {
                assert(entries@.subrange(0, i + 1).drop_last() =~= entries@.subrange(0, i as int));
                match read_service_entry(&entries[i].0, &entries[i].1) {
                    Ok(s) => {
                        let ghost before = result@;
                        result.push(s);
                        assert(service_views(result@) =~= service_views(before).push(
                            (s.name@, s.path@, s.template_id@),
                        ));
                    },
                    Err(e) => {
                        assert(services_of(entries@.subrange(0, i + 1)) == Err::<
                            Seq<(Seq<char>, Seq<char>, Seq<char>)>,
                            Seq<char>,
                        >(e@));
                        proof {
                            lemma_services_of_error_prefix(entries@, i as int + 1);
                        }
                        return Err(AddArtifactError::ConfigError(e));
                    },
                }
                i = i + 1;
            }
            assert(entries@.subrange(0, i as int) =~= entries@);
            Ok(result)
        },
    }
}

/// An error in a prefix of the entries is the error of all of them.
proof fn lemma_services_of_error_prefix(entries: Seq<(YamlValue, YamlValue)>, n: int)
    requires
        0 <= n <= entries.len(),
        services_of(entries.subrange(0, n)) is Err,
    ensures
        services_of(entries) == services_of(entries.subrange(0, n)),
    decreases entries.len() - n,
{
    if n < entries.len() {
        assert(entries.subrange(0, n + 1).drop_last() =~= entries.subrange(0, n));
        lemma_services_of_error_prefix(entries, n + 1);
    } else {
        assert(entries.subrange(0, n) =~= entries);
    }
}

/// Some element of `items` is the string `s`.
pub open spec fn contains_str(items: Seq<YamlValue>, s: Seq<char>) -> bool {
    exists|i: int| 0 <= i < items.len() && is_str_value(#[trigger] items[i], s)
}

/// Tests whether some element of `items` is the string `s`.
pub fn contains_str_exec(items: &Vec<YamlValue>, s: &str) -> (r: bool)
    ensures
        r == contains_str(items@, s@),
{
    let mut i: usize = 0;
    while i < items.len()
        invariant
            i <= items@.len(),
            forall|k: int| 0 <= k < i ==> !is_str_value(#[trigger] items@[k], s@),
        decreases items@.len() - i,
    {
        if items[i].is_str(s) {
            return true;
        }
        i = i + 1;
    }
    false
}

/// The `modules` list of a service's details: its string elements, when it is a sequence.
pub open spec fn modules_of(details: YamlValue) -> Seq<Seq<char>> {
    match spec_get(details, "modules"@) {
        Some(YamlValue::Sequence(items)) => str_elements(items@),
        _ => Seq::empty(),
    }
}

/// The name of a service key, or `unknown` when it is not a string.
pub open spec fn name_or_unknown(key: YamlValue) -> Seq<char> {
    match spec_as_str(key) {
        Some(n) => n,
        None => "unknown"@,
    }
}

/// The modules of the first service at or after `i` whose `path` is `service_path`;
/// an error for an earlier entry without a string `path`; none when no entry matches.
pub open spec fn modules_from(entries: Seq<(YamlValue, YamlValue)>, service_path: Seq<char>, i: int) -> Result<
    Seq<Seq<char>>,
    Seq<char>,
>
    decreases entries.len() - i,
{
    if i >= entries.len() {
        Ok(Seq::empty())
    } else {
        match spec_get(entries[i].1, "path"@) {
            Some(p) => match spec_as_str(p) {
                Some(path) => if path == service_path {
                    Ok(modules_of(entries[i].1))
                } else {
                    modules_from(entries, service_path, i + 1)
                },
                None => Err(missing_path(name_or_unknown(entries[i].0))),
            },
            None => Err(missing_path(name_or_unknown(entries[i].0))),
        }
    }
}

/// The modules installed in the service at `service_path`, or the configuration error.
pub open spec fn spec_service_modules(yaml: YamlValue, service_path: Seq<char>) -> Result<
    Seq<Seq<char>>,
    Seq<char>,
> {
    match spec_get(yaml, "services"@) {
        Some(YamlValue::Mapping(entries)) => modules_from(entries@, service_path, 0),
        _ => Err("nfw.yaml is missing its 'services' mapping"@),
    }
}

/// The name of a service key, or `unknown`.
fn key_name(key: &YamlValue) -> (r: String)
    ensures
        r@ == name_or_unknown(*key),
{
    match key.as_str() {
        Some(n) => n.clone(),
        None => "unknown".to_owned(),
    }
}

/// The modules installed in the service whose path is `service_path`.
pub fn service_modules(yaml: &YamlValue, service_path: &str) -> (r: Result<Vec<String>, AddArtifactError>)
    ensures
        match r {
            Ok(v) => spec_service_modules(*yaml, service_path@) == Ok::<
                Seq<Seq<char>>,
                Seq<char>,
            >(views(v@)),
            Err(AddArtifactError::ConfigError(m)) => spec_service_modules(*yaml, service_path@)
                == Err::<Seq<Seq<char>>, Seq<char>>(m@),
            Err(_) => false,
        },
{
    let entries = match yaml.get("services") {
        Some(YamlValue::Mapping(entries)) => entries,
        _ => {
            return Err(
                AddArtifactError::ConfigError(
                    "nfw.yaml is missing its 'services' mapping".to_owned(),
                ),
            );
        },
    };
    let mut i: usize = 0;
    while i < entries.len()
        invariant
            i <= entries@.len(),
            spec_service_modules(*yaml, service_path@) == modules_from(entries@, service_path@, 0),
            modules_from(entries@, service_path@, 0) == modules_from(
                entries@,
                service_path@,
                i as int,
            ),
        decreases entries@.len() - i,
    {
        let details = &entries[i].1;
        let path = match details.get("path") {
            Some(p) => match p.as_str() {
                Some(s) => s,
                None => {
                    let mut m = concat("service '", key_name(&entries[i].0).as_str());
                    m.append("' is missing its 'path' field");
                    return Err(AddArtifactError::ConfigError(m));
                },
            },
            None => {
                let mut m = concat("service '", key_name(&entries[i].0).as_str());
                m.append("' is missing its 'path' field");
                return Err(AddArtifactError::ConfigError(m));
            },
        };
        if str_eq(path.as_str(), service_path) {
            return match details.get("modules") {
                Some(YamlValue::Sequence(items)) => Ok(collect_str_elements(items)),
                _ => {
                    let v: Vec<String> = Vec::new();
                    assert(views(v@) =~= Seq::empty());
                    Ok(v)
                },
            };
        }
        i = i + 1;
    }
    let v: Vec<String> = Vec::new();
    assert(views(v@) =~= Seq::empty());
    Ok(v)
}

/// The first of `required` that is not in `installed`.
pub open spec fn first_missing(required: Seq<Seq<char>>, installed: Seq<Seq<char>>) -> Option<
    Seq<char>,
>
    decreases required.len(),
{
    if required.len() == 0 {
        None
    } else if !installed.contains(required[0]) {
        Some(required[0])
    } else {
        first_missing(required.drop_first(), installed)
    }
}

/// The message for a module that is required but not installed.
pub open spec fn missing_module_message(m: Seq<char>) -> Seq<char> {
    "module '"@ + m + "' is required but not installed. Run: nfw add "@ + m
}

/// The outcome of checking a template's required modules against a service.
pub open spec fn spec_required_modules_check(
    required: Seq<Seq<char>>,
    yaml: YamlValue,
    service_path: Seq<char>,
) -> Option<AddArtifactErrorKind> {
    if required.len() == 0 {
        None
    } else {
        match spec_service_modules(yaml, service_path) {
            Err(m) => Some(AddArtifactErrorKind::Config(m)),
            Ok(installed) => match first_missing(required, installed) {
                Some(m) => Some(AddArtifactErrorKind::MissingModule(missing_module_message(m))),
                None => None,
            },
        }
    }
}

/// The kind and message of an artifact error, for contracts.
pub enum AddArtifactErrorKind {
    Config(Seq<char>),
    MissingModule(Seq<char>),
}

/// Tests whether `m` is one of `installed`.
fn is_listed(installed: &Vec<String>, m: &str) -> (r: bool)
    ensures
        r == views(installed@).contains(m@),
{
    let mut i: usize = 0;
    while i < installed.len()
        invariant
            i <= installed@.len(),
            forall|k: int| 0 <= k < i ==> installed@[k]@ != m@,
        decreases installed@.len() - i,
    {
        if str_eq(installed[i].as_str(), m) {
            assert(views(installed@)[i as int] == m@);
            return true;
        }
        i = i + 1;
    }
    false
}

/// Checks that every module the template requires is installed in the service.
pub fn validate_required_modules(config: &TemplateConfig, nfw_yaml: &YamlValue, service_path: &str) -> (r:
    Result<(), AddArtifactError>)
    ensures
        match spec_required_modules_check(views(config.required_modules@), *nfw_yaml, service_path@) {
            None => r is Ok,
            Some(AddArtifactErrorKind::Config(m)) => r matches Err(AddArtifactError::ConfigError(e))
                && e@ == m,
            Some(AddArtifactErrorKind::MissingModule(m)) => r matches Err(
                AddArtifactError::MissingRequiredModule(e),
            ) && e@ == m,
        },
{
    let required = &config.required_modules;
    if required.len() == 0 {
        return Ok(());
    }
    let installed = service_modules(nfw_yaml, service_path)?;
    let ghost req = views(required@);
    let mut i: usize = 0;
    assert(req.skip(0) =~= req);
    while i < required.len()
        invariant
            i <= required@.len(),
            req == views(required@),
            required@ == config.required_modules@,
            req.len() > 0,
            spec_service_modules(*nfw_yaml, service_path@) == Ok::<Seq<Seq<char>>, Seq<char>>(
                views(installed@),
            ),
            first_missing(req, views(installed@)) == first_missing(req.skip(i as int), views(installed@)),
        decreases required@.len() - i,
    {
        assert(req.skip(i as int).drop_first() =~= req.skip(i + 1));
        assert(req.skip(i as int)[0] == required@[i as int]@);
        if !is_listed(&installed, required[i].as_str()) {
            let mut m = concat("module '", required[i].as_str());
            m.append("' is required but not installed. Run: nfw add ");
            m.append(required[i].as_str());
            return Err(AddArtifactError::MissingRequiredModule(m));
        }
        i = i + 1;
    }
    Ok(())
}

/// Why a module cannot be added to `service`, if it cannot.
pub open spec fn add_module_error(yaml: YamlValue, service: Seq<char>) -> Option<Seq<char>> {
    match spec_get(yaml, "services"@) {
        Some(YamlValue::Mapping(svcs)) => match spec_get(YamlValue::Mapping(svcs), service) {
            Some(YamlValue::Mapping(_)) => None,
            _ => Some("service '"@ + service + "' not found in nfw.yaml"@),
        },
        _ => Some("nfw.yaml is missing 'services' mapping"@),
    }
}

/// `after` is `before` with `module` in the `modules` list: unchanged when it is
/// already there or when `modules` is not a sequence, appended otherwise; a missing
/// `modules` entry is added at the end holding just `module`.
pub open spec fn details_added(
    before: Seq<(YamlValue, YamlValue)>,
    after: Seq<(YamlValue, YamlValue)>,
    module: Seq<char>,
) -> bool {
    let k = entry_index(before, "modules"@, 0);
    if k < before.len() {
        match before[k].1 {
            YamlValue::Sequence(items) => if contains_str(items@, module) {
                after == before
            } else {
                &&& after == before.update(k, (before[k].0, after[k].1))
                &&& after[k].1 matches YamlValue::Sequence(items2)
                &&& items2@.len() == items@.len() + 1
                &&& items2@.take(items@.len() as int) == items@
                &&& is_str_value(items2@.last(), module)
            },
            _ => after == before,
        }
    } else {
        &&& after.len() == before.len() + 1
        &&& after.take(before.len() as int) == before
        &&& key_is(after.last().0, "modules"@)
        &&& after.last().1 matches YamlValue::Sequence(items2)
        &&& items2@.len() == 1
        &&& is_str_value(items2@[0], module)
    }
}

/// `after` is the workspace document `before` with `module` registered for `service`;
/// everything else stays as it was.
pub open spec fn module_added(before: YamlValue, after: YamlValue, service: Seq<char>, module: Seq<char>) -> bool {
    &&& before matches YamlValue::Mapping(top)
    &&& after matches YamlValue::Mapping(top2)
    &&& {
        let i = entry_index(top@, "services"@, 0);
        &&& i < top@.len()
        &&& top2@ == top@.update(i, (top@[i].0, top2@[i].1))
        &&& top@[i].1 matches YamlValue::Mapping(svcs)
        &&& top2@[i].1 matches YamlValue::Mapping(svcs2)
        &&& {
            let j = entry_index(svcs@, service, 0);
            &&& j < svcs@.len()
            &&& svcs2@ == svcs@.update(j, (svcs@[j].0, svcs2@[j].1))
            &&& svcs@[j].1 matches YamlValue::Mapping(det)
            &&& svcs2@[j].1 matches YamlValue::Mapping(det2)
            &&& details_added(det@, det2@, module)
        }
    }
}

/// `module` is listed in the `modules` sequence of `service`.
pub open spec fn spec_has_module(yaml: YamlValue, service: Seq<char>, module: Seq<char>) -> bool {
    match spec_get(yaml, "services"@) {
        Some(s) => match spec_get(s, service) {
            Some(d) => match spec_get(d, "modules"@) {
                Some(YamlValue::Sequence(items)) => contains_str(items@, module),
                _ => false,
            },
            None => false,
        },
        None => false,
    }
}

/// Tests whether `module` is registered for `service` in the workspace document.
pub fn has_module_in_yaml(yaml: &YamlValue, service: &str, module: &str) -> (r: bool)
    ensures
        r == spec_has_module(*yaml, service@, module@),
{
    match yaml.get("services") {
        Some(s) => match s.get(service) {
            Some(d) => match d.get("modules") {
                Some(YamlValue::Sequence(items)) => contains_str_exec(items, module),
                _ => false,
            },
            None => false,
        },
        None => false,
    }
}

/// Registers `module` for `service` in the workspace document. Registering a module
/// that is already listed changes nothing.
pub fn add_module_to_yaml(yaml: YamlValue, service: &str, module: &str) -> (r: Result<YamlValue, AddArtifactError>)
    ensures
        match add_module_error(yaml, service@) {
            Some(m) => r matches Err(AddArtifactError::WorkspaceError(e)) && e@ == m,
            None => r matches Ok(after) && module_added(yaml, after, service@, module@),
        },
{
    let ghost before = yaml;
    let missing_services = "nfw.yaml is missing 'services' mapping";
    let mut top = match yaml {
        YamlValue::Mapping(t) => t,
        _ => {
            return Err(AddArtifactError::WorkspaceError(missing_services.to_owned()));
        },
    };
    let i = find_entry(&top, "services");
    proof {
        lemma_entry_index(top@, "services"@, 0);
    }
    if i >= top.len() {
        return Err(AddArtifactError::WorkspaceError(missing_services.to_owned()));
    }
    let ghost top0 = top@;
    let (k, sv) = top.remove(i);
    let mut svcs = match sv {
        YamlValue::Mapping(s) => s,
        _ => {
            return Err(AddArtifactError::WorkspaceError(missing_services.to_owned()));
        },
    };
    let j = find_entry(&svcs, service);
    proof {
        lemma_entry_index(svcs@, service@, 0);
    }
    let mut not_found = concat("service '", service);
    not_found.append("' not found in nfw.yaml");
    if j >= svcs.len() {
        return Err(AddArtifactError::WorkspaceError(not_found));
    }
    let ghost svcs0 = svcs@;
    let (sk, dv) = svcs.remove(j);
    let mut det = match dv {
        YamlValue::Mapping(d) => d,
        _ => {
            return Err(AddArtifactError::WorkspaceError(not_found));
        },
    };
    let ghost det0 = det@;
    let m = find_entry(&det, "modules");
    proof {
        lemma_entry_index(det@, "modules"@, 0);
    }
    if m < det.len() {
        let (mk, mv) = det.remove(m);
        let newv = match mv {
            YamlValue::Sequence(mut items) => {
                if contains_str_exec(&items, module) {
                    YamlValue::Sequence(items)
                } else {
                    let ghost items0 = items@;
                    items.push(YamlValue::Str(module.to_owned()));
                    assert(items@.take(items0.len() as int) =~= items0);
                    YamlValue::Sequence(items)
                }
            },
            other => other,
        };
        det.insert(m, (mk, newv));
        assert(det@ =~= det0.update(m as int, (det0[m as int].0, det@[m as int].1)));
        assert(det0[m as int].1 is Sequence && contains_str(det0[m as int].1->Sequence_0@, module@)
            ==> det@ =~= det0);
        assert(!(det0[m as int].1 is Sequence) ==> det@ =~= det0);
    } else {
        let mut items: Vec<YamlValue> = Vec::new();
        items.push(YamlValue::Str(module.to_owned()));
        det.push((YamlValue::Str("modules".to_owned()), YamlValue::Sequence(items)));
        assert(det@.take(det0.len() as int) =~= det0);
    }
    assert(details_added(det0, det@, module@));
    svcs.insert(j, (sk, YamlValue::Mapping(det)));
    assert(svcs@ =~= svcs0.update(j as int, (svcs0[j as int].0, svcs@[j as int].1)));
    top.insert(i, (k, YamlValue::Mapping(svcs)));
    assert(top@ =~= top0.update(i as int, (top0[i as int].0, top@[i as int].1)));
    let after = YamlValue::Mapping(top);
    assert(module_added(before, after, service@, module@));
    assert(add_module_error(before, service@) is None);
    Ok(after)
}

/// Two entry lists have the same keys, position by position.
pub open spec fn same_keys(a: Seq<(YamlValue, YamlValue)>, b: Seq<(YamlValue, YamlValue)>) -> bool {
    a.len() == b.len() && forall|i: int| 0 <= i < a.len() ==> a[i].0 == b[i].0
}

proof fn lemma_entry_index_same_keys(
    a: Seq<(YamlValue, YamlValue)>,
    b: Seq<(YamlValue, YamlValue)>,
    key: Seq<char>,
    i: int,
)
    requires
        same_keys(a, b),
        0 <= i <= a.len(),
    ensures
        entry_index(a, key, i) == entry_index(b, key, i),
    decreases a.len() - i,
{
    if i < a.len() {
        lemma_entry_index_same_keys(a, b, key, i + 1);
    }
}

proof fn lemma_entry_index_extended(
    a: Seq<(YamlValue, YamlValue)>,
    b: Seq<(YamlValue, YamlValue)>,
    key: Seq<char>,
    i: int,
)
    requires
        b.len() == a.len() + 1,
        b.take(a.len() as int) == a,
        entry_index(a, key, i) == a.len(),
        key_is(b.last().0, key),
        0 <= i <= a.len(),
    ensures
        entry_index(b, key, i) == a.len(),
    decreases a.len() - i,
{
    if i < a.len() {
        assert(b[i] == b.take(a.len() as int)[i]);
        lemma_entry_index_extended(a, b, key, i + 1);
    }
}

/// The details entries of `service` in the workspace document.
pub open spec fn details_of(yaml: YamlValue, service: Seq<char>) -> Option<Seq<(YamlValue, YamlValue)>> {
    match spec_get(yaml, "services"@) {
        Some(s) => match spec_get(s, service) {
            Some(YamlValue::Mapping(d)) => Some(d@),
            _ => None,
        },
        None => None,
    }
}

/// The `modules` entry of the service details is a sequence or is absent.
pub open spec fn modules_list_or_absent(details: Seq<(YamlValue, YamlValue)>) -> bool {
    let k = entry_index(details, "modules"@, 0);
    k < details.len() ==> details[k].1 is Sequence
}

/// The details of `service` in `after` are the details `details_added` produced.
proof fn lemma_module_added_details(before: YamlValue, after: YamlValue, service: Seq<char>, module: Seq<char>)
    requires
        module_added(before, after, service, module),
    ensures
        details_of(before, service) is Some,
        details_of(after, service) is Some,
        details_added(details_of(before, service).unwrap(), details_of(after, service).unwrap(), module),
{
    let top = before->Mapping_0@;
    let top2 = after->Mapping_0@;
    let i = entry_index(top, "services"@, 0);
    lemma_entry_index(top, "services"@, 0);
    assert(i < top.len());
    assert(top2 == top.update(i, (top[i].0, top2[i].1)));
    assert(top2.len() == top.len());
    assert forall|k: int| 0 <= k < top.len() implies top[k].0 == top2[k].0 by {
        if k == i {
            assert(top2[k] == top.update(i, (top[i].0, top2[i].1))[k]);
        } else {
            assert(top2[k] == top.update(i, (top[i].0, top2[i].1))[k]);
        }
    }
    lemma_entry_index_same_keys(top, top2, "services"@, 0);
    let svcs = top[i].1->Mapping_0@;
    let svcs2 = top2[i].1->Mapping_0@;
    let j = entry_index(svcs, service, 0);
    lemma_entry_index(svcs, service, 0);
    assert(j < svcs.len());
    assert(svcs2 == svcs.update(j, (svcs[j].0, svcs2[j].1)));
    assert(svcs2.len() == svcs.len());
    assert forall|k: int| 0 <= k < svcs.len() implies svcs[k].0 == svcs2[k].0 by {
        if k == j {
            assert(svcs2[k] == svcs.update(j, (svcs[j].0, svcs2[j].1))[k]);
        } else {
            assert(svcs2[k] == svcs.update(j, (svcs[j].0, svcs2[j].1))[k]);
        }
    }
    lemma_entry_index_same_keys(svcs, svcs2, service, 0);
}

/// After `details_added`, the `modules` entry exists and, when it is a sequence, lists `module`.
proof fn lemma_details_added_listed(
    det: Seq<(YamlValue, YamlValue)>,
    det2: Seq<(YamlValue, YamlValue)>,
    module: Seq<char>,
)
    requires
        details_added(det, det2, module),
    ensures
        entry_index(det2, "modules"@, 0) < det2.len(),
        det2[entry_index(det2, "modules"@, 0)].1 matches YamlValue::Sequence(items) ==> contains_str(
            items@,
            module,
        ),
        modules_list_or_absent(det) ==> det2[entry_index(det2, "modules"@, 0)].1 is Sequence,
{
    lemma_entry_index(det, "modules"@, 0);
    let k = entry_index(det, "modules"@, 0);
    if k < det.len() {
        if det2 != det {
            assert forall|m: int| 0 <= m < det.len() implies det[m].0 == det2[m].0 by {
                if m == k {
                }
            }
            lemma_entry_index_same_keys(det, det2, "modules"@, 0);
            let items2 = det2[k].1->Sequence_0@;
            assert(is_str_value(items2[items2.len() - 1], module));
        }
    } else {
        lemma_entry_index_extended(det, det2, "modules"@, 0);
        let items2 = det2.last().1->Sequence_0@;
        assert(is_str_value(items2[0], module));
    }
}

/// Once a module has been registered for a service whose `modules` entry is a
/// list or absent, the workspace document lists that module for the service.
pub proof fn law_registered_module_is_listed(
    before: YamlValue,
    after: YamlValue,
    service: Seq<char>,
    module: Seq<char>,
)
    requires
        module_added(before, after, service, module),
        modules_list_or_absent(details_of(before, service).unwrap()),
    ensures
        spec_has_module(after, service, module),
{
    lemma_module_added_details(before, after, service, module);
    lemma_details_added_listed(
        details_of(before, service).unwrap(),
        details_of(after, service).unwrap(),
        module,
    );
}

/// Registering the same module a second time changes none of the service's details.
pub proof fn law_register_module_idempotent(
    y0: YamlValue,
    y1: YamlValue,
    y2: YamlValue,
    service: Seq<char>,
    module: Seq<char>,
)
    requires
        module_added(y0, y1, service, module),
        module_added(y1, y2, service, module),
    ensures
        details_of(y2, service) == details_of(y1, service),
{
    lemma_module_added_details(y0, y1, service, module);
    lemma_module_added_details(y1, y2, service, module);
    let det1 = details_of(y1, service).unwrap();
    lemma_details_added_listed(details_of(y0, service).unwrap(), det1, module);
}

/// The namespace used to fill placeholders: `workspace.namespace`, or the service name.
pub open spec fn namespace_or(yaml: YamlValue, service_name: Seq<char>) -> Seq<char> {
    match spec_namespace(yaml) {
        Some(n) => n,
        None => service_name,
    }
}

/// The namespace used to fill placeholders.
pub fn namespace_or_service(yaml: &YamlValue, service_name: &str) -> (r: String)
    ensures
        r@ == namespace_or(*yaml, service_name@),
{
    match yaml.str_at("workspace", "namespace") {
        Some(n) => n.clone(),
        None => service_name.to_owned(),
    }
}

/// The message when `workspace.namespace` is missing.
pub open spec fn missing_namespace_message() -> Seq<char> {
    "Missing 'workspace.namespace' in nfw.yaml. This is required for feature discovery."@
}

/// The directory of a service: its path below the workspace root.
pub open spec fn service_root(workspace_root: Seq<char>, service_path: Seq<char>) -> Seq<char> {
    spec_join(workspace_root, service_path)
}

/// Where the artifacts of a generator go, for a service: the features root, the
/// sub-directories below a feature and the file suffix, from the first `render` step
/// whose destination has a feature placeholder.
pub open spec fn spec_artifact_root(
    workspace_root: Seq<char>,
    yaml: YamlValue,
    service: ServiceInfo,
    steps: Seq<crate::template_management::model::TemplateStep>,
) -> Option<(Seq<char>, Seq<Seq<char>>, Seq<char>)> {
    match first_feature_step(steps, service.name@, namespace_or(yaml, service.name@), 0) {
        Some((prefix, sub_dirs, suffix)) => Some(
            (
                spec_join_all(service_root(workspace_root, service.path@), prefix),
                sub_dirs,
                suffix,
            ),
        ),
        None => None,
    }
}

/// The features root, feature sub-directories and file suffix of a generator.
pub fn artifact_root(workspace: &WorkspaceContext, service: &ServiceInfo, config: &TemplateConfig) -> (r:
    Option<(String, Vec<String>, String)>)
    ensures
        match r {
            Some((root, sub_dirs, suffix)) => spec_artifact_root(
                workspace.workspace_root@,
                workspace.nfw_yaml,
                *service,
                config.steps@,
            ) == Some((root@, views(sub_dirs@), suffix@)),
            None => spec_artifact_root(
                workspace.workspace_root@,
                workspace.nfw_yaml,
                *service,
                config.steps@,
            ) is None,
        },
{
    let namespace = namespace_or_service(&workspace.nfw_yaml, service.name.as_str());
    match first_feature_destination(&config.steps, service.name.as_str(), namespace.as_str()) {
        Some(d) => {
            let base = join_path(workspace.workspace_root.as_str(), service.path.as_str());
            let root = join_all(base.as_str(), &d.prefix_segments);
            Some((root, d.sub_dirs, d.file_suffix))
        },
        None => None,
    }
}

/// The directory holding a generator's artifacts for one feature.
pub fn artifact_subdir(features_root: &str, feature: &str, sub_dirs: &Vec<String>) -> (r: String)
    ensures
        r@ == spec_join_all(spec_join(features_root@, feature@), views(sub_dirs@)),
{
    let dir = join_path(features_root, feature);
    join_all(dir.as_str(), sub_dirs)
}

/// The presentation root and the directory-name prefix of presentation layers,
/// from the first step of the `webapi` generator that names a layer.
pub open spec fn spec_presentation_root(
    workspace_root: Seq<char>,
    yaml: YamlValue,
    service: ServiceInfo,
    steps: Seq<crate::template_management::model::TemplateStep>,
) -> Option<(Seq<char>, Seq<char>)> {
    match first_presentation_step(steps, service.name@, namespace_or(yaml, service.name@), 0) {
        Some((segs, prefix)) => Some(
            (spec_join_all(service_root(workspace_root, service.path@), segs), prefix),
        ),
        None => None,
    }
}

/// The presentation root and the directory-name prefix of presentation layers.
pub fn presentation_root(workspace: &WorkspaceContext, service: &ServiceInfo, config: &TemplateConfig) -> (r:
    Option<(String, String)>)
    ensures
        match r {
            Some((root, prefix)) => spec_presentation_root(
                workspace.workspace_root@,
                workspace.nfw_yaml,
                *service,
                config.steps@,
            ) == Some((root@, prefix@)),
            None => spec_presentation_root(
                workspace.workspace_root@,
                workspace.nfw_yaml,
                *service,
                config.steps@,
            ) is None,
        },
{
    let namespace = namespace_or_service(&workspace.nfw_yaml, service.name.as_str());
    match first_presentation_layout(&config.steps, service.name.as_str(), namespace.as_str()) {
        Some((segs, prefix)) => {
            let base = join_path(workspace.workspace_root.as_str(), service.path.as_str());
            Some((join_all(base.as_str(), &segs), prefix))
        },
        None => None,
    }
}

/// The rank of a generator whose sub-folder names application-layer artifacts
/// (`command`, `query`, `entity`): 0; other generators: 1.
pub open spec fn generator_priority(sub_folder: Seq<char>) -> u8 {
    if has_sub(sub_folder, "command"@) || has_sub(sub_folder, "query"@) || has_sub(
        sub_folder,
        "entity"@,
    ) {
        0
    } else {
        1
    }
}

/// The rank of a generator's sub-folder.
pub fn priority_of(sub_folder: &str) -> (r: u8)
    ensures
        r == generator_priority(sub_folder@),
{
    if contains(sub_folder, "command") || contains(sub_folder, "query") || contains(
        sub_folder,
        "entity",
    ) {
        0
    } else {
        1
    }
}

/// A candidate features root, with what the file system says about it.
#[derive(Debug)]
pub struct FeatureRootCandidate {
    pub root: String,
    pub priority: u8,
    pub is_dir: bool,
    /// The directory exists and has at least one entry.
    pub has_content: bool,
}

/// The sort key of a candidate: priority first, then directories with content first.
pub open spec fn candidate_rank(c: FeatureRootCandidate) -> int {
    2 * (c.priority as int) + if c.has_content {
        0int
    } else {
        1int
    }
}

/// `i` comes before `j` in the stable order by rank.
pub open spec fn ranked_before(c: Seq<FeatureRootCandidate>, i: int, j: int) -> bool {
    candidate_rank(c[i]) < candidate_rank(c[j]) || (candidate_rank(c[i]) == candidate_rank(c[j])
        && i <= j)
}

/// The choice among candidates once they are stably sorted by rank: the first that is
/// an existing directory; failing that, the last candidate; none when there are none.
pub open spec fn chosen_root(c: Seq<FeatureRootCandidate>, i: int) -> bool {
    &&& 0 <= i < c.len()
    &&& if exists|k: int| 0 <= k < c.len() && (#[trigger] c[k]).is_dir {
        &&& c[i].is_dir
        &&& forall|k: int| 0 <= k < c.len() && (#[trigger] c[k]).is_dir ==> ranked_before(c, i, k)
    } else {
        forall|k: int| 0 <= k < c.len() ==> #[trigger] ranked_before(c, k, i)
    }
}

/// Picks the features root among the candidates, as a stable sort by rank followed
/// by a search for the first existing directory (else the last candidate) would.
pub fn select_features_root(candidates: &Vec<FeatureRootCandidate>) -> (r: Option<usize>)
    ensures
        candidates@.len() == 0 <==> r is None,
        r matches Some(i) ==> chosen_root(candidates@, i as int),
{
    let n = candidates.len();
    if n == 0 {
        return None;
    }
    let mut best_dir: Option<usize> = None;
    let mut last: usize = 0;
    let mut i: usize = 0;
    while i < n
        invariant
            0 < n == candidates@.len(),
            i <= n,
            last < n,
            i > 0 ==> forall|k: int| 0 <= k < i ==> #[trigger] ranked_before(candidates@, k, last as int),
            match best_dir {
                Some(b) => {
                    &&& b < i
                    &&& candidates@[b as int].is_dir
                    &&& forall|k: int| 0 <= k < i && (#[trigger] candidates@[k]).is_dir ==> ranked_before(candidates@, b as int, k)
                },
                None => forall|k: int| 0 <= k < i ==> !(#[trigger] candidates@[k]).is_dir,
            },
        decreases n - i,
    {
        let c = &candidates[i];
        let rank_i: u16 = 2 * (c.priority as u16) + if c.has_content { 0 } else { 1 };
        let l = &candidates[last];
        let rank_l: u16 = 2 * (l.priority as u16) + if l.has_content { 0 } else { 1 };
        assert(rank_i == candidate_rank(candidates@[i as int]));
        assert(rank_l == candidate_rank(candidates@[last as int]));
        let ghost old_last = last;
        if i == 0 || rank_i >= rank_l {
            last = i;
        }
        assert forall|k: int| 0 <= k < i + 1 implies #[trigger] ranked_before(
            candidates@,
            k,
            last as int,
        ) by {
            if k < i {
                assert(ranked_before(candidates@, k, old_last as int));
            }
        }
        if c.is_dir {
            match best_dir {
                Some(b) => {
                    let bb = &candidates[b];
                    let rank_b: u16 = 2 * (bb.priority as u16) + if bb.has_content { 0 } else { 1 };
                    if rank_i < rank_b {
                        best_dir = Some(i);
                    }
                },
                None => {
                    best_dir = Some(i);
                },
            }
        }
        i = i + 1;
    }
    match best_dir {
        Some(b) => Some(b),
        None => Some(last),
    }
}

/// The features roots that the `render` steps of a sub-template lead to, in step
/// order: for each destination with a feature placeholder, the service root joined
/// with the segments before that placeholder.
pub open spec fn feature_roots_of(
    steps: Seq<crate::template_management::model::TemplateStep>,
    base: Seq<char>,
    service: Seq<char>,
    namespace: Seq<char>,
) -> Seq<Seq<char>>
    decreases steps.len(),
{
    if steps.len() == 0 {
        Seq::empty()
    } else {
        let rest = feature_roots_of(steps.drop_last(), base, service, namespace);
        match render_destination(steps.last().action) {
            Some(d) => match spec_analyze(d, service, namespace) {
                Some(a) => rest.push(spec_join_all(base, a.0)),
                None => rest,
            },
            None => rest,
        }
    }
}

/// The candidate features roots of a generator's sub-template for a service.
pub fn feature_root_candidates(workspace: &WorkspaceContext, service: &ServiceInfo, config: &TemplateConfig) -> (r:
    Vec<String>)
    ensures
        views(r@) == feature_roots_of(
            config.steps@,
            service_root(workspace.workspace_root@, service.path@),
            service.name@,
            namespace_or(workspace.nfw_yaml, service.name@),
        ),
{
    let namespace = namespace_or_service(&workspace.nfw_yaml, service.name.as_str());
    let base = join_path(workspace.workspace_root.as_str(), service.path.as_str());
    let ghost steps = config.steps@;
    let mut roots: Vec<String> = Vec::new();
    let mut i: usize = 0;
    while i < config.steps.len()
        invariant
            i <= steps.len(),
            steps == config.steps@,
            base@ == service_root(workspace.workspace_root@, service.path@),
            namespace@ == namespace_or(workspace.nfw_yaml, service.name@),
            views(roots@) == feature_roots_of(steps.take(i as int), base@, service.name@, namespace@),
        decreases steps.len() - i,
    {
        assert(steps.take(i + 1).drop_last() =~= steps.take(i as int));
        assert(steps.take(i + 1).last() == steps[i as int]);
        match &config.steps[i].action {
            TemplateStepAction::Render { destination, .. } => {
                match analyze_feature_destination(destination.as_str(), service.name.as_str(), namespace.as_str()) {
                    Some(d) => {
                        let root = join_all(base.as_str(), &d.prefix_segments);
                        let ghost before = roots@;
                        roots.push(root);
                        assert(views(roots@) =~= views(before).push(root@));
                    },
                    None => {},
                }
            },
            _ => {},
        }
        i = i + 1;
    }
    assert(steps.take(steps.len() as int) =~= steps);
    roots
}

/// The message when the base template of a service cannot be found.
pub open spec fn base_template_message(template_id: Seq<char>, service: Seq<char>, reason: Seq<char>) -> Seq<char> {
    "Could not resolve base template '"@ + template_id + "' for service '"@ + service + "': "@ + reason
}

/// The error when the base template of a service cannot be found.
pub fn base_template_error(service: &ServiceInfo, reason: &str) -> (r: AddArtifactError)
    ensures
        r matches AddArtifactError::TemplateNotFound(m) && m@ == base_template_message(
            service.template_id@,
            service.name@,
            reason@,
        ),
{
    let mut m = concat("Could not resolve base template '", service.template_id.as_str());
    m.append("' for service '");
    m.append(service.name.as_str());
    m.append("': ");
    m.append(reason);
    AddArtifactError::TemplateNotFound(m)
}

/// The message when the base template declares no generators.
pub open spec fn no_generators_message(template_id: Seq<char>, service: Seq<char>) -> Seq<char> {
    "No generators declared in template '"@ + template_id + "' for service '"@ + service
        + "' — cannot derive features root."@
}

/// The error when the base template declares no generators.
pub fn no_generators_error(service: &ServiceInfo) -> (r: AddArtifactError)
    ensures
        r matches AddArtifactError::ConfigError(m) && m@ == no_generators_message(
            service.template_id@,
            service.name@,
        ),
{
    let mut m = concat("No generators declared in template '", service.template_id.as_str());
    m.append("' for service '");
    m.append(service.name.as_str());
    m.append("' — cannot derive features root.");
    AddArtifactError::ConfigError(m)
}

/// The message when the context of a generator type cannot be loaded to look for an artifact.
pub open spec fn context_failure_message(generator_type: Seq<char>, error: AddArtifactError) -> Seq<char> {
    "Failed to load context for generator type "@ + generator_type + ": "@
        + add_artifact_error_message(error)
}

/// The error when the context of a generator type cannot be loaded to look for an artifact.
pub fn context_failure_error(generator_type: &str, error: &AddArtifactError) -> (r: AddArtifactError)
    ensures
        r matches AddArtifactError::ConfigError(m) && m@ == context_failure_message(
            generator_type@,
            *error,
        ),
{
    let mut m = concat("Failed to load context for generator type ", generator_type);
    m.append(": ");
    m.append(error.message().as_str());
    AddArtifactError::ConfigError(m)
}

/// The message when the base template of a service cannot be found for a sub-template.
pub open spec fn unresolved_base_template_message(template_id: Seq<char>, service: Seq<char>) -> Seq<char> {
    "Could not resolve base template '"@ + template_id + "' for service '"@ + service + "'."@
}

/// The error when the base template of a service cannot be found for a sub-template.
pub fn unresolved_base_template_error(service: &ServiceInfo) -> (r: AddArtifactError)
    ensures
        r matches AddArtifactError::TemplateNotFound(m) && m@ == unresolved_base_template_message(
            service.template_id@,
            service.name@,
        ),
{
    let mut m = concat("Could not resolve base template '", service.template_id.as_str());
    m.append("' for service '");
    m.append(service.name.as_str());
    m.append("'.");
    AddArtifactError::TemplateNotFound(m)
}

/// The message when the web API generator's context cannot be loaded.
pub open spec fn webapi_context_failure_message(error: AddArtifactError) -> Seq<char> {
    "Failed to load context for webapi generator: "@ + add_artifact_error_message(error)
}

/// The error when the web API generator's context cannot be loaded.
pub fn webapi_context_failure_error(error: &AddArtifactError) -> (r: AddArtifactError)
    ensures
        r matches AddArtifactError::ConfigError(m) && m@ == webapi_context_failure_message(*error),
{
    AddArtifactError::ConfigError(concat("Failed to load context for webapi generator: ", error.message().as_str()))
}

/// The sub-folder of a generator type in the base template: the one its `generators`
/// mapping gives, or, with no mapping for the type, the folder named like the type.
pub open spec fn spec_sub_folder(base: TemplateConfig, generator_type: Seq<char>) -> Seq<char> {
    match base.generators {
        Some(g) => match pair_lookup(g@, generator_type) {
            Some(sub) => sub,
            None => generator_type,
        },
        None => generator_type,
    }
}

/// Whether the base template maps the generator type to a sub-folder.
pub open spec fn spec_declares_generator(base: TemplateConfig, generator_type: Seq<char>) -> bool {
    base.generators matches Some(g) && pair_lookup(g@, generator_type) is Some
}

/// The root of a generator's sub-template: the base template root joined with the
/// sub-folder of the generator type.
pub fn sub_template_root(base_root: &str, base: &TemplateConfig, generator_type: &str) -> (r: String)
    ensures
        r@ == spec_join(base_root@, spec_sub_folder(*base, generator_type@)),
{
    let sub = match &base.generators {
        Some(g) => lookup_pair(g, generator_type),
        None => None,
    };
    match sub {
        Some(sub) => join_path(base_root, sub.as_str()),
        None => join_path(base_root, generator_type),
    }
}

/// Tests whether the base template maps the generator type to a sub-folder.
pub fn declares_generator(base: &TemplateConfig, generator_type: &str) -> (r: bool)
    ensures
        r == spec_declares_generator(*base, generator_type@),
{
    match &base.generators {
        Some(g) => lookup_pair(g, generator_type).is_some(),
        None => false,
    }
}

/// The value of the last entry named `key` of a JSON object.
pub open spec fn object_lookup(obj: Seq<(String, ParamValue)>, key: Seq<char>) -> Option<ParamValue>
    decreases obj.len(),
{
    if obj.len() == 0 {
        None
    } else if obj.last().0@ == key {
        Some(obj.last().1)
    } else {
        object_lookup(obj.drop_last(), key)
    }
}

/// Some entry of a JSON object has an empty name.
pub open spec fn has_empty_name(obj: Seq<(String, ParamValue)>) -> bool {
    exists|i: int| 0 <= i < obj.len() && (#[trigger] obj[i]).0@.len() == 0
}

/// A value from `over`, else one from `base`.
pub open spec fn prefer(over: Option<ParamValue>, base: Option<ParamValue>) -> Option<ParamValue> {
    match over {
        Some(v) => Some(v),
        None => base,
    }
}

/// Sets each entry of a JSON object as a parameter, in order.
pub fn insert_object(params: &mut TemplateParameters, obj: Vec<(String, ParamValue)>) -> (r: Result<(), AddArtifactError>)
    ensures
        has_empty_name(obj@) <==> r is Err,
        r matches Err(e) ==> (e matches AddArtifactError::InvalidParameter(m) && m@
            == "parameter name cannot be empty"@),
        r is Ok ==> forall|k: Seq<char>| #[trigger] param_lookup(final(params).entries@, k) == prefer(
            object_lookup(obj@, k),
            param_lookup(old(params).entries@, k),
        ),
{
    let ghost obj0 = obj@;
    let ghost init = params.entries@;
    let mut rest = obj;
    let ghost mut i: int = 0;
    let mut failure: Option<String> = None;
    assert(obj0.skip(0) =~= obj0);
    while rest.len() > 0 && failure.is_none()
        invariant
            0 <= i <= obj0.len(),
            rest@ == obj0.skip(i),
            failure is None ==> forall|j: int| 0 <= j < i ==> (#[trigger] obj0[j]).0@.len() > 0,
            failure matches Some(m) ==> (m@ == "parameter name cannot be empty"@ && has_empty_name(obj0)),
            failure is None ==> forall|k: Seq<char>| #[trigger] param_lookup(params.entries@, k) == prefer(
                object_lookup(obj0.take(i), k),
                param_lookup(init, k),
            ),
        decreases rest@.len(),
    {
        let (key, value) = rest.remove(0);
        assert(obj0[i] == (key, value));
        let ghost before = params.entries@;
        let ghost key_v = key@;
        match params.insert_value(key, value) {
            Ok(()) => {
                assert(obj0.take(i + 1).drop_last() =~= obj0.take(i));
                assert forall|k: Seq<char>| #[trigger] param_lookup(params.entries@, k) == prefer(
                    object_lookup(obj0.take(i + 1), k),
                    param_lookup(init, k),
                ) by {
                    lemma_params_set_lookup(before, params.entries@, key_v, k);
                }
            },
            Err(m) => {
                assert(obj0[i].0@.len() == 0);
                failure = Some(m);
            },
        }
        assert(rest@ =~= obj0.skip(i + 1));
        proof {
            i = i + 1;
        }
    }
    match failure {
        Some(m) => Err(AddArtifactError::InvalidParameter(m)),
        None => {
            assert(obj0.take(i) =~= obj0);
            Ok(())
        },
    }
}

/// The parameters `build_parameters` sets from its string arguments.
pub open spec fn base_param(name: Seq<char>, namespace: Seq<char>, service: Seq<char>, feature: Option<Seq<char>>, key: Seq<char>) -> Option<Seq<char>> {
    if key == "Name"@ {
        Some(name)
    } else if key == "Namespace"@ {
        Some(namespace)
    } else if key == "Service"@ {
        Some(service)
    } else if key == "Feature"@ {
        feature
    } else {
        None
    }
}

/// What an artifact generation hands the template engine.
#[derive(Debug)]
pub struct GenerationRequest {
    pub template_root: String,
    pub output_root: String,
    pub parameters: TemplateParameters,
}

/// What preparing the generation of the artifact `name` in `context` gives: the
/// identifier error, the required-module error, the parameter error, or the request
/// to render the context's template into the service directory with the built
/// parameters.
pub open spec fn generation_outcome(
    name: Seq<char>,
    feature: Option<Seq<char>>,
    params: Option<ParamValue>,
    context: AddArtifactContext,
    r: Result<GenerationRequest, AddArtifactError>,
) -> bool {
    match identifier_error(name, feature) {
        Some(m) => r matches Err(AddArtifactError::InvalidIdentifier(e)) && e@ == m,
        None => match spec_required_modules_check(
            views(context.config.required_modules@),
            context.workspace.nfw_yaml,
            context.service_path@,
        ) {
            Some(AddArtifactErrorKind::Config(m)) => r matches Err(AddArtifactError::ConfigError(e)) && e@ == m,
            Some(AddArtifactErrorKind::MissingModule(m)) => r matches Err(
                AddArtifactError::MissingRequiredModule(e),
            ) && e@ == m,
            None => {
                &&& built_parameters(
                    context.workspace.nfw_yaml,
                    name,
                    context.service_name@,
                    feature,
                    params,
                    match r {
                        Ok(q) => Ok(q.parameters),
                        Err(e) => Err(e),
                    },
                )
                &&& r matches Ok(q) ==> q.template_root@ == context.template_root@ && q.output_root@ == spec_join(
                    context.workspace.workspace_root@,
                    context.service_path@,
                )
            },
        },
    }
}

/// What building the parameters of an artifact gives (see `build_parameters`).
pub open spec fn built_parameters(
    nfw_yaml: YamlValue,
    name: Seq<char>,
    service_name: Seq<char>,
    feature: Option<Seq<char>>,
    params: Option<ParamValue>,
    r: Result<TemplateParameters, AddArtifactError>,
) -> bool {
    &&& spec_namespace(nfw_yaml) is None ==> (r matches Err(AddArtifactError::ConfigError(m))
        && m@ == missing_namespace_message())
    &&& spec_namespace(nfw_yaml) is Some ==> match params {
        Some(ParamValue::Object(obj)) => if has_empty_name(obj@) {
            r matches Err(AddArtifactError::InvalidParameter(m)) && m@
                == "parameter name cannot be empty"@
        } else {
            r matches Ok(p) && forall|k: Seq<char>|
                #![trigger param_lookup(p.entries@, k)]
                match object_lookup(obj@, k) {
                    Some(v) => param_lookup(p.entries@, k) == Some(v),
                    None => param_str(p.entries@, k) == base_param(
                        name,
                        spec_namespace(nfw_yaml).unwrap(),
                        service_name,
                        feature,
                        k,
                    ) && (param_lookup(p.entries@, k) is Some <==> base_param(
                        name,
                        spec_namespace(nfw_yaml).unwrap(),
                        service_name,
                        feature,
                        k,
                    ) is Some),
                }
        },
        Some(_) => r matches Err(AddArtifactError::InvalidParameter(m)) && m@
            == "params must be a JSON object"@,
        None => r matches Ok(p) && forall|k: Seq<char>|
            #![trigger param_lookup(p.entries@, k)]
            param_str(p.entries@, k) == base_param(
                name,
                spec_namespace(nfw_yaml).unwrap(),
                service_name,
                feature,
                k,
            ) && (param_lookup(p.entries@, k) is Some <==> base_param(
                name,
                spec_namespace(nfw_yaml).unwrap(),
                service_name,
                feature,
                k,
            ) is Some),
    }
}

/// The parameters of an artifact: `Name`, `Namespace` (from `workspace.namespace`),
/// `Service`, `Feature` when given, then each entry of the JSON object `params`.
pub fn build_parameters(
    nfw_yaml: &YamlValue,
    name: &str,
    service_name: &str,
    feature: Option<&str>,
    params: Option<ParamValue>,
) -> (r: Result<TemplateParameters, AddArtifactError>)
    ensures
        built_parameters(*nfw_yaml, name@, service_name@, opt_view(feature), params, r),
{
    let namespace = match nfw_yaml.str_at("workspace", "namespace") {
        Some(n) => n.clone(),
        None => {
            return Err(
                AddArtifactError::ConfigError(
                    "Missing 'workspace.namespace' in nfw.yaml. This is required for feature discovery.".to_owned(),
                ),
            );
        },
    };
    let ghost ns = namespace@;
    let ghost fv = opt_view(feature);
    let mut p = TemplateParameters::new();
    let ghost e0 = p.entries@;
    let _ = p.insert("Name", name);
    let ghost e1 = p.entries@;
    let _ = p.insert("Namespace", namespace.as_str());
    let ghost e2 = p.entries@;
    let _ = p.insert("Service", service_name);
    let ghost e3 = p.entries@;
    match feature {
        Some(f) => {
            let _ = p.insert("Feature", f);
        },
        None => {},
    }
    let ghost e4 = p.entries@;
    proof {
        reveal_strlit("Name");
        reveal_strlit("Namespace");
        reveal_strlit("Service");
        reveal_strlit("Feature");
        assert("Name"@ != "Namespace"@);
        assert("Name"@ != "Service"@);
        assert("Name"@ != "Feature"@);
        assert("Namespace"@ != "Service"@);
        assert("Namespace"@ != "Feature"@);
        assert("Service"@[0] != "Feature"@[0]);
        assert forall|k: Seq<char>| #![trigger param_lookup(e4, k)]
            param_str(e4, k) == base_param(name@, ns, service_name@, fv, k)
            && (param_lookup(e4, k) is Some <==> base_param(name@, ns, service_name@, fv, k) is Some) by {
            lemma_params_set_lookup(e0, e1, "Name"@, k);
            lemma_params_set_lookup(e1, e2, "Namespace"@, k);
            lemma_params_set_lookup(e2, e3, "Service"@, k);
            if feature is Some {
                lemma_params_set_lookup(e3, e4, "Feature"@, k);
            } else {
                assert(e4 == e3);
            }
            assert(param_lookup(e0, k) is None);
            assert(param_str(e4, k) == match param_lookup(e4, k) {
                Some(ParamValue::Str(s)) => Some(s@),
                _ => None,
            });
        }
    }
    match params {
        Some(ParamValue::Object(obj)) => {
            insert_object(&mut p, obj)?;
            proof {
                assert forall|k: Seq<char>| #![trigger param_lookup(p.entries@, k)]
                    object_lookup(obj@, k) is None ==> param_str(p.entries@, k) == param_str(e4, k) by {
                    assert(param_str(p.entries@, k) == match param_lookup(p.entries@, k) {
                        Some(ParamValue::Str(s)) => Some(s@),
                        _ => None,
                    });
                    assert(param_str(e4, k) == match param_lookup(e4, k) {
                        Some(ParamValue::Str(s)) => Some(s@),
                        _ => None,
                    });
                }
            }
            Ok(p)
        },
        Some(_) => Err(AddArtifactError::InvalidParameter("params must be a JSON object".to_owned())),
        None => Ok(p),
    }
}

/// Generates artifacts of a service from its template, through a template engine.
#[derive(Debug)]
pub struct ArtifactGenerationService<W, R, E> {
    pub working_dir_provider: W,
    pub root_resolver: R,
    pub engine: E,
}

impl<W: WorkingDirectoryProvider, R: TemplateRootResolver, E: TemplateEngine> ArtifactGenerationService<W, R, E> {
    pub fn new(working_dir_provider: W, root_resolver: R, engine: E) -> (r: Self)
        ensures
            r.working_dir_provider == working_dir_provider,
            r.root_resolver == root_resolver,
            r.engine == engine,
    {
        ArtifactGenerationService { working_dir_provider, root_resolver, engine }
    }

    pub fn engine(&self) -> (r: &E)
        ensures
            r == self.engine,
    {
        &self.engine
    }

    /// The workspace root: the first of `candidates` (the start directory, then its
    /// ancestors, nearest first) that holds `nfw.yaml`, as `has_metadata` tells.
    pub fn resolve_workspace_root(&self, candidates: &Vec<String>, has_metadata: &Vec<bool>) -> (r:
        Option<String>)
        requires
            candidates@.len() == has_metadata@.len(),
        ensures
            match r {
                Some(root) => is_first_marked(candidates@, has_metadata@, root@),
                None => none_marked(has_metadata@),
            },
    {
        first_marked_directory(candidates, has_metadata)
    }

    /// Checks the artifact name and the optional feature against the identifier rule.
    pub fn validate_identifiers(&self, name: &str, feature: Option<&str>) -> (r: Result<(), AddArtifactError>)
        ensures
            match identifier_error(name@, opt_view(feature)) {
                Some(m) => r matches Err(AddArtifactError::InvalidIdentifier(e)) && e@ == m,
                None => r is Ok,
            },
    {
        match check_identifiers(name, feature) {
            Some(m) => Err(AddArtifactError::InvalidIdentifier(m)),
            None => Ok(()),
        }
    }

    /// The namespace of the workspace, `workspace.namespace` of `nfw.yaml`.
    pub fn extract_namespace(&self, nfw_yaml: &YamlValue) -> (r: Result<String, AddArtifactError>)
        ensures
            match spec_namespace(*nfw_yaml) {
                Some(n) => r matches Ok(s) && s@ == n,
                None => r matches Err(AddArtifactError::ConfigError(m)) && m@ == missing_namespace_message(),
            },
    {
        match nfw_yaml.str_at("workspace", "namespace") {
            Some(n) => Ok(n.clone()),
            None => Err(
                AddArtifactError::ConfigError(
                    "Missing 'workspace.namespace' in nfw.yaml. This is required for feature discovery.".to_owned(),
                ),
            ),
        }
    }

    /// The services declared in the workspace.
    pub fn extract_services(&self, workspace: &WorkspaceContext) -> (r: Result<Vec<ServiceInfo>, AddArtifactError>)
        ensures
            match r {
                Ok(v) => spec_extract_services(workspace.nfw_yaml) == Ok::<
                    Seq<(Seq<char>, Seq<char>, Seq<char>)>,
                    Seq<char>,
                >(service_views(v@)),
                Err(AddArtifactError::ConfigError(m)) => spec_extract_services(workspace.nfw_yaml)
                    == Err::<Seq<(Seq<char>, Seq<char>, Seq<char>)>, Seq<char>>(m@),
                Err(_) => false,
            },
    {
        extract_services_from(&workspace.nfw_yaml)
    }

    /// What an artifact generation hands the template engine: the template root of
    /// the context, the service directory, and the parameters; or why it stops
    /// before the engine runs (see `generation_outcome`).
    pub fn generation_request(
        &self,
        name: &str,
        feature: Option<&str>,
        params: Option<ParamValue>,
        context: &AddArtifactContext,
    ) -> (r: Result<GenerationRequest, AddArtifactError>)
        ensures
            generation_outcome(name@, opt_view(feature), params, *context, r),
    {
        self.validate_identifiers(name, feature)?;
        validate_required_modules(
            &context.config,
            &context.workspace.nfw_yaml,
            context.service_path.as_str(),
        )?;
        let parameters = match build_parameters(
            &context.workspace.nfw_yaml,
            name,
            context.service_name.as_str(),
            feature,
            params,
        ) {
            Ok(p) => p,
            Err(e) => {
                return Err(e);
            },
        };
        let output_root = join_path(
            context.workspace.workspace_root.as_str(),
            context.service_path.as_str(),
        );
        Ok(GenerationRequest { template_root: context.template_root.clone(), output_root, parameters })
    }

    /// Generates one artifact: checks the identifiers and the required modules, builds
    /// the parameters and renders the context's template into the service directory.
    /// It stops exactly where `generation_request` stops; past that, it hands the
    /// engine the request and the result is what the engine reports.
    pub fn execute_generation(
        &self,
        name: &str,
        feature: Option<&str>,
        params: Option<ParamValue>,
        context: &AddArtifactContext,
    ) -> (r: Result<(), AddArtifactError>)
        ensures
            match identifier_error(name@, opt_view(feature)) {
                Some(m) => r matches Err(AddArtifactError::InvalidIdentifier(e)) && e@ == m,
                None => match spec_required_modules_check(
                    views(context.config.required_modules@),
                    context.workspace.nfw_yaml,
                    context.service_path@,
                ) {
                    Some(AddArtifactErrorKind::Config(m)) => r matches Err(
                        AddArtifactError::ConfigError(e),
                    ) && e@ == m,
                    Some(AddArtifactErrorKind::MissingModule(m)) => r matches Err(
                        AddArtifactError::MissingRequiredModule(e),
                    ) && e@ == m,
                    None => match spec_namespace(context.workspace.nfw_yaml) {
                        None => r matches Err(AddArtifactError::ConfigError(e)) && e@
                            == missing_namespace_message(),
                        Some(_) => match params {
                            Some(ParamValue::Object(obj)) => if has_empty_name(obj@) {
                                r matches Err(AddArtifactError::InvalidParameter(m)) && m@
                                    == "parameter name cannot be empty"@
                            } else {
                                r is Ok || r matches Err(AddArtifactError::ExecutionFailed(_))
                            },
                            Some(_) => r matches Err(AddArtifactError::InvalidParameter(m)) && m@
                                == "params must be a JSON object"@,
                            None => r is Ok || r matches Err(AddArtifactError::ExecutionFailed(_)),
                        },
                    },
                },
            },
    {
        let request = self.generation_request(name, feature, params, context)?;
        match self.engine.execute(
            &context.config,
            request.template_root.as_str(),
            request.output_root.as_str(),
            &request.parameters,
        ) {
            Ok(()) => Ok(()),
            Err(e) => Err(AddArtifactError::ExecutionFailed(Box::new(e))),
        }
    }
}


/// `first_missing` gives the first required module that is not installed, and
/// none only when every required module is installed.
proof fn lemma_first_missing(required: Seq<Seq<char>>, installed: Seq<Seq<char>>)
    ensures
        first_missing(required, installed) is None <==> forall|i: int|
            0 <= i < required.len() ==> installed.contains(#[trigger] required[i]),
        first_missing(required, installed) matches Some(m) ==> exists|j: int|
            0 <= j < required.len() && m == #[trigger] required[j] && !installed.contains(m)
                && forall|k: int| 0 <= k < j ==> installed.contains(#[trigger] required[k]),
    decreases required.len(),
{
    if required.len() > 0 {
        let rest = required.drop_first();
        lemma_first_missing(rest, installed);
        assert forall|i: int| 0 <= i < rest.len() implies rest[i] == required[i + 1] by {}
        if installed.contains(required[0]) {
            if first_missing(rest, installed) is None {
                assert forall|i: int| 0 <= i < required.len() implies installed.contains(
                    #[trigger] required[i],
                ) by {
                    if i > 0 {
                        assert(rest[i - 1] == required[i]);
                    }
                }
            } else {
                let m = first_missing(rest, installed)->0;
                let j = choose|j: int|
                    0 <= j < rest.len() && m == #[trigger] rest[j] && !installed.contains(m)
                        && forall|k: int| 0 <= k < j ==> installed.contains(#[trigger] rest[k]);
                assert(required[j + 1] == m);
                assert forall|k: int| 0 <= k < j + 1 implies installed.contains(#[trigger] required[k]) by {
                    if k > 0 {
                        assert(rest[k - 1] == required[k]);
                    }
                }
                assert(!installed.contains(required[j + 1]));
            }
        } else {
            assert(required[0] == required[0]);
        }
    }
}

/// A template's required modules against the modules a service has installed: the
/// check passes exactly when every required module is installed; when one is
/// missing, it fails naming a missing module, the first one missing, with the
/// message that tells how to add it.
pub proof fn law_required_modules_must_all_be_installed(
    required: Seq<Seq<char>>,
    yaml: YamlValue,
    service_path: Seq<char>,
    installed: Seq<Seq<char>>,
)
    requires
        spec_service_modules(yaml, service_path) == Ok::<Seq<Seq<char>>, Seq<char>>(installed),
    ensures
        spec_required_modules_check(required, yaml, service_path) is None <==> forall|i: int|
            0 <= i < required.len() ==> installed.contains(#[trigger] required[i]),
        forall|i: int|
            0 <= i < required.len() && !installed.contains(#[trigger] required[i]) ==> exists|j: int|
                0 <= j <= i && !installed.contains(#[trigger] required[j])
                    && spec_required_modules_check(required, yaml, service_path) == Some(
                    AddArtifactErrorKind::MissingModule(missing_module_message(required[j])),
                ),
{
    lemma_first_missing(required, installed);
    assert forall|i: int|
        0 <= i < required.len() && !installed.contains(#[trigger] required[i]) implies exists|j: int|
        0 <= j <= i && !installed.contains(#[trigger] required[j])
            && spec_required_modules_check(required, yaml, service_path) == Some(
            AddArtifactErrorKind::MissingModule(missing_module_message(required[j])),
        ) by {
        let m = first_missing(required, installed)->0;
        let j = choose|j: int|
            0 <= j < required.len() && m == #[trigger] required[j] && !installed.contains(m)
                && forall|k: int| 0 <= k < j ==> installed.contains(#[trigger] required[k]);
        if j > i {
            assert(installed.contains(required[i]));
        }
    }
}
} // verus!
