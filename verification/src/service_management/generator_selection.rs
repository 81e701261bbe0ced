//! Choosing the generator a service is created from: reading an identifier,
//! checking a generator's type and metadata, and listing the service generators of
//! the catalogs.
use vstd::prelude::*;

use crate::service_management::add_service_error::AddServiceError;
use crate::sorting::{sort_by_text_key, sorted_by_key, stable_arrangement, TextKeyed};
use crate::template_management::feature_paths::{join_path, spec_join};
use crate::template_management::model::{semver_parse_result, Version};
use crate::template_management::template_catalog_parser::RawTemplateMetadata;
use crate::text::{concat, eq_ignore_ascii_case, eq_ignore_case, find_char, spec_find_char, string_from, chars_of};

verus! {

broadcast use vstd::seq_lib::group_to_multiset_ensures;

/// The metadata file of a generator.
pub const GENERATOR_METADATA_FILE: &'static str = "nfw.generator.yaml";

/// A generator chosen for a new service.
#[derive(Debug)]
pub struct ServiceGeneratorResolution {
    pub source_name: String,
    pub generator_name: String,
    pub generator_id: String,
    pub resolved_version: Version,
    pub generator_type: String,
    pub generator_cache_path: String,
    pub description: String,
}

impl ServiceGeneratorResolution {
    /// The identifier qualified by the source: `source/id`.
    pub fn qualified_generator_id(&self) -> (r: String)
        ensures
            r@ == self.source_name@ + "/"@ + self.generator_id@,
    {
        let mut r = concat(self.source_name.as_str(), "/");
        r.append(self.generator_id.as_str());
        r
    }
}

impl TextKeyed for ServiceGeneratorResolution {
    open spec fn key_view(&self) -> (Seq<char>, Seq<char>) {
        (self.generator_id@, self.source_name@)
    }

    fn key(&self) -> (r: (&str, &str)) {
        (self.generator_id.as_str(), self.source_name.as_str())
    }
}

/// The source and the identifier of `source/id`; `local` when there is no `/`.
pub open spec fn spec_parse_identifier(identifier: Seq<char>) -> (Seq<char>, Seq<char>) {
    match spec_find_char(identifier, '/') {
        Some(i) => (identifier.take(i), identifier.skip(i + 1)),
        None => ("local"@, identifier),
    }
}

/// An identifier with a `/` is its source, `/` and its identifier again.
pub proof fn law_identifier_parts_rejoin(identifier: Seq<char>)
    requires
        spec_find_char(identifier, '/') is Some,
    ensures
        spec_parse_identifier(identifier).0 + seq!['/'] + spec_parse_identifier(identifier).1
            == identifier,
{
    let i = spec_find_char(identifier, '/')->Some_0;
    crate::text::lemma_char_index_found(identifier, '/');
    assert(identifier.take(i) + seq!['/'] + identifier.skip(i + 1) =~= identifier);
}

/// Splits `source/id` at the first `/`; an identifier without one is local.
pub fn parse_identifier(identifier: &str) -> (r: (String, String))
    ensures
        (r.0@, r.1@) == spec_parse_identifier(identifier@),
{
    match find_char(identifier, '/') {
        Some(i) => {
            let cs = chars_of(identifier);
            let n = cs.len();
            assert(i < n);
            let source = string_from(cs.as_slice(), 0, i);
            let id = string_from(cs.as_slice(), i + 1, n);
            assert(source@ =~= identifier@.take(i as int));
            assert(id@ =~= identifier@.skip(i + 1));
            (source, id)
        },
        None => ("local".to_owned(), identifier.to_owned()),
    }
}

/// A generator type that makes services: `service`, in any letter case.
pub open spec fn is_service_type(generator_type: Seq<char>) -> bool {
    eq_ignore_case(generator_type, "service"@)
}

/// The message for a generator without a name.
pub open spec fn missing_metadata_message(field: Seq<char>, path: Seq<char>) -> Seq<char> {
    "Generator metadata '"@ + field + "' is missing in "@ + path
}

/// The message for a generator whose version does not parse.
pub open spec fn invalid_version_message(version: Seq<char>, path: Seq<char>) -> Seq<char> {
    "Generator metadata 'version' is invalid ('"@ + version + "') in "@ + path
}

/// The message for a missing metadata field.
fn missing_metadata(field: &str, path: &str) -> (r: String)
    ensures
        r@ == missing_metadata_message(field@, path@),
{
    let mut m = concat("Generator metadata '", field);
    m.append("' is missing in ");
    m.append(path);
    m
}

/// The resolution of a generator from what was read of it: the outcome of finding
/// its root, of reading its type, and of reading its metadata file (the read
/// error, or the parse error, or the fields).
pub fn resolution_from_metadata(
    identifier: &str,
    root: Result<String, String>,
    generator_type: Result<String, String>,
    metadata: Result<Result<RawTemplateMetadata, String>, String>,
) -> (r: Result<ServiceGeneratorResolution, AddServiceError>)
    ensures
        match root {
            Err(_) => r matches Err(AddServiceError::GeneratorNotFound(g)) && g@ == identifier@,
            Ok(root_dir) => match generator_type {
                Err(e) => r matches Err(AddServiceError::GeneratorReadError(m)) && m@ == e@,
                Ok(t) => if !is_service_type(t@) {
                    r matches Err(AddServiceError::InvalidGeneratorType { generator_id, generator_type: gt })
                        && generator_id@ == identifier@ && gt@ == t@
                } else {
                    let path = spec_join(root_dir@, GENERATOR_METADATA_FILE@);
                    match metadata {
                        Err(e) => r matches Err(AddServiceError::GeneratorReadError(m)) && m@
                            == "failed to read generator.yaml: "@ + e@,
                        Ok(Err(e)) => r matches Err(AddServiceError::GeneratorConfigError(m)) && m@
                            == "failed to parse generator.yaml: "@ + e@,
                        Ok(Ok(raw)) => match (raw.name, raw.id, raw.version) {
                            (None, _, _) => r matches Err(AddServiceError::GeneratorConfigError(m))
                                && m@ == missing_metadata_message("name"@, path),
                            (Some(_), None, _) => r matches Err(
                                AddServiceError::GeneratorConfigError(m),
                            ) && m@ == missing_metadata_message("id"@, path),
                            (Some(_), Some(_), None) => r matches Err(AddServiceError::Internal(m))
                                && m@ == missing_metadata_message("version"@, path),
                            (Some(n), Some(i), Some(v)) => match semver_parse_result(v@) {
                                Err(_) => r matches Err(AddServiceError::GeneratorConfigError(m))
                                    && m@ == invalid_version_message(v@, path),
                                Ok(fields) => r matches Ok(res) && {
                                    &&& res.source_name@ == spec_parse_identifier(identifier@).0
                                    &&& res.generator_name@ == n@
                                    &&& res.generator_id@ == i@
                                    &&& fields == (res.resolved_version.major, res.resolved_version.minor,
                                        res.resolved_version.patch, res.resolved_version.pre@,
                                        res.resolved_version.build@)
                                    &&& res.generator_type@ == t@
                                    &&& res.generator_cache_path@ == root_dir@
                                    &&& res.description@ == match raw.description {
                                        Some(d) => d@,
                                        None => Seq::empty(),
                                    }
                                },
                            },
                        },
                    }
                },
            },
        },
{
    let root_dir = match root {
        Ok(d) => d,
        Err(_) => {
            return Err(AddServiceError::GeneratorNotFound(identifier.to_owned()));
        },
    };
    let generator_type = match generator_type {
        Ok(t) => t,
        Err(e) => {
            return Err(AddServiceError::GeneratorReadError(e));
        },
    };
    if !eq_ignore_ascii_case(generator_type.as_str(), "service") {
        return Err(
            AddServiceError::InvalidGeneratorType {
                generator_id: identifier.to_owned(),
                generator_type,
            },
        );
    }
    let path = join_path(root_dir.as_str(), GENERATOR_METADATA_FILE);
    let raw = match metadata {
        Err(e) => {
            return Err(AddServiceError::GeneratorReadError(concat("failed to read generator.yaml: ", e.as_str())));
        },
        Ok(Err(e)) => {
            return Err(AddServiceError::GeneratorConfigError(concat("failed to parse generator.yaml: ", e.as_str())));
        },
        Ok(Ok(raw)) => raw,
    };
    let generator_name = match raw.name {
        Some(n) => n,
        None => {
            return Err(AddServiceError::GeneratorConfigError(missing_metadata("name", path.as_str())));
        },
    };
    let generator_id = match raw.id {
        Some(i) => i,
        None => {
            return Err(AddServiceError::GeneratorConfigError(missing_metadata("id", path.as_str())));
        },
    };
    let resolved_version = match raw.version {
        Some(v) => match Version::parse(v.as_str()) {
            Ok(parsed) => parsed,
            Err(_) => {
                let mut m = concat("Generator metadata 'version' is invalid ('", v.as_str());
                m.append("') in ");
                m.append(path.as_str());
                return Err(AddServiceError::GeneratorConfigError(m));
            },
        },
        None => {
            return Err(AddServiceError::Internal(missing_metadata("version", path.as_str())));
        },
    };
    let (source_name, _) = parse_identifier(identifier);
    let description = match raw.description {
        Some(d) => d,
        None => String::new(),
    };
    Ok(
        ServiceGeneratorResolution {
            source_name,
            generator_name,
            generator_id,
            resolved_version,
            generator_type,
            generator_cache_path: root_dir,
            description,
        },
    )
}

/// The service generators among `candidates`, each with the type read for it.
pub open spec fn service_generators_of(candidates: Seq<(ServiceGeneratorResolution, bool)>) -> Seq<
    ServiceGeneratorResolution,
>
    decreases candidates.len(),
{
    if candidates.len() == 0 {
        Seq::empty()
    } else if candidates.last().1 {
        service_generators_of(candidates.drop_last()).push(candidates.last().0)
    } else {
        service_generators_of(candidates.drop_last())
    }
}

/// The generators among `candidates` whose type makes services, in order.
pub open spec fn service_generators_in(candidates: Seq<ServiceGeneratorResolution>) -> Seq<
    ServiceGeneratorResolution,
> {
    service_generators_of(
        candidates.map_values(|c: ServiceGeneratorResolution| (c, is_service_type(c.generator_type@))),
    )
}

/// The generators of the catalogs whose type makes services, sorted by identifier,
/// then by source. Each candidate comes with the type read for it.
pub fn service_generators(candidates: Vec<ServiceGeneratorResolution>) -> (r: Vec<ServiceGeneratorResolution>)
    ensures
        r@.to_multiset() == service_generators_in(candidates@).to_multiset(),
        sorted_by_key(r@),
        exists|idx: Seq<int>| stable_arrangement(r@, service_generators_in(candidates@), idx),
{
    let ghost all = candidates@.map_values(|c: ServiceGeneratorResolution| (c, is_service_type(c.generator_type@)));
    let ghost orig = candidates@;
    let mut kept: Vec<ServiceGeneratorResolution> = Vec::new();
    let mut rest = candidates;
    let ghost mut i: int = 0;
    while rest.len() > 0
        invariant
            0 <= i <= orig.len(),
            all == orig.map_values(|c: ServiceGeneratorResolution| (c, is_service_type(c.generator_type@))),
            rest@ == orig.skip(i),
            kept@ == service_generators_of(all.take(i)),
        decreases rest@.len(),
    {
        let c = rest.remove(0);
        assert(orig[i] == c);
        assert(all.take(i + 1).drop_last() =~= all.take(i));
        assert(all.take(i + 1).last() == (c, is_service_type(c.generator_type@)));
        if eq_ignore_ascii_case(c.generator_type.as_str(), "service") {
            kept.push(c);
        }
        assert(rest@ =~= orig.skip(i + 1));
        proof {
            i = i + 1;
        }
    }
    assert(all.take(i) =~= all);
    sort_by_text_key(kept)
}

/// The workspace a generator is chosen in: its root and its `nfw.yaml`.
#[derive(Debug)]
pub struct ServiceGeneratorSelectionContext<'a> {
    pub workspace_root: &'a str,
    pub nfw_yaml: &'a crate::yaml::YamlValue,
}

impl<'a> ServiceGeneratorSelectionContext<'a> {
    pub fn new(workspace_root: &'a str, nfw_yaml: &'a crate::yaml::YamlValue) -> (r: Self)
        ensures
            r.workspace_root@ == workspace_root@,
            *r.nfw_yaml == *nfw_yaml,
    {
        ServiceGeneratorSelectionContext { workspace_root, nfw_yaml }
    }
}

/// Asks the user to choose one of the generators; the identifier chosen.
pub trait ServiceGeneratorPrompt {
    fn select_generator(&self, generators: &Vec<ServiceGeneratorResolution>) -> Result<String, String>;
}

/// Selects the generator of a new service from the discovered catalogs.
#[derive(Debug)]
pub struct ServiceGeneratorSelectionService<D, R> {
    pub discovery_service: D,
    pub root_resolver: R,
}

impl<D, R> ServiceGeneratorSelectionService<D, R> {
    pub fn new(discovery_service: D, root_resolver: R) -> (r: Self)
        ensures
            r.discovery_service == discovery_service,
            r.root_resolver == root_resolver,
    {
        ServiceGeneratorSelectionService { discovery_service, root_resolver }
    }

    /// Splits `source/id` at the first `/`; an identifier without one is local.
    pub fn parse_identifier(identifier: &str) -> (r: (String, String))
        ensures
            (r.0@, r.1@) == spec_parse_identifier(identifier@),
    {
        parse_identifier(identifier)
    }
}

} // verus!
