//! Template metadata (`template.yaml`): from its raw fields to validated metadata.
use vstd::prelude::*;

use crate::template_management::model::{semver_parse_result, Language, TemplateMetadata, Version};
use crate::text::{is_blank, spec_trim, str_eq, trim, views};

verus! {

/// The fields of `template.yaml`, each as written, when present.
#[derive(Debug)]
pub struct RawTemplateMetadata {
    pub id: Option<String>,
    pub name: Option<String>,
    pub description: Option<String>,
    pub version: Option<String>,
    pub language: Option<String>,
    pub tags: Option<Vec<String>>,
    pub author: Option<String>,
    pub min_cli_version: Option<String>,
    pub source_url: Option<String>,
    /// Generator types and the sub-folders that hold them.
    pub generators: Option<Vec<(String, String)>>,
}

/// Why template metadata was refused.
#[derive(Debug)]
pub enum TemplateCatalogError {
    InvalidYaml(String),
    MissingField { field: String },
    EmptyField { field: String },
    InvalidField { field: String, reason: String },
    UnsupportedLanguage { value: String },
}

/// The refusal of template metadata, as plain text.
pub enum CatalogErrorView {
    Yaml(Seq<char>),
    Missing(Seq<char>),
    Empty(Seq<char>),
    Invalid(Seq<char>, Seq<char>),
    Unsupported(Seq<char>),
}

impl TemplateCatalogError {
    pub open spec fn view_of(self) -> Option<CatalogErrorView> {
        match self {
            TemplateCatalogError::InvalidYaml(m) => Some(CatalogErrorView::Yaml(m@)),
            TemplateCatalogError::MissingField { field } => Some(CatalogErrorView::Missing(field@)),
            TemplateCatalogError::EmptyField { field } => Some(CatalogErrorView::Empty(field@)),
            TemplateCatalogError::InvalidField { field, reason } => Some(
                CatalogErrorView::Invalid(field@, reason@),
            ),
            TemplateCatalogError::UnsupportedLanguage { value } => Some(
                CatalogErrorView::Unsupported(value@),
            ),
        }
    }
}

/// The text of an optional string.
pub open spec fn opt_text(o: Option<String>) -> Option<Seq<char>> {
    match o {
        Some(s) => Some(s@),
        None => None,
    }
}

/// A required field: present and not blank, trimmed.
pub open spec fn spec_required(value: Option<Seq<char>>, field: Seq<char>) -> Result<Seq<char>, CatalogErrorView> {
    match value {
        None => Err(CatalogErrorView::Missing(field)),
        Some(v) => if spec_trim(v).len() == 0 {
            Err(CatalogErrorView::Empty(field))
        } else {
            Ok(spec_trim(v))
        },
    }
}

/// The error of a required field, as the error type.
pub open spec fn error_matches(e: TemplateCatalogError, v: CatalogErrorView) -> bool {
    e.view_of() == Some(v)
}

/// Reads a required field: present and not blank; trimmed.
pub fn required_non_empty(value: Option<String>, field: &str) -> (r: Result<String, TemplateCatalogError>)
    ensures
        match spec_required(opt_text(value), field@) {
            Ok(t) => r matches Ok(s) && s@ == t,
            Err(e) => r matches Err(x) && error_matches(x, e),
        },
{
    match value {
        None => Err(TemplateCatalogError::MissingField { field: field.to_owned() }),
        Some(v) => {
            let t = trim(v.as_str());
            if t.unicode_len() == 0 {
                Err(TemplateCatalogError::EmptyField { field: field.to_owned() })
            } else {
                Ok(t)
            }
        },
    }
}

/// An optional field: absent when missing or blank, else trimmed.
pub open spec fn spec_normalize(value: Option<Seq<char>>) -> Option<Seq<char>> {
    match value {
        Some(v) => if spec_trim(v).len() == 0 {
            None
        } else {
            Some(spec_trim(v))
        },
        None => None,
    }
}

/// Reads an optional field: trimmed, and absent when blank.
pub fn normalize_optional(value: Option<String>) -> (r: Option<String>)
    ensures
        opt_text(r) == spec_normalize(opt_text(value)),
{
    match value {
        Some(v) => {
            let t = trim(v.as_str());
            if t.unicode_len() == 0 {
                None
            } else {
                Some(t)
            }
        },
        None => None,
    }
}

/// The language a name stands for.
pub open spec fn spec_language(value: Seq<char>) -> Option<Language> {
    if value == "neutral"@ {
        Some(Language::Neutral)
    } else if value == "dotnet"@ || value == "csharp"@ || value == "c#"@ {
        Some(Language::Dotnet)
    } else if value == "go"@ {
        Some(Language::Go)
    } else if value == "rust"@ {
        Some(Language::Rust)
    } else {
        None
    }
}

/// Reads a language name.
pub fn parse_language(value: String) -> (r: Result<Language, TemplateCatalogError>)
    ensures
        match spec_language(value@) {
            Some(l) => r == Ok::<Language, TemplateCatalogError>(l),
            None => r matches Err(e) && error_matches(e, CatalogErrorView::Unsupported(value@)),
        },
{
    if str_eq(value.as_str(), "neutral") {
        Ok(Language::Neutral)
    } else if str_eq(value.as_str(), "dotnet") || str_eq(value.as_str(), "csharp") || str_eq(
        value.as_str(),
        "c#",
    ) {
        Ok(Language::Dotnet)
    } else if str_eq(value.as_str(), "go") {
        Ok(Language::Go)
    } else if str_eq(value.as_str(), "rust") {
        Ok(Language::Rust)
    } else {
        Err(TemplateCatalogError::UnsupportedLanguage { value })
    }
}

/// The tags that are not blank, in order, as written.
pub open spec fn non_blank(tags: Seq<Seq<char>>) -> Seq<Seq<char>>
    decreases tags.len(),
{
    if tags.len() == 0 {
        Seq::empty()
    } else if is_blank(tags.last()) {
        non_blank(tags.drop_last())
    } else {
        non_blank(tags.drop_last()).push(tags.last())
    }
}

/// The tags of a template: those that are not blank.
pub fn filter_tags(tags: Option<Vec<String>>) -> (r: Vec<String>)
    ensures
        views(r@) == match tags {
            Some(t) => non_blank(views(t@)),
            None => Seq::empty(),
        },
{
    let tags = match tags {
        Some(t) => t,
        None => {
            return Vec::new();
        },
    };
    let ghost all = views(tags@);
    let mut out: Vec<String> = Vec::new();
    let mut i: usize = 0;
    while i < tags.len()
        invariant
            i <= tags@.len(),
            all == views(tags@),
            views(out@) == non_blank(all.take(i as int)),
        decreases tags@.len() - i,
    {
        assert(all.take(i + 1).drop_last() =~= all.take(i as int));
        let t = trim(tags[i].as_str());
        if t.unicode_len() > 0 {
            let ghost before = out@;
            out.push(tags[i].clone());
            assert(views(out@) =~= views(before).push(all[i as int]));
        }
        i = i + 1;
    }
    assert(all.take(tags@.len() as int) =~= all);
    out
}

/// The answers a template's validator and version comparator gave on the
/// normalised fields of its metadata: whether the identifier is kebab-case, whether
/// the version and the minimum CLI version parse (with the comparator's reason
/// when not), and whether the source URL is a git URL. An answer that the checks
/// before it make unnecessary is not read.
#[derive(Debug)]
pub struct MetadataChecks {
    pub id_is_kebab: bool,
    pub version_check: Result<(), String>,
    pub min_cli_version_check: Result<(), String>,
    pub source_url_is_git: bool,
}

/// A version field: required, accepted by the comparator, then parsed.
pub open spec fn spec_version_field(
    value: Option<Seq<char>>,
    field: Seq<char>,
    check: Result<(), String>,
) -> Result<Seq<char>, CatalogErrorView> {
    match spec_required(value, field) {
        Err(e) => Err(e),
        Ok(t) => match check {
            Err(reason) => Err(CatalogErrorView::Invalid(field, reason@)),
            Ok(()) => match semver_parse_result(t) {
                Err(reason) => Err(CatalogErrorView::Invalid(field, reason)),
                Ok(_) => Ok(t),
            },
        },
    }
}

/// The first refusal of the metadata, checking the fields in the order: id, name,
/// description, version, language, minimum CLI version, source URL.
pub open spec fn metadata_error(raw: RawTemplateMetadata, checks: MetadataChecks) -> Option<CatalogErrorView> {
    match spec_required(opt_text(raw.id), "id"@) {
        Err(e) => Some(e),
        Ok(_) => if !checks.id_is_kebab {
            Some(CatalogErrorView::Invalid("id"@, "must use kebab-case (example: web-api)"@))
        } else {
            match spec_required(opt_text(raw.name), "name"@) {
                Err(e) => Some(e),
                Ok(_) => match spec_required(opt_text(raw.description), "description"@) {
                    Err(e) => Some(e),
                    Ok(_) => match spec_version_field(
                        opt_text(raw.version),
                        "version"@,
                        checks.version_check,
                    ) {
                        Err(e) => Some(e),
                        Ok(_) => match spec_normalize(opt_text(raw.language)) {
                            Some(l) if spec_language(l) is None => Some(
                                CatalogErrorView::Unsupported(l),
                            ),
                            _ => match raw.min_cli_version {
                                Some(m) => match spec_version_field(
                                    Some(m@),
                                    "min_cli_version"@,
                                    checks.min_cli_version_check,
                                ) {
                                    Err(e) => Some(e),
                                    Ok(_) => source_url_error(raw, checks),
                                },
                                None => source_url_error(raw, checks),
                            },
                        },
                    },
                },
            }
        }
    }
}

/// The refusal of the source URL, if any.
pub open spec fn source_url_error(raw: RawTemplateMetadata, checks: MetadataChecks) -> Option<CatalogErrorView> {
    if spec_normalize(opt_text(raw.source_url)) is Some && !checks.source_url_is_git {
        Some(CatalogErrorView::Invalid("source_url"@, "must be a valid git URL"@))
    } else {
        None
    }
}

/// The text of a version as its fields.
pub open spec fn version_fields(v: Version) -> (u64, u64, u64, Seq<char>, Seq<char>) {
    (v.major, v.minor, v.patch, v.pre@, v.build@)
}

/// Reads a version field: required, accepted by the comparator, then parsed.
fn version_field(value: Option<String>, field: &str, check: Result<(), String>) -> (r: Result<
    Version,
    TemplateCatalogError,
>)
    ensures
        match spec_version_field(opt_text(value), field@, check) {
            Err(e) => r matches Err(x) && error_matches(x, e),
            Ok(t) => r matches Ok(v) && semver_parse_result(t) == Ok::<
                (u64, u64, u64, Seq<char>, Seq<char>),
                Seq<char>,
            >(version_fields(v)),
        },
{
    let text = required_non_empty(value, field)?;
    match check {
        Err(reason) => {
            return Err(TemplateCatalogError::InvalidField { field: field.to_owned(), reason });
        },
        Ok(()) => {},
    }
    match Version::parse(text.as_str()) {
        Ok(v) => Ok(v),
        Err(reason) => Err(TemplateCatalogError::InvalidField { field: field.to_owned(), reason }),
    }
}

/// The fields of validated metadata, as they follow from the raw fields.
pub open spec fn metadata_fields(raw: RawTemplateMetadata, m: TemplateMetadata) -> bool {
    &&& Ok::<Seq<char>, CatalogErrorView>(m.id@) == spec_required(opt_text(raw.id), "id"@)
    &&& Ok::<Seq<char>, CatalogErrorView>(m.name@) == spec_required(
        opt_text(raw.name),
        "name"@,
    )
    &&& Ok::<Seq<char>, CatalogErrorView>(m.description@) == spec_required(
        opt_text(raw.description),
        "description"@,
    )
    &&& semver_parse_result(spec_required(opt_text(raw.version), "version"@)->Ok_0)
        == Ok::<(u64, u64, u64, Seq<char>, Seq<char>), Seq<char>>(
        version_fields(m.version),
    )
    &&& m.language == match spec_normalize(opt_text(raw.language)) {
        Some(l) => spec_language(l)->Some_0,
        None => Language::Neutral,
    }
    &&& match raw.min_cli_version {
        Some(t) => m.min_cli_version matches Some(v) && semver_parse_result(spec_trim(t@))
            == Ok::<(u64, u64, u64, Seq<char>, Seq<char>), Seq<char>>(
            version_fields(v),
        ),
        None => m.min_cli_version is None,
    }
    &&& opt_text(m.source_url) == spec_normalize(opt_text(raw.source_url))
    &&& opt_text(m.author) == spec_normalize(opt_text(raw.author))
    &&& views(m.tags@) == match raw.tags {
        Some(t) => non_blank(views(t@)),
        None => Seq::empty(),
    }
}

/// Answers on the metadata that do not depend on the validator or comparator: a
/// field that is absent or blank is not judged, and counts as passing.
pub open spec fn checks_consistent(raw: RawTemplateMetadata, checks: MetadataChecks) -> bool {
    &&& spec_normalize(opt_text(raw.id)) is None ==> checks.id_is_kebab
    &&& spec_normalize(opt_text(raw.version)) is None ==> checks.version_check is Ok
    &&& spec_normalize(opt_text(raw.min_cli_version)) is None ==> checks.min_cli_version_check is Ok
    &&& spec_normalize(opt_text(raw.source_url)) is None ==> checks.source_url_is_git
}

/// What `metadata_from` gives with `checks`.
pub open spec fn metadata_outcome(
    raw: RawTemplateMetadata,
    checks: MetadataChecks,
    r: Result<TemplateMetadata, TemplateCatalogError>,
) -> bool {
    match metadata_error(raw, checks) {
        Some(e) => r matches Err(x) && error_matches(x, e),
        None => r matches Ok(m) && metadata_fields(raw, m),
    }
}

/// Validated template metadata from the raw fields and the validator's answers.
pub fn metadata_from(raw: RawTemplateMetadata, checks: MetadataChecks) -> (r: Result<
    TemplateMetadata,
    TemplateCatalogError,
>)
    ensures
        metadata_outcome(raw, checks, r),
{
    let ghost raw0 = raw;
    let RawTemplateMetadata {
        id,
        name,
        description,
        version,
        language,
        tags,
        author,
        min_cli_version,
        source_url,
        generators: _,
    } = raw;
    let id = required_non_empty(id, "id")?;
    if !checks.id_is_kebab {
        return Err(
            TemplateCatalogError::InvalidField {
                field: "id".to_owned(),
                reason: "must use kebab-case (example: web-api)".to_owned(),
            },
        );
    }
    let name = required_non_empty(name, "name")?;
    let description = required_non_empty(description, "description")?;
    let version = version_field(version, "version", checks.version_check)?;
    let language = match normalize_optional(language) {
        Some(l) => parse_language(l)?,
        None => Language::Neutral,
    };
    let min_cli_version = match min_cli_version {
        Some(m) => Some(version_field(Some(m), "min_cli_version", checks.min_cli_version_check)?),
        None => None,
    };
    let source_url = normalize_optional(source_url);
    if source_url.is_some() && !checks.source_url_is_git {
        return Err(
            TemplateCatalogError::InvalidField {
                field: "source_url".to_owned(),
                reason: "must be a valid git URL".to_owned(),
            },
        );
    }
    let tags = filter_tags(tags);
    let author = normalize_optional(author);
    Ok(
        TemplateMetadata {
            id,
            name,
            description,
            version,
            language,
            tags,
            author,
            min_cli_version,
            source_url,
        },
    )
}

/// Tells whether an identifier is in kebab-case and whether a text is a git URL.
pub trait Validator {
    fn is_kebab_case(&self, value: &str) -> bool;

    fn is_git_url(&self, value: &str) -> bool;
}

/// Tells whether a text is a version it understands, with the reason when not.
pub trait VersionComparator {
    fn parse(&self, version: &str) -> Result<(), String>;
}

/// Reads template metadata: `yaml_parser` turns `template.yaml` into its raw
/// fields, then a validator and a version comparator check them.
#[derive(Debug)]
pub struct TemplateCatalogParser<Y, V, C> {
    pub yaml_parser: Y,
    pub validator: V,
    pub version_comparator: C,
}

impl<Y, V: Validator, C: VersionComparator> TemplateCatalogParser<Y, V, C> {
    pub fn new(yaml_parser: Y, validator: V, version_comparator: C) -> (r: Self)
        ensures
            r.yaml_parser == yaml_parser,
            r.validator == validator,
            r.version_comparator == version_comparator,
    {
        TemplateCatalogParser { yaml_parser, validator, version_comparator }
    }

    /// The identifier of a template: required, trimmed, and kebab-case as the
    /// validator judges it.
    pub fn validate_and_parse_id(&self, id: Option<String>) -> (r: Result<String, TemplateCatalogError>)
        ensures
            match spec_required(opt_text(id), "id"@) {
                Err(e) => r matches Err(x) && error_matches(x, e),
                Ok(t) => match r {
                    Ok(s) => s@ == t,
                    Err(x) => error_matches(
                        x,
                        CatalogErrorView::Invalid("id"@, "must use kebab-case (example: web-api)"@),
                    ),
                },
            },
    {
        let id = required_non_empty(id, "id")?;
        if !self.validator.is_kebab_case(id.as_str()) {
            return Err(
                TemplateCatalogError::InvalidField {
                    field: "id".to_owned(),
                    reason: "must use kebab-case (example: web-api)".to_owned(),
                },
            );
        }
        Ok(id)
    }

    /// The source URL of a template: trimmed, absent when blank, and a git URL as
    /// the validator judges it.
    pub fn validate_source_url(&self, source_url: Option<String>) -> (r: Result<
        Option<String>,
        TemplateCatalogError,
    >)
        ensures
            match r {
                Ok(u) => opt_text(u) == spec_normalize(opt_text(source_url)),
                Err(x) => spec_normalize(opt_text(source_url)) is Some && error_matches(
                    x,
                    CatalogErrorView::Invalid("source_url"@, "must be a valid git URL"@),
                ),
            },
            spec_normalize(opt_text(source_url)) is None ==> r is Ok,
    {
        let url = normalize_optional(source_url);
        match &url {
            Some(u) => {
                if !self.validator.is_git_url(u.as_str()) {
                    return Err(
                        TemplateCatalogError::InvalidField {
                            field: "source_url".to_owned(),
                            reason: "must be a valid git URL".to_owned(),
                        },
                    );
                }
            },
            None => {},
        }
        Ok(url)
    }

    /// The language of a template: neutral when absent or blank.
    pub fn parse_optional_language(&self, language: Option<String>) -> (r: Result<Language, TemplateCatalogError>)
        ensures
            match spec_normalize(opt_text(language)) {
                None => r == Ok::<Language, TemplateCatalogError>(Language::Neutral),
                Some(l) => match spec_language(l) {
                    Some(x) => r == Ok::<Language, TemplateCatalogError>(x),
                    None => r matches Err(e) && error_matches(e, CatalogErrorView::Unsupported(l)),
                },
            },
    {
        match normalize_optional(language) {
            Some(l) => parse_language(l),
            None => Ok(Language::Neutral),
        }
    }

    /// The tags of a template that are not blank.
    pub fn filter_tags(&self, tags: Option<Vec<String>>) -> (r: Vec<String>)
        ensures
            views(r@) == match tags {
                Some(t) => non_blank(views(t@)),
                None => Seq::empty(),
            },
    {
        filter_tags(tags)
    }

    /// The validator's and comparator's answers on the normalised fields of `raw`:
    /// each is asked only about a field that is present and not blank.
    pub fn checks_for(&self, raw: &RawTemplateMetadata) -> (r: MetadataChecks)
        ensures
            checks_consistent(*raw, r),
    {
        let id_is_kebab = match &raw.id {
            Some(id) => {
                let t = trim(id.as_str());
                t.unicode_len() == 0 || self.validator.is_kebab_case(t.as_str())
            },
            None => true,
        };
        let version_check = version_answer(&self.version_comparator, &raw.version);
        let min_cli_version_check = version_answer(&self.version_comparator, &raw.min_cli_version);
        let source_url_is_git = match &raw.source_url {
            Some(u) => {
                let t = trim(u.as_str());
                t.unicode_len() == 0 || self.validator.is_git_url(t.as_str())
            },
            None => true,
        };
        MetadataChecks { id_is_kebab, version_check, min_cli_version_check, source_url_is_git }
    }

    /// Validated metadata from the raw fields of `template.yaml`: what `metadata_from`
    /// gives with the validator's and comparator's answers on them.
    pub fn parse_template_metadata(&self, raw: RawTemplateMetadata) -> (r: Result<
        TemplateMetadata,
        TemplateCatalogError,
    >)
        ensures
            exists|checks: MetadataChecks| #[trigger] checks_consistent(raw, checks) && metadata_outcome(raw, checks, r),
    {
        let checks = self.checks_for(&raw);
        let ghost c = checks;
        let r = metadata_from(raw, checks);
        assert(checks_consistent(raw, c) && metadata_outcome(raw, c, r));
        r
    }

    /// Validated metadata from `template.yaml` as the YAML parser read it: its
    /// error becomes `InvalidYaml`; raw fields are checked as `parse_template_metadata`
    /// checks them.
    pub fn parse_template_document(&self, parsed: Result<RawTemplateMetadata, String>) -> (r: Result<
        TemplateMetadata,
        TemplateCatalogError,
    >)
        ensures
            match parsed {
                Err(m) => r matches Err(TemplateCatalogError::InvalidYaml(x)) && x == m,
                Ok(raw) => exists|checks: MetadataChecks| #[trigger] checks_consistent(raw, checks) && metadata_outcome(raw, checks, r),
            },
    {
        match parsed {
            Err(m) => Err(TemplateCatalogError::InvalidYaml(m)),
            Ok(raw) => self.parse_template_metadata(raw),
        }
    }
}

/// The comparator's answer on a version field that is present and not blank.
fn version_answer<C: VersionComparator>(comparator: &C, value: &Option<String>) -> (r: Result<(), String>)
    ensures
        match value {
            Some(v) => spec_trim(v@).len() == 0 ==> r is Ok,
            None => r is Ok,
        },
{
    match value {
        Some(v) => {
            let t = trim(v.as_str());
            if t.unicode_len() == 0 {
                Ok(())
            } else {
                comparator.parse(t.as_str())
            }
        },
        None => Ok(()),
    }
}


/// The language names a template may give: `neutral`; `dotnet`, `csharp` and `c#`,
/// all meaning .NET; `go` and `rust`. Every other name is unsupported.
pub proof fn law_language_names(value: Seq<char>)
    ensures
        spec_language(value) == Some(Language::Neutral) <==> value == "neutral"@,
        spec_language(value) == Some(Language::Dotnet) <==> (value == "dotnet"@ || value
            == "csharp"@ || value == "c#"@),
        spec_language(value) == Some(Language::Go) <==> value == "go"@,
        spec_language(value) == Some(Language::Rust) <==> value == "rust"@,
        spec_language(value) is None <==> !(value == "neutral"@ || value == "dotnet"@ || value
            == "csharp"@ || value == "c#"@ || value == "go"@ || value == "rust"@),
{
    reveal_strlit("neutral");
    reveal_strlit("dotnet");
    reveal_strlit("csharp");
    reveal_strlit("c#");
    reveal_strlit("go");
    reveal_strlit("rust");
    let names = seq!["neutral"@, "dotnet"@, "csharp"@, "c#"@, "go"@, "rust"@];
    assert forall|i: int, j: int| 0 <= i < j < 6 implies names[i] != names[j] by {
        if names[i].len() == names[j].len() {
            assert(names[i][0] != names[j][0]);
        }
    }
    assert(names[0] != names[1] && names[0] != names[2] && names[0] != names[3]);
    assert(names[0] != names[4] && names[0] != names[5] && names[1] != names[4]);
    assert(names[2] != names[4] && names[3] != names[4] && names[1] != names[5]);
    assert(names[2] != names[5] && names[3] != names[5] && names[4] != names[5]);
}
} // verus!
