//! The registered template sources and the catalogs discovered in them: adding and
//! removing sources, registering the official source, and collecting catalogs and
//! warnings source by source.
use vstd::prelude::*;

use crate::sorting::{sort_by_text_key, sorted_by_key, stable_arrangement, TextKeyed};
use crate::template_management::model::{
    decimal, push_decimal, Language, TemplateCatalog, TemplateSource, Version,
};
use crate::text::{concat, contains, has_sub, str_eq, views};

verus! {

broadcast use vstd::seq_lib::group_to_multiset_ensures;

/// The name of the official template source.
pub const OFFICIAL_NAME: &'static str = "official";

/// The repository of the official template source.
pub const OFFICIAL_URL: &'static str = "https://github.com/n-framework/nfw-templates";

/// The directory of a source that holds its templates.
pub const TEMPLATES_ROOT_DIR: &'static str = "src";

/// The metadata file of a template.
pub const METADATA_FILE: &'static str = "template.yaml";

/// The content directory of a template.
pub const CONTENT_DIR: &'static str = "content";

/// The file listing what template discovery skips.
pub const IGNORE_FILE: &'static str = ".nfwignore";

/// Errors of the template-source operations.
#[derive(Debug)]
pub enum TemplatesServiceError {
    LoadSourcesFailed(String),
    SaveSourcesFailed(String),
    InvalidSourceName(String),
    InvalidSourceUrl(String),
    SourceAlreadyExists(String),
    SourceNotFound(String),
    CacheCleanupFailed(String),
    SourceSyncFailed { source: String, reason: String },
    SourceDiscoveryFailed { source: String, reason: String },
}

impl TextKeyed for TemplateSource {
    open spec fn key_view(&self) -> (Seq<char>, Seq<char>) {
        (self.name@, Seq::empty())
    }

    fn key(&self) -> (r: (&str, &str)) {
        proof {
            reveal_strlit("");
        }
        (self.name.as_str(), "")
    }
}

impl TextKeyed for TemplateCatalog {
    open spec fn key_view(&self) -> (Seq<char>, Seq<char>) {
        (self.source_name@, Seq::empty())
    }

    fn key(&self) -> (r: (&str, &str)) {
        proof {
            reveal_strlit("");
        }
        (self.source_name.as_str(), "")
    }
}

/// Some source of the list has the name.
pub open spec fn has_source_named(sources: Seq<TemplateSource>, name: Seq<char>) -> bool {
    exists|i: int| 0 <= i < sources.len() && (#[trigger] sources[i]).name@ == name
}

/// Tests whether some source of the list has the name.
pub fn has_source(sources: &Vec<TemplateSource>, name: &str) -> (r: bool)
    ensures
        r == has_source_named(sources@, name@),
{
    let mut i: usize = 0;
    while i < sources.len()
        invariant
            i <= sources@.len(),
            forall|j: int| 0 <= j < i ==> (#[trigger] sources@[j]).name@ != name@,
        decreases sources@.len() - i,
    {
        if str_eq(sources[i].name.as_str(), name) {
            return true;
        }
        i = i + 1;
    }
    false
}

/// The official source: enabled, with its name and repository.
pub open spec fn is_official_source(s: TemplateSource) -> bool {
    s.name@ == OFFICIAL_NAME@ && s.url@ == OFFICIAL_URL@ && s.enabled
}

/// `after` is `before` with the official source registered: unchanged when a source
/// of that name is there, else with the official source appended.
pub open spec fn default_registered(before: Seq<TemplateSource>, after: Seq<TemplateSource>) -> bool {
    if has_source_named(before, OFFICIAL_NAME@) {
        after == before
    } else {
        &&& after.len() == before.len() + 1
        &&& after.take(before.len() as int) == before
        &&& is_official_source(after.last())
    }
}

/// The sources with the official one registered, and whether it had to be added.
pub fn with_default_source(sources: Vec<TemplateSource>) -> (r: (Vec<TemplateSource>, bool))
    ensures
        default_registered(sources@, r.0@),
        r.1 == !has_source_named(sources@, OFFICIAL_NAME@),
{
    if has_source(&sources, OFFICIAL_NAME) {
        (sources, false)
    } else {
        let mut sources = sources;
        let ghost before = sources@;
        sources.push(TemplateSource::new(OFFICIAL_NAME.to_owned(), OFFICIAL_URL.to_owned()));
        assert(sources@.take(before.len() as int) =~= before);
        (sources, true)
    }
}

/// Registering the official source leaves it registered.
pub proof fn law_default_source_present(before: Seq<TemplateSource>, after: Seq<TemplateSource>)
    requires
        default_registered(before, after),
    ensures
        has_source_named(after, OFFICIAL_NAME@),
{
    if !has_source_named(before, OFFICIAL_NAME@) {
        assert(after[after.len() - 1].name@ == OFFICIAL_NAME@);
    }
}

/// Registering the official source a second time changes nothing.
pub proof fn law_default_source_idempotent(
    s0: Seq<TemplateSource>,
    s1: Seq<TemplateSource>,
    s2: Seq<TemplateSource>,
)
    requires
        default_registered(s0, s1),
        default_registered(s1, s2),
    ensures
        s2 == s1,
{
    law_default_source_present(s0, s1);
}

/// Checks the name and repository of a source to add. `name_ok` tells whether the
/// trimmed name is kebab-case, `url_ok` whether the trimmed URL has a valid form.
pub fn check_source_input(name: &str, url: &str, trimmed_url: &str, name_ok: bool, url_ok: bool) -> (r:
    Result<(), TemplatesServiceError>)
    ensures
        !name_ok ==> (r matches Err(TemplatesServiceError::InvalidSourceName(n)) && n@ == name@),
        name_ok && (trimmed_url@.len() == 0 || !url_ok) ==> (r matches Err(
            TemplatesServiceError::InvalidSourceUrl(u),
        ) && u@ == url@),
        name_ok && trimmed_url@.len() > 0 && url_ok ==> r is Ok,
{
    if !name_ok {
        return Err(TemplatesServiceError::InvalidSourceName(name.to_owned()));
    }
    if trimmed_url.unicode_len() == 0 || !url_ok {
        return Err(TemplatesServiceError::InvalidSourceUrl(url.to_owned()));
    }
    Ok(())
}

/// The sources with `source` added and all sorted by name; an error when a source of
/// that name is already registered.
pub fn add_source_to(sources: Vec<TemplateSource>, source: TemplateSource) -> (r: Result<
    Vec<TemplateSource>,
    TemplatesServiceError,
>)
    ensures
        has_source_named(sources@, source.name@) ==> (r matches Err(
            TemplatesServiceError::SourceAlreadyExists(n),
        ) && n@ == source.name@),
        !has_source_named(sources@, source.name@) ==> (r matches Ok(v) && v@.to_multiset()
            == sources@.to_multiset().insert(source) && sorted_by_key(v@) && exists|idx: Seq<int>|
            stable_arrangement(v@, sources@.push(source), idx)),
{
    if has_source(&sources, source.name.as_str()) {
        return Err(TemplatesServiceError::SourceAlreadyExists(source.name));
    }
    let mut sources = sources;
    let ghost before = sources@;
    let ghost added = source;
    sources.push(source);
    assert(sources@ == before.push(added));
    Ok(sort_by_text_key(sources))
}

/// A source that was added is registered afterwards.
pub proof fn law_added_source_present(before: Seq<TemplateSource>, source: TemplateSource, after: Seq<TemplateSource>)
    requires
        after.to_multiset() == before.to_multiset().insert(source),
    ensures
        has_source_named(after, source.name@),
{
    assert(after.to_multiset().contains(source));
    assert(after.contains(source));
    let i = choose|i: int| 0 <= i < after.len() && after[i] == source;
    assert(after[i].name@ == source.name@);
}

/// The sources without those named `name`, in their order.
pub open spec fn without_named(sources: Seq<TemplateSource>, name: Seq<char>) -> Seq<TemplateSource>
    decreases sources.len(),
{
    if sources.len() == 0 {
        Seq::empty()
    } else {
        let rest = without_named(sources.drop_last(), name);
        if sources.last().name@ == name {
            rest
        } else {
            rest.push(sources.last())
        }
    }
}

/// The sources without the one named `name`; an error when there is none.
pub fn remove_source_from(sources: Vec<TemplateSource>, name: &str) -> (r: Result<
    Vec<TemplateSource>,
    TemplatesServiceError,
>)
    ensures
        !has_source_named(sources@, name@) ==> (r matches Err(
            TemplatesServiceError::SourceNotFound(n),
        ) && n@ == name@),
        has_source_named(sources@, name@) ==> (r matches Ok(v) && v@ == without_named(
            sources@,
            name@,
        )),
{
    let ghost all = sources@;
    let mut kept: Vec<TemplateSource> = Vec::new();
    let mut found = false;
    let mut rest = sources;
    let ghost mut i: int = 0;
    while rest.len() > 0
        invariant
            0 <= i <= all.len(),
            rest@ == all.skip(i),
            kept@ == without_named(all.take(i), name@),
            found == has_source_named(all.take(i), name@),
        decreases rest@.len(),
    {
        let s = rest.remove(0);
        assert(all[i] == s);
        assert(all.take(i + 1).drop_last() =~= all.take(i));
        let ghost prev = all.take(i);
        if str_eq(s.name.as_str(), name) {
            found = true;
            assert(all.take(i + 1)[i] == s);
        } else {
            kept.push(s);
            assert forall|j: int| 0 <= j < i + 1 && (#[trigger] all.take(i + 1)[j]).name@ == name@ implies has_source_named(prev, name@) by {
                assert(j < i);
                assert(prev[j] == all.take(i + 1)[j]);
            }
        }
        proof {
            if has_source_named(prev, name@) {
                let k = choose|k: int| 0 <= k < prev.len() && (#[trigger] prev[k]).name@ == name@;
                assert(all.take(i + 1)[k] == prev[k]);
            }
        }
        assert(rest@ =~= all.skip(i + 1));
        proof {
            i = i + 1;
        }
    }
    assert(all.take(i) =~= all);
    if found {
        Ok(kept)
    } else {
        Err(TemplatesServiceError::SourceNotFound(name.to_owned()))
    }
}

/// After removing a source, no source of that name is registered.
pub proof fn law_removed_source_absent(sources: Seq<TemplateSource>, name: Seq<char>)
    ensures
        !has_source_named(without_named(sources, name), name),
    decreases sources.len(),
{
    if sources.len() > 0 {
        law_removed_source_absent(sources.drop_last(), name);
        let rest = without_named(sources.drop_last(), name);
        if sources.last().name@ != name {
            assert forall|i: int| 0 <= i < rest.len() + 1 implies (#[trigger] rest.push(
                sources.last(),
            )[i]).name@ != name by {
                if i < rest.len() {
                    assert(rest.push(sources.last())[i] == rest[i]);
                }
            }
        }
    }
}

/// Removing a source keeps every source of another name.
pub proof fn law_remove_keeps_others(sources: Seq<TemplateSource>, name: Seq<char>, other: Seq<char>)
    requires
        other != name,
    ensures
        has_source_named(without_named(sources, name), other) == has_source_named(sources, other),
    decreases sources.len(),
{
    if sources.len() > 0 {
        let init = sources.drop_last();
        law_remove_keeps_others(init, name, other);
        let rest = without_named(init, name);
        let last = sources.last();
        if has_source_named(sources, other) {
            let k = choose|k: int| 0 <= k < sources.len() && (#[trigger] sources[k]).name@ == other;
            if k < init.len() {
                assert(init[k] == sources[k]);
                let m = choose|m: int| 0 <= m < rest.len() && (#[trigger] rest[m]).name@ == other;
                if last.name@ != name {
                    assert(rest.push(last)[m] == rest[m]);
                }
            } else {
                assert(rest.push(last)[rest.len() as int] == last);
            }
        }
        if has_source_named(without_named(sources, name), other) {
            let w = without_named(sources, name);
            let k = choose|k: int| 0 <= k < w.len() && (#[trigger] w[k]).name@ == other;
            if last.name@ != name && k == rest.len() {
                assert(sources[sources.len() - 1] == last);
            } else {
                if last.name@ != name {
                    assert(w[k] == rest[k]);
                }
                let m = choose|m: int| 0 <= m < init.len() && (#[trigger] init[m]).name@ == other;
                assert(sources[m] == init[m]);
            }
        }
    }
}

/// The enabled sources, in order.
pub open spec fn enabled_only(sources: Seq<TemplateSource>) -> Seq<TemplateSource>
    decreases sources.len(),
{
    if sources.len() == 0 {
        Seq::empty()
    } else if sources.last().enabled {
        enabled_only(sources.drop_last()).push(sources.last())
    } else {
        enabled_only(sources.drop_last())
    }
}

/// The sources that take part in discovery: the enabled ones, in order.
pub fn enabled_sources(sources: Vec<TemplateSource>) -> (r: Vec<TemplateSource>)
    ensures
        r@ == enabled_only(sources@),
{
    let ghost all = sources@;
    let mut out: Vec<TemplateSource> = Vec::new();
    let mut rest = sources;
    let ghost mut i: int = 0;
    while rest.len() > 0
        invariant
            0 <= i <= all.len(),
            rest@ == all.skip(i),
            out@ == enabled_only(all.take(i)),
        decreases rest@.len(),
    {
        let s = rest.remove(0);
        assert(all[i] == s);
        assert(all.take(i + 1).drop_last() =~= all.take(i));
        if s.enabled {
            out.push(s);
        }
        assert(rest@ =~= all.skip(i + 1));
        proof {
            i = i + 1;
        }
    }
    assert(all.take(i) =~= all);
    out
}

/// A synchronisation failure that a retry may cure: the remote could not be reached.
pub open spec fn is_transient_reason(reason: Seq<char>) -> bool {
    ||| has_sub(reason, "could not refresh remote"@)
    ||| has_sub(reason, "could not fast-forward"@)
    ||| has_sub(reason, "network"@)
    ||| has_sub(reason, "connection"@)
    ||| has_sub(reason, "timeout"@)
}

/// Tests whether a synchronisation failure is transient.
pub fn is_transient_sync_failure(reason: &str) -> (r: bool)
    ensures
        r == is_transient_reason(reason@),
{
    contains(reason, "could not refresh remote") || contains(reason, "could not fast-forward")
        || contains(reason, "network") || contains(reason, "connection") || contains(
        reason,
        "timeout",
    )
}

/// A discovery error that stops discovery: the cache cannot be used at all.
pub open spec fn is_critical_reason(reason: Seq<char>) -> bool {
    ||| has_sub(reason, "cache is corrupted"@)
    ||| has_sub(reason, "permission denied"@)
    ||| has_sub(reason, "not a directory"@)
}

/// Tests whether a discovery error stops discovery.
pub fn is_critical_discovery_error(reason: &str) -> (r: bool)
    ensures
        r == is_critical_reason(reason@),
{
    contains(reason, "cache is corrupted") || contains(reason, "permission denied") || contains(
        reason,
        "not a directory",
    )
}

/// The warning for a source served from its cache.
pub open spec fn cached_data_warning(source: Seq<char>, warning: Seq<char>) -> Seq<char> {
    "template source '"@ + source + "' using cached data: "@ + warning
}

/// The warning for a source without valid templates.
pub open spec fn empty_source_warning(source: Seq<char>) -> Seq<char> {
    "template source '"@ + source + "' contains no valid templates"@
}

/// The warning for a source whose discovery reported a non-critical error.
pub open spec fn discovery_warning(source: Seq<char>, error: Seq<char>) -> Seq<char> {
    "template source '"@ + source + "' discovery warning: "@ + error
}

/// Names joined with `, `.
pub open spec fn join_names(names: Seq<Seq<char>>) -> Seq<char>
    decreases names.len(),
{
    if names.len() == 0 {
        Seq::empty()
    } else if names.len() == 1 {
        names[0]
    } else {
        join_names(names.drop_last()) + ", "@ + names.last()
    }
}

/// The warning for the sources that could not be reached.
pub open spec fn unreachable_warning(names: Seq<Seq<char>>) -> Seq<char> {
    "Could not reach "@ + decimal(names.len()) + " template source(s): "@ + join_names(names)
        + ". Using cached data if available."@
}

/// Joins names with `, `.
pub fn join_with_commas(names: &Vec<String>) -> (r: String)
    ensures
        r@ == join_names(views(names@)),
{
    let mut r = String::new();
    let mut i: usize = 0;
    while i < names.len()
        invariant
            i <= names@.len(),
            r@ == join_names(views(names@).take(i as int)),
        decreases names@.len() - i,
    {
        assert(views(names@).take(i + 1).drop_last() =~= views(names@).take(i as int));
        if i > 0 {
            r.append(", ");
        }
        r.append(names[i].as_str());
        i = i + 1;
        proof {
            if i == 1 {
                assert(r@ =~= views(names@).take(1)[0]);
            }
        }
    }
    assert(views(names@).take(names@.len() as int) =~= views(names@));
    r
}

/// What discovery has gathered so far: the catalogs, the warnings, and the sources
/// that could not be reached.
#[derive(Debug)]
pub struct CatalogDiscovery {
    pub catalogs: Vec<TemplateCatalog>,
    pub warnings: Vec<String>,
    pub unreachable: Vec<String>,
}

impl CatalogDiscovery {
    /// Nothing gathered yet.
    pub fn new() -> (r: CatalogDiscovery)
        ensures
            r.catalogs@.len() == 0,
            r.warnings@.len() == 0,
            r.unreachable@.len() == 0,
    {
        CatalogDiscovery { catalogs: Vec::new(), warnings: Vec::new(), unreachable: Vec::new() }
    }

    /// Takes in the outcome of synchronising a source: the cache path to discover
    /// templates in, `None` when the source could not be reached this time, or the
    /// error that stops discovery.
    pub fn record_sync(&mut self, source: &str, outcome: Result<(String, Option<String>), String>) -> (r:
        Result<Option<String>, TemplatesServiceError>)
        ensures
            final(self).catalogs@ == old(self).catalogs@,
            match outcome {
                Ok((path, warning)) => {
                    &&& r matches Ok(Some(p)) && p@ == path@
                    &&& final(self).unreachable@ == old(self).unreachable@
                    &&& views(final(self).warnings@) == match warning {
                        Some(w) => views(old(self).warnings@).push(cached_data_warning(source@, w@)),
                        None => views(old(self).warnings@),
                    }
                },
                Err(reason) => if is_transient_reason(reason@) {
                    &&& r matches Ok(None)
                    &&& views(final(self).unreachable@) == views(old(self).unreachable@).push(
                        source@,
                    )
                    &&& final(self).warnings@ == old(self).warnings@
                } else {
                    r matches Err(TemplatesServiceError::SourceSyncFailed { source: s, reason: m })
                        && s@ == source@ && m@ == reason@
                },
            },
    {
        match outcome {
            Ok((path, warning)) => {
                match warning {
                    Some(w) => {
                        let mut m = concat("template source '", source);
                        m.append("' using cached data: ");
                        m.append(w.as_str());
                        let ghost before = self.warnings@;
                        self.warnings.push(m);
                        assert(views(self.warnings@) =~= views(before).push(m@));
                    },
                    None => {},
                }
                Ok(Some(path))
            },
            Err(reason) => {
                if is_transient_sync_failure(reason.as_str()) {
                    let ghost before = self.unreachable@;
                    self.unreachable.push(source.to_owned());
                    assert(views(self.unreachable@) =~= views(before).push(source@));
                    Ok(None)
                } else {
                    Err(TemplatesServiceError::SourceSyncFailed { source: source.to_owned(), reason })
                }
            },
        }
    }

    /// Takes in the outcome of discovering the templates of a synchronised source:
    /// its catalog, or the text of the error.
    pub fn record_catalog(&mut self, source: &str, outcome: Result<TemplateCatalog, String>) -> (r:
        Result<(), TemplatesServiceError>)
        ensures
            final(self).unreachable@ == old(self).unreachable@,
            match outcome {
                Ok(c) => {
                    &&& r is Ok
                    &&& final(self).catalogs@ == old(self).catalogs@.push(c)
                    &&& views(final(self).warnings@) == if c.templates@.len() == 0 {
                        views(old(self).warnings@).push(empty_source_warning(source@))
                    } else {
                        views(old(self).warnings@)
                    }
                },
                Err(e) => if is_critical_reason(e@) {
                    r matches Err(TemplatesServiceError::SourceDiscoveryFailed { source: s, reason: m })
                        && s@ == source@ && m@ == e@
                } else {
                    &&& r is Ok
                    &&& final(self).catalogs@ == old(self).catalogs@
                    &&& views(final(self).warnings@) == views(old(self).warnings@).push(
                        discovery_warning(source@, e@),
                    )
                },
            },
    {
        match outcome {
            Ok(c) => {
                if c.templates.len() == 0 {
                    let mut m = concat("template source '", source);
                    m.append("' contains no valid templates");
                    let ghost before = self.warnings@;
                    self.warnings.push(m);
                    assert(views(self.warnings@) =~= views(before).push(m@));
                }
                self.catalogs.push(c);
                Ok(())
            },
            Err(e) => {
                if is_critical_discovery_error(e.as_str()) {
                    Err(TemplatesServiceError::SourceDiscoveryFailed { source: source.to_owned(), reason: e })
                } else {
                    let mut m = concat("template source '", source);
                    m.append("' discovery warning: ");
                    m.append(e.as_str());
                    let ghost before = self.warnings@;
                    self.warnings.push(m);
                    assert(views(self.warnings@) =~= views(before).push(m@));
                    Ok(())
                }
            },
        }
    }

    /// The catalogs sorted by source name, and the warnings, with one more for the
    /// sources that could not be reached, if any.
    pub fn finish(self) -> (r: (Vec<TemplateCatalog>, Vec<String>))
        ensures
            r.0@.to_multiset() == self.catalogs@.to_multiset(),
            sorted_by_key(r.0@),
            exists|idx: Seq<int>| stable_arrangement(r.0@, self.catalogs@, idx),
            views(r.1@) == if self.unreachable@.len() == 0 {
                views(self.warnings@)
            } else {
                views(self.warnings@).push(unreachable_warning(views(self.unreachable@)))
            },
    {
        let mut warnings = self.warnings;
        if self.unreachable.len() > 0 {
            let mut m = "Could not reach ".to_owned();
            push_decimal(&mut m, self.unreachable.len() as u64);
            m.append(" template source(s): ");
            m.append(join_with_commas(&self.unreachable).as_str());
            m.append(". Using cached data if available.");
            let ghost before = warnings@;
            warnings.push(m);
            assert(views(warnings@) =~= views(before).push(m@));
        }
        (sort_by_text_key(self.catalogs), warnings)
    }
}

/// A template as listed to the user, with the source it comes from.
#[derive(Debug)]
pub struct ListedTemplate {
    pub id: String,
    pub name: String,
    pub description: String,
    pub version: Version,
    pub language: Language,
    pub source_name: String,
}

impl TextKeyed for ListedTemplate {
    open spec fn key_view(&self) -> (Seq<char>, Seq<char>) {
        (self.id@, self.source_name@)
    }

    fn key(&self) -> (r: (&str, &str)) {
        (self.id.as_str(), self.source_name.as_str())
    }
}

/// The templates of the catalogs, one listing per template, in catalog order.
pub open spec fn listed_of(catalogs: Seq<TemplateCatalog>) -> Seq<ListedTemplate>
    decreases catalogs.len(),
{
    if catalogs.len() == 0 {
        Seq::empty()
    } else {
        let c = catalogs.last();
        listed_of(catalogs.drop_last()) + c.templates@.map_values(
            |d: crate::template_management::model::TemplateDescriptor|
                ListedTemplate {
                    id: d.metadata.id,
                    name: d.metadata.name,
                    description: d.metadata.description,
                    version: d.metadata.version,
                    language: d.metadata.language,
                    source_name: c.source_name,
                },
        )
    }
}

/// The listings of all templates of the catalogs, sorted by identifier, then by
/// source name.
pub fn listed_templates(catalogs: Vec<TemplateCatalog>) -> (r: Vec<ListedTemplate>)
    ensures
        r@.to_multiset() == listed_of(catalogs@).to_multiset(),
        sorted_by_key(r@),
        exists|idx: Seq<int>| stable_arrangement(r@, listed_of(catalogs@), idx),
{
    let ghost all = catalogs@;
    let mut out: Vec<ListedTemplate> = Vec::new();
    let mut rest = catalogs;
    let ghost mut i: int = 0;
    while rest.len() > 0
        invariant
            0 <= i <= all.len(),
            rest@ == all.skip(i),
            out@ == listed_of(all.take(i)),
        decreases rest@.len(),
    {
        let c = rest.remove(0);
        assert(all[i] == c);
        assert(all.take(i + 1).drop_last() =~= all.take(i));
        let ghost base = out@;
        let ghost tds = c.templates@;
        let source_name = c.source_name;
        let mut templates = c.templates;
        let ghost mut j: int = 0;
        while templates.len() > 0
            invariant
                0 <= j <= tds.len(),
                templates@ == tds.skip(j),
                source_name == all[i].source_name,
                tds == all[i].templates@,
                out@ == base + tds.take(j).map_values(
                    |d: crate::template_management::model::TemplateDescriptor|
                        ListedTemplate {
                            id: d.metadata.id,
                            name: d.metadata.name,
                            description: d.metadata.description,
                            version: d.metadata.version,
                            language: d.metadata.language,
                            source_name: all[i].source_name,
                        },
                ),
            decreases templates@.len(),
        {
            let d = templates.remove(0);
            assert(tds[j] == d);
            let sn = source_name.clone();
            out.push(
                ListedTemplate {
                    id: d.metadata.id,
                    name: d.metadata.name,
                    description: d.metadata.description,
                    version: d.metadata.version,
                    language: d.metadata.language,
                    source_name: sn,
                },
            );
            assert(templates@ =~= tds.skip(j + 1));
            proof {
                j = j + 1;
            }
        }
        assert(tds.take(j) =~= tds);
        assert(rest@ =~= all.skip(i + 1));
        proof {
            i = i + 1;
        }
    }
    assert(all.take(i) =~= all);
    sort_by_text_key(out)
}


/// A failed synchronisation is transient, so the source is skipped with a
/// warning, exactly when its reason mentions an unreachable remote: "could not
/// refresh remote", "could not fast-forward", "network", "connection" or
/// "timeout".
pub proof fn law_unreachable_remotes_are_transient(reason: Seq<char>)
    ensures
        has_sub(reason, "could not refresh remote"@) ==> is_transient_reason(reason),
        has_sub(reason, "could not fast-forward"@) ==> is_transient_reason(reason),
        has_sub(reason, "network"@) ==> is_transient_reason(reason),
        has_sub(reason, "connection"@) ==> is_transient_reason(reason),
        has_sub(reason, "timeout"@) ==> is_transient_reason(reason),
        is_transient_reason(reason) ==> has_sub(reason, "could not refresh remote"@) || has_sub(
            reason,
            "could not fast-forward"@,
        ) || has_sub(reason, "network"@) || has_sub(reason, "connection"@) || has_sub(
            reason,
            "timeout"@,
        ),
{
}

/// The template `ti` of the catalog `c`, as `t` lists it: with the identifier, name,
/// description, version and language of its metadata, and the catalog's source.
pub open spec fn lists_template(t: ListedTemplate, c: TemplateCatalog, ti: int) -> bool {
    &&& 0 <= ti < c.templates@.len()
    &&& t.id == c.templates@[ti].metadata.id
    &&& t.name == c.templates@[ti].metadata.name
    &&& t.description == c.templates@[ti].metadata.description
    &&& t.version == c.templates@[ti].metadata.version
    &&& t.language == c.templates@[ti].metadata.language
    &&& t.source_name == c.source_name
}

/// Every listing is that of a template of one of the catalogs: the one at `k`
/// lists the template `w.1` of the catalog `w.0`, with its identifier, name,
/// description, version and language, and the catalog's source.
pub proof fn law_listing_is_of_a_template(catalogs: Seq<TemplateCatalog>, k: int) -> (w: (int, int))
    requires
        0 <= k < listed_of(catalogs).len(),
    ensures
        0 <= w.0 < catalogs.len(),
        lists_template(listed_of(catalogs)[k], catalogs[w.0], w.1),
    decreases catalogs.len(),
{
    let front = catalogs.drop_last();
    let c = catalogs.last();
    let n = listed_of(front).len();
    if k < n {
        let w = law_listing_is_of_a_template(front, k);
        assert(catalogs[w.0] == front[w.0]);
        w
    } else {
        (catalogs.len() - 1, k - n)
    }
}

/// Every template of every catalog is listed: the template `ti` of the catalog
/// `ci` is listed, with its metadata and the catalog's source, at position `k`.
pub proof fn law_each_template_is_listed(catalogs: Seq<TemplateCatalog>, ci: int, ti: int) -> (k: int)
    requires
        0 <= ci < catalogs.len(),
        0 <= ti < catalogs[ci].templates@.len(),
    ensures
        0 <= k < listed_of(catalogs).len(),
        lists_template(listed_of(catalogs)[k], catalogs[ci], ti),
    decreases catalogs.len(),
{
    let front = catalogs.drop_last();
    let n = listed_of(front).len();
    if ci < front.len() {
        assert(catalogs[ci] == front[ci]);
        law_each_template_is_listed(front, ci, ti)
    } else {
        n + ti
    }
}

} // verus!
