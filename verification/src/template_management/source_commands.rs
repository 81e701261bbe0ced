//! Registering and removing template sources through the stores and checks that
//! the application provides.
use vstd::prelude::*;

use crate::sorting::sorted_by_key;
use crate::text::views;
use crate::template_management::model::{TemplateCatalog, TemplateSource};
use crate::template_management::template_catalog_parser::Validator;
use crate::template_management::templates_service::{
    add_source_to, check_source_input, default_registered, enabled_sources, has_source_named,
    is_critical_reason, is_transient_reason, without_named, OFFICIAL_NAME, listed_templates, remove_source_from,
    with_default_source, listed_of, CatalogDiscovery, ListedTemplate, TemplatesServiceError, cached_data_warning,
    discovery_warning, empty_source_warning, enabled_only, unreachable_warning,
};
use crate::text::{spec_trim, trim};

verus! {

/// Loads and saves the registered template sources.
pub trait ConfigStore {
    fn load_sources(&self) -> Result<Vec<TemplateSource>, String>;

    fn save_sources(&self, sources: &Vec<TemplateSource>) -> Result<(), String>;
}

/// Tells whether a text has the form of a git repository URL.
pub trait GitRepository {
    fn is_valid_git_url_format(&self, url: &str) -> bool;
}

/// Brings the cache of a template source up to date, and clears it.
pub trait TemplateSourceSynchronizer {
    /// The cache path of the source, with a warning when cached data is used.
    fn sync_source(&self, source: &TemplateSource) -> Result<(String, Option<String>), String>;

    fn clear_source_cache(&self, source_name: &str) -> Result<(), String>;
}

/// Finds the templates in the cache of a synchronised source.
pub trait TemplateCatalogSourceResolver {
    /// The catalog of the source, or the text of the error.
    fn resolve(&self, source_name: &str, cache_path: &str) -> Result<TemplateCatalog, String>;
}

/// An error that ends catalog discovery: the sources could not be loaded, or a
/// source failed in a way that is not passed over with a warning (a synchronisation
/// failure that is not transient, a discovery error that is critical).
pub open spec fn is_discovery_error(e: TemplatesServiceError) -> bool {
    ||| e is LoadSourcesFailed
    ||| e matches TemplatesServiceError::SourceSyncFailed { reason, .. } && !is_transient_reason(reason@)
    ||| e matches TemplatesServiceError::SourceDiscoveryFailed { reason, .. } && is_critical_reason(reason@)
}

/// Where catalog discovery stands: what it asks of the stores, the synchroniser
/// and the resolver next, or its outcome.
#[derive(Debug)]
pub enum DiscoveryStep {
    /// Load the registered sources.
    LoadSources,
    /// Synchronise `source`. `pending` are the enabled sources after it, in order;
    /// `gathered` is what discovery has gathered so far.
    Sync { source: TemplateSource, pending: Vec<TemplateSource>, gathered: CatalogDiscovery },
    /// Discover the templates of the source `source_name` in its cache at `cache_path`.
    Resolve {
        source_name: String,
        cache_path: String,
        pending: Vec<TemplateSource>,
        gathered: CatalogDiscovery,
    },
    /// Discovery is over: the catalogs sorted by source and the warnings, or the
    /// error that stopped it.
    Finished(Result<(Vec<TemplateCatalog>, Vec<String>), TemplatesServiceError>),
}

/// What was answered for the discovery step asked for.
#[derive(Debug)]
pub enum DiscoveryEvent {
    SourcesLoaded(Result<Vec<TemplateSource>, String>),
    /// The cache path and a warning, or why synchronising failed.
    Synced(Result<(String, Option<String>), String>),
    /// The catalog found in the cache, or the text of the error.
    Resolved(Result<TemplateCatalog, String>),
}

/// Discovery goes on with the `pending` sources, having gathered `catalogs`,
/// `warnings` and the `unreachable` sources: it synchronises the first pending
/// source, or, with none left, gives the catalogs sorted by source and the warnings,
/// with one more naming the unreachable sources, if any.
pub open spec fn advanced(
    pending: Seq<TemplateSource>,
    catalogs: Seq<TemplateCatalog>,
    warnings: Seq<Seq<char>>,
    unreachable: Seq<Seq<char>>,
    r: DiscoveryStep,
) -> bool {
    if pending.len() == 0 {
        r matches DiscoveryStep::Finished(Ok((c, w))) && c@.to_multiset() == catalogs.to_multiset()
            && sorted_by_key(c@) && views(w@) == if unreachable.len() == 0 {
            warnings
        } else {
            warnings.push(unreachable_warning(unreachable))
        }
    } else {
        r matches DiscoveryStep::Sync { source, pending: p, gathered: g } && source == pending[0] && p@
            == pending.drop_first() && g.catalogs@ == catalogs && views(g.warnings@) == warnings && views(
            g.unreachable@,
        ) == unreachable
    }
}

/// How far discovery is from its end, for termination.
pub open spec fn discovery_measure(step: DiscoveryStep) -> nat {
    match step {
        DiscoveryStep::Sync { pending, .. } => 2 * pending@.len() + 2,
        DiscoveryStep::Resolve { pending, .. } => 2 * pending@.len() + 1,
        _ => 0,
    }
}

/// Goes on with the pending sources (see `advanced`).
fn advance(pending: Vec<TemplateSource>, gathered: CatalogDiscovery) -> (r: DiscoveryStep)
    ensures
        advanced(
            pending@,
            gathered.catalogs@,
            views(gathered.warnings@),
            views(gathered.unreachable@),
            r,
        ),
{
    if pending.len() == 0 {
        DiscoveryStep::Finished(Ok(gathered.finish()))
    } else {
        let mut rest = pending;
        let ghost all = rest@;
        let source = rest.remove(0);
        assert(rest@ =~= all.drop_first());
        DiscoveryStep::Sync { source, pending: rest, gathered }
    }
}

/// The step that follows `step` when `event` answers it (see `discovery_step`).
pub open spec fn discovery_next(step: DiscoveryStep, event: DiscoveryEvent, r: DiscoveryStep) -> bool {
    match (step, event) {
        (DiscoveryStep::LoadSources, DiscoveryEvent::SourcesLoaded(Err(e))) => r == DiscoveryStep::Finished(
            Err(TemplatesServiceError::LoadSourcesFailed(e)),
        ),
        (DiscoveryStep::LoadSources, DiscoveryEvent::SourcesLoaded(Ok(v))) => advanced(
            enabled_only(v@),
            Seq::empty(),
            Seq::empty(),
            Seq::empty(),
            r,
        ),
        (DiscoveryStep::Sync { source, pending, gathered }, DiscoveryEvent::Synced(Ok((path, warning)))) => r matches DiscoveryStep::Resolve {
            source_name,
            cache_path,
            pending: p,
            gathered: g,
        } && source_name@ == source.name@ && cache_path@ == path@ && p == pending && g.catalogs@
            == gathered.catalogs@ && views(g.unreachable@) == views(gathered.unreachable@) && views(
            g.warnings@,
        ) == match warning {
            Some(w) => views(gathered.warnings@).push(cached_data_warning(source.name@, w@)),
            None => views(gathered.warnings@),
        },
        (DiscoveryStep::Sync { source, pending, gathered }, DiscoveryEvent::Synced(Err(reason))) => if is_transient_reason(
            reason@,
        ) {
            advanced(
                pending@,
                gathered.catalogs@,
                views(gathered.warnings@),
                views(gathered.unreachable@).push(source.name@),
                r,
            )
        } else {
            r matches DiscoveryStep::Finished(Err(TemplatesServiceError::SourceSyncFailed { source: s, reason: m }))
                && s@ == source.name@ && m@ == reason@
        },
        (DiscoveryStep::Resolve { source_name, pending, gathered, .. }, DiscoveryEvent::Resolved(Ok(c))) => advanced(
            pending@,
            gathered.catalogs@.push(c),
            if c.templates@.len() == 0 {
                views(gathered.warnings@).push(empty_source_warning(source_name@))
            } else {
                views(gathered.warnings@)
            },
            views(gathered.unreachable@),
            r,
        ),
        (DiscoveryStep::Resolve { source_name, pending, gathered, .. }, DiscoveryEvent::Resolved(Err(e))) => if is_critical_reason(
            e@,
        ) {
            r matches DiscoveryStep::Finished(
                Err(TemplatesServiceError::SourceDiscoveryFailed { source: s, reason: m }),
            ) && s@ == source_name@ && m@ == e@
        } else {
            advanced(
                pending@,
                gathered.catalogs@,
                views(gathered.warnings@).push(discovery_warning(source_name@, e@)),
                views(gathered.unreachable@),
                r,
            )
        },
        (s, _) => r == s,
    }
}

/// `event` answers what `step` asked for.
pub open spec fn discovery_answers(step: DiscoveryStep, event: DiscoveryEvent) -> bool {
    match step {
        DiscoveryStep::LoadSources => event is SourcesLoaded,
        DiscoveryStep::Sync { .. } => event is Synced,
        DiscoveryStep::Resolve { .. } => event is Resolved,
        DiscoveryStep::Finished(_) => false,
    }
}

/// A run of discovery: from loading the sources, each step answered by what it
/// asked for and followed by the step `discovery_step` gives.
pub open spec fn discovery_run(steps: Seq<DiscoveryStep>, events: Seq<DiscoveryEvent>) -> bool {
    &&& steps.len() == events.len() + 1
    &&& steps[0] is LoadSources
    &&& forall|i: int|
        0 <= i < events.len() ==> discovery_answers(steps[i], #[trigger] events[i]) && discovery_next(
            steps[i],
            events[i],
            steps[i + 1],
        )
}

/// One step of catalog discovery: the enabled sources are synchronised in order;
/// a source synchronised is then searched for templates in its cache. A transient
/// synchronisation failure passes the source over and names it in a warning; a
/// critical discovery error stops discovery; any other discovery error leaves a
/// warning. A step that does not expect the event stays as it is.
pub fn discovery_step(step: DiscoveryStep, event: DiscoveryEvent) -> (r: DiscoveryStep)
    ensures
        discovery_next(step, event, r),
        (step is Sync && event is Synced) || (step is Resolve && event is Resolved) ==> (r is Finished
            || discovery_measure(r) < discovery_measure(step)),
{
    match (step, event) {
        (DiscoveryStep::LoadSources, DiscoveryEvent::SourcesLoaded(loaded)) => match loaded {
            Err(e) => DiscoveryStep::Finished(Err(TemplatesServiceError::LoadSourcesFailed(e))),
            Ok(v) => {
                let gathered = CatalogDiscovery::new();
                proof {
                    assert(views(gathered.warnings@) =~= Seq::<Seq<char>>::empty());
                    assert(views(gathered.unreachable@) =~= Seq::<Seq<char>>::empty());
                    assert(gathered.catalogs@ =~= Seq::<TemplateCatalog>::empty());
                }
                advance(enabled_sources(v), gathered)
            },
        },
        (DiscoveryStep::Sync { source, pending, gathered }, DiscoveryEvent::Synced(synced)) => {
            let mut gathered = gathered;
            match gathered.record_sync(source.name.as_str(), synced) {
                Err(e) => DiscoveryStep::Finished(Err(e)),
                Ok(None) => advance(pending, gathered),
                Ok(Some(cache_path)) => DiscoveryStep::Resolve {
                    source_name: source.name,
                    cache_path,
                    pending,
                    gathered,
                },
            }
        },
        (DiscoveryStep::Resolve { source_name, cache_path, pending, gathered }, DiscoveryEvent::Resolved(resolved)) => {
            let mut gathered = gathered;
            match gathered.record_catalog(source_name.as_str(), resolved) {
                Err(e) => DiscoveryStep::Finished(Err(e)),
                Ok(()) => advance(pending, gathered),
            }
        },
        (s, _) => s,
    }
}

/// Where a change to the registered sources stands: what it asks of the stores
/// next, or its outcome.
#[derive(Debug)]
pub enum SourceStoreStep {
    /// Load the registered sources.
    LoadSources,
    /// Clear the cache of the source `source_name`; `sources` are saved next.
    ClearCache { source_name: String, sources: Vec<TemplateSource> },
    /// Save `sources` as the registered sources.
    SaveSources { sources: Vec<TemplateSource> },
    /// The change is done.
    Finished(Result<(), TemplatesServiceError>),
}

/// What the stores answered for the step they were asked to take.
#[derive(Debug)]
pub enum SourceStoreEvent {
    SourcesLoaded(Result<Vec<TemplateSource>, String>),
    CacheCleared(Result<(), String>),
    SourcesSaved(Result<(), String>),
}

/// The next step of every source change once the sources are loaded: clear the
/// cache, then save, mapping each store failure to its error. A step that is not
/// one of these, or does not expect the event, stays as it is.
pub open spec fn store_next(step: SourceStoreStep, event: SourceStoreEvent, r: SourceStoreStep) -> bool {
    match (step, event) {
        (SourceStoreStep::LoadSources, SourceStoreEvent::SourcesLoaded(Err(e))) => r == SourceStoreStep::Finished(
            Err(TemplatesServiceError::LoadSourcesFailed(e)),
        ),
        (SourceStoreStep::ClearCache { sources, .. }, SourceStoreEvent::CacheCleared(Ok(()))) => r
            == (SourceStoreStep::SaveSources { sources }),
        (SourceStoreStep::ClearCache { .. }, SourceStoreEvent::CacheCleared(Err(e))) => r == SourceStoreStep::Finished(
            Err(TemplatesServiceError::CacheCleanupFailed(e)),
        ),
        (SourceStoreStep::SaveSources { .. }, SourceStoreEvent::SourcesSaved(Ok(()))) => r == SourceStoreStep::Finished(
            Ok(()),
        ),
        (SourceStoreStep::SaveSources { .. }, SourceStoreEvent::SourcesSaved(Err(e))) => r == SourceStoreStep::Finished(
            Err(TemplatesServiceError::SaveSourcesFailed(e)),
        ),
        (s, _) => r == s,
    }
}

/// Takes the steps every source change shares (see `store_next`).
fn shared_store_step(step: SourceStoreStep, event: SourceStoreEvent) -> (r: SourceStoreStep)
    ensures
        store_next(step, event, r),
{
    match (step, event) {
        (SourceStoreStep::LoadSources, SourceStoreEvent::SourcesLoaded(Err(e))) => SourceStoreStep::Finished(
            Err(TemplatesServiceError::LoadSourcesFailed(e)),
        ),
        (SourceStoreStep::ClearCache { source_name, sources }, SourceStoreEvent::CacheCleared(cleared)) => {
            match cleared {
                Ok(()) => SourceStoreStep::SaveSources { sources },
                Err(e) => SourceStoreStep::Finished(Err(TemplatesServiceError::CacheCleanupFailed(e))),
            }
        },
        (SourceStoreStep::SaveSources { sources }, SourceStoreEvent::SourcesSaved(saved)) => match saved {
            Ok(()) => SourceStoreStep::Finished(Ok(())),
            Err(e) => SourceStoreStep::Finished(Err(TemplatesServiceError::SaveSourcesFailed(e))),
        },
        (s, _) => s,
    }
}

pub open spec fn default_source_next(step: SourceStoreStep, event: SourceStoreEvent, r: SourceStoreStep) -> bool {
    match (step, event) {
        (SourceStoreStep::LoadSources, SourceStoreEvent::SourcesLoaded(Ok(v))) => if has_source_named(
            v@,
            OFFICIAL_NAME@,
        ) {
            r == SourceStoreStep::Finished(Ok(()))
        } else {
            r matches SourceStoreStep::SaveSources { sources } && default_registered(v@, sources@)
        },
        (s, ev) => store_next(s, ev, r),
    }
}

/// Registering the official source: once the sources are loaded, they are saved
/// with the official source added, unless a source of its name is registered.
pub fn default_source_step(step: SourceStoreStep, event: SourceStoreEvent) -> (r: SourceStoreStep)
    ensures
        default_source_next(step, event, r),
{
    match (step, event) {
        (SourceStoreStep::LoadSources, SourceStoreEvent::SourcesLoaded(Ok(v))) => {
            let (sources, changed) = with_default_source(v);
            if changed {
                SourceStoreStep::SaveSources { sources }
            } else {
                SourceStoreStep::Finished(Ok(()))
            }
        },
        (s, ev) => shared_store_step(s, ev),
    }
}

pub open spec fn removal_next(name: Seq<char>, step: SourceStoreStep, event: SourceStoreEvent, r: SourceStoreStep) -> bool {
    match (step, event) {
        (SourceStoreStep::LoadSources, SourceStoreEvent::SourcesLoaded(Ok(v))) => if has_source_named(
            v@,
            spec_trim(name),
        ) {
            r matches SourceStoreStep::ClearCache { source_name, sources } && source_name@ == spec_trim(
                name,
            ) && sources@ == without_named(v@, spec_trim(name))
        } else {
            r matches SourceStoreStep::Finished(Err(TemplatesServiceError::SourceNotFound(n))) && n@
                == spec_trim(name)
        },
        (s, ev) => store_next(s, ev, r),
    }
}

/// Removing the source of the trimmed `name`: once the sources are loaded, its
/// cache is cleared and the others are saved; an error when none has that name.
pub fn removal_step(name: &str, step: SourceStoreStep, event: SourceStoreEvent) -> (r: SourceStoreStep)
    ensures
        removal_next(name@, step, event, r),
{
    match (step, event) {
        (SourceStoreStep::LoadSources, SourceStoreEvent::SourcesLoaded(Ok(v))) => {
            let source_name = trim(name);
            match remove_source_from(v, source_name.as_str()) {
                Ok(sources) => SourceStoreStep::ClearCache { source_name, sources },
                Err(e) => SourceStoreStep::Finished(Err(e)),
            }
        },
        (s, ev) => shared_store_step(s, ev),
    }
}

/// A source named `name` with repository `url`, enabled.
pub open spec fn is_new_source(s: TemplateSource, name: Seq<char>, url: Seq<char>) -> bool {
    s.name@ == name && s.url@ == url && s.enabled
}

/// `after` is `before` with a new source named `name` for `url` added, sorted by name.
pub open spec fn with_source_added(
    before: Seq<TemplateSource>,
    after: Seq<TemplateSource>,
    name: Seq<char>,
    url: Seq<char>,
) -> bool {
    &&& exists|s: TemplateSource| #[trigger] is_new_source(s, name, url) && after.to_multiset()
        == before.to_multiset().insert(s)
    &&& sorted_by_key(after)
}

pub open spec fn registration_next(name: Seq<char>, url: Seq<char>, step: SourceStoreStep, event: SourceStoreEvent, r: SourceStoreStep) -> bool {
    match (step, event) {
        (SourceStoreStep::LoadSources, SourceStoreEvent::SourcesLoaded(Ok(v))) => if has_source_named(
            v@,
            spec_trim(name),
        ) {
            r matches SourceStoreStep::Finished(Err(TemplatesServiceError::SourceAlreadyExists(n))) && n@
                == spec_trim(name)
        } else {
            r matches SourceStoreStep::SaveSources { sources } && with_source_added(
                v@,
                sources@,
                spec_trim(name),
                spec_trim(url),
            )
        },
        (s, ev) => store_next(s, ev, r),
    }
}

/// Registering a source of the trimmed `name` and `url` whose input was accepted:
/// once the sources are loaded, they are saved with it added, sorted by name; an
/// error when a source of that name is registered.
pub fn registration_step(name: &str, url: &str, step: SourceStoreStep, event: SourceStoreEvent) -> (r:
    SourceStoreStep)
    ensures
        registration_next(name@, url@, step, event, r),
{
    match (step, event) {
        (SourceStoreStep::LoadSources, SourceStoreEvent::SourcesLoaded(Ok(v))) => {
            let added = TemplateSource::new(trim(name), trim(url));
            let ghost source = added;
            match add_source_to(v, added) {
                Ok(sources) => {
                    assert(is_new_source(source, spec_trim(name@), spec_trim(url@)));
                    SourceStoreStep::SaveSources { sources }
                },
                Err(e) => SourceStoreStep::Finished(Err(e)),
            }
        },
        (s, ev) => shared_store_step(s, ev),
    }
}

/// `event` answers what `step` asked of the stores.
pub open spec fn store_answers(step: SourceStoreStep, event: SourceStoreEvent) -> bool {
    match step {
        SourceStoreStep::LoadSources => event is SourcesLoaded,
        SourceStoreStep::ClearCache { .. } => event is CacheCleared,
        SourceStoreStep::SaveSources { .. } => event is SourcesSaved,
        SourceStoreStep::Finished(_) => false,
    }
}

/// A run of the registration of the official source: from loading the sources,
/// each step answered by what it asked for and followed by what `default_source_step` gives.
pub open spec fn default_source_run(steps: Seq<SourceStoreStep>, events: Seq<SourceStoreEvent>) -> bool {
    &&& steps.len() == events.len() + 1
    &&& steps[0] is LoadSources
    &&& forall|i: int|
        0 <= i < events.len() ==> store_answers(steps[i], #[trigger] events[i]) && default_source_next(
            steps[i],
            events[i],
            steps[i + 1],
        )
}

/// A run of the removal of the source `name` (see `removal_step`).
pub open spec fn removal_run(name: Seq<char>, steps: Seq<SourceStoreStep>, events: Seq<SourceStoreEvent>) -> bool {
    &&& steps.len() == events.len() + 1
    &&& steps[0] is LoadSources
    &&& forall|i: int|
        0 <= i < events.len() ==> store_answers(steps[i], #[trigger] events[i]) && removal_next(
            name,
            steps[i],
            events[i],
            steps[i + 1],
        )
}

/// A run of the registration of the source `name` for `url` (see `registration_step`).
pub open spec fn registration_run(
    name: Seq<char>,
    url: Seq<char>,
    steps: Seq<SourceStoreStep>,
    events: Seq<SourceStoreEvent>,
) -> bool {
    &&& steps.len() == events.len() + 1
    &&& steps[0] is LoadSources
    &&& forall|i: int|
        0 <= i < events.len() ==> store_answers(steps[i], #[trigger] events[i]) && registration_next(
            name,
            url,
            steps[i],
            events[i],
            steps[i + 1],
        )
}

/// A run goes on by one more answered step.
proof fn lemma_default_source_run_push(steps: Seq<SourceStoreStep>, events: Seq<SourceStoreEvent>, e: SourceStoreEvent, s: SourceStoreStep)
    requires
        default_source_run(steps, events),
        store_answers(steps.last(), e),
        default_source_next(steps.last(), e, s),
    ensures
        default_source_run(steps.push(s), events.push(e)),
{
    let s2 = steps.push(s);
    let e2 = events.push(e);
    assert forall|i: int| 0 <= i < e2.len() implies store_answers(s2[i], #[trigger] e2[i]) && default_source_next(
        s2[i],
        e2[i],
        s2[i + 1],
    ) by {
        if i < events.len() {
            assert(s2[i] == steps[i]);
            assert(s2[i + 1] == steps[i + 1]);
            assert(e2[i] == events[i]);
        } else {
            assert(s2[i] == steps.last());
            assert(e2[i] == e);
            assert(s2[i + 1] == s);
        }
    }
}

/// A run goes on by one more answered step.
proof fn lemma_removal_run_push(name: Seq<char>, steps: Seq<SourceStoreStep>, events: Seq<SourceStoreEvent>, e: SourceStoreEvent, s: SourceStoreStep)
    requires
        removal_run(name, steps, events),
        store_answers(steps.last(), e),
        removal_next(name, steps.last(), e, s),
    ensures
        removal_run(name, steps.push(s), events.push(e)),
{
    let s2 = steps.push(s);
    let e2 = events.push(e);
    assert forall|i: int| 0 <= i < e2.len() implies store_answers(s2[i], #[trigger] e2[i]) && removal_next(
        name, s2[i],
        e2[i],
        s2[i + 1],
    ) by {
        if i < events.len() {
            assert(s2[i] == steps[i]);
            assert(s2[i + 1] == steps[i + 1]);
            assert(e2[i] == events[i]);
        } else {
            assert(s2[i] == steps.last());
            assert(e2[i] == e);
            assert(s2[i + 1] == s);
        }
    }
}

/// A run goes on by one more answered step.
proof fn lemma_registration_run_push(name: Seq<char>, url: Seq<char>, steps: Seq<SourceStoreStep>, events: Seq<SourceStoreEvent>, e: SourceStoreEvent, s: SourceStoreStep)
    requires
        registration_run(name, url, steps, events),
        store_answers(steps.last(), e),
        registration_next(name, url, steps.last(), e, s),
    ensures
        registration_run(name, url, steps.push(s), events.push(e)),
{
    let s2 = steps.push(s);
    let e2 = events.push(e);
    assert forall|i: int| 0 <= i < e2.len() implies store_answers(s2[i], #[trigger] e2[i]) && registration_next(
        name, url, s2[i],
        e2[i],
        s2[i + 1],
    ) by {
        if i < events.len() {
            assert(s2[i] == steps[i]);
            assert(s2[i + 1] == steps[i + 1]);
            assert(e2[i] == events[i]);
        } else {
            assert(s2[i] == steps.last());
            assert(e2[i] == e);
            assert(s2[i + 1] == s);
        }
    }
}

/// Adds a template source.
#[derive(Debug)]
pub struct AddTemplateSourceCommand {
    pub name: String,
    pub url: String,
}

/// What adding a template source reports.
#[derive(Debug)]
pub struct AddTemplateSourceCommandResult {
    pub source_name: String,
}

/// An error that registering the source `name` with repository `url` can end in:
/// a refused name or URL, as given; the sources could not be loaded or saved; or a
/// source of the trimmed name is registered already.
pub open spec fn is_registration_error(e: TemplatesServiceError, name: Seq<char>, url: Seq<char>) -> bool {
    ||| e matches TemplatesServiceError::InvalidSourceName(n) && n@ == name
    ||| e matches TemplatesServiceError::InvalidSourceUrl(u) && u@ == url
    ||| e is LoadSourcesFailed
    ||| e matches TemplatesServiceError::SourceAlreadyExists(n) && n@ == spec_trim(name)
    ||| e is SaveSourcesFailed
}

/// The refusal of a source whose URL is blank: its name, when the validator finds
/// it is not kebab-case, else its URL.
pub open spec fn is_blank_url_refusal(e: TemplatesServiceError, name: Seq<char>, url: Seq<char>) -> bool {
    ||| e matches TemplatesServiceError::InvalidSourceName(n) && n@ == name
    ||| e matches TemplatesServiceError::InvalidSourceUrl(u) && u@ == url
}

/// The refusal of the name or URL of a source, as given.
pub open spec fn is_input_refusal(e: TemplatesServiceError, name: Seq<char>, url: Seq<char>) -> bool {
    ||| e matches TemplatesServiceError::InvalidSourceName(n) && n@ == name
    ||| e matches TemplatesServiceError::InvalidSourceUrl(u) && u@ == url
}

/// `r` is how a run of the registration of `name` for `url` ended.
pub open spec fn registered(name: Seq<char>, url: Seq<char>, r: Result<(), TemplatesServiceError>) -> bool {
    exists|steps: Seq<SourceStoreStep>, events: Seq<SourceStoreEvent>|
        #[trigger] registration_run(name, url, steps, events) && steps.last() == SourceStoreStep::Finished(r)
}

/// The outcome of a registration without the name it reports.
pub open spec fn unit_outcome<T>(r: Result<T, TemplatesServiceError>) -> Result<(), TemplatesServiceError> {
    match r {
        Ok(_) => Ok(()),
        Err(e) => Err(e),
    }
}

/// Registers a source: trimmed name and URL, checked, not yet registered; the
/// sources are saved sorted by name.
fn register_source<CS: ConfigStore, V: Validator, G: GitRepository>(
    config_store: &CS,
    validator: &V,
    git_repository: &G,
    name: &str,
    url: &str,
) -> (r: Result<String, TemplatesServiceError>)
    ensures
        (r matches Err(e) && is_input_refusal(e, name@, url@)) || registered(name@, url@, unit_outcome(r)),
        spec_trim(url@).len() == 0 ==> (r matches Err(e) && is_blank_url_refusal(e, name@, url@)),
        r matches Ok(n) ==> n@ == spec_trim(name@),
        r matches Err(e) ==> is_registration_error(e, name@, url@),
{
    let normalized_name = trim(name);
    let normalized_url = trim(url);
    let name_ok = validator.is_kebab_case(normalized_name.as_str());
    let url_ok = normalized_url.unicode_len() > 0 && git_repository.is_valid_git_url_format(
        normalized_url.as_str(),
    );
    check_source_input(name, url, normalized_url.as_str(), name_ok, url_ok)?;
    let loaded = config_store.load_sources();
    let ghost mut steps: Seq<SourceStoreStep> = seq![SourceStoreStep::LoadSources];
    let ghost mut events: Seq<SourceStoreEvent> = Seq::empty();
    let ghost e0 = SourceStoreEvent::SourcesLoaded(loaded);
    let step = registration_step(name, url, SourceStoreStep::LoadSources, SourceStoreEvent::SourcesLoaded(loaded));
    proof {
        lemma_registration_run_push(name@, url@, steps, events, e0, step);
        steps = steps.push(step);
        events = events.push(e0);
    }
    let step = match step {
        SourceStoreStep::SaveSources { sources } => {
            let saved = config_store.save_sources(&sources);
            let ghost e1 = SourceStoreEvent::SourcesSaved(saved);
            let next = registration_step(name, url, SourceStoreStep::SaveSources { sources }, SourceStoreEvent::SourcesSaved(saved));
            proof {
                lemma_registration_run_push(name@, url@, steps, events, e1, next);
                steps = steps.push(next);
                events = events.push(e1);
            }
            next
        },
        s => s,
    };
    assert(registration_run(name@, url@, steps, events) && steps.last() == step);
    match step {
        SourceStoreStep::Finished(Ok(())) => Ok(normalized_name),
        SourceStoreStep::Finished(Err(e)) => Err(e),
        _ => {
            assert(false);
            Ok(normalized_name)
        },
    }
}

/// Handles the command that adds a template source.
#[derive(Debug)]
pub struct AddTemplateSourceCommandHandler<CS, V, G> {
    pub config_store: CS,
    pub validator: V,
    pub git_repository: G,
}

impl<CS: ConfigStore, V: Validator, G: GitRepository> AddTemplateSourceCommandHandler<CS, V, G> {
    pub fn new(config_store: CS, validator: V, git_repository: G) -> (r: Self)
        ensures
            r.config_store == config_store,
            r.validator == validator,
            r.git_repository == git_repository,
    {
        AddTemplateSourceCommandHandler { config_store, validator, git_repository }
    }

    /// Registers the source of the command and reports its trimmed name.
    pub fn handle(&self, command: &AddTemplateSourceCommand) -> (r: Result<
        AddTemplateSourceCommandResult,
        TemplatesServiceError,
    >)
        ensures
            spec_trim(command.url@).len() == 0 ==> (r matches Err(e) && is_blank_url_refusal(
                e,
                command.name@,
                command.url@,
            )),
            (r matches Err(e) && is_input_refusal(e, command.name@, command.url@)) || registered(
                command.name@,
                command.url@,
                unit_outcome(r),
            ),
            r matches Ok(res) ==> res.source_name@ == spec_trim(command.name@),
            r matches Err(e) ==> is_registration_error(e, command.name@, command.url@),
    {
        let source_name = register_source(
            &self.config_store,
            &self.validator,
            &self.git_repository,
            command.name.as_str(),
            command.url.as_str(),
        )?;
        Ok(AddTemplateSourceCommandResult { source_name })
    }
}

/// Manages the registered template sources and discovers their catalogs with
/// `catalog_resolver`.
#[derive(Debug)]
pub struct TemplatesService<R, K, CS, V, G> {
    pub source_synchronizer: R,
    pub catalog_resolver: K,
    pub config_store: CS,
    pub validator: V,
    pub git_repository: G,
}

impl<R: TemplateSourceSynchronizer, K, CS: ConfigStore, V: Validator, G: GitRepository> TemplatesService<
    R,
    K,
    CS,
    V,
    G,
> {
    pub fn new(source_synchronizer: R, catalog_resolver: K, config_store: CS, validator: V, git_repository: G) -> (r:
        Self)
        ensures
            r.source_synchronizer == source_synchronizer,
            r.catalog_resolver == catalog_resolver,
            r.config_store == config_store,
            r.validator == validator,
            r.git_repository == git_repository,
    {
        TemplatesService { source_synchronizer, catalog_resolver, config_store, validator, git_repository }
    }

    /// Registers the official source unless a source of its name is registered.
    pub fn ensure_default_source_registered(&self) -> (r: Result<(), TemplatesServiceError>)
        ensures
            exists|steps: Seq<SourceStoreStep>, events: Seq<SourceStoreEvent>|
                #[trigger] default_source_run(steps, events) && steps.last() == SourceStoreStep::Finished(r),
            r is Ok || r matches Err(TemplatesServiceError::LoadSourcesFailed(_)) || r matches Err(
                TemplatesServiceError::SaveSourcesFailed(_),
            ),
    {
        let loaded = self.config_store.load_sources();
        let ghost mut steps: Seq<SourceStoreStep> = seq![SourceStoreStep::LoadSources];
        let ghost mut events: Seq<SourceStoreEvent> = Seq::empty();
        let ghost e0 = SourceStoreEvent::SourcesLoaded(loaded);
        let step = default_source_step(SourceStoreStep::LoadSources, SourceStoreEvent::SourcesLoaded(loaded));
        proof {
            lemma_default_source_run_push(steps, events, e0, step);
            steps = steps.push(step);
            events = events.push(e0);
        }
        let step = match step {
            SourceStoreStep::SaveSources { sources } => {
                let saved = self.config_store.save_sources(&sources);
                let ghost e2 = SourceStoreEvent::SourcesSaved(saved);
                let next = default_source_step(SourceStoreStep::SaveSources { sources }, SourceStoreEvent::SourcesSaved(saved));
                proof {
                    lemma_default_source_run_push(steps, events, e2, next);
                    steps = steps.push(next);
                    events = events.push(e2);
                }
                next
            },
            s => s,
        };
        match step {
            SourceStoreStep::Finished(r) => {
                assert(default_source_run(steps, events) && steps.last() == SourceStoreStep::Finished(r));
                r
            },
            _ => {
                assert(false);
                Ok(())
            },
        }
    }

    /// Registers a source: trimmed name and URL, checked, not yet registered.
    pub fn add_source(&self, name: &str, url: &str) -> (r: Result<(), TemplatesServiceError>)
        ensures
            (r matches Err(e) && is_input_refusal(e, name@, url@)) || registered(name@, url@, r),
            spec_trim(url@).len() == 0 ==> (r matches Err(e) && is_blank_url_refusal(e, name@, url@)),
            r matches Err(e) ==> is_registration_error(e, name@, url@),
    {
        register_source(&self.config_store, &self.validator, &self.git_repository, name, url)?;
        Ok(())
    }

    /// Removes the source of the trimmed name and clears its cache.
    pub fn remove_source(&self, name: &str) -> (r: Result<(), TemplatesServiceError>)
        ensures
            exists|steps: Seq<SourceStoreStep>, events: Seq<SourceStoreEvent>|
                #[trigger] removal_run(name@, steps, events) && steps.last() == SourceStoreStep::Finished(r),
            r is Ok || r matches Err(TemplatesServiceError::LoadSourcesFailed(_)) || (r matches Err(
                TemplatesServiceError::SourceNotFound(n),
            ) && n@ == spec_trim(name@)) || r matches Err(TemplatesServiceError::CacheCleanupFailed(_))
                || r matches Err(TemplatesServiceError::SaveSourcesFailed(_)),
    {
        let loaded = self.config_store.load_sources();
        let ghost mut steps: Seq<SourceStoreStep> = seq![SourceStoreStep::LoadSources];
        let ghost mut events: Seq<SourceStoreEvent> = Seq::empty();
        let ghost e0 = SourceStoreEvent::SourcesLoaded(loaded);
        let step = removal_step(name, SourceStoreStep::LoadSources, SourceStoreEvent::SourcesLoaded(loaded));
        proof {
            lemma_removal_run_push(name@, steps, events, e0, step);
            steps = steps.push(step);
            events = events.push(e0);
        }
        let step = match step {
            SourceStoreStep::ClearCache { source_name, sources } => {
                let cleared = self.source_synchronizer.clear_source_cache(source_name.as_str());
                let ghost e1 = SourceStoreEvent::CacheCleared(cleared);
                let next = removal_step(
                    name, SourceStoreStep::ClearCache { source_name, sources },
                    SourceStoreEvent::CacheCleared(cleared),
                );
                proof {
                    lemma_removal_run_push(name@, steps, events, e1, next);
                    steps = steps.push(next);
                    events = events.push(e1);
                }
                next
            },
            s => s,
        };
        let step = match step {
            SourceStoreStep::SaveSources { sources } => {
                let saved = self.config_store.save_sources(&sources);
                let ghost e2 = SourceStoreEvent::SourcesSaved(saved);
                let next = removal_step(name, SourceStoreStep::SaveSources { sources }, SourceStoreEvent::SourcesSaved(saved));
                proof {
                    lemma_removal_run_push(name@, steps, events, e2, next);
                    steps = steps.push(next);
                    events = events.push(e2);
                }
                next
            },
            s => s,
        };
        match step {
            SourceStoreStep::Finished(r) => {
                assert(removal_run(name@, steps, events) && steps.last() == SourceStoreStep::Finished(r));
                r
            },
            _ => {
                assert(false);
                Ok(())
            },
        }
    }
}

impl<
    R: TemplateSourceSynchronizer,
    K: TemplateCatalogSourceResolver,
    CS: ConfigStore,
    V: Validator,
    G: GitRepository,
> TemplatesService<R, K, CS, V, G> {
    /// The catalogs of the enabled sources, sorted by source name, and the warnings:
    /// each source is synchronised, then its templates are discovered in its cache,
    /// one `discovery_step` at a time; an unreachable source, a source served from
    /// its cache, an empty catalog and a discovery error that is not critical each
    /// leave a warning.
    pub fn discover_catalogs(&self) -> (r: Result<(Vec<TemplateCatalog>, Vec<String>), TemplatesServiceError>)
        ensures
            exists|steps: Seq<DiscoveryStep>, events: Seq<DiscoveryEvent>|
                #[trigger] discovery_run(steps, events) && steps.last() == DiscoveryStep::Finished(r),
            match r {
                Ok((catalogs, _)) => sorted_by_key(catalogs@),
                Err(e) => is_discovery_error(e),
            },
    {
        let loaded = self.config_store.load_sources();
        let ghost first_event = DiscoveryEvent::SourcesLoaded(loaded);
        let mut step = discovery_step(DiscoveryStep::LoadSources, DiscoveryEvent::SourcesLoaded(loaded));
        let ghost mut steps: Seq<DiscoveryStep> = seq![DiscoveryStep::LoadSources, step];
        let ghost mut events: Seq<DiscoveryEvent> = seq![first_event];
        proof {
            assert(discovery_answers(steps[0], events[0]));
            assert(discovery_next(steps[0], events[0], steps[1]));
        }
        while !(matches!(step, DiscoveryStep::Finished(_)))
            invariant
                !(step is LoadSources),
                step matches DiscoveryStep::Finished(Ok((c, _))) ==> sorted_by_key(c@),
                step matches DiscoveryStep::Finished(Err(e)) ==> is_discovery_error(e),
                discovery_run(steps, events),
                steps.last() == step,
            decreases discovery_measure(step),
        {
            let event = match &step {
                DiscoveryStep::Sync { source, .. } => DiscoveryEvent::Synced(self.source_synchronizer.sync_source(source)),
                DiscoveryStep::Resolve { source_name, cache_path, .. } => DiscoveryEvent::Resolved(
                    self.catalog_resolver.resolve(source_name.as_str(), cache_path.as_str()),
                ),
                _ => {
                    assert(false);
                    DiscoveryEvent::Synced(Err(String::new()))
                },
            };
            let ghost prev = step;
            let ghost ev = event;
            step = discovery_step(step, event);
            proof {
                let old_steps = steps;
                let old_events = events;
                assert(discovery_answers(prev, ev));
                steps = old_steps.push(step);
                events = old_events.push(ev);
                assert forall|i: int| 0 <= i < events.len() implies discovery_answers(steps[i], #[trigger] events[i])
                    && discovery_next(steps[i], events[i], steps[i + 1]) by {
                    if i < old_events.len() {
                        assert(steps[i] == old_steps[i]);
                        assert(steps[i + 1] == old_steps[i + 1]);
                        assert(events[i] == old_events[i]);
                    } else {
                        assert(steps[i] == prev);
                        assert(events[i] == ev);
                        assert(steps[i + 1] == step);
                    }
                }
            }
        }
        match step {
            DiscoveryStep::Finished(r) => r,
            _ => {
                assert(false);
                Ok((Vec::new(), Vec::new()))
            },
        }
    }

    /// The templates of all discovered catalogs, sorted by identifier then source,
    /// and the warnings of the discovery.
    pub fn list_templates(&self) -> (r: Result<(Vec<ListedTemplate>, Vec<String>), TemplatesServiceError>)
        ensures
            match r {
                Ok((templates, warnings)) => exists|
                    steps: Seq<DiscoveryStep>,
                    events: Seq<DiscoveryEvent>,
                    catalogs: Vec<TemplateCatalog>,
                |
                    #![trigger discovery_run(steps, events), listed_of(catalogs@)]
                    discovery_run(steps, events) && steps.last() == DiscoveryStep::Finished(
                        Ok((catalogs, warnings)),
                    ) && templates@.to_multiset() == listed_of(catalogs@).to_multiset(),
                Err(e) => exists|steps: Seq<DiscoveryStep>, events: Seq<DiscoveryEvent>|
                    #[trigger] discovery_run(steps, events) && steps.last() == DiscoveryStep::Finished(Err(e)),
            },
            match r {
                Ok((templates, _)) => sorted_by_key(templates@),
                Err(e) => is_discovery_error(e),
            },
    {
        match self.discover_catalogs() {
            Ok((catalogs, warnings)) => {
                let ghost c = catalogs;
                let templates = listed_templates(catalogs);
                assert(templates@.to_multiset() == listed_of(c@).to_multiset());
                Ok((templates, warnings))
            },
            Err(e) => Err(e),
        }
    }
}

} // verus!
