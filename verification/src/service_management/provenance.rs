//! Recording which generator a service was created from.
use vstd::prelude::*;

use crate::service_management::add_service_error::AddServiceError;

verus! {

/// The generator, and its version, that a service was created from.
#[derive(Debug, Clone, PartialEq, Eq)]
pub struct ServiceGeneratorProvenanceRecord {
    pub service_name: String,
    pub generator_id: String,
    pub generator_version: String,
}

/// Stores provenance records in a workspace.
pub trait ServiceProvenanceStore {
    fn persist_service_provenance(
        &self,
        workspace_root: &str,
        record: &ServiceGeneratorProvenanceRecord,
    ) -> Result<(), String>;
}

/// The record of a service and the generator it was created from.
pub fn provenance_record(service_name: &str, generator_id: &str, generator_version: &str) -> (r:
    ServiceGeneratorProvenanceRecord)
    ensures
        r.service_name@ == service_name@,
        r.generator_id@ == generator_id@,
        r.generator_version@ == generator_version@,
{
    ServiceGeneratorProvenanceRecord {
        service_name: service_name.to_owned(),
        generator_id: generator_id.to_owned(),
        generator_version: generator_version.to_owned(),
    }
}

/// The outcome of persisting provenance, as an `add service` result.
pub fn provenance_outcome(stored: Result<(), String>) -> (r: Result<(), AddServiceError>)
    ensures
        match stored {
            Ok(()) => r is Ok,
            Err(e) => r matches Err(AddServiceError::ProvenanceWriteFailed(m)) && m == e,
        },
{
    match stored {
        Ok(()) => Ok(()),
        Err(e) => Err(AddServiceError::ProvenanceWriteFailed(e)),
    }
}

/// Persists the generator a service was created from.
#[derive(Debug, Clone)]
pub struct ServiceGeneratorProvenanceService<S> {
    pub store: S,
}

impl<S: ServiceProvenanceStore> ServiceGeneratorProvenanceService<S> {
    pub fn new(store: S) -> (r: Self)
        ensures
            r.store == store,
    {
        ServiceGeneratorProvenanceService { store }
    }

    /// The record this service hands the store for a service: its name, and the
    /// identifier and version it was created from.
    pub fn record(&self, service_name: &str, generator_id: &str, generator_version: &str) -> (r: ServiceGeneratorProvenanceRecord)
        ensures
            r.service_name@ == service_name@,
            r.generator_id@ == generator_id@,
            r.generator_version@ == generator_version@,
    {
        provenance_record(service_name, generator_id, generator_version)
    }

    /// Hands the store the record `record` gives, and answers as `provenance_outcome`
    /// maps the store's answer: a store failure becomes `ProvenanceWriteFailed`.
    pub fn persist(&self, workspace_root: &str, service_name: &str, generator_id: &str, generator_version: &str) -> (r:
        Result<(), AddServiceError>)
        ensures
            r is Ok || r matches Err(AddServiceError::ProvenanceWriteFailed(_)),
    {
        let record = self.record(service_name, generator_id, generator_version);
        let stored = self.store.persist_service_provenance(workspace_root, &record);
        provenance_outcome(stored)
    }
}

/// Persists the template a service was created from, as a provenance record.
#[derive(Debug, Clone)]
pub struct ServiceTemplateProvenanceService<S> {
    pub store: S,
}

impl<S: ServiceProvenanceStore> ServiceTemplateProvenanceService<S> {
    pub fn new(store: S) -> (r: Self)
        ensures
            r.store == store,
    {
        ServiceTemplateProvenanceService { store }
    }

    /// The record this service hands the store for a service: its name, and the
    /// identifier and version it was created from.
    pub fn record(&self, service_name: &str, template_id: &str, template_version: &str) -> (r: ServiceGeneratorProvenanceRecord)
        ensures
            r.service_name@ == service_name@,
            r.generator_id@ == template_id@,
            r.generator_version@ == template_version@,
    {
        provenance_record(service_name, template_id, template_version)
    }

    /// Hands the store the record `record` gives, and answers as `provenance_outcome`
    /// maps the store's answer: a store failure becomes `ProvenanceWriteFailed`.
    pub fn persist(&self, workspace_root: &str, service_name: &str, template_id: &str, template_version: &str) -> (r:
        Result<(), AddServiceError>)
        ensures
            r is Ok || r matches Err(AddServiceError::ProvenanceWriteFailed(_)),
    {
        let record = self.record(service_name, template_id, template_version);
        let stored = self.store.persist_service_provenance(workspace_root, &record);
        provenance_outcome(stored)
    }
}

} // verus!
