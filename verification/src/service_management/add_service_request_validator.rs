//! The checks an `add service` request must pass before anything is generated.
use vstd::prelude::*;

use crate::service_management::add_service_command::{opt_string_view, AddServiceCommandRequest};
use crate::service_management::add_service_error::AddServiceError;
use crate::template_management::artifact_generation_service::{is_identifier, is_identifier_char};
use crate::text::chars_of;

verus! {

/// A valid service name: non-empty, made of ASCII letters and digits, `-` and `_`.
pub open spec fn is_valid_service_name(name: Seq<char>) -> bool {
    is_identifier(name)
}

/// What a request check finds wrong, if anything: in non-interactive mode a missing
/// name, then a missing template; then an invalid name.
pub open spec fn request_error(
    name: Option<Seq<char>>,
    template: Option<Seq<char>>,
    non_interactive: bool,
) -> Option<AddServiceErrorKind> {
    if non_interactive && name is None {
        Some(AddServiceErrorKind::MissingRequiredInput("name"@))
    } else if non_interactive && template is None {
        Some(AddServiceErrorKind::MissingRequiredInput("template"@))
    } else {
        match name {
            Some(n) => if is_valid_service_name(n) {
                None
            } else {
                Some(AddServiceErrorKind::InvalidServiceName(n))
            },
            None => None,
        }
    }
}

/// The kinds of request errors, with their texts.
pub enum AddServiceErrorKind {
    MissingRequiredInput(Seq<char>),
    InvalidServiceName(Seq<char>),
}

/// The error value a request error kind stands for.
pub open spec fn is_error_of_kind(e: AddServiceError, k: AddServiceErrorKind) -> bool {
    match k {
        AddServiceErrorKind::MissingRequiredInput(f) => e matches AddServiceError::MissingRequiredInput(
            g,
        ) && g@ == f,
        AddServiceErrorKind::InvalidServiceName(n) => e matches AddServiceError::InvalidServiceName(m)
            && m@ == n,
    }
}

/// Checks `add service` requests.
#[derive(Debug, Default, Clone, Copy)]
pub struct AddServiceRequestValidator;

impl AddServiceRequestValidator {
    pub fn new() -> (r: AddServiceRequestValidator) {
        AddServiceRequestValidator
    }

    /// Checks that a service name uses only letters, numbers, `-` and `_`.
    pub fn validate_service_name(&self, service_name: &str) -> (r: Result<(), AddServiceError>)
        ensures
            is_valid_service_name(service_name@) ==> r is Ok,
            !is_valid_service_name(service_name@) ==> (r matches Err(
                AddServiceError::InvalidServiceName(n),
            ) && n@ == service_name@),
    {
        let v = chars_of(service_name);
        let mut ok = v.len() > 0;
        let mut i: usize = 0;
        while i < v.len()
            invariant
                i <= v@.len(),
                v@ == service_name@,
                ok == (v@.len() > 0 && forall|k: int| 0 <= k < i ==> is_identifier_char(#[trigger] v@[k])),
            decreases v@.len() - i,
        {
            let c = v[i];
            let good = ('a' <= c && c <= 'z') || ('A' <= c && c <= 'Z') || ('0' <= c && c <= '9')
                || c == '_' || c == '-';
            ok = ok && good;
            i = i + 1;
        }
        if ok {
            Ok(())
        } else {
            Err(AddServiceError::InvalidServiceName(service_name.to_owned()))
        }
    }

    /// Checks a request: in non-interactive mode the name and the template must be
    /// given, and a given name must be valid.
    pub fn validate_request(&self, request: &AddServiceCommandRequest) -> (r: Result<(), AddServiceError>)
        ensures
            match request_error(
                opt_string_view(request.service_name),
                opt_string_view(request.template_id),
                request.no_input || !request.is_interactive_terminal,
            ) {
                Some(k) => r matches Err(e) && is_error_of_kind(e, k),
                None => r is Ok,
            },
    {
        if request.is_non_interactive() {
            if request.service_name.is_none() {
                return Err(AddServiceError::MissingRequiredInput("name".to_owned()));
            }
            if request.template_id.is_none() {
                return Err(AddServiceError::MissingRequiredInput("template".to_owned()));
            }
        }
        match &request.service_name {
            Some(name) => self.validate_service_name(name.as_str()),
            None => Ok(()),
        }
    }
}

} // verus!
