//! The `add service` command and the request it is turned into.
use vstd::prelude::*;

use crate::text::str_opt_clone;

verus! {

/// The arguments of `nfw add service`.
#[derive(Debug, Clone)]
pub struct AddServiceCommand {
    pub service_name: Option<String>,
    pub template_id: Option<String>,
    pub no_input: bool,
    pub is_interactive_terminal: bool,
}

/// What `nfw add service` reports once the service is generated.
#[derive(Debug, Clone)]
pub struct AddServiceCommandResult {
    pub service_name: String,
    pub output_path: String,
    pub template_id: String,
    pub template_version: String,
}

/// The request an `add service` command makes.
#[derive(Debug, Clone, PartialEq, Eq)]
pub struct AddServiceCommandRequest {
    pub service_name: Option<String>,
    pub template_id: Option<String>,
    pub no_input: bool,
    pub is_interactive_terminal: bool,
}

impl AddServiceCommandRequest {
    pub fn new(
        service_name: Option<String>,
        template_id: Option<String>,
        no_input: bool,
        is_interactive_terminal: bool,
    ) -> (r: AddServiceCommandRequest)
        ensures
            r == (AddServiceCommandRequest {
                service_name,
                template_id,
                no_input,
                is_interactive_terminal,
            }),
    {
        AddServiceCommandRequest { service_name, template_id, no_input, is_interactive_terminal }
    }

    /// No prompt may be shown: input was turned off, or the terminal is not interactive.
    pub fn is_non_interactive(&self) -> (r: bool)
        ensures
            r == (self.no_input || !self.is_interactive_terminal),
    {
        self.no_input || !self.is_interactive_terminal
    }
}

/// The text of an optional string.
pub open spec fn opt_string_view(o: Option<String>) -> Option<Seq<char>> {
    match o {
        Some(s) => Some(s@),
        None => None,
    }
}

impl AddServiceCommand {
    pub fn new(
        service_name: Option<String>,
        template_id: Option<String>,
        no_input: bool,
        is_interactive_terminal: bool,
    ) -> (r: AddServiceCommand)
        ensures
            r == (AddServiceCommand { service_name, template_id, no_input, is_interactive_terminal }),
    {
        AddServiceCommand { service_name, template_id, no_input, is_interactive_terminal }
    }

    /// The request carrying the same arguments.
    pub fn to_request(&self) -> (r: AddServiceCommandRequest)
        ensures
            opt_string_view(r.service_name) == opt_string_view(self.service_name),
            opt_string_view(r.template_id) == opt_string_view(self.template_id),
            r.no_input == self.no_input,
            r.is_interactive_terminal == self.is_interactive_terminal,
    {
        AddServiceCommandRequest::new(
            str_opt_clone(&self.service_name),
            str_opt_clone(&self.template_id),
            self.no_input,
            self.is_interactive_terminal,
        )
    }
}

} // verus!
