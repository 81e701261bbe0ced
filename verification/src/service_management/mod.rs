pub mod add_service_command;
pub mod add_service_error;
pub mod add_service_request_validator;
pub mod workspace_guard;
pub mod generator_selection;
pub mod plan_builder;
pub mod provenance;
pub mod input_resolution;
pub mod add_service_handler;
