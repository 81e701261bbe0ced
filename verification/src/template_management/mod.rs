pub mod artifact_generation_service;
pub mod errors;
pub mod feature_paths;
pub mod model;
pub mod template_type_resolver;
pub mod gen_repository;
pub mod module_commands;
pub mod templates_service;
pub mod template_catalog_parser;
pub mod generate;
pub mod gen_endpoint;
pub mod transaction;
pub mod source_commands;
