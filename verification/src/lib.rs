pub mod sorting;
pub mod text;
pub mod workspace_root;
pub mod yaml;
pub mod service_management;
pub mod template_management;
