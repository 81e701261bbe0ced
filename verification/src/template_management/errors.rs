//! Errors of template management, with their messages.
use vstd::prelude::*;

use crate::text::concat;
use crate::template_management::model::{decimal, push_decimal};

verus! {

/// Errors that can occur during template management and execution.
#[derive(Debug)]
pub enum TemplateError {
    /// The definition of the template (`template.yaml`) is missing or invalid.
    TemplateConfigError { message: String, template_id: Option<String> },
    /// Rendering failed: placeholders, paths or the output could not be produced.
    TemplateRenderError {
        message: String,
        step_index: Option<usize>,
        template_id: Option<String>,
        file_path: Option<String>,
        /// The message of the underlying engine error.
        source: Option<String>,
    },
    /// Content could not be injected into an existing file.
    TemplateInjectionError {
        message: String,
        file_path: Option<String>,
        region: Option<String>,
        template_id: Option<String>,
    },
    /// A low-level I/O failure.
    IoError { message: String, path: Option<String> },
}

/// The text of an optional value, or `fallback` when it is absent.
pub open spec fn or_else(v: Option<String>, fallback: Seq<char>) -> Seq<char> {
    match v {
        Some(s) => s@,
        None => fallback,
    }
}

/// `format!("{:?}", region)` for an optional region name.
pub uninterp spec fn debug_region(region: Option<Seq<char>>) -> Seq<char>;

/// The `Debug` rendering of an optional string, as `format!("{:?}", ..)` gives it.
#[verifier::external_body]
fn debug_option_string(region: &Option<String>) -> (r: String)
    ensures
        r@ == debug_region(
            match region {
                Some(s) => Some(s@),
                None => None,
            },
        ),
{
    format!("{:?}", region)
}

/// The message of a template error.
pub open spec fn template_error_message(e: TemplateError) -> Seq<char> {
    match e {
        TemplateError::TemplateConfigError { message, template_id } => "template configuration error for "@
            + or_else(template_id, "unknown"@) + ": "@ + message@,
        TemplateError::TemplateRenderError { message, step_index, template_id, .. } =>
            "template rendering error at step "@ + match step_index {
            Some(i) => decimal(i as nat),
            None => "?"@,
        } + " in "@ + or_else(template_id, "unknown"@) + ": "@ + message@,
        TemplateError::TemplateInjectionError { message, file_path, region, .. } =>
            "template injection error for "@ + debug_region(
            match region {
                Some(s) => Some(s@),
                None => None,
            },
        ) + " in "@ + or_else(file_path, "unknown"@) + ": "@ + message@,
        TemplateError::IoError { message, path } => "I/O error at "@ + or_else(path, "unknown"@)
            + ": "@ + message@,
    }
}

/// The text of an optional value, or `fallback`.
fn text_or(v: &Option<String>, fallback: &str) -> (r: String)
    ensures
        r@ == or_else(*v, fallback@),
{
    match v {
        Some(s) => s.clone(),
        None => fallback.to_owned(),
    }
}

impl TemplateError {
    /// A stable identifier of the error kind.
    pub fn error_id(&self) -> (r: &'static str)
        ensures
            r@ == match *self {
                TemplateError::TemplateConfigError { .. } => "TEMPLATE_CONFIG_ERROR"@,
                TemplateError::TemplateRenderError { .. } => "TEMPLATE_RENDER_ERROR"@,
                TemplateError::TemplateInjectionError { .. } => "TEMPLATE_INJECTION_ERROR"@,
                TemplateError::IoError { .. } => "TEMPLATE_IO_ERROR"@,
            },
    {
        match self {
            TemplateError::TemplateConfigError { .. } => "TEMPLATE_CONFIG_ERROR",
            TemplateError::TemplateRenderError { .. } => "TEMPLATE_RENDER_ERROR",
            TemplateError::TemplateInjectionError { .. } => "TEMPLATE_INJECTION_ERROR",
            TemplateError::IoError { .. } => "TEMPLATE_IO_ERROR",
        }
    }

    /// An I/O error at `path`.
    pub fn io(message: String, path: String) -> (r: TemplateError)
        ensures
            r == (TemplateError::IoError { message, path: Some(path) }),
    {
        TemplateError::IoError { message, path: Some(path) }
    }

    /// The message of the error.
    pub fn message(&self) -> (r: String)
        ensures
            r@ == template_error_message(*self),
    {
        match self {
            TemplateError::TemplateConfigError { message, template_id } => {
                let mut s = "template configuration error for ".to_owned();
                s.append(text_or(template_id, "unknown").as_str());
                s.append(": ");
                s.append(message.as_str());
                s
            },
            TemplateError::TemplateRenderError { message, step_index, template_id, .. } => {
                let mut s = "template rendering error at step ".to_owned();
                match step_index {
                    Some(i) => push_decimal(&mut s, *i as u64),
                    None => s.append("?"),
                }
                s.append(" in ");
                s.append(text_or(template_id, "unknown").as_str());
                s.append(": ");
                s.append(message.as_str());
                s
            },
            TemplateError::TemplateInjectionError { message, file_path, region, .. } => {
                let mut s = "template injection error for ".to_owned();
                s.append(debug_option_string(region).as_str());
                s.append(" in ");
                s.append(text_or(file_path, "unknown").as_str());
                s.append(": ");
                s.append(message.as_str());
                s
            },
            TemplateError::IoError { message, path } => {
                let mut s = "I/O error at ".to_owned();
                s.append(text_or(path, "unknown").as_str());
                s.append(": ");
                s.append(message.as_str());
                s
            },
        }
    }
}

/// Errors produced when adding artifacts to a service.
#[derive(Debug)]
pub enum AddArtifactError {
    /// The `name` or `feature` argument contained invalid characters.
    InvalidIdentifier(String),
    /// The workspace root could not be located.
    WorkspaceError(String),
    /// The workspace configuration (`nfw.yaml`) is missing or invalid.
    ConfigError(String),
    /// The requested template could not be found locally or in the cache.
    TemplateNotFound(String),
    /// A custom parameter was malformed.
    InvalidParameter(String),
    /// The underlying template engine reported a failure.
    ExecutionFailed(Box<TemplateError>),
    /// A required module is not present in the target service.
    MissingRequiredModule(String),
    /// `nfw.yaml` could not be read.
    NfwYamlReadError(String),
    /// `nfw.yaml` could not be parsed.
    NfwYamlParseError(String),
    /// `nfw.yaml` could not be written.
    NfwYamlWriteError(String),
    /// The artifact to generate is already there.
    ArtifactAlreadyExists(String),
}

/// The message of an artifact error.
pub open spec fn add_artifact_error_message(e: AddArtifactError) -> Seq<char> {
    match e {
        AddArtifactError::InvalidIdentifier(m) => m@,
        AddArtifactError::WorkspaceError(m) => "workspace error: "@ + m@,
        AddArtifactError::ConfigError(m) => "configuration error: "@ + m@,
        AddArtifactError::TemplateNotFound(m) => "template not found: "@ + m@,
        AddArtifactError::InvalidParameter(m) => "invalid parameter: "@ + m@,
        AddArtifactError::ExecutionFailed(t) => "execution failed:\n"@ + template_error_message(*t),
        AddArtifactError::MissingRequiredModule(m) => "missing required module: "@ + m@,
        AddArtifactError::NfwYamlReadError(m) => "nfw.yaml read error: "@ + m@,
        AddArtifactError::NfwYamlParseError(m) => "nfw.yaml parse error: "@ + m@,
        AddArtifactError::NfwYamlWriteError(m) => "nfw.yaml write error: "@ + m@,
        AddArtifactError::ArtifactAlreadyExists(m) => "artifact already exists: "@ + m@,
    }
}

impl AddArtifactError {
    /// The message of the error.
    pub fn message(&self) -> (r: String)
        ensures
            r@ == add_artifact_error_message(*self),
    {
        match self {
            AddArtifactError::InvalidIdentifier(m) => m.clone(),
            AddArtifactError::WorkspaceError(m) => concat("workspace error: ", m.as_str()),
            AddArtifactError::ConfigError(m) => concat("configuration error: ", m.as_str()),
            AddArtifactError::TemplateNotFound(m) => concat("template not found: ", m.as_str()),
            AddArtifactError::InvalidParameter(m) => concat("invalid parameter: ", m.as_str()),
            AddArtifactError::ExecutionFailed(t) => concat(
                "execution failed:\n",
                t.message().as_str(),
            ),
            AddArtifactError::MissingRequiredModule(m) => concat(
                "missing required module: ",
                m.as_str(),
            ),
            AddArtifactError::NfwYamlReadError(m) => concat("nfw.yaml read error: ", m.as_str()),
            AddArtifactError::NfwYamlParseError(m) => concat("nfw.yaml parse error: ", m.as_str()),
            AddArtifactError::NfwYamlWriteError(m) => concat("nfw.yaml write error: ", m.as_str()),
            AddArtifactError::ArtifactAlreadyExists(m) => concat(
                "artifact already exists: ",
                m.as_str(),
            ),
        }
    }
}

/// Errors produced by the code generation command.
#[derive(Debug)]
pub enum GenerateError {
    /// The `name` or `feature` argument contained invalid characters.
    InvalidIdentifier(String),
    /// The workspace root could not be located.
    WorkspaceError(String),
    /// The workspace configuration (`nfw.yaml`) is missing or invalid.
    ConfigError(String),
    /// The requested template could not be found locally or in the cache.
    TemplateNotFound(String),
    /// A custom parameter was malformed.
    InvalidParameter(String),
    /// The underlying template engine reported a failure.
    ExecutionFailed(TemplateError),
}

/// The message of a generation error.
pub open spec fn generate_error_message(e: GenerateError) -> Seq<char> {
    match e {
        GenerateError::InvalidIdentifier(m) => m@,
        GenerateError::WorkspaceError(m) => "workspace error: "@ + m@,
        GenerateError::ConfigError(m) => "configuration error: "@ + m@,
        GenerateError::TemplateNotFound(m) => "template not found: "@ + m@,
        GenerateError::InvalidParameter(m) => "invalid parameter: "@ + m@,
        GenerateError::ExecutionFailed(t) => "execution failed:\n"@ + template_error_message(t),
    }
}

impl GenerateError {
    /// The message of the error.
    pub fn message(&self) -> (r: String)
        ensures
            r@ == generate_error_message(*self),
    {
        match self {
            GenerateError::InvalidIdentifier(m) => m.clone(),
            GenerateError::WorkspaceError(m) => concat("workspace error: ", m.as_str()),
            GenerateError::ConfigError(m) => concat("configuration error: ", m.as_str()),
            GenerateError::TemplateNotFound(m) => concat("template not found: ", m.as_str()),
            GenerateError::InvalidParameter(m) => concat("invalid parameter: ", m.as_str()),
            GenerateError::ExecutionFailed(t) => concat("execution failed:\n", t.message().as_str()),
        }
    }
}

} // verus!
