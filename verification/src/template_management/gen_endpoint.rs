//! Commands that generate an endpoint, a mediator command or a mediator query, and
//! the HTTP methods an endpoint answers.
use vstd::prelude::*;

use crate::template_management::artifact_generation_service::AddArtifactContext;
use crate::template_management::errors::AddArtifactError;
use crate::template_management::model::ParamValue;
use crate::text::{concat, spec_trim, str_eq, trim};

verus! {

/// An ASCII character.
pub open spec fn is_ascii_char(c: char) -> bool {
    (c as u32) < 128
}

/// The upper-case form of an ASCII character; other characters as they are.
pub open spec fn ascii_upper(c: char) -> char {
    if 'a' <= c <= 'z' {
        ((c as u32) - 32) as char
    } else {
        c
    }
}

/// What `str::to_uppercase` returns for a text.
pub uninterp spec fn uppercase_of(text: Seq<char>) -> Seq<char>;

/// Calls `str::to_uppercase`: the upper-case form by the Unicode case mapping,
/// which does not depend on the locale. On ASCII text that mapping turns `a`..`z`
/// into `A`..`Z` and keeps every other character; beyond ASCII nothing is stated.
#[verifier::external_body]
fn to_uppercase(text: &str) -> (r: String)
    ensures
        r@ == uppercase_of(text@),
        (forall|i: int| 0 <= i < text@.len() ==> is_ascii_char(#[trigger] text@[i])) ==> r@
            == text@.map_values(|c: char| ascii_upper(c)),
{
    text.to_uppercase()
}

/// The HTTP method of an endpoint.
#[derive(Debug, Clone, Copy, PartialEq, Eq, Structural)]
pub enum HttpMethod {
    Get,
    Post,
    Put,
    Delete,
    Patch,
}

/// The method an upper-case name stands for.
pub open spec fn method_of_upper(upper: Seq<char>) -> Option<HttpMethod> {
    if upper == "GET"@ {
        Some(HttpMethod::Get)
    } else if upper == "POST"@ {
        Some(HttpMethod::Post)
    } else if upper == "PUT"@ {
        Some(HttpMethod::Put)
    } else if upper == "DELETE"@ {
        Some(HttpMethod::Delete)
    } else if upper == "PATCH"@ {
        Some(HttpMethod::Patch)
    } else {
        None
    }
}

/// The message for a text that names no method.
pub open spec fn invalid_method_message(text: Seq<char>) -> Seq<char> {
    "Invalid HTTP method '"@ + text + "'. Must be GET, POST, PUT, DELETE, or PATCH."@
}

/// The display name of a method.
pub open spec fn method_name(m: HttpMethod) -> Seq<char> {
    match m {
        HttpMethod::Get => "Get"@,
        HttpMethod::Post => "Post"@,
        HttpMethod::Put => "Put"@,
        HttpMethod::Delete => "Delete"@,
        HttpMethod::Patch => "Patch"@,
    }
}

impl HttpMethod {
    /// The method named by `upper`, the upper-case form of `text`.
    pub fn from_upper(upper: &str, text: &str) -> (r: Result<HttpMethod, AddArtifactError>)
        ensures
            match method_of_upper(upper@) {
                Some(m) => r matches Ok(x) && x == m,
                None => r matches Err(AddArtifactError::InvalidParameter(e)) && e@
                    == invalid_method_message(text@),
            },
    {
        if str_eq(upper, "GET") {
            Ok(HttpMethod::Get)
        } else if str_eq(upper, "POST") {
            Ok(HttpMethod::Post)
        } else if str_eq(upper, "PUT") {
            Ok(HttpMethod::Put)
        } else if str_eq(upper, "DELETE") {
            Ok(HttpMethod::Delete)
        } else if str_eq(upper, "PATCH") {
            Ok(HttpMethod::Patch)
        } else {
            let mut m = concat("Invalid HTTP method '", text);
            m.append("'. Must be GET, POST, PUT, DELETE, or PATCH.");
            Err(AddArtifactError::InvalidParameter(m))
        }
    }

    /// The method a name stands for, in any letter case.
    pub fn parse(text: &str) -> (r: Result<HttpMethod, AddArtifactError>)
        ensures
            match method_of_upper(uppercase_of(text@)) {
                Some(m) => r matches Ok(x) && x == m,
                None => r matches Err(AddArtifactError::InvalidParameter(e)) && e@
                    == invalid_method_message(text@),
            },
    {
        let upper = to_uppercase(text);
        HttpMethod::from_upper(upper.as_str(), text)
    }

    /// The display name of the method: `Get`, `Post`, `Put`, `Delete`, `Patch`.
    pub fn name(&self) -> (r: String)
        ensures
            r@ == method_name(*self),
    {
        match self {
            HttpMethod::Get => "Get".to_owned(),
            HttpMethod::Post => "Post".to_owned(),
            HttpMethod::Put => "Put".to_owned(),
            HttpMethod::Delete => "Delete".to_owned(),
            HttpMethod::Patch => "Patch".to_owned(),
        }
    }

    /// The display name of a method parses back to that method.
    pub fn parse_name(&self) -> (r: Result<HttpMethod, AddArtifactError>)
        ensures
            r matches Ok(m) && m == *self,
    {
        let text = self.name();
        let upper = to_uppercase(text.as_str());
        proof {
            reveal_strlit("Get");
            reveal_strlit("Post");
            reveal_strlit("Put");
            reveal_strlit("Delete");
            reveal_strlit("Patch");
            reveal_strlit("GET");
            reveal_strlit("POST");
            reveal_strlit("PUT");
            reveal_strlit("DELETE");
            reveal_strlit("PATCH");
            assert(forall|i: int| 0 <= i < text@.len() ==> is_ascii_char(#[trigger] text@[i]));
            assert(upper@ =~= text@.map_values(|c: char| ascii_upper(c)));
            match *self {
                HttpMethod::Get => {
                    assert(upper@ =~= "GET"@);
                    assert(method_of_upper(upper@) == Some(HttpMethod::Get));
                },
                HttpMethod::Post => {
                    assert(upper@ =~= "POST"@);
                    assert("POST"@.len() != "GET"@.len());
                    assert(method_of_upper(upper@) == Some(HttpMethod::Post));
                },
                HttpMethod::Put => {
                    assert(upper@ =~= "PUT"@);
                    assert("PUT"@[0] != "GET"@[0]);
                    assert("PUT"@.len() != "POST"@.len());
                    assert(method_of_upper(upper@) == Some(HttpMethod::Put));
                },
                HttpMethod::Delete => {
                    assert(upper@ =~= "DELETE"@);
                    assert("DELETE"@.len() != "GET"@.len() && "DELETE"@.len() != "POST"@.len() && "DELETE"@.len() != "PUT"@.len());
                    assert(method_of_upper(upper@) == Some(HttpMethod::Delete));
                },
                HttpMethod::Patch => {
                    assert(upper@ =~= "PATCH"@);
                    assert("PATCH"@.len() != "GET"@.len() && "PATCH"@[1] != "POST"@[1] && "PATCH"@.len() != "PUT"@.len());
                    assert("PATCH"@.len() != "DELETE"@.len());
                    assert(method_of_upper(upper@) == Some(HttpMethod::Patch));
                },
            }
        }
        HttpMethod::from_upper(upper.as_str(), text.as_str())
    }
}

impl std::str::FromStr for HttpMethod {
    type Err = AddArtifactError;

    fn from_str(s: &str) -> (r: Result<HttpMethod, AddArtifactError>)
        ensures
            match method_of_upper(uppercase_of(s@)) {
                Some(m) => r matches Ok(x) && x == m,
                None => r matches Err(AddArtifactError::InvalidParameter(e)) && e@
                    == invalid_method_message(s@),
            },
    {
        HttpMethod::parse(s)
    }
}

/// Generates an endpoint of a feature.
#[derive(Debug)]
pub struct GenEndpointCommand {
    pub name: String,
    pub feature: Option<String>,
    pub operation_type: HttpMethod,
    pub params: Option<ParamValue>,
    pub context: AddArtifactContext,
    /// Whether the command or query the endpoint serves must already exist.
    pub attach_to_mediator: bool,
}

impl GenEndpointCommand {
    /// An endpoint command; its name must not be blank.
    pub fn new(
        name: String,
        feature: Option<String>,
        operation_type: HttpMethod,
        params: Option<ParamValue>,
        context: AddArtifactContext,
        attach_to_mediator: bool,
    ) -> (r: Result<GenEndpointCommand, AddArtifactError>)
        ensures
            spec_trim(name@).len() == 0 ==> (r matches Err(AddArtifactError::InvalidIdentifier(m))
                && m@ == "Endpoint name cannot be empty"@),
            spec_trim(name@).len() > 0 ==> (r matches Ok(c) && c == (GenEndpointCommand {
                name,
                feature,
                operation_type,
                params,
                context,
                attach_to_mediator,
            })),
    {
        if trim(name.as_str()).unicode_len() == 0 {
            return Err(AddArtifactError::InvalidIdentifier("Endpoint name cannot be empty".to_owned()));
        }
        Ok(GenEndpointCommand { name, feature, operation_type, params, context, attach_to_mediator })
    }

    pub fn name(&self) -> (r: &str)
        ensures
            r@ == self.name@,
    {
        self.name.as_str()
    }

    pub fn feature(&self) -> (r: Option<&str>)
        ensures
            match r {
                Some(f) => self.feature matches Some(g) && f@ == g@,
                None => self.feature is None,
            },
    {
        match &self.feature {
            Some(f) => Some(f.as_str()),
            None => None,
        }
    }

    pub fn operation_type(&self) -> (r: &HttpMethod)
        ensures
            *r == self.operation_type,
    {
        &self.operation_type
    }

    pub fn params(&self) -> (r: Option<&ParamValue>)
        ensures
            match r {
                Some(p) => self.params matches Some(q) && *p == q,
                None => self.params is None,
            },
    {
        match &self.params {
            Some(p) => Some(p),
            None => None,
        }
    }

    pub fn into_params(self) -> (r: Option<ParamValue>)
        ensures
            r == self.params,
    {
        self.params
    }

    pub fn context(&self) -> (r: &AddArtifactContext)
        ensures
            *r == self.context,
    {
        &self.context
    }

    pub fn attach_to_mediator(&self) -> (r: bool)
        ensures
            r == self.attach_to_mediator,
    {
        self.attach_to_mediator
    }
}

/// Generates a mediator command of a feature.
#[derive(Debug)]
pub struct GenMediatorCommandCommand {
    pub name: String,
    pub feature: Option<String>,
    pub params: Option<ParamValue>,
}

impl GenMediatorCommandCommand {
    pub fn new(name: String, feature: Option<String>, params: Option<ParamValue>) -> (r: Self)
        ensures
            r == (GenMediatorCommandCommand { name, feature, params }),
    {
        GenMediatorCommandCommand { name, feature, params }
    }
}

/// Generates a mediator query of a feature.
#[derive(Debug)]
pub struct GenMediatorQueryCommand {
    pub name: String,
    pub feature: Option<String>,
    pub params: Option<ParamValue>,
}

impl GenMediatorQueryCommand {
    pub fn new(name: String, feature: Option<String>, params: Option<ParamValue>) -> (r: Self)
        ensures
            r == (GenMediatorQueryCommand { name, feature, params }),
    {
        GenMediatorQueryCommand { name, feature, params }
    }
}

} // verus!
