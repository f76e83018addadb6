use vstd::prelude::*;

use crate::text::matches_lowercase;
use crate::text::eq_lowercase;

verus! {

/// The HTTP method of the single request this tool issues.
#[derive(Clone, Copy, Debug, PartialEq, Eq, Structural)]
pub enum HttpMethod {
    Get,
    Post,
    Put,
    Patch,
    Delete,
}

impl HttpMethod {
    /// POST, PUT and PATCH carry a request body and a content type;
    /// GET and DELETE never do.
    pub open spec fn spec_is_body_bearing(self) -> bool {
        self == HttpMethod::Post || self == HttpMethod::Put || self == HttpMethod::Patch
    }

    pub fn is_body_bearing(&self) -> (r: bool)
        ensures
            r == self.spec_is_body_bearing(),
    {
        matches!(*self, HttpMethod::Post | HttpMethod::Put | HttpMethod::Patch)
    }

    /// The method name as it appears on the request line.
    pub open spec fn spec_name(self) -> Seq<char> {
        match self {
            HttpMethod::Get => "GET"@,
            HttpMethod::Post => "POST"@,
            HttpMethod::Put => "PUT"@,
            HttpMethod::Patch => "PATCH"@,
            HttpMethod::Delete => "DELETE"@,
        }
    }

    pub fn as_str(&self) -> (r: &'static str)
        ensures
            r@ == self.spec_name(),
    {
        match *self {
            HttpMethod::Get => "GET",
            HttpMethod::Post => "POST",
            HttpMethod::Put => "PUT",
            HttpMethod::Patch => "PATCH",
            HttpMethod::Delete => "DELETE",
        }
    }

    /// The method named by the user, ignoring ASCII case; `None` for anything
    /// that is not one of the five supported methods.
    pub open spec fn spec_parse(s: Seq<char>) -> Option<HttpMethod> {
        if matches_lowercase(s, "post"@) {
            Some(HttpMethod::Post)
        } else if matches_lowercase(s, "put"@) {
            Some(HttpMethod::Put)
        } else if matches_lowercase(s, "patch"@) {
            Some(HttpMethod::Patch)
        } else if matches_lowercase(s, "delete"@) {
            Some(HttpMethod::Delete)
        } else if matches_lowercase(s, "get"@) {
            Some(HttpMethod::Get)
        } else {
            None
        }
    }

    pub fn parse(s: &str) -> (r: Option<HttpMethod>)
        ensures
            r == HttpMethod::spec_parse(s@),
    {
        if eq_lowercase(s, "post") {
            Some(HttpMethod::Post)
        } else if eq_lowercase(s, "put") {
            Some(HttpMethod::Put)
        } else if eq_lowercase(s, "patch") {
            Some(HttpMethod::Patch)
        } else if eq_lowercase(s, "delete") {
            Some(HttpMethod::Delete)
        } else if eq_lowercase(s, "get") {
            Some(HttpMethod::Get)
        } else {
            None
        }
    }
}

/// An authorization scheme the tool accepts on the command line.
#[derive(Clone, Copy, Debug, PartialEq, Eq, Structural)]
pub enum AuthType {
    Bearer,
    Basic,
}

/// A user-supplied authorization scheme is accepted when it reads `bearer` or
/// `basic` up to ASCII case.
pub open spec fn spec_valid_auth_type(s: Seq<char>) -> bool {
    matches_lowercase(s, "bearer"@) || matches_lowercase(s, "basic"@)
}

/// Why a set of command-line options was rejected, each variant for exactly
/// one missing or invalid option.
#[derive(Clone, Copy, Debug, PartialEq, Eq, Structural)]
pub enum ConfigurationError {
    MissingHttpMethod,
    UnrecognizedHttpMethod,
    MissingRequestBody,
    MissingContentType,
    MissingRequestUrl,
    InvalidAuthType,
    MissingAuthValue,
}

impl ConfigurationError {
    /// The diagnostic printed on standard error before the tool exits.
    pub open spec fn spec_message(self) -> Seq<char> {
        match self {
            ConfigurationError::MissingHttpMethod => "Http method was not provided"@,
            ConfigurationError::UnrecognizedHttpMethod => "Unrecognized http method provided"@,
            ConfigurationError::MissingRequestBody => "Request body was not provided"@,
            ConfigurationError::MissingContentType => "Request content type was not provided"@,
            ConfigurationError::MissingRequestUrl => "Request url was not provided"@,
            ConfigurationError::InvalidAuthType => "Invalid auth type provided"@,
            ConfigurationError::MissingAuthValue => "Auth value was not provided"@,
        }
    }

    pub fn message(&self) -> (r: &'static str)
        ensures
            r@ == self.spec_message(),
    {
        match *self {
            ConfigurationError::MissingHttpMethod => "Http method was not provided",
            ConfigurationError::UnrecognizedHttpMethod => "Unrecognized http method provided",
            ConfigurationError::MissingRequestBody => "Request body was not provided",
            ConfigurationError::MissingContentType => "Request content type was not provided",
            ConfigurationError::MissingRequestUrl => "Request url was not provided",
            ConfigurationError::InvalidAuthType => "Invalid auth type provided",
            ConfigurationError::MissingAuthValue => "Auth value was not provided",
        }
    }
}

/// The validated request parameters, immutable once built. An empty string in
/// an optional field means the option was not given (or, for the body fields,
/// not used by the method).
#[derive(Debug)]
pub struct AppConfiguration {
    pub http_method: HttpMethod,
    pub request_body: String,
    pub request_body_as_file: String,
    pub request_content_type: String,
    pub request_url: String,
    pub auth_type: String,
    pub auth_value: String,
}

/// The mathematical image of an [`AppConfiguration`]: each text field as its
/// character sequence.
#[verifier::ext_equal]
pub struct ConfigurationModel {
    pub http_method: HttpMethod,
    pub request_body: Seq<char>,
    pub request_body_as_file: Seq<char>,
    pub request_content_type: Seq<char>,
    pub request_url: Seq<char>,
    pub auth_type: Seq<char>,
    pub auth_value: Seq<char>,
}

impl View for AppConfiguration {
    type V = ConfigurationModel;

    open spec fn view(&self) -> ConfigurationModel {
        ConfigurationModel {
            http_method: self.http_method,
            request_body: self.request_body@,
            request_body_as_file: self.request_body_as_file@,
            request_content_type: self.request_content_type@,
            request_url: self.request_url@,
            auth_type: self.auth_type@,
            auth_value: self.auth_value@,
        }
    }
}

impl ConfigurationModel {
    /// Every configuration the validator hands out has this shape: methods
    /// without a body carry no body, file and inline body exclude each other,
    /// and an authorization scheme is present only in a valid form and only
    /// together with its value.
    pub open spec fn wf(self) -> bool {
        &&& !self.http_method.spec_is_body_bearing() ==> {
            &&& self.request_body.len() == 0
            &&& self.request_body_as_file.len() == 0
            &&& self.request_content_type.len() == 0
        }
        &&& self.request_body_as_file.len() > 0 ==> self.request_body.len() == 0
        &&& self.auth_type.len() == 0 ==> self.auth_value.len() == 0
        &&& self.auth_type.len() > 0 ==> spec_valid_auth_type(self.auth_type)
    }
}

impl AppConfiguration {
    /// The starting configuration before any option is applied: POST with
    /// every text field empty.
    pub fn default() -> (r: AppConfiguration)
        ensures
            r@ == (ConfigurationModel {
                http_method: HttpMethod::Post,
                request_body: Seq::<char>::empty(),
                request_body_as_file: Seq::<char>::empty(),
                request_content_type: Seq::<char>::empty(),
                request_url: Seq::<char>::empty(),
                auth_type: Seq::<char>::empty(),
                auth_value: Seq::<char>::empty(),
            }),
    {
        AppConfiguration {
            http_method: HttpMethod::Post,
            request_body: String::new(),
            request_body_as_file: String::new(),
            request_content_type: String::new(),
            request_url: String::new(),
            auth_type: String::new(),
            auth_value: String::new(),
        }
    }

    /// The authorization scheme of a validated configuration, as the enum the
    /// two accepted spellings stand for; `None` when no scheme was given.
    pub fn auth_kind(&self) -> (r: Option<AuthType>)
        requires
            self@.wf(),
        ensures
            r is Some <==> self@.auth_type.len() > 0,
            r == Some(AuthType::Bearer) <==> matches_lowercase(self@.auth_type, "bearer"@),
            r == Some(AuthType::Basic) <==> matches_lowercase(self@.auth_type, "basic"@),
    {
        proof {
            reveal_strlit("bearer");
            reveal_strlit("basic");
        }
        if eq_lowercase(self.auth_type.as_str(), "bearer") {
            Some(AuthType::Bearer)
        } else if eq_lowercase(self.auth_type.as_str(), "basic") {
            Some(AuthType::Basic)
        } else {
            None
        }
    }
}

/// The option values exactly as they came off the command line: `None` where
/// the option was absent.
pub struct RawArguments {
    pub http_method: Option<String>,
    pub request_body: Option<String>,
    pub request_file: Option<String>,
    pub request_content_type: Option<String>,
    pub request_url: Option<String>,
    pub auth_type: Option<String>,
    pub auth_value: Option<String>,
}

/// The mathematical image of [`RawArguments`].
#[verifier::ext_equal]
pub struct RawArgumentsModel {
    pub http_method: Option<Seq<char>>,
    pub request_body: Option<Seq<char>>,
    pub request_file: Option<Seq<char>>,
    pub request_content_type: Option<Seq<char>>,
    pub request_url: Option<Seq<char>>,
    pub auth_type: Option<Seq<char>>,
    pub auth_value: Option<Seq<char>>,
}

/// The character sequence of an optional string.
pub open spec fn opt_chars(o: Option<String>) -> Option<Seq<char>> {
    match o {
        Some(s) => Some(s@),
        None => None,
    }
}

impl View for RawArguments {
    type V = RawArgumentsModel;

    open spec fn view(&self) -> RawArgumentsModel {
        RawArgumentsModel {
            http_method: opt_chars(self.http_method),
            request_body: opt_chars(self.request_body),
            request_file: opt_chars(self.request_file),
            request_content_type: opt_chars(self.request_content_type),
            request_url: opt_chars(self.request_url),
            auth_type: opt_chars(self.auth_type),
            auth_value: opt_chars(self.auth_value),
        }
    }
}

/// What validation makes of a set of options, in the order the options are
/// checked: method, body source, content type, URL, authorization scheme,
/// authorization value. A body and a content type are demanded only of the
/// body-bearing methods; an inline body takes priority over a body file; an
/// authorization value alone, without a scheme, means no authorization.
pub open spec fn spec_build_configuration(a: RawArgumentsModel) -> Result<
    ConfigurationModel,
    ConfigurationError,
> {
    if a.http_method is None {
        Err(ConfigurationError::MissingHttpMethod)
    } else if HttpMethod::spec_parse(a.http_method->Some_0) is None {
        Err(ConfigurationError::UnrecognizedHttpMethod)
    } else {
        let m = HttpMethod::spec_parse(a.http_method->Some_0)->Some_0;
        if m.spec_is_body_bearing() && a.request_body is None && a.request_file is None {
            Err(ConfigurationError::MissingRequestBody)
        } else if m.spec_is_body_bearing() && a.request_content_type is None {
            Err(ConfigurationError::MissingContentType)
        } else if a.request_url is None {
            Err(ConfigurationError::MissingRequestUrl)
        } else if a.auth_type is Some && !spec_valid_auth_type(a.auth_type->Some_0) {
            Err(ConfigurationError::InvalidAuthType)
        } else if a.auth_type is Some && a.auth_value is None {
            Err(ConfigurationError::MissingAuthValue)
        } else {
            Ok(ConfigurationModel {
                http_method: m,
                request_body: if m.spec_is_body_bearing() && a.request_body is Some {
                    a.request_body->Some_0
                } else {
                    Seq::empty()
                },
                request_body_as_file: if m.spec_is_body_bearing() && a.request_body is None {
                    a.request_file->Some_0
                } else {
                    Seq::empty()
                },
                request_content_type: if m.spec_is_body_bearing() {
                    a.request_content_type->Some_0
                } else {
                    Seq::empty()
                },
                request_url: a.request_url->Some_0,
                auth_type: if a.auth_type is Some {
                    a.auth_type->Some_0
                } else {
                    Seq::empty()
                },
                auth_value: if a.auth_type is Some {
                    a.auth_value->Some_0
                } else {
                    Seq::empty()
                },
            })
        }
    }
}

/// The mathematical image of a validation result.
pub open spec fn spec_configuration_result(r: Result<AppConfiguration, ConfigurationError>) -> Result<
    ConfigurationModel,
    ConfigurationError,
> {
    match r {
        Ok(c) => Ok(c@),
        Err(e) => Err(e),
    }
}

/// Validates the command-line options into a configuration, or reports the
/// first problem in the checking order of [`spec_build_configuration`].
pub fn build_configuration(args: RawArguments) -> (r: Result<
    AppConfiguration,
    ConfigurationError,
>)
    ensures
        spec_configuration_result(r) == spec_build_configuration(args@),
{
    let mut config = AppConfiguration::default();

    let method = match args.http_method {
        None => {
            return Err(ConfigurationError::MissingHttpMethod);
        },
        Some(name) => match HttpMethod::parse(name.as_str()) {
            None => {
                return Err(ConfigurationError::UnrecognizedHttpMethod);
            },
            Some(m) => m,
        },
    };
    config.http_method = method;

    if method.is_body_bearing() {
        match args.request_body {
            Some(body) => {
                config.request_body = body;
            },
            None => match args.request_file {
                Some(path) => {
                    config.request_body_as_file = path;
                },
                None => {
                    return Err(ConfigurationError::MissingRequestBody);
                },
            },
        }
        match args.request_content_type {
            Some(content_type) => {
                config.request_content_type = content_type;
            },
            None => {
                return Err(ConfigurationError::MissingContentType);
            },
        }
    }

    match args.request_url {
        Some(url) => {
            config.request_url = url;
        },
        None => {
            return Err(ConfigurationError::MissingRequestUrl);
        },
    }

    match args.auth_type {
        Some(scheme) => {
            let valid = eq_lowercase(scheme.as_str(), "bearer") || eq_lowercase(
                scheme.as_str(),
                "basic",
            );
            if !valid {
                return Err(ConfigurationError::InvalidAuthType);
            }
            config.auth_type = scheme;
            match args.auth_value {
                Some(value) => {
                    config.auth_value = value;
                },
                None => {
                    return Err(ConfigurationError::MissingAuthValue);
                },
            }
        },
        None => {},
    }

    Ok(config)
}

} // verus!
