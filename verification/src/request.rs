use vstd::prelude::*;
use vstd::string::StrSliceExecFns;
use vstd::string::StringExecFns;

use crate::config::AppConfiguration;
use crate::config::ConfigurationModel;
use crate::config::HttpMethod;

verus! {

/// One header line of the outgoing request.
pub struct HeaderField {
    pub name: String,
    pub value: String,
}

/// The mathematical image of a [`HeaderField`].
#[verifier::ext_equal]
pub struct HeaderFieldModel {
    pub name: Seq<char>,
    pub value: Seq<char>,
}

impl View for HeaderField {
    type V = HeaderFieldModel;

    open spec fn view(&self) -> HeaderFieldModel {
        HeaderFieldModel { name: self.name@, value: self.value@ }
    }
}

/// The images of a sequence of header fields.
pub open spec fn header_models(headers: Seq<HeaderField>) -> Seq<HeaderFieldModel> {
    headers.map_values(|h: HeaderField| h@)
}

/// Whether a header of the given name is present.
pub open spec fn spec_has_header(headers: Seq<HeaderFieldModel>, name: Seq<char>) -> bool {
    exists|i: int| 0 <= i < headers.len() && headers[i].name == name
}

/// The header set of a request built from a configuration: `content-type`
/// for the body-bearing methods, then `Authorization` when an authorization
/// scheme was given, its value the scheme as supplied, a space, and the
/// authorization value, with no encoding of any part.
pub open spec fn spec_headers(c: ConfigurationModel) -> Seq<HeaderFieldModel> {
    let content = if c.http_method.spec_is_body_bearing() {
        seq![HeaderFieldModel { name: "content-type"@, value: c.request_content_type }]
    } else {
        Seq::<HeaderFieldModel>::empty()
    };
    if c.auth_type.len() > 0 {
        content + seq![
            HeaderFieldModel {
                name: "Authorization"@,
                value: c.auth_type + " "@ + c.auth_value,
            },
        ]
    } else {
        content
    }
}

/// The body bytes of a request built from a configuration: empty for GET and
/// DELETE; otherwise the bytes of the body file when one was named, else the
/// UTF-8 bytes of the inline body, both passed through verbatim.
pub open spec fn spec_body(c: ConfigurationModel, file_body: Option<Seq<u8>>) -> Seq<u8> {
    if !c.http_method.spec_is_body_bearing() {
        Seq::empty()
    } else if c.request_body_as_file.len() > 0 {
        file_body->Some_0
    } else {
        vstd::utf8::encode_utf8(c.request_body)
    }
}

/// The whole wire-ready request a configuration stands for.
pub open spec fn spec_build_request(c: ConfigurationModel, file_body: Option<Seq<u8>>) -> RequestModel {
    RequestModel {
        method: c.http_method,
        url: c.request_url,
        headers: spec_headers(c),
        body: spec_body(c, file_body),
    }
}

/// A wire-ready request descriptor: everything the transport needs, as plain
/// values.
pub struct BuiltRequest {
    pub method: HttpMethod,
    pub url: String,
    pub headers: Vec<HeaderField>,
    pub body: Vec<u8>,
}

/// The mathematical image of a [`BuiltRequest`].
#[verifier::ext_equal]
pub struct RequestModel {
    pub method: HttpMethod,
    pub url: Seq<char>,
    pub headers: Seq<HeaderFieldModel>,
    pub body: Seq<u8>,
}

impl View for BuiltRequest {
    type V = RequestModel;

    open spec fn view(&self) -> RequestModel {
        RequestModel {
            method: self.method,
            url: self.url@,
            headers: header_models(self.headers@),
            body: self.body@,
        }
    }
}

/// The bytes of an optional body file.
pub open spec fn opt_bytes(o: Option<Vec<u8>>) -> Option<Seq<u8>> {
    match o {
        Some(v) => Some(v@),
        None => None,
    }
}

/// The value of the `Authorization` header: the scheme as supplied, a space,
/// and the token, concatenated with no transformation.
pub fn authorization_value(auth_type: &String, auth_value: &String) -> (r: String)
    ensures
        r@ == auth_type@ + " "@ + auth_value@,
{
    let mut header_value = auth_type.clone();
    header_value.append(" ");
    header_value.append(auth_value.as_str());
    header_value
}

/// Builds the wire-ready request a validated configuration describes. The
/// caller hands over the body file's bytes exactly when the configuration
/// names a body file.
pub fn build_request(config: &AppConfiguration, file_body: Option<Vec<u8>>) -> (r: BuiltRequest)
    requires
        config@.wf(),
        file_body is Some <==> config@.request_body_as_file.len() > 0,
    ensures
        r@ == spec_build_request(config@, opt_bytes(file_body)),
{
    let ghost file_bytes = opt_bytes(file_body);

    let body: Vec<u8> = if config.http_method.is_body_bearing() {
        match file_body {
            Some(bytes) => bytes,
            None => config.request_body.as_str().as_bytes_vec(),
        }
    } else {
        Vec::new()
    };

    let mut headers: Vec<HeaderField> = Vec::new();
    if config.http_method.is_body_bearing() {
        headers.push(HeaderField {
            name: String::from_str("content-type"),
            value: config.request_content_type.clone(),
        });
    }
    if !config.auth_type.as_str().is_empty() {
        headers.push(HeaderField {
            name: String::from_str("Authorization"),
            value: authorization_value(&config.auth_type, &config.auth_value),
        });
    }

    let r = BuiltRequest {
        method: config.http_method,
        url: config.request_url.clone(),
        headers,
        body,
    };
    proof {
        assert(r@ =~~= spec_build_request(config@, file_bytes));
    }
    r
}

} // verus!
