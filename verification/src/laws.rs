use vstd::prelude::*;

use crate::config::ConfigurationModel;
use crate::config::HttpMethod;
use crate::config::RawArgumentsModel;
use crate::config::spec_build_configuration;
use crate::request::HeaderFieldModel;
use crate::request::spec_build_request;
use crate::request::spec_has_header;

verus! {

/// Every configuration the validator accepts is well formed.
pub proof fn lemma_built_configuration_wf(a: RawArgumentsModel)
    requires
        spec_build_configuration(a) is Ok,
    ensures
        spec_build_configuration(a)->Ok_0.wf(),
{
    reveal_strlit("bearer");
    reveal_strlit("basic");
}

/// For every accepted set of options, the request built from the resulting
/// configuration carries exactly the method and URL the options named, and a
/// `content-type` header exactly when the method bears a body.
pub proof fn lemma_request_matches_configuration(a: RawArgumentsModel, file_body: Option<Seq<u8>>)
    requires
        spec_build_configuration(a) is Ok,
    ensures
        ({
            let c = spec_build_configuration(a)->Ok_0;
            let r = spec_build_request(c, file_body);
            &&& Some(r.method) == HttpMethod::spec_parse(a.http_method->Some_0)
            &&& r.url == a.request_url->Some_0
            &&& spec_has_header(r.headers, "content-type"@) <==> r.method.spec_is_body_bearing()
            &&& r.method.spec_is_body_bearing() ==> r.headers[0] == (HeaderFieldModel {
                name: "content-type"@,
                value: a.request_content_type->Some_0,
            })
        }),
{
    reveal_strlit("content-type");
    reveal_strlit("Authorization");
    let c = spec_build_configuration(a)->Ok_0;
    let r = spec_build_request(c, file_body);
    if r.method.spec_is_body_bearing() {
        assert(r.headers[0].name == "content-type"@);
    } else {
        assert(forall|i: int|
            0 <= i < r.headers.len() ==> r.headers[i].name == "Authorization"@);
    }
}

/// GET and DELETE requests attach no body and no `content-type` header,
/// whatever the configuration otherwise holds.
pub proof fn lemma_no_body_for_get_and_delete(c: ConfigurationModel, file_body: Option<Seq<u8>>)
    requires
        !c.http_method.spec_is_body_bearing(),
    ensures
        spec_build_request(c, file_body).body == Seq::<u8>::empty(),
        !spec_has_header(spec_build_request(c, file_body).headers, "content-type"@),
{
    reveal_strlit("content-type");
    reveal_strlit("Authorization");
    let r = spec_build_request(c, file_body);
    assert(forall|i: int| 0 <= i < r.headers.len() ==> r.headers[i].name == "Authorization"@);
}

/// GET and DELETE require no body source and no content type: options that
/// name such a method, a URL, and none of the body, file, content-type or
/// authorization options are accepted.
pub proof fn lemma_get_delete_need_no_body_options(a: RawArgumentsModel)
    requires
        a.http_method is Some,
        HttpMethod::spec_parse(a.http_method->Some_0) is Some,
        !HttpMethod::spec_parse(a.http_method->Some_0)->Some_0.spec_is_body_bearing(),
        a.request_url is Some,
        a.auth_type is None,
    ensures
        spec_build_configuration(a) is Ok,
{
}

/// Whenever an authorization scheme is configured, the built request's last
/// header is `Authorization`, its value the scheme as supplied, a space, and
/// the authorization value.
pub proof fn lemma_authorization_header(c: ConfigurationModel, file_body: Option<Seq<u8>>)
    requires
        c.auth_type.len() > 0,
    ensures
        ({
            let headers = spec_build_request(c, file_body).headers;
            &&& headers.len() > 0
            &&& headers.last().name == "Authorization"@
            &&& headers.last().value == c.auth_type + " "@ + c.auth_value
        }),
{
}

/// Round trip for a body read from a file: the bytes the file held are the
/// request body, unchanged.
pub proof fn lemma_file_body_round_trip(c: ConfigurationModel, bytes: Seq<u8>)
    requires
        c.http_method.spec_is_body_bearing(),
        c.request_body_as_file.len() > 0,
    ensures
        spec_build_request(c, Some(bytes)).body == bytes,
{
}

} // verus!
