//! Rescan trigger: asks the service to import an image again.

use vstd::prelude::*;
use crate::json::{json_quoted, push_str, quote};
use crate::oci::headers_view;
use crate::snyk::{api_headers, Api, ApiError, ApiRequest};

verus! {

/// Acknowledgement of a rescan.
#[derive(Clone, Copy, Debug, PartialEq, Eq, Structural)]
pub struct Response {}

/// The rescan body, from the quoted image name.
pub open spec fn request_body_json(name_json: Seq<char>) -> Seq<char> {
    "{\"target\":{\"name\":"@ + name_json + "}}"@
}

/// Frames the rescan body from the quoted image name.
pub fn frame_request_body(name_json: &str) -> (r: String)
    ensures
        r@ == request_body_json(name_json@),
{
    let mut body = String::from_str("{\"target\":{\"name\":");
    push_str(&mut body, name_json);
    push_str(&mut body, "}}");
    body
}

/// Reads the status of a rescan: only `201 Created` is success.
pub fn check_status(status: u16) -> (r: Result<Response, ApiError>)
    ensures
        status == 201 ==> r == Ok::<Response, ApiError>(Response {}),
        status != 201 ==> r == Err::<Response, ApiError>(ApiError::UnexpectedStatus(status)),
{
    if status == 201 {
        Ok(Response {})
    } else {
        Err(ApiError::UnexpectedStatus(status))
    }
}

impl Api {
    /// The rescan request for the image `name` (`<name>:<reference>`): a
    /// `POST` to `<base>/api/v1/org/<organization>/integrations/<integration>/import`
    /// with the body `{"target":{"name":<name>}}`.
    pub fn organization_integration_import_post_request(&self, name: &str) -> (r: ApiRequest)
        ensures
            r.uri@ == self.spec_base_address() + "/api/v1/org/"@ + self.spec_organization_id()
                + "/integrations/"@ + self.spec_integration_id() + "/import"@,
            headers_view(r.headers@) == api_headers(self.spec_api_key()),
            r.body@ == request_body_json(json_quoted(name@)),
    {
        let name_json = quote(name);
        let mut uri = self.organization_uri();
        push_str(&mut uri, "/integrations/");
        push_str(&mut uri, self.integration_id.as_str());
        push_str(&mut uri, "/import");
        ApiRequest { uri, headers: self.headers(), body: frame_request_body(name_json.as_str()) }
    }
}

} // verus!
