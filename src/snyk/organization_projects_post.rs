//! Project search: finds the project record of one image.

use vstd::prelude::*;
use crate::json::{json_quoted, push_str, quote};
use crate::oci::headers_view;
use crate::policy::Project;
use crate::snyk::{api_headers, Api, ApiError, ApiRequest};

verus! {

/// The decoded body of a successful search.
#[derive(Debug)]
pub struct Response {
    pub projects: Vec<Project>,
}

/// The search body, from the quoted image name.
pub open spec fn request_body_json(name_json: Seq<char>) -> Seq<char> {
    "{\"filters\":{\"name\":"@ + name_json + "}}"@
}

/// Frames the search body from the quoted image name.
pub fn frame_request_body(name_json: &str) -> (r: String)
    ensures
        r@ == request_body_json(name_json@),
{
    let mut body = String::from_str("{\"filters\":{\"name\":");
    push_str(&mut body, name_json);
    push_str(&mut body, "}}");
    body
}

/// Reads the status of a search: only `200` is success.
pub fn check_status(status: u16) -> (r: Result<(), ApiError>)
    ensures
        status == 200 ==> r is Ok,
        status != 200 ==> r == Err::<(), ApiError>(ApiError::UnexpectedStatus(status)),
{
    if status == 200 {
        Ok(())
    } else {
        Err(ApiError::UnexpectedStatus(status))
    }
}

/// The project record of a search answer: the first one found, if any.
pub open spec fn first_project(r: &Response) -> Option<&Project> {
    if r.projects@.len() == 0 {
        None
    } else {
        Some(&r.projects@[0])
    }
}

impl Response {
    /// The project record of the image: the first one found, if any.
    pub fn first(&self) -> (r: Option<&Project>)
        ensures
            r == first_project(self),
    {
        if self.projects.len() == 0 {
            None
        } else {
            Some(&self.projects[0])
        }
    }
}

impl Api {
    /// The search request for the image `name` (`<name>:<reference>`):
    /// a `POST` to `<base>/api/v1/org/<organization>/projects` with the body
    /// `{"filters":{"name":<name>}}`.
    pub fn organization_projects_post_request(&self, name: &str) -> (r: ApiRequest)
        ensures
            r.uri@ == self.spec_base_address() + "/api/v1/org/"@ + self.spec_organization_id()
                + "/projects"@,
            headers_view(r.headers@) == api_headers(self.spec_api_key()),
            r.body@ == request_body_json(json_quoted(name@)),
    {
        let name_json = quote(name);
        let mut uri = self.organization_uri();
        push_str(&mut uri, "/projects");
        ApiRequest { uri, headers: self.headers(), body: frame_request_body(name_json.as_str()) }
    }
}

} // verus!
