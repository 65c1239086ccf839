//! Endpoints of the Interactions API and the URLs that reach them.

use vstd::prelude::*;
use vstd::string::*;

verus! {

/// The API version to target.
#[derive(Debug, Clone, Copy, PartialEq, Eq)]
pub enum ApiVersion {
    /// V1 Alpha API version (reserved for future use).
    V1Alpha,
    /// V1 Beta API version (current).
    V1Beta,
}

/// The path segment that names an API version.
pub open spec fn version_segment(version: ApiVersion) -> Seq<char> {
    match version {
        ApiVersion::V1Alpha => "v1alpha"@,
        ApiVersion::V1Beta => "v1beta"@,
    }
}

impl ApiVersion {
    /// The path segment of this version.
    pub fn as_str(self) -> (s: &'static str)
        ensures
            s@ == version_segment(self),
    {
        match self {
            ApiVersion::V1Alpha => "v1alpha",
            ApiVersion::V1Beta => "v1beta",
        }
    }
}

/// Scheme and host of every endpoint.
pub const BASE_URL_PREFIX: &'static str = "https://generativelanguage.googleapis.com";

/// Header name for API key authentication.
///
/// The key travels in a header, never in the URL, so it stays out of logs,
/// histories and error messages that quote URLs.
pub const API_KEY_HEADER: &'static str = "X-Goog-Api-Key";

/// The endpoints of the Interactions API.
#[derive(Debug, Clone, PartialEq, Eq)]
pub enum Endpoint<'a> {
    /// Create a new interaction.
    CreateInteraction { stream: bool },
    /// Retrieve an interaction by ID.
    GetInteraction { id: &'a str },
    /// Delete an interaction by ID.
    DeleteInteraction { id: &'a str },
    /// Cancel a background interaction by ID.
    CancelInteraction { id: &'a str },
}

/// The URL path of an endpoint under a version.
pub open spec fn endpoint_path(endpoint: Endpoint, version: ApiVersion) -> Seq<char> {
    let base = "/"@ + version_segment(version) + "/interactions"@;
    match endpoint {
        Endpoint::CreateInteraction { .. } => base,
        Endpoint::GetInteraction { id } => base + "/"@ + id@,
        Endpoint::DeleteInteraction { id } => base + "/"@ + id@,
        Endpoint::CancelInteraction { id } => base + "/"@ + id@ + "/cancel"@,
    }
}

/// Whether an endpoint is asked for server-sent events.
pub open spec fn endpoint_is_sse(endpoint: Endpoint) -> bool {
    match endpoint {
        Endpoint::CreateInteraction { stream } => stream,
        _ => false,
    }
}

/// The full URL of an endpoint (always under the current version).
pub open spec fn endpoint_url(endpoint: Endpoint) -> Seq<char> {
    BASE_URL_PREFIX@ + endpoint_path(endpoint, ApiVersion::V1Beta) + (if endpoint_is_sse(endpoint) {
        "?alt=sse"@
    } else {
        Seq::empty()
    })
}

impl<'a> Endpoint<'a> {
    /// Constructs the URL path for this endpoint.
    pub fn to_path(&self, version: ApiVersion) -> (path: String)
        ensures
            path@ == endpoint_path(*self, version),
    {
        let mut path = String::from_str("/");
        path.append(version.as_str());
        path.append("/interactions");
        match self {
            Endpoint::CreateInteraction { .. } => {},
            Endpoint::GetInteraction { id } => {
                path.append("/");
                path.append(id);
            },
            Endpoint::DeleteInteraction { id } => {
                path.append("/");
                path.append(id);
            },
            Endpoint::CancelInteraction { id } => {
                path.append("/");
                path.append(id);
                path.append("/cancel");
            },
        }
        path
    }

    /// Whether this endpoint requires the SSE query parameter.
    pub fn requires_sse(&self) -> (b: bool)
        ensures
            b == endpoint_is_sse(*self),
    {
        match self {
            Endpoint::CreateInteraction { stream } => *stream,
            _ => false,
        }
    }
}

/// Constructs the URL of an endpoint.
///
/// The API key is not part of the URL: it is sent in the [`API_KEY_HEADER`].
pub fn construct_endpoint_url(endpoint: Endpoint) -> (url: String)
    ensures
        url@ == endpoint_url(endpoint),
{
    let version = ApiVersion::V1Beta;
    let path = endpoint.to_path(version);
    let mut url = String::from_str(BASE_URL_PREFIX);
    url.append(path.as_str());
    if endpoint.requires_sse() {
        url.append("?alt=sse");
    }
    url
}

} // verus!
