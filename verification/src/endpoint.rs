//! Channel endpoints: the parts of a URL that the rules on channels read.
use crate::text::optional_text;
use vstd::prelude::*;

verus! {

/// The parts of a URL.
pub struct Endpoint {
    pub scheme: String,
    pub username: String,
    pub password: Option<String>,
    pub host: Option<String>,
    /// The port that the URL names, or else the one that its scheme is known for.
    pub port: Option<u16>,
}

/// The mathematical value of an [`Endpoint`].
pub struct EndpointView {
    pub scheme: Seq<char>,
    pub username: Seq<char>,
    pub password: Option<Seq<char>>,
    pub host: Option<Seq<char>>,
    pub port: Option<u16>,
}

impl View for Endpoint {
    type V = EndpointView;

    open spec fn view(&self) -> EndpointView {
        EndpointView {
            scheme: self.scheme@,
            username: self.username@,
            password: optional_text(self.password),
            host: optional_text(self.host),
            port: self.port,
        }
    }
}

/// The view of an optional endpoint.
pub open spec fn optional_endpoint(endpoint: Option<Endpoint>) -> Option<EndpointView> {
    match endpoint {
        Some(e) => Some(e@),
        None => None,
    }
}

/// What `reqwest::Url::parse` makes of a text, by the parts of the URL; nothing where it
/// refuses the text.
pub uninterp spec fn url_parts(text: Seq<char>) -> Option<EndpointView>;

/// `reqwest::Url::parse`, with the accessors `scheme`, `username`, `password`, `host_str` and
/// `port_or_known_default` of the URL: the parts depend on the text alone.
#[verifier::external_body]
pub(crate) fn parse_endpoint(text: &str) -> (endpoint: Option<Endpoint>)
    ensures
        optional_endpoint(endpoint) == url_parts(text@),
{
    let url = reqwest::Url::parse(text).ok()?;
    Some(Endpoint {
        scheme: url.scheme().to_string(),
        username: url.username().to_string(),
        password: url.password().map(|p| p.to_string()),
        host: url.host_str().map(|h| h.to_string()),
        port: url.port_or_known_default(),
    })
}

/// The address of the Titan host in the mesh, the only one that pi-bun channels may name.
pub open spec fn mesh_host() -> Seq<char> {
    "100.88.0.9"@
}

/// The URL is an HTTP or HTTPS one on the mesh address.
pub open spec fn on_mesh(endpoint: EndpointView) -> bool {
    (endpoint.scheme == "http"@ || endpoint.scheme == "https"@) && endpoint.host == Some(
        mesh_host(),
    )
}

/// Whether the URL is an HTTP or HTTPS one on the mesh address.
pub fn is_on_mesh(endpoint: &Endpoint) -> (on: bool)
    ensures
        on == on_mesh(endpoint@),
{
    let web = crate::text::same_text(endpoint.scheme.as_str(), "http") || crate::text::same_text(
        endpoint.scheme.as_str(),
        "https",
    );
    match &endpoint.host {
        Some(host) => web && crate::text::same_text(host.as_str(), "100.88.0.9"),
        None => false,
    }
}

/// A URL is on the mesh exactly when its scheme is HTTP or HTTPS and its host is the one mesh
/// address.
pub proof fn law_the_mesh_is_one_address(endpoint: EndpointView)
    ensures
        on_mesh(endpoint) <==> endpoint.host == Some("100.88.0.9"@) && (endpoint.scheme == "http"@
            || endpoint.scheme == "https"@),
{
}

} // verus!
