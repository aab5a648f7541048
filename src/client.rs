//! The session with the controller: the URLs of its endpoints, the site
//! identifier that discovery resolves, and how responses are classified.

use crate::telemetry::{first_site_id, SitesResponse};
use vstd::prelude::*;

verus! {

/// Path of the liveness endpoint.
pub const API_PATH_INFO: &'static str = "/proxy/network/integration/v1/info";

/// Path of the sites collection; device paths extend it.
pub const API_PATH_SITES: &'static str = "/proxy/network/integration/v1/sites";

/// The text of the URL that `url::Url::parse` makes of `s`, or `None` where it
/// rejects `s`.
pub uninterp spec fn parsed_url(s: Seq<char>) -> Option<Seq<char>>;

/// The text of the URL that `url::Url::join` resolves `path` to against the
/// URL parsed from `base`, or `None` where either step fails.
pub uninterp spec fn joined_url(base: Seq<char>, path: Seq<char>) -> Option<Seq<char>>;

/// `url::ParseError`, the error of the URL parser; only its presence is read.
#[verifier::external_type_specification]
#[verifier::external_body]
pub struct ExParseError(url::ParseError);

/// Relies on `url::Url::parse`, and on `From<Url> for String`, which hands
/// out the serialization of the parsed URL.
#[verifier::external_body]
fn parse_url(s: &str) -> (r: Result<String, url::ParseError>)
    ensures
        r matches Ok(t) ==> parsed_url(s@) == Some(t@),
        r is Err ==> parsed_url(s@) is None,
{
    url::Url::parse(s).map(String::from)
}

/// Relies on `url::Url::parse` for `base` and `url::Url::join` for `path`:
/// an absolute `path` replaces the path of `base`.
#[verifier::external_body]
fn join_url(base: &str, path: &str) -> (r: Result<String, url::ParseError>)
    ensures
        r matches Ok(t) ==> joined_url(base@, path@) == Some(t@),
        r is Err ==> joined_url(base@, path@) is None,
{
    let base = url::Url::parse(base)?;
    base.join(path).map(String::from)
}

/// Path of the device list of a site.
pub open spec fn devices_path(site: Seq<char>) -> Seq<char> {
    API_PATH_SITES@ + "/"@ + site + "/devices"@
}

/// Path of the latest statistics of one device of a site.
pub open spec fn device_stats_path(site: Seq<char>, device: Seq<char>) -> Seq<char> {
    devices_path(site) + "/"@ + device + "/statistics/latest"@
}

/// `r` is the URL that `joined` gives, or `InvalidUrl` where there is none.
pub open spec fn url_result(joined: Option<Seq<char>>, r: Result<String, ClientError>) -> bool {
    match joined {
        Some(u) => r matches Ok(t) && t@ == u,
        None => r == Err::<String, ClientError>(ClientError::InvalidUrl),
    }
}

/// How a request to the controller failed.
#[derive(Debug, Clone, PartialEq, Eq)]
pub enum ClientError {
    /// The request did not complete: network failure or timeout.
    Transport(String),
    /// The controller refused the credential (status 401 or 403).
    AuthExpired,
    /// Any other status outside the 2xx range, with the response body.
    Remote { status: u16, body: String },
    /// The sites collection was empty, or its first entry had no identifier.
    NoGroupFound,
    /// A success response whose body did not have the expected shape.
    Malformed(String),
    /// A request URL could not be built from the endpoint.
    InvalidUrl,
    /// A request that needs the site identifier was asked for before discovery.
    NotReady,
}

/// A status in the 2xx range.
pub open spec fn is_success_status(status: u16) -> bool {
    200 <= status <= 299
}

/// A status that means the credential was not accepted.
pub open spec fn is_auth_status(status: u16) -> bool {
    status == 401 || status == 403
}

/// Classifies a response: the body on success, `AuthExpired` for 401 and 403,
/// `Remote` with the status and body for every other status.
pub fn classify_response(status: u16, body: String) -> (r: Result<String, ClientError>)
    ensures
        is_success_status(status) ==> r == Ok::<String, ClientError>(body),
        is_auth_status(status) ==> r == Err::<String, ClientError>(ClientError::AuthExpired),
        !is_success_status(status) && !is_auth_status(status) ==> r == Err::<String, ClientError>(
            ClientError::Remote { status, body },
        ),
{
    if 200 <= status && status <= 299 {
        Ok(body)
    } else if status == 401 || status == 403 {
        Err(ClientError::AuthExpired)
    } else {
        Err(ClientError::Remote { status, body })
    }
}

/// Whether the site identifier that request paths need has been resolved.
#[derive(Debug, Clone)]
enum Session {
    Uninitialized,
    Ready { site_id: String },
}

/// What a client is: its endpoint, its credential and the resolved site.
pub struct ClientView {
    pub endpoint: Seq<char>,
    pub api_token: Seq<char>,
    pub site: Option<Seq<char>>,
}

/// The session with one controller: endpoint, static credential, and the site
/// identifier once discovery has resolved it. Requests themselves are made by
/// the caller, with the URLs and the credential given here.
pub struct UnifiClient {
    endpoint: String,
    api_token: String,
    session: Session,
}

impl View for UnifiClient {
    type V = ClientView;

    closed spec fn view(&self) -> ClientView {
        ClientView {
            endpoint: self.endpoint@,
            api_token: self.api_token@,
            site: match self.session {
                Session::Uninitialized => None,
                Session::Ready { site_id } => Some(site_id@),
            },
        }
    }
}

impl UnifiClient {
    /// A client for the controller at `endpoint_str`, with no site resolved yet.
    /// Fails with `InvalidUrl` where the endpoint does not parse as a URL.
    pub fn new(endpoint_str: &str, api_token: String) -> (r: Result<UnifiClient, ClientError>)
        ensures
            match parsed_url(endpoint_str@) {
                Some(t) => r matches Ok(c) && c@ == (ClientView {
                    endpoint: t,
                    api_token: api_token@,
                    site: None,
                }),
                None => r == Err::<UnifiClient, ClientError>(ClientError::InvalidUrl),
            },
    {
        match parse_url(endpoint_str) {
            Ok(endpoint) => Ok(UnifiClient { endpoint, api_token, session: Session::Uninitialized }),
            Err(_) => Err(ClientError::InvalidUrl),
        }
    }

    /// The credential, sent with every request.
    pub fn api_token(&self) -> (r: &str)
        ensures
            r@ == self@.api_token,
    {
        self.api_token.as_str()
    }

    /// The endpoint, as the URL parser wrote it.
    pub fn endpoint(&self) -> (r: &str)
        ensures
            r@ == self@.endpoint,
    {
        self.endpoint.as_str()
    }

    /// Whether the site identifier has been resolved.
    pub fn is_ready(&self) -> (r: bool)
        ensures
            r == (self@.site is Some),
    {
        match &self.session {
            Session::Uninitialized => false,
            Session::Ready { .. } => true,
        }
    }

    /// The resolved site identifier, if any.
    pub fn site_id(&self) -> (r: Option<String>)
        ensures
            r matches Some(s) ==> self@.site == Some(s@),
            r is None ==> self@.site is None,
    {
        match &self.session {
            Session::Uninitialized => None,
            Session::Ready { site_id } => Some(site_id.clone()),
        }
    }

    /// URL of the liveness endpoint.
    pub fn info_url(&self) -> (r: Result<String, ClientError>)
        ensures
            url_result(joined_url(self@.endpoint, API_PATH_INFO@), r),
    {
        map_url(join_url(self.endpoint.as_str(), API_PATH_INFO))
    }

    /// URL of the sites collection.
    pub fn sites_url(&self) -> (r: Result<String, ClientError>)
        ensures
            url_result(joined_url(self@.endpoint, API_PATH_SITES@), r),
    {
        map_url(join_url(self.endpoint.as_str(), API_PATH_SITES))
    }

    /// URL of the device list of the resolved site; `NotReady` before discovery.
    pub fn devices_url(&self) -> (r: Result<String, ClientError>)
        ensures
            match self@.site {
                Some(s) => url_result(joined_url(self@.endpoint, devices_path(s)), r),
                None => r == Err::<String, ClientError>(ClientError::NotReady),
            },
    {
        match &self.session {
            Session::Uninitialized => Err(ClientError::NotReady),
            Session::Ready { site_id } => {
                let path = devices_path_of(site_id.as_str());
                map_url(join_url(self.endpoint.as_str(), path.as_str()))
            },
        }
    }

    /// URL of the latest statistics of a device of the resolved site;
    /// `NotReady` before discovery.
    pub fn device_stats_url(&self, device_id: &str) -> (r: Result<String, ClientError>)
        ensures
            match self@.site {
                Some(s) => url_result(joined_url(self@.endpoint, device_stats_path(s, device_id@)), r),
                None => r == Err::<String, ClientError>(ClientError::NotReady),
            },
    {
        match &self.session {
            Session::Uninitialized => Err(ClientError::NotReady),
            Session::Ready { site_id } => {
                let mut path = devices_path_of(site_id.as_str());
                path.append("/");
                path.append(device_id);
                path.append("/statistics/latest");
                map_url(join_url(self.endpoint.as_str(), path.as_str()))
            },
        }
    }

    /// Takes the site identifier from a sites response: the first entry's.
    /// Fails with `NoGroupFound`, leaving the client as it was, where the
    /// collection is empty or that entry has no identifier.
    pub fn set_site_from(&mut self, sites: &SitesResponse) -> (r: Result<(), ClientError>)
        ensures
            final(self)@.endpoint == old(self)@.endpoint,
            final(self)@.api_token == old(self)@.api_token,
            match first_site_id(*sites) {
                Some(id) => r is Ok && final(self)@.site == Some(id),
                None => r == Err::<(), ClientError>(ClientError::NoGroupFound)
                    && final(self)@.site == old(self)@.site,
            },
    {
        match sites.first_id() {
            Some(site_id) => {
                self.session = Session::Ready { site_id };
                Ok(())
            },
            None => Err(ClientError::NoGroupFound),
        }
    }

    /// Forgets the site identifier, so that the next cycle discovers it again.
    pub fn reset(&mut self)
        ensures
            final(self)@ == (ClientView { site: None, ..old(self)@ }),
    {
        self.session = Session::Uninitialized;
    }
}

fn devices_path_of(site: &str) -> (r: String)
    ensures
        r@ == devices_path(site@),
{
    let mut path = String::from_str(API_PATH_SITES);
    path.append("/");
    path.append(site);
    path.append("/devices");
    path
}

fn map_url(r: Result<String, url::ParseError>) -> (m: Result<String, ClientError>)
    ensures
        r matches Ok(t) ==> m matches Ok(u) && u@ == t@,
        r is Err ==> m == Err::<String, ClientError>(ClientError::InvalidUrl),
{
    match r {
        Ok(t) => Ok(t),
        Err(_) => Err(ClientError::InvalidUrl),
    }
}

} // verus!
