use vstd::prelude::*;
use vstd::string::*;

use crate::types::{CreateDeploymentBody, Deployment, LoginCredentials};
use crate::wire::{create_body_json, credentials_json};

verus! {

/// A base URL with one trailing slash removed, if it has one.
pub open spec fn normalized_url(s: Seq<char>) -> Seq<char> {
    if s.len() > 0 && s.last() == '/' {
        s.drop_last()
    } else {
        s
    }
}

/// The value of the `Authorization` header for a token.
pub open spec fn bearer(token: Seq<char>) -> Seq<char> {
    "Bearer "@ + token
}

/// The path of one deployment.
pub open spec fn deployment_path(id: Seq<char>) -> Seq<char> {
    "/api/deployment/"@ + id
}

/// The HTTP method of a request.
#[derive(Clone, Copy, Debug, PartialEq, Eq, Structural)]
pub enum Method {
    Get,
    Post,
    Delete,
}

/// A request ready to be sent: method, full URL, the `Authorization` header
/// if any, and the JSON body if any (sent as `application/json`).
#[derive(Debug)]
pub struct Request {
    pub method: Method,
    pub url: String,
    pub authorization: Option<String>,
    pub json_body: Option<String>,
}

/// A request that carries the client's token.
pub open spec fn authorized_request(
    r: Request,
    method: Method,
    url: Seq<char>,
    token: Seq<char>,
    body: Option<Seq<char>>,
) -> bool {
    &&& r.method == method
    &&& r.url@ == url
    &&& r.authorization is Some
    &&& r.authorization->0@ == bearer(token)
    &&& match body {
        Some(b) => r.json_body is Some && r.json_body->0@ == b,
        None => r.json_body is None,
    }
}

/// What a connection to a deployment service knows: its base URL and token.
#[derive(Clone, Debug)]
pub struct Client {
    url: String,
    token: String,
}

fn concat3(a: &str, b: &str, c: &str) -> (r: String)
    ensures
        r@ == a@ + b@ + c@,
{
    let mut out = a.to_string();
    out.append(b);
    out.append(c);
    out
}

impl Client {
    pub closed spec fn spec_url(&self) -> Seq<char> {
        self.url@
    }

    pub closed spec fn spec_token(&self) -> Seq<char> {
        self.token@
    }

    /// Removes one trailing slash from a base URL.
    pub fn parse_url(url: &str) -> (r: String)
        ensures
            r@ == normalized_url(url@),
    {
        let n = url.unicode_len();
        if n > 0 && url.get_char(n - 1) == '/' {
            url.substring_char(0, n - 1).to_string()
        } else {
            url.to_string()
        }
    }

    /// A client on a base URL with a token obtained before.
    pub fn new_with_token(url: &str, token: &str) -> (r: Client)
        ensures
            r.spec_url() == normalized_url(url@),
            r.spec_token() == token@,
    {
        Client { url: Client::parse_url(url), token: token.to_string() }
    }

    pub fn url(&self) -> (r: &str)
        ensures
            r@ == self.spec_url(),
    {
        self.url.as_str()
    }

    pub fn token(&self) -> (r: &str)
        ensures
            r@ == self.spec_token(),
    {
        self.token.as_str()
    }

    /// The login request for a base URL: the credentials posted to
    /// `/login/local`, without a token.
    pub fn login_request(url: &str, username: &str, password: &str) -> (r: Request)
        ensures
            r.method == Method::Post,
            r.url@ == normalized_url(url@) + "/login/local"@,
            r.authorization is None,
            r.json_body is Some,
            r.json_body->0@ == credentials_json(username@, password@),
    {
        let base = Client::parse_url(url);
        let mut full = base;
        full.append("/login/local");
        let creds = LoginCredentials::new(username, password);
        Request { method: Method::Post, url: full, authorization: None, json_body: Some(creds.to_json()) }
    }

    fn authorized(&self, method: Method, path: &str, body: Option<String>) -> (r: Request)
        ensures
            authorized_request(
                r,
                method,
                self.spec_url() + path@,
                self.spec_token(),
                match body {
                    Some(b) => Some(b@),
                    None => None,
                },
            ),
    {
        let mut full = self.url.clone();
        full.append(path);
        let mut auth = "Bearer ".to_string();
        auth.append(self.token.as_str());
        Request { method, url: full, authorization: Some(auth), json_body: body }
    }

    /// POST of the deployment, wrapped as `{"deployment": ...}`, to
    /// `/api/deployment/create`.
    pub fn create_deployment_request(&self, deployment: Deployment) -> (r: Request)
        ensures
            authorized_request(
                r,
                Method::Post,
                self.spec_url() + "/api/deployment/create"@,
                self.spec_token(),
                Some(create_body_json(deployment@)),
            ),
    {
        let body: CreateDeploymentBody = deployment.into_create_body();
        let json = body.to_json();
        self.authorized(Method::Post, "/api/deployment/create", Some(json))
    }

    /// GET of `/api/deployment/{id}/deploy`.
    pub fn deploy_request(&self, deployment_id: &str) -> (r: Request)
        ensures
            authorized_request(
                r,
                Method::Get,
                self.spec_url() + deployment_path(deployment_id@) + "/deploy"@,
                self.spec_token(),
                None,
            ),
    {
        let path = concat3("/api/deployment/", deployment_id, "/deploy");
        let r = self.authorized(Method::Get, path.as_str(), None);
        assert(self.spec_url() + path@ =~= self.spec_url() + deployment_path(deployment_id@)
            + "/deploy"@);
        r
    }

    /// GET of `/api/deployment/{id}`.
    pub fn get_deployment_request(&self, deployment_id: &str) -> (r: Request)
        ensures
            authorized_request(
                r,
                Method::Get,
                self.spec_url() + deployment_path(deployment_id@),
                self.spec_token(),
                None,
            ),
    {
        let path = concat3("/api/deployment/", deployment_id, "");
        proof {
            reveal_strlit("");
        }
        assert(path@ =~= deployment_path(deployment_id@));
        self.authorized(Method::Get, path.as_str(), None)
    }

    /// DELETE of `/api/deployment/{id}/delete`.
    pub fn delete_deployment_request(&self, deployment_id: &str) -> (r: Request)
        ensures
            authorized_request(
                r,
                Method::Delete,
                self.spec_url() + deployment_path(deployment_id@) + "/delete"@,
                self.spec_token(),
                None,
            ),
    {
        let path = concat3("/api/deployment/", deployment_id, "/delete");
        let r = self.authorized(Method::Delete, path.as_str(), None);
        assert(self.spec_url() + path@ =~= self.spec_url() + deployment_path(deployment_id@)
            + "/delete"@);
        r
    }

    /// GET of `/api/deployments`.
    pub fn get_deployments_request(&self) -> (r: Request)
        ensures
            authorized_request(
                r,
                Method::Get,
                self.spec_url() + "/api/deployments"@,
                self.spec_token(),
                None,
            ),
    {
        self.authorized(Method::Get, "/api/deployments", None)
    }
}

} // verus!
