//! Requests to the Timeular API and the classification of their replies.
//!
//! A request is a plain value; the host sends it and hands back a [`Reply`].
//! [`TimeularHttpClient::receive`] turns every reply into a payload or into one
//! of three failures: the server was not reached, it answered with an error
//! status, or its body did not have the expected shape.
use crate::data::{
    ActivityRequest, ActivityResponse, LoginRequest, LoginResponse, SpaceListResponse, TagRequest,
    TagResponse,
};
use crate::error::Error;
use vstd::prelude::*;

verus! {

/// The HTTP method of a request.
#[derive(Debug, Clone, Copy, PartialEq, Eq)]
pub enum Method {
    Get,
    Post,
}

/// One header line.
#[derive(Debug, Clone, PartialEq, Eq)]
pub struct Header {
    pub name: String,
    pub value: String,
}

/// The JSON body that a request carries.
#[derive(Debug, Clone, PartialEq, Eq)]
pub enum RequestBody {
    Empty,
    Login(LoginRequest),
    Activity(ActivityRequest),
    Tag(TagRequest),
}

/// The shape that a successful answer is expected to have.
#[derive(Debug, Clone, Copy, PartialEq, Eq)]
pub enum Shape {
    /// Nothing is read from the body.
    Nothing,
    Token,
    Spaces,
    Activity,
    Tag,
}

/// A decoded answer body.
#[derive(Debug, Clone, PartialEq, Eq)]
pub enum Payload {
    Nothing,
    Token(LoginResponse),
    Spaces(SpaceListResponse),
    Activity(ActivityResponse),
    Tag(TagResponse),
}

/// What came back from sending a request.
#[derive(Debug, Clone, PartialEq, Eq)]
pub enum Reply {
    /// The server could not be reached or the connection failed; the cause.
    Unreachable(String),
    /// The server answered: its status, the body text (empty where it could not
    /// be read), and the body decoded into the request's shape, where it could be.
    Answered { status: u16, text: String, body: Option<Payload> },
}

/// A request, ready to be sent.
#[derive(Debug, Clone, PartialEq, Eq)]
pub struct Request {
    pub method: Method,
    pub url: String,
    pub headers: Vec<Header>,
    pub body: RequestBody,
    /// The shape of a successful answer.
    pub expect: Shape,
    /// The operation, as a decode failure names it.
    pub context: String,
}

/// What the session keeps of a request it sent, to read the reply by.
#[derive(Debug, Clone, PartialEq, Eq)]
pub struct Sent {
    pub url: String,
    pub context: String,
}

/// The fixed configuration of the client, built once and used for every request.
#[derive(Debug, Clone, PartialEq, Eq)]
pub struct TimeularHttpClient {
    pub url: String,
    pub api_version: String,
    pub timeout_secs: u64,
    pub user_agent: String,
    pub gzip: bool,
    pub https_only: bool,
}

// The fixed texts of the protocol: addresses, header names, and the operation
// names that decode failures carry.
pub open spec fn base_url() -> Seq<char> {
    "https://api.timeular.com/api"@
}

pub open spec fn api_version() -> Seq<char> {
    "v3"@
}

pub open spec fn user_agent() -> Seq<char> {
    "Tmlr Client"@
}

pub open spec fn content_type_name() -> Seq<char> {
    "content-type"@
}

pub open spec fn json_media_type() -> Seq<char> {
    "application/json"@
}

pub open spec fn authorization_name() -> Seq<char> {
    "authorization"@
}

pub open spec fn bearer(token: Seq<char>) -> Seq<char> {
    "Bearer "@ + token
}

pub open spec fn sign_in_path() -> Seq<char> {
    "/developer/sign-in"@
}

pub open spec fn logout_path() -> Seq<char> {
    "/developer/logout"@
}

pub open spec fn activities_path() -> Seq<char> {
    "/activities"@
}

pub open spec fn tags_path() -> Seq<char> {
    "/tags"@
}

pub open spec fn spaces_path() -> Seq<char> {
    "/space"@
}

pub open spec fn fixed_integration() -> Seq<char> {
    "zei"@
}

pub open spec fn fixed_scope() -> Seq<char> {
    "timeular"@
}

pub open spec fn fetching_spaces() -> Seq<char> {
    "fetching spaces"@
}

pub open spec fn creating_activity() -> Seq<char> {
    "creating an activity"@
}

pub open spec fn creating_tag() -> Seq<char> {
    "creating a tag"@
}

/// The fixed client configuration: the v3 API over HTTPS only, a timeout of
/// sixty seconds, compressed transfers.
pub open spec fn standard(c: TimeularHttpClient) -> bool {
    &&& c.url@ == base_url()
    &&& c.api_version@ == api_version()
    &&& c.timeout_secs == 60
    &&& c.user_agent@ == user_agent()
    &&& c.gzip
    &&& c.https_only
}

/// A status in `200..=299`.
pub open spec fn is_success(status: u16) -> bool {
    200 <= status <= 299
}

/// The payload has the expected shape.
pub open spec fn fits(p: Payload, s: Shape) -> bool {
    match s {
        Shape::Nothing => p is Nothing,
        Shape::Token => p is Token,
        Shape::Spaces => p is Spaces,
        Shape::Activity => p is Activity,
        Shape::Tag => p is Tag,
    }
}

/// The headers of a request: the JSON content type, and the bearer token where
/// one is given.
pub open spec fn headers_well_formed(h: Seq<Header>, token: Option<Seq<char>>) -> bool {
    &&& h.len() == if token is Some { 2int } else { 1int }
    &&& h[0].name@ == content_type_name()
    &&& h[0].value@ == json_media_type()
    &&& token matches Some(t) ==> h[1].name@ == authorization_name() && h[1].value@ == bearer(t)
}

/// What a reply comes to, for a request sent to `sent.url` whose successful
/// answer has the shape `expect`.
pub open spec fn received(sent: Sent, expect: Shape, reply: Reply) -> Result<Payload, Error> {
    match reply {
        Reply::Unreachable(cause) => Err(Error::TransportFailure { url: sent.url, cause }),
        Reply::Answered { status, text, body } => {
            if !is_success(status) {
                Err(Error::ApiFailure { url: sent.url, status, body: text })
            } else if expect is Nothing {
                Ok(Payload::Nothing)
            } else {
                match body {
                    Some(p) => if fits(p, expect) {
                        Ok(p)
                    } else {
                        Err(Error::DecodeFailure(sent.context))
                    },
                    None => Err(Error::DecodeFailure(sent.context)),
                }
            }
        },
    }
}

/// What is kept of a request once it is sent.
pub open spec fn sent_for(r: Request) -> Sent {
    Sent { url: r.url, context: r.context }
}

/// `r` signs in with `key` and `secret`, without a bearer token.
pub open spec fn is_login(c: TimeularHttpClient, r: Request, key: String, secret: String) -> bool {
    &&& r.method == Method::Post
    &&& r.url@ == c.endpoint(sign_in_path())
    &&& headers_well_formed(r.headers@, None)
    &&& r.body == RequestBody::Login(LoginRequest { api_key: key, api_secret: secret })
    &&& r.expect == Shape::Token
}

/// `r` releases `token`.
pub open spec fn is_logout(c: TimeularHttpClient, r: Request, token: Seq<char>) -> bool {
    &&& r.method == Method::Post
    &&& r.url@ == c.endpoint(logout_path())
    &&& headers_well_formed(r.headers@, Some(token))
    &&& r.body == RequestBody::Empty
    &&& r.expect == Shape::Nothing
}

/// `r` creates an activity in the space `space_id`, with the fixed integration.
pub open spec fn is_activity_creation(
    c: TimeularHttpClient,
    r: Request,
    token: Seq<char>,
    name: String,
    color: String,
    space_id: String,
) -> bool {
    &&& r.method == Method::Post
    &&& r.url@ == c.endpoint(activities_path())
    &&& headers_well_formed(r.headers@, Some(token))
    &&& r.body matches RequestBody::Activity(a) && a.name == name && a.color == color
        && a.integration@ == fixed_integration() && a.space_id == space_id
    &&& r.expect == Shape::Activity
    &&& r.context@ == creating_activity()
}

/// `r` creates a tag in the space `space_id`, with the fixed scope.
pub open spec fn is_tag_creation(
    c: TimeularHttpClient,
    r: Request,
    token: Seq<char>,
    label: String,
    key: Option<String>,
    space_id: String,
) -> bool {
    &&& r.method == Method::Post
    &&& r.url@ == c.endpoint(tags_path())
    &&& headers_well_formed(r.headers@, Some(token))
    &&& r.body matches RequestBody::Tag(t) && t.label == label && t.key == key && t.scope@
        == fixed_scope() && t.space_id == space_id
    &&& r.expect == Shape::Tag
    &&& r.context@ == creating_tag()
}

/// `r` lists the spaces of the account.
pub open spec fn is_space_listing(c: TimeularHttpClient, r: Request, token: Seq<char>) -> bool {
    &&& r.method == Method::Get
    &&& r.url@ == c.endpoint(spaces_path())
    &&& headers_well_formed(r.headers@, Some(token))
    &&& r.body == RequestBody::Empty
    &&& r.expect == Shape::Spaces
    &&& r.context@ == fetching_spaces()
}

pub open spec fn opt_view(token: Option<&str>) -> Option<Seq<char>> {
    match token {
        Some(t) => Some(t@),
        None => None,
    }
}

fn literal(s: &str) -> (r: String)
    ensures
        r@ == s@,
{
    String::from_str(s)
}

impl TimeularHttpClient {
    /// The fixed configuration.
    pub fn new() -> (c: Self)
        ensures
            standard(c),
    {
        TimeularHttpClient {
            url: literal("https://api.timeular.com/api"),
            api_version: literal("v3"),
            timeout_secs: 60,
            user_agent: literal("Tmlr Client"),
            gzip: true,
            https_only: true,
        }
    }

    /// The address of an API path.
    pub open spec fn endpoint(&self, path: Seq<char>) -> Seq<char> {
        self.url@ + seq!['/'] + self.api_version@ + path
    }

    /// The address of an API path: base, `/`, version, path.
    pub fn uri(&self, path: &str) -> (r: String)
        ensures
            r@ == self.endpoint(path@),
    {
        let mut r = self.url.clone();
        r.append("/");
        proof {
            reveal_strlit("/");
        }
        r.append(self.api_version.as_str());
        r.append(path);
        assert(r@ =~= self.endpoint(path@));
        r
    }

    /// The headers of every request: the JSON content type, and the bearer token
    /// where one is given.
    pub fn construct_headers(token: Option<&str>) -> (r: Vec<Header>)
        ensures
            headers_well_formed(r@, opt_view(token)),
    {
        let mut r: Vec<Header> = Vec::new();
        r.push(Header { name: literal("content-type"), value: literal("application/json") });
        match token {
            Some(t) => {
                let mut value = literal("Bearer ");
                value.append(t);
                r.push(Header { name: literal("authorization"), value });
            },
            None => {},
        }
        r
    }

    /// The one primitive for a POST with a JSON body.
    pub fn post(
        &self,
        path: &str,
        token: Option<&str>,
        body: RequestBody,
        context: &str,
        expect: Shape,
    ) -> (r: Request)
        ensures
            r.method == Method::Post,
            r.url@ == self.endpoint(path@),
            headers_well_formed(r.headers@, opt_view(token)),
            r.body == body,
            r.expect == expect,
            r.context@ == context@,
    {
        Request {
            method: Method::Post,
            url: self.uri(path),
            headers: Self::construct_headers(token),
            body,
            expect,
            context: literal(context),
        }
    }

    /// The one primitive for a GET, which always carries the token.
    pub fn get(&self, path: &str, token: &str, context: &str, expect: Shape) -> (r: Request)
        ensures
            r.method == Method::Get,
            r.url@ == self.endpoint(path@),
            headers_well_formed(r.headers@, Some(token@)),
            r.body == RequestBody::Empty,
            r.expect == expect,
            r.context@ == context@,
    {
        Request {
            method: Method::Get,
            url: self.uri(path),
            headers: Self::construct_headers(Some(token)),
            body: RequestBody::Empty,
            expect,
            context: literal(context),
        }
    }

    /// Sign-in with the credential pair; carries no bearer token.
    pub fn login(&self, api_key: String, api_secret: String) -> (r: Request)
        ensures
            is_login(*self, r, api_key, api_secret),
    {
        self.post(
            "/developer/sign-in",
            None,
            RequestBody::Login(LoginRequest { api_key, api_secret }),
            "authenticating",
            Shape::Token,
        )
    }

    /// Release of a token.
    pub fn logout(&self, token: &str) -> (r: Request)
        ensures
            is_logout(*self, r, token@),
    {
        self.post("/developer/logout", Some(token), RequestBody::Empty, "logging out", Shape::Nothing)
    }

    /// Creation of an activity; the integration is always `zei`.
    pub fn create_activity(
        &self,
        token: &str,
        name: String,
        color: String,
        space_id: String,
    ) -> (r: Request)
        ensures
            is_activity_creation(*self, r, token@, name, color, space_id),
    {
        let body = ActivityRequest { name, color, integration: literal("zei"), space_id };
        self.post("/activities", Some(token), RequestBody::Activity(body), "creating an activity", Shape::Activity)
    }

    /// Creation of a tag; the scope is always `timeular`.
    pub fn create_tag(
        &self,
        token: &str,
        label: String,
        key: Option<String>,
        space_id: String,
    ) -> (r: Request)
        ensures
            is_tag_creation(*self, r, token@, label, key, space_id),
    {
        let body = TagRequest { label, key, scope: literal("timeular"), space_id };
        self.post("/tags", Some(token), RequestBody::Tag(body), "creating a tag", Shape::Tag)
    }

    /// The list of the account's spaces.
    pub fn list_spaces(&self, token: &str) -> (r: Request)
        ensures
            is_space_listing(*self, r, token@),
    {
        self.get("/space", token, "fetching spaces", Shape::Spaces)
    }

    /// The failure for an answer with an error status.
    pub fn create_default_error(url: String, status: u16, text: String) -> (e: Error)
        ensures
            e == (Error::ApiFailure { url, status, body: text }),
    {
        Error::ApiFailure { url, status, body: text }
    }

    /// Classifies a reply: transport failure, error status, body of the wrong
    /// shape, or the payload.
    pub fn receive(sent: &Sent, expect: Shape, reply: Reply) -> (r: Result<Payload, Error>)
        ensures
            r == received(*sent, expect, reply),
    {
        match reply {
            Reply::Unreachable(cause) => Err(Error::TransportFailure { url: sent.url.clone(), cause }),
            Reply::Answered { status, text, body } => {
                if status < 200 || status > 299 {
                    Err(Self::create_default_error(sent.url.clone(), status, text))
                } else {
                    match (expect, body) {
                        (Shape::Nothing, _) => Ok(Payload::Nothing),
                        (Shape::Token, Some(Payload::Token(p))) => Ok(Payload::Token(p)),
                        (Shape::Spaces, Some(Payload::Spaces(p))) => Ok(Payload::Spaces(p)),
                        (Shape::Activity, Some(Payload::Activity(p))) => Ok(Payload::Activity(p)),
                        (Shape::Tag, Some(Payload::Tag(p))) => Ok(Payload::Tag(p)),
                        _ => Err(Error::DecodeFailure(sent.context.clone())),
                    }
                }
            },
        }
    }
}

impl Request {
    /// What is kept of the request once it is sent.
    pub fn sent(&self) -> (s: Sent)
        ensures
            s == sent_for(*self),
    {
        Sent { url: self.url.clone(), context: self.context.clone() }
    }
}

} // verus!
