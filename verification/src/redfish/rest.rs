use crate::text::{decimal, decimal_string, trim_matches, trimmed};
use url::Url;
use vstd::prelude::*;

verus! {

/// What went wrong below the Redfish layer.
#[derive(Debug, PartialEq, Eq)]
pub enum RestError {
    Internal(String),
    Json(String),
    Http(String),
    NotFound(String),
    AuthFailure(String),
    InvalidConfig(String),
}

/// A `RestError` as a mathematical value.
pub enum RestErrorView {
    Internal(Seq<char>),
    Json(Seq<char>),
    Http(Seq<char>),
    NotFound(Seq<char>),
    AuthFailure(Seq<char>),
    InvalidConfig(Seq<char>),
}

impl View for RestError {
    type V = RestErrorView;

    open spec fn view(&self) -> RestErrorView {
        match self {
            RestError::Internal(m) => RestErrorView::Internal(m@),
            RestError::Json(m) => RestErrorView::Json(m@),
            RestError::Http(m) => RestErrorView::Http(m@),
            RestError::NotFound(m) => RestErrorView::NotFound(m@),
            RestError::AuthFailure(m) => RestErrorView::AuthFailure(m@),
            RestError::InvalidConfig(m) => RestErrorView::InvalidConfig(m@),
        }
    }
}

impl RestErrorView {
    /// The text that the error is reported with.
    pub open spec fn message(self) -> Seq<char> {
        match self {
            RestErrorView::Internal(m) => m,
            RestErrorView::Json(m) => m,
            RestErrorView::Http(m) => m,
            RestErrorView::NotFound(m) => "'"@ + m + "' not found"@,
            RestErrorView::AuthFailure(m) => "failed to auth '"@ + m + "'"@,
            RestErrorView::InvalidConfig(m) => "invalid configuration '"@ + m + "'"@,
        }
    }
}

impl RestError {
    /// The text that the error is reported with.
    pub fn to_string(&self) -> (r: String)
        ensures
            r@ == self@.message(),
    {
        match self {
            RestError::Internal(m) => m.clone(),
            RestError::Json(m) => m.clone(),
            RestError::Http(m) => m.clone(),
            RestError::NotFound(m) => {
                let mut r = String::from_str("'");
                r.append(m.as_str());
                r.append("' not found");
                r
            },
            RestError::AuthFailure(m) => {
                let mut r = String::from_str("failed to auth '");
                r.append(m.as_str());
                r.append("'");
                r
            },
            RestError::InvalidConfig(m) => {
                let mut r = String::from_str("invalid configuration '");
                r.append(m.as_str());
                r.append("'");
                r
            },
        }
    }
}

/// The parts of a parsed address that a client is made from.
pub struct Address {
    pub scheme: String,
    pub host: Option<String>,
    pub port: Option<u16>,
}

/// An `Address` as a mathematical value.
pub struct AddressView {
    pub scheme: Seq<char>,
    pub host: Option<Seq<char>>,
    pub port: Option<u16>,
}

impl View for Address {
    type V = AddressView;

    open spec fn view(&self) -> AddressView {
        AddressView {
            scheme: self.scheme@,
            host: match self.host {
                Some(h) => Some(h@),
                None => None,
            },
            port: self.port,
        }
    }
}

/// What the URL parser makes of `address`: nothing where it is no absolute
/// URL, else its scheme, its host where it has one, and its port where the
/// text gives one that is not the scheme's own.
pub uninterp spec fn parsed_address(address: Seq<char>) -> Option<AddressView>;

/// `url::Url::parse`, with the scheme, host and port of the URL it returns
/// read out by `Url::scheme`, `Url::host_str` and `Url::port`. The parser is
/// a function of the text alone; the contract gives its result a name and
/// claims nothing of what it is.
#[verifier::external_body]
fn parse_address(address: &str) -> (r: Option<Address>)
    ensures
        match r {
            Some(a) => parsed_address(address@) == Some(a@),
            None => parsed_address(address@) is None,
        },
{
    match Url::parse(address) {
        Ok(url) => Some(
            Address {
                scheme: url.scheme().to_string(),
                host: url.host_str().map(|h| h.to_string()),
                port: url.port(),
            },
        ),
        Err(_) => None,
    }
}

/// What a client is constructed from.
pub struct RestConfig {
    pub address: String,
    pub username: String,
    pub password: String,
}

/// Whether requests travel over TLS.
#[derive(Clone, Copy, Debug, PartialEq, Eq, Structural)]
pub enum Scheme {
    Plain,
    Secure,
}

impl Scheme {
    /// The scheme as it stands in a URL.
    pub open spec fn text(self) -> Seq<char> {
        match self {
            Scheme::Plain => "http"@,
            Scheme::Secure => "https"@,
        }
    }

    /// The port that the scheme implies.
    pub open spec fn default_port(self) -> u16 {
        match self {
            Scheme::Plain => 80,
            Scheme::Secure => 443,
        }
    }

    /// The scheme of a parsed address: plain for `http`, secure for all else.
    pub open spec fn of(scheme: Seq<char>) -> Scheme {
        if scheme == "http"@ {
            Scheme::Plain
        } else {
            Scheme::Secure
        }
    }
}

/// Executes nothing by itself: it says what to send to one controller and
/// what a reply means.
pub struct RestClient {
    scheme: Scheme,
    address: String,
    user: String,
    password: String,
}

/// A `RestClient` as a mathematical value.
pub struct RestClientView {
    pub scheme: Scheme,
    /// Host and port, with a colon between.
    pub address: Seq<char>,
    pub user: Seq<char>,
    pub password: Seq<char>,
}

impl View for RestClient {
    type V = RestClientView;

    closed spec fn view(&self) -> RestClientView {
        RestClientView {
            scheme: self.scheme,
            address: self.address@,
            user: self.user@,
            password: self.password@,
        }
    }
}

/// The client for a parsed address: none without a URL or without a host;
/// else host and port, the port being the scheme's own where the address
/// gives none.
pub open spec fn client_for(
    parsed: Option<AddressView>,
    username: Seq<char>,
    password: Seq<char>,
) -> Result<RestClientView, RestErrorView> {
    match parsed {
        None => Err(RestErrorView::InvalidConfig("invalid BMC url"@)),
        Some(a) => match a.host {
            None => Err(RestErrorView::InvalidConfig("invalid BMC host"@)),
            Some(host) => {
                let scheme = Scheme::of(a.scheme);
                let port = match a.port {
                    Some(p) => p,
                    None => scheme.default_port(),
                };
                Ok(
                    RestClientView {
                        scheme,
                        address: host + ":"@ + decimal(port as nat),
                        user: username,
                        password,
                    },
                )
            },
        },
    }
}

/// Whether a result and its model say the same.
pub open spec fn same_client(
    r: Result<RestClient, RestError>,
    m: Result<RestClientView, RestErrorView>,
) -> bool {
    match r {
        Ok(c) => m == Ok::<RestClientView, RestErrorView>(c@),
        Err(e) => m == Err::<RestClientView, RestErrorView>(e@),
    }
}

impl RestClient {
    /// The client for what the parser made of an address.
    pub fn from_address(parsed: Option<Address>, username: &String, password: &String) -> (r:
        Result<RestClient, RestError>)
        ensures
            same_client(
                r,
                client_for(
                    match parsed {
                        Some(a) => Some(a@),
                        None => None,
                    },
                    username@,
                    password@,
                ),
            ),
    {
        let a = match parsed {
            Some(a) => a,
            None => {
                return Err(RestError::InvalidConfig(String::from_str("invalid BMC url")));
            },
        };
        let mut address = match a.host {
            Some(host) => host,
            None => {
                return Err(RestError::InvalidConfig(String::from_str("invalid BMC host")));
            },
        };
        let scheme = if a.scheme == String::from_str("http") {
            Scheme::Plain
        } else {
            Scheme::Secure
        };
        let port = match a.port {
            Some(p) => p,
            None => match scheme {
                Scheme::Plain => 80,
                Scheme::Secure => 443,
            },
        };
        address.append(":");
        address.append(decimal_string(port).as_str());
        Ok(RestClient { scheme, address, user: username.clone(), password: password.clone() })
    }

    /// The client for the controller at `config.address`. Fails with
    /// `InvalidConfig` exactly where the address is no URL or names no host.
    pub fn new(config: &RestConfig) -> (r: Result<RestClient, RestError>)
        ensures
            same_client(
                r,
                client_for(parsed_address(config.address@), config.username@, config.password@),
            ),
    {
        RestClient::from_address(
            parse_address(config.address.as_str()),
            &config.username,
            &config.password,
        )
    }
}

/// The verb of a request.
#[derive(Clone, Copy, Debug, PartialEq, Eq, Structural)]
pub enum Method {
    Get,
    Put,
    Patch,
    Delete,
}

/// All that a transport has to know to send one request.
#[derive(Debug, PartialEq, Eq)]
pub struct Request {
    pub method: Method,
    pub url: String,
    /// The value of the `Accept` header.
    pub accept: String,
    /// The value of the `Content-Type` header.
    pub content_type: String,
    /// The credentials for HTTP Basic authorization.
    pub username: String,
    pub password: String,
    pub body: String,
    /// Whether the transport is to take a certificate that it cannot
    /// validate. Controllers present certificates that they issued themselves.
    pub accept_invalid_certs: bool,
    /// After how many seconds without a response the transport gives up.
    pub timeout_secs: u64,
}

/// A `Request` as a mathematical value.
pub struct RequestView {
    pub method: Method,
    pub url: Seq<char>,
    pub accept: Seq<char>,
    pub content_type: Seq<char>,
    pub username: Seq<char>,
    pub password: Seq<char>,
    pub body: Seq<char>,
    pub accept_invalid_certs: bool,
    pub timeout_secs: u64,
}

impl View for Request {
    type V = RequestView;

    open spec fn view(&self) -> RequestView {
        RequestView {
            method: self.method,
            url: self.url@,
            accept: self.accept@,
            content_type: self.content_type@,
            username: self.username@,
            password: self.password@,
            body: self.body@,
            accept_invalid_certs: self.accept_invalid_certs,
            timeout_secs: self.timeout_secs,
        }
    }
}

/// What came of sending a request.
#[derive(Debug, PartialEq, Eq)]
pub enum Reply {
    /// The transport could not make a request of what it was given.
    Rejected(String),
    /// The request was sent, or was to be, and no response came of it.
    Failed(String),
    /// The controller answered.
    Answered { status: u16, body: String },
}

/// A `Reply` as a mathematical value.
pub enum ReplyView {
    Rejected(Seq<char>),
    Failed(Seq<char>),
    Answered { status: u16, body: Seq<char> },
}

impl View for Reply {
    type V = ReplyView;

    open spec fn view(&self) -> ReplyView {
        match self {
            Reply::Rejected(m) => ReplyView::Rejected(m@),
            Reply::Failed(m) => ReplyView::Failed(m@),
            Reply::Answered { status, body } => ReplyView::Answered { status: *status, body: body@ },
        }
    }
}

/// The media type of everything sent and accepted.
pub const JSON: &'static str = "application/json";

/// How long a controller is given to answer, in seconds. A controller that
/// hangs must not hold up the ones after it.
pub const TIMEOUT_SECS: u64 = 30;

impl RestClientView {
    /// Where a request for `path` goes: the slashes at the ends of `path`
    /// are dropped, those inside are kept.
    pub open spec fn url(self, path: Seq<char>) -> Seq<char> {
        self.scheme.text() + "://"@ + self.address + "/"@ + trimmed(path, '/')
    }

    /// The request that the client makes of a verb, a path and a body.
    pub open spec fn request(self, method: Method, path: Seq<char>, data: Option<Seq<char>>) -> RequestView {
        RequestView {
            method,
            url: self.url(path),
            accept: JSON@,
            content_type: JSON@,
            username: self.user,
            password: self.password,
            body: match data {
                Some(d) => d,
                None => Seq::empty(),
            },
            accept_invalid_certs: true,
            timeout_secs: TIMEOUT_SECS,
        }
    }
}

/// A status of the success class.
pub open spec fn is_success(status: u16) -> bool {
    200 <= status < 300
}

/// What a reply means to the caller of a request: the body of a response
/// with a success status, and an error for all else.
pub open spec fn response_of(reply: ReplyView) -> Result<Seq<char>, RestErrorView> {
    match reply {
        ReplyView::Rejected(m) => Err(RestErrorView::InvalidConfig(m)),
        ReplyView::Failed(m) => Err(RestErrorView::Http(m)),
        ReplyView::Answered { status, body } => if is_success(status) {
            Ok(body)
        } else {
            Err(RestErrorView::Http("HTTP status "@ + decimal(status as nat)))
        },
    }
}

/// Whether a result and its model say the same.
pub open spec fn same_text(r: Result<String, RestError>, m: Result<Seq<char>, RestErrorView>) -> bool {
    match r {
        Ok(t) => m == Ok::<Seq<char>, RestErrorView>(t@),
        Err(e) => m == Err::<Seq<char>, RestErrorView>(e@),
    }
}

impl RestClient {
    /// The request that reads the resource at `path`.
    pub fn get(&self, path: &str) -> (r: Request)
        ensures
            r@ == self@.request(Method::Get, path@, None),
    {
        self.request(Method::Get, path, None)
    }

    /// The request that replaces the resource at `path` by `o`.
    pub fn put(&self, path: &str, o: String) -> (r: Request)
        ensures
            r@ == self@.request(Method::Put, path@, Some(o@)),
    {
        self.request(Method::Put, path, Some(o))
    }

    /// The request that removes the resource at `path`.
    pub fn delete(&self, path: &str) -> (r: Request)
        ensures
            r@ == self@.request(Method::Delete, path@, None),
    {
        self.request(Method::Delete, path, None)
    }

    /// The request that changes the resource at `path` as `o` says.
    pub fn patch(&self, path: &str, o: String) -> (r: Request)
        ensures
            r@ == self@.request(Method::Patch, path@, Some(o@)),
    {
        self.request(Method::Patch, path, Some(o))
    }

    fn request(&self, method: Method, path: &str, data: Option<String>) -> (r: Request)
        ensures
            r@ == self@.request(
                method,
                path@,
                match data {
                    Some(d) => Some(d@),
                    None => None,
                },
            ),
    {
        let mut url = String::from_str(
            match self.scheme {
                Scheme::Plain => "http",
                Scheme::Secure => "https",
            },
        );
        url.append("://");
        url.append(self.address.as_str());
        url.append("/");
        url.append(trim_matches(path, '/'));
        Request {
            method,
            url,
            accept: String::from_str(JSON),
            content_type: String::from_str(JSON),
            username: self.user.clone(),
            password: self.password.clone(),
            body: match data {
                Some(d) => d,
                None => String::new(),
            },
            accept_invalid_certs: true,
            timeout_secs: TIMEOUT_SECS,
        }
    }

    /// What the reply to a request of this client means: its body where the
    /// controller answered with a success status; `InvalidConfig` where no
    /// request could be made; `Http` where none was answered, and for any
    /// other status, with the status in the text.
    pub fn response(reply: Reply) -> (r: Result<String, RestError>)
        ensures
            same_text(r, response_of(reply@)),
    {
        match reply {
            Reply::Rejected(m) => Err(RestError::InvalidConfig(m)),
            Reply::Failed(m) => Err(RestError::Http(m)),
            Reply::Answered { status, body } => {
                if 200 <= status && status < 300 {
                    Ok(body)
                } else {
                    let mut m = String::from_str("HTTP status ");
                    m.append(decimal_string(status).as_str());
                    Err(RestError::Http(m))
                }
            },
        }
    }
}

/// A client is made exactly of an address that is a URL with a host; any
/// other address is an invalid configuration.
pub proof fn lemma_client_needs_host(
    parsed: Option<AddressView>,
    username: Seq<char>,
    password: Seq<char>,
)
    ensures
        client_for(parsed, username, password) is Ok <==> parsed is Some && parsed->0.host is Some,
        client_for(parsed, username, password) matches Err(e) ==> e is InvalidConfig,
{
}

/// A reply gives a body exactly where the controller answered with a
/// success status; a failure to build the request is the only invalid
/// configuration, and every other failure is of the kind `Http`.
pub proof fn lemma_response_kinds(reply: ReplyView)
    ensures
        response_of(reply) is Ok <==> (reply matches ReplyView::Answered { status, .. }
            && is_success(status)),
        response_of(reply) matches Ok(body) ==> reply matches ReplyView::Answered { body: b, .. }
            && body == b,
        response_of(reply) matches Err(e) ==> (e is InvalidConfig <==> reply is Rejected) && (e
            is Http <==> !(reply is Rejected)),
{
}

} // verus!
