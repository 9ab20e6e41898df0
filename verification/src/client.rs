//! The transport configuration, the requests it builds and the errors every
//! operation reports.

use crate::query::{encode_query, query_string};
use crate::wire::{decimal_nat, decimal_nat_string, Field, WireFields};
use vstd::prelude::*;

verus! {

/// The name under which every request presents itself.
pub const APP_USER_AGENT: &'static str = "PDL-RUST-SDK";

/// The production endpoint.
pub const DEFAULT_API_URL: &'static str = "https://api.peopledatalabs.com/";

/// The version segment that follows the endpoint.
pub const DEFAULT_API_VERSION: &'static str = "v5";

/// The endpoint that answers with test data and does not bill.
pub const DEFAULT_SANDBOX_URL: &'static str = "https://sandbox.api.peopledatalabs.com/";

/// Seconds a request may take.
pub const DEFAULT_TIMEOUT: u64 = 10;

/// The header that carries the credential.
pub const API_KEY_HEADER: &'static str = "X-Api-Key";

/// The header that carries the user agent.
pub const USER_AGENT_HEADER: &'static str = "User-Agent";

/// Why an operation did not produce a result.
#[derive(Clone, Debug, PartialEq, Eq)]
pub enum PDLError {
    /// The transport failed before a status arrived; the text is its report.
    NetworkError(String),
    /// The service answered with a status other than 200.
    HTTPError(u16),
    /// The parameters could not be written in the wire format.
    SerializationError,
    /// The body of a 200 answer did not have the expected shape.
    DeserializationError,
    /// The parameters broke a rule of their endpoint; nothing was sent.
    ValidationError,
}

impl PDLError {
    /// The text that describes the error.
    pub open spec fn message_text(&self) -> Seq<char> {
        match self {
            PDLError::NetworkError(report) => report@,
            PDLError::HTTPError(status) => "Invalid HTTP status code: "@ + decimal_nat(
                *status as nat,
            ),
            PDLError::SerializationError => "Unable to serialize."@,
            PDLError::DeserializationError => "Unable to deserialize."@,
            PDLError::ValidationError => "Unable to validate."@,
        }
    }

    /// Describes the error in words.
    pub fn message(&self) -> (r: String)
        ensures
            r@ == self.message_text(),
    {
        match self {
            PDLError::NetworkError(report) => report.clone(),
            PDLError::HTTPError(status) => {
                let mut out = String::from_str("Invalid HTTP status code: ");
                let code = decimal_nat_string(*status as u32);
                out.append(code.as_str());
                out
            },
            PDLError::SerializationError => String::from_str("Unable to serialize."),
            PDLError::DeserializationError => String::from_str("Unable to deserialize."),
            PDLError::ValidationError => String::from_str("Unable to validate."),
        }
    }
}

/// The verdict on a parameter value: nothing to report where it is valid, a
/// validation error where it is not.
pub open spec fn verdict(valid: bool) -> Result<(), PDLError> {
    if valid {
        Ok(())
    } else {
        Err(PDLError::ValidationError)
    }
}

/// Turns validity into a verdict.
pub fn verdict_of(valid: bool) -> (r: Result<(), PDLError>)
    ensures
        r == verdict(valid),
{
    if valid {
        Ok(())
    } else {
        Err(PDLError::ValidationError)
    }
}

/// Validation is repeatable: two verdicts on one validity agree.
pub proof fn lemma_verdict_repeatable(
    valid: bool,
    first: Result<(), PDLError>,
    second: Result<(), PDLError>,
)
    requires
        first == verdict(valid),
        second == verdict(valid),
    ensures
        first == second,
        first is Ok <==> valid,
{
}

/// What writing a value in the wire format may hand back: the text, where
/// there is one to write, and a serialization error where there is none.
pub open spec fn serialized(wanted: Option<Seq<char>>, got: Result<String, PDLError>) -> bool {
    match got {
        Ok(text) => wanted == Some(text@),
        Err(e) => e == PDLError::SerializationError && wanted is None,
    }
}

/// Serialization is repeatable: two outcomes for one value are the same text,
/// character for character, or the same error.
pub proof fn lemma_serialized_repeatable(
    wanted: Option<Seq<char>>,
    first: Result<String, PDLError>,
    second: Result<String, PDLError>,
)
    requires
        serialized(wanted, first),
        serialized(wanted, second),
    ensures
        first is Ok <==> second is Ok,
        first is Ok ==> first->Ok_0@ == second->Ok_0@,
        first is Err ==> first->Err_0 == second->Err_0,
{
}

/// Adjustments to a client before its first use.
pub struct PDLCLientOptions {
    /// Whether to talk to the sandbox endpoint.
    pub sandbox: bool,
    /// Seconds a request may take.
    pub timeout: u64,
}

impl PDLCLientOptions {
    /// No sandbox, and the default timeout.
    pub fn default() -> (r: Self)
        ensures
            !r.sandbox,
            r.timeout == DEFAULT_TIMEOUT,
    {
        Self { sandbox: false, timeout: DEFAULT_TIMEOUT }
    }
}

/// How a request is sent.
#[derive(Clone, Copy, Debug, PartialEq, Eq)]
pub enum Method {
    Get,
    Post,
}

/// One HTTP exchange to perform.
#[derive(Clone, Debug, PartialEq, Eq)]
pub struct Request {
    pub method: Method,
    /// The full address, query string included.
    pub url: String,
    /// The JSON body of a POST; a GET has none.
    pub body: Option<String>,
}

/// The mathematical value of a [`Request`].
pub struct RequestView {
    pub method: Method,
    pub url: Seq<char>,
    pub body: Option<Seq<char>>,
}

impl View for Request {
    type V = RequestView;

    open spec fn view(&self) -> RequestView {
        RequestView {
            method: self.method,
            url: self.url@,
            body: match self.body {
                Some(text) => Some(text@),
                None => None,
            },
        }
    }
}

/// What came of sending a request.
#[derive(Clone, Debug, PartialEq, Eq)]
pub enum Outcome {
    /// No answer arrived; the text is the transport's report.
    Failed(String),
    /// The service answered.
    Answered { status: u16, body: String },
}

/// The configuration of a client.
pub struct ClientView {
    pub api_key: Seq<char>,
    pub base_url: Seq<char>,
    pub api_version: Seq<char>,
    pub timeout: u64,
}

impl ClientView {
    /// The address of an endpoint: endpoint base, version, then the path.
    pub open spec fn url(self, endpoint: Seq<char>) -> Seq<char> {
        self.base_url + self.api_version + endpoint
    }

    /// The GET request for an endpoint with a query string.
    pub open spec fn get_request(self, endpoint: Seq<char>, query: Seq<char>) -> RequestView {
        RequestView { method: Method::Get, url: self.url(endpoint) + "?"@ + query, body: None }
    }

    /// The POST request for an endpoint with a body.
    pub open spec fn post_request(self, endpoint: Seq<char>, body: Seq<char>) -> RequestView {
        RequestView { method: Method::Post, url: self.url(endpoint), body: Some(body) }
    }

    /// The GET request that carries the fields, where they can be encoded.
    pub open spec fn get(self, endpoint: Seq<char>, fields: WireFields) -> Option<RequestView> {
        match query_string(fields) {
            Some(query) => Some(self.get_request(endpoint, query)),
            None => None,
        }
    }
}

/// What a GET operation hands back. Parameters that are not valid give a
/// validation error and no request. Valid ones give the request that carries
/// their fields, or a serialization error where the fields cannot be encoded.
pub open spec fn get_outcome(
    client: ClientView,
    endpoint: Seq<char>,
    valid: bool,
    fields: WireFields,
    got: Result<Request, PDLError>,
) -> bool {
    match got {
        Ok(request) => valid && client.get(endpoint, fields) == Some(request@),
        Err(e) => if valid {
            e == PDLError::SerializationError && client.get(endpoint, fields) is None
        } else {
            e == PDLError::ValidationError
        },
    }
}

/// What a POST operation hands back. Parameters that are not valid give a
/// validation error and no request. Valid ones give the request that carries
/// their body, or a serialization error where no body can be written.
pub open spec fn post_outcome(
    client: ClientView,
    endpoint: Seq<char>,
    valid: bool,
    body: Option<Seq<char>>,
    got: Result<Request, PDLError>,
) -> bool {
    match got {
        Ok(request) => valid && body is Some && request@ == client.post_request(
            endpoint,
            body->0,
        ),
        Err(e) => if valid {
            e == PDLError::SerializationError && body is None
        } else {
            e == PDLError::ValidationError
        },
    }
}

/// An operation is repeatable: two outcomes for one client, endpoint and
/// parameter value are the same request or the same error.
pub proof fn lemma_get_repeatable(
    client: ClientView,
    endpoint: Seq<char>,
    valid: bool,
    fields: WireFields,
    first: Result<Request, PDLError>,
    second: Result<Request, PDLError>,
)
    requires
        get_outcome(client, endpoint, valid, fields, first),
        get_outcome(client, endpoint, valid, fields, second),
    ensures
        first is Ok <==> second is Ok,
        first is Ok ==> first->Ok_0@ == second->Ok_0@,
        first is Err ==> first->Err_0 == second->Err_0,
{
}

/// An operation is repeatable: two outcomes for one client, endpoint and body
/// are the same request or the same error.
pub proof fn lemma_post_repeatable(
    client: ClientView,
    endpoint: Seq<char>,
    valid: bool,
    body: Option<Seq<char>>,
    first: Result<Request, PDLError>,
    second: Result<Request, PDLError>,
)
    requires
        post_outcome(client, endpoint, valid, body, first),
        post_outcome(client, endpoint, valid, body, second),
    ensures
        first is Ok <==> second is Ok,
        first is Ok ==> first->Ok_0@ == second->Ok_0@,
        first is Err ==> first->Err_0 == second->Err_0,
{
}

/// Nothing is sent for parameters that are not valid: the operation ends in
/// a validation error before a request exists.
pub proof fn lemma_invalid_sends_nothing(
    client: ClientView,
    endpoint: Seq<char>,
    fields: WireFields,
    body: Option<Seq<char>>,
    got: Result<Request, PDLError>,
)
    requires
        get_outcome(client, endpoint, false, fields, got) || post_outcome(
            client,
            endpoint,
            false,
            body,
            got,
        ),
    ensures
        got == Err::<Request, PDLError>(PDLError::ValidationError),
{
}

/// The connection settings shared by every operation: credential, endpoint,
/// version and timeout. It is set up once and only read afterwards.
#[derive(Debug)]
pub struct PDLClient {
    api_key: String,
    base_url: String,
    api_version: String,
    timeout: u64,
}

impl View for PDLClient {
    type V = ClientView;

    closed spec fn view(&self) -> ClientView {
        ClientView {
            api_key: self.api_key@,
            base_url: self.base_url@,
            api_version: self.api_version@,
            timeout: self.timeout,
        }
    }
}

impl Clone for PDLClient {
    fn clone(&self) -> (r: Self)
        ensures
            r@ == self@,
    {
        PDLClient {
            api_key: self.api_key.clone(),
            base_url: self.base_url.clone(),
            api_version: self.api_version.clone(),
            timeout: self.timeout,
        }
    }
}

impl PDLClient {
    /// A client for the production endpoint with the default version and
    /// timeout.
    pub fn new(api_key: &str) -> (r: Self)
        ensures
            r@ == (ClientView {
                api_key: api_key@,
                base_url: DEFAULT_API_URL@,
                api_version: DEFAULT_API_VERSION@,
                timeout: DEFAULT_TIMEOUT,
            }),
    {
        PDLClient {
            api_key: String::from_str(api_key),
            base_url: String::from_str(DEFAULT_API_URL),
            api_version: String::from_str(DEFAULT_API_VERSION),
            timeout: DEFAULT_TIMEOUT,
        }
    }

    /// The same client for another version of the API.
    pub fn version(self, version: &str) -> (r: Self)
        ensures
            r@ == (ClientView { api_version: version@, ..self@ }),
    {
        let mut next = self;
        next.api_version = String::from_str(version);
        next
    }

    /// The same client with the timeout of the options, and with the sandbox
    /// endpoint where they ask for it.
    pub fn options(self, options: PDLCLientOptions) -> (r: Self)
        ensures
            r@ == (ClientView {
                timeout: options.timeout,
                base_url: if options.sandbox {
                    DEFAULT_SANDBOX_URL@
                } else {
                    self@.base_url
                },
                ..self@
            }),
    {
        let mut next = self;
        next.timeout = options.timeout;
        if options.sandbox {
            next.base_url = String::from_str(DEFAULT_SANDBOX_URL);
        }
        next
    }

    /// The finished client.
    pub fn build(self) -> (r: PDLClient)
        ensures
            r@ == self@,
    {
        PDLClient {
            api_key: self.api_key,
            base_url: self.base_url,
            api_version: self.api_version,
            timeout: self.timeout,
        }
    }

    /// The credential.
    pub fn api_key(&self) -> (r: &str)
        ensures
            r@ == self@.api_key,
    {
        self.api_key.as_str()
    }

    /// The endpoint base.
    pub fn base_url(&self) -> (r: &str)
        ensures
            r@ == self@.base_url,
    {
        self.base_url.as_str()
    }

    /// The version segment.
    pub fn api_version(&self) -> (r: &str)
        ensures
            r@ == self@.api_version,
    {
        self.api_version.as_str()
    }

    /// Seconds a request may take.
    pub fn timeout(&self) -> (r: u64)
        ensures
            r == self@.timeout,
    {
        self.timeout
    }

    /// The headers that every request carries: the credential, then the user
    /// agent. The credential travels here and in no address.
    pub fn headers(&self) -> (r: Vec<(String, String)>)
        ensures
            r.deep_view() == seq![
                (API_KEY_HEADER@, self@.api_key),
                (USER_AGENT_HEADER@, APP_USER_AGENT@),
            ],
    {
        let mut out: Vec<(String, String)> = Vec::new();
        out.push((String::from_str(API_KEY_HEADER), self.api_key.clone()));
        out.push((String::from_str(USER_AGENT_HEADER), String::from_str(APP_USER_AGENT)));
        assert(out.deep_view() =~= seq![
            (API_KEY_HEADER@, self@.api_key),
            (USER_AGENT_HEADER@, APP_USER_AGENT@),
        ]);
        out
    }

    /// The address of an endpoint.
    pub fn endpoint_url(&self, endpoint: &str) -> (r: String)
        ensures
            r@ == self@.url(endpoint@),
    {
        let mut url = self.base_url.clone();
        url.append(self.api_version.as_str());
        url.append(endpoint);
        url
    }

    /// The GET request for an endpoint with a query string that is already
    /// encoded.
    pub fn get_with_query(&self, endpoint: &str, query: &str) -> (r: Request)
        ensures
            r@ == self@.get_request(endpoint@, query@),
    {
        let mut url = self.endpoint_url(endpoint);
        url.append("?");
        url.append(query);
        Request { method: Method::Get, url, body: None }
    }

    /// The GET request for an endpoint: the fields go into the query string.
    /// It is an error only where the fields cannot be encoded.
    pub fn get(&self, endpoint: &str, fields: &Vec<Field>) -> (r: Result<Request, PDLError>)
        ensures
            match r {
                Ok(request) => self@.get(endpoint@, fields.deep_view()) == Some(request@),
                Err(e) => e == PDLError::SerializationError && self@.get(
                    endpoint@,
                    fields.deep_view(),
                ) is None,
            },
    {
        match encode_query(fields) {
            Ok(query) => Ok(self.get_with_query(endpoint, query.as_str())),
            Err(e) => Err(e),
        }
    }

    /// The GET operation of an endpoint: an error found by validation is
    /// handed back and nothing is built; otherwise the fields are sent.
    pub fn send_get(
        &self,
        endpoint: &str,
        checked: Result<(), PDLError>,
        fields: &Vec<Field>,
    ) -> (r: Result<Request, PDLError>)
        ensures
            match checked {
                Ok(_) => match r {
                    Ok(request) => self@.get(endpoint@, fields.deep_view()) == Some(request@),
                    Err(e) => e == PDLError::SerializationError && self@.get(
                        endpoint@,
                        fields.deep_view(),
                    ) is None,
                },
                Err(e) => r == Err::<Request, PDLError>(e),
            },
    {
        match checked {
            Ok(()) => self.get(endpoint, fields),
            Err(e) => Err(e),
        }
    }

    /// The POST operation of an endpoint: an error found by validation is
    /// handed back and nothing is built; otherwise the body is sent, or the
    /// error that kept it from being written is handed back.
    pub fn send_post(
        &self,
        endpoint: &str,
        checked: Result<(), PDLError>,
        body: Result<String, PDLError>,
    ) -> (r: Result<Request, PDLError>)
        ensures
            match checked {
                Ok(_) => match body {
                    Ok(text) => r is Ok && r->Ok_0@ == self@.post_request(endpoint@, text@),
                    Err(e) => r == Err::<Request, PDLError>(e),
                },
                Err(e) => r == Err::<Request, PDLError>(e),
            },
    {
        match checked {
            Ok(()) => match body {
                Ok(text) => Ok(self.post(endpoint, text)),
                Err(e) => Err(e),
            },
            Err(e) => Err(e),
        }
    }

    /// The POST request for an endpoint with a JSON body.
    pub fn post(&self, endpoint: &str, body: String) -> (r: Request)
        ensures
            r@ == self@.post_request(endpoint@, body@),
    {
        Request { method: Method::Post, url: self.endpoint_url(endpoint), body: Some(body) }
    }

    /// Judges the status of an answer: 200 lets the body through, any other
    /// status is an HTTP error that carries it.
    pub fn check_status(status: u16) -> (r: Result<(), PDLError>)
        ensures
            r == if status == 200 {
                Ok::<(), PDLError>(())
            } else {
                Err::<(), PDLError>(PDLError::HTTPError(status))
            },
    {
        if status == 200 {
            Ok(())
        } else {
            Err(PDLError::HTTPError(status))
        }
    }

    /// Judges a decoded body: a body that did not have the expected shape is
    /// a deserialization error.
    pub fn decoded<T>(parsed: Option<T>) -> (r: Result<T, PDLError>)
        ensures
            match parsed {
                Some(value) => r == Ok::<T, PDLError>(value),
                None => r == Err::<T, PDLError>(PDLError::DeserializationError),
            },
    {
        match parsed {
            Some(value) => Ok(value),
            None => Err(PDLError::DeserializationError),
        }
    }

    /// Classifies what came of sending a request: the body of a 200 answer is
    /// handed on for decoding, any other status is an HTTP error that carries
    /// it, and a failed exchange is a network error with the transport's
    /// report.
    pub fn receive(outcome: Outcome) -> (r: Result<String, PDLError>)
        ensures
            match outcome {
                Outcome::Failed(report) => r == Err::<String, PDLError>(
                    PDLError::NetworkError(report),
                ),
                Outcome::Answered { status, body } => if status == 200 {
                    r == Ok::<String, PDLError>(body)
                } else {
                    r == Err::<String, PDLError>(PDLError::HTTPError(status))
                },
            },
    {
        match outcome {
            Outcome::Failed(report) => Err(PDLError::NetworkError(report)),
            Outcome::Answered { status, body } => match PDLClient::check_status(status) {
                Ok(()) => Ok(body),
                Err(e) => Err(e),
            },
        }
    }
}

} // verus!
