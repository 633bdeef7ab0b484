//! The plain data of the HTTP transport: which request is sent, and what is
//! reported when one fails. Sending is left to the caller.

use vstd::prelude::*;
use vstd::string::*;

verus! {

/// The address that every request path is appended to.
pub const GATEWAY_URL: &'static str = "https://gateway.filen.io";

/// The content type of every request body.
pub const CONTENT_TYPE: &'static str = "application/json";

/// What precedes the API key in the authorization header.
pub const BEARER_PREFIX: &'static str = "Bearer ";

/// What precedes the message when a request error is written out.
pub const ERROR_PREFIX: &'static str = "RequestError: ";

/// The number of seconds after which a request is given up.
pub const REQUEST_TIMEOUT_SECS: u64 = 10;

/// The HTTP methods that the service is called with.
#[derive(Debug, Clone, Copy, PartialEq, Eq, Structural)]
pub enum HttpMethod {
    GET,
    POST,
    PUT,
    DELETE,
}

impl HttpMethod {
    /// The method's name as it is written in a request.
    pub open spec fn name(self) -> Seq<char> {
        match self {
            HttpMethod::GET => "GET"@,
            HttpMethod::POST => "POST"@,
            HttpMethod::PUT => "PUT"@,
            HttpMethod::DELETE => "DELETE"@,
        }
    }

    /// The method's name as it is written in a request.
    pub fn as_str(&self) -> (name: &'static str)
        ensures
            name@ == self.name(),
    {
        match self {
            HttpMethod::GET => "GET",
            HttpMethod::POST => "POST",
            HttpMethod::PUT => "PUT",
            HttpMethod::DELETE => "DELETE",
        }
    }
}

/// The step of a request at which it failed.
#[derive(Debug, Clone, Copy, PartialEq, Eq, Structural)]
pub enum RequestStage {
    /// The request body could not be written as JSON.
    Marshal,
    /// The request could not be sent.
    Send,
    /// The response body could not be read.
    ReadBody,
    /// The response body is not the JSON that was expected.
    Unmarshal,
}

impl RequestStage {
    /// What the message of a failure at this step begins with. A failure to
    /// write or to read JSON is followed by the text that was at fault.
    pub open spec fn prefix(self) -> Seq<char> {
        match self {
            RequestStage::Marshal => "Cannot marshal request body: "@,
            RequestStage::Send => "Cannot send request"@,
            RequestStage::ReadBody => "Cannot read response body"@,
            RequestStage::Unmarshal => "Cannot unmarshal response "@,
        }
    }

    /// Whether the message of a failure at this step quotes the text that was
    /// at fault.
    pub open spec fn quotes_detail(self) -> bool {
        self == RequestStage::Marshal || self == RequestStage::Unmarshal
    }

    /// The message of a failure at this step, given the text at fault.
    pub open spec fn message(self, detail: Seq<char>) -> Seq<char> {
        if self.quotes_detail() {
            self.prefix() + detail
        } else {
            self.prefix()
        }
    }
}

/// A request that failed: what went wrong, for which method and path, and
/// the description of the underlying error.
#[derive(Debug)]
pub struct RequestError {
    message: String,
    method: HttpMethod,
    path: String,
    source: String,
}

impl RequestError {
    /// The message.
    pub closed spec fn spec_message(self) -> Seq<char> {
        self.message@
    }

    /// The method of the request that failed.
    pub closed spec fn spec_method(self) -> HttpMethod {
        self.method
    }

    /// The path of the request that failed.
    pub closed spec fn spec_path(self) -> Seq<char> {
        self.path@
    }

    /// The description of the underlying error.
    pub closed spec fn spec_source(self) -> Seq<char> {
        self.source@
    }

    /// An error that holds the four values as they are given.
    pub fn new(message: String, method: HttpMethod, path: String, source: String) -> (error:
        RequestError)
        ensures
            error.spec_message() == message@,
            error.spec_method() == method,
            error.spec_path() == path@,
            error.spec_source() == source@,
    {
        RequestError { message, method, path, source }
    }

    /// The error for a failure at `stage`. `detail` is the text at fault,
    /// which only the messages on JSON quote.
    pub fn at(stage: RequestStage, detail: &str, method: HttpMethod, path: &str, source: String) -> (error:
        RequestError)
        ensures
            error.spec_message() == stage.message(detail@),
            error.spec_method() == method,
            error.spec_path() == path@,
            error.spec_source() == source@,
    {
        let mut message = match stage {
            RequestStage::Marshal => String::from_str("Cannot marshal request body: "),
            RequestStage::Send => String::from_str("Cannot send request"),
            RequestStage::ReadBody => String::from_str("Cannot read response body"),
            RequestStage::Unmarshal => String::from_str("Cannot unmarshal response "),
        };
        match stage {
            RequestStage::Marshal | RequestStage::Unmarshal => {
                message.append(detail);
            },
            _ => {},
        }
        RequestError::new(message, method, path.to_owned(), source)
    }

    /// The message.
    pub fn message(&self) -> (message: &String)
        ensures
            message@ == self.spec_message(),
    {
        &self.message
    }

    /// The method of the request that failed.
    pub fn method(&self) -> (method: HttpMethod)
        ensures
            method == self.spec_method(),
    {
        self.method
    }

    /// The path of the request that failed.
    pub fn path(&self) -> (path: &String)
        ensures
            path@ == self.spec_path(),
    {
        &self.path
    }

    /// The description of the underlying error.
    pub fn source(&self) -> (source: &String)
        ensures
            source@ == self.spec_source(),
    {
        &self.source
    }

    /// The error written out: `RequestError: ` and the message.
    pub fn to_string(&self) -> (text: String)
        ensures
            text@ == ERROR_PREFIX@ + self.spec_message(),
    {
        let mut text = String::from_str(ERROR_PREFIX);
        text.append(self.message.as_str());
        text
    }
}

/// A request as it is to be sent.
#[derive(Debug)]
pub struct PreparedRequest {
    /// The method.
    pub method: HttpMethod,
    /// The address: the gateway and the path.
    pub url: String,
    /// The value of the content-type header.
    pub content_type: String,
    /// The value of the authorization header, where there is one.
    pub authorization: Option<String>,
    /// The body, already written as JSON; empty where there is none.
    pub body: Vec<u8>,
    /// The number of seconds after which the request is given up.
    pub timeout_secs: u64,
}

/// A client of the service.
pub struct Client {
    api_key: Option<String>,
}

impl Client {
    /// The API key that the client was made with.
    pub closed spec fn spec_api_key(self) -> Option<Seq<char>> {
        match self.api_key {
            Some(key) => Some(key@),
            None => None,
        }
    }

    /// A client that holds `key`.
    pub fn new(key: String) -> (client: Client)
        ensures
            client.spec_api_key() == Some(key@),
    {
        Client { api_key: Some(key) }
    }

    /// The API key that the client was made with.
    pub fn api_key(&self) -> (key: Option<&String>)
        ensures
            match key {
                Some(k) => self.spec_api_key() == Some(k@),
                None => self.spec_api_key() is None,
            },
    {
        self.api_key.as_ref()
    }

    /// The request for `path` with `method`: addressed to the gateway, with
    /// a JSON body (empty where `body` is `None`), authorized by `api_key`
    /// as a bearer token where one is given, and given up after
    /// `REQUEST_TIMEOUT_SECS`.
    pub fn prepare(
        &self,
        method: HttpMethod,
        path: &str,
        body: Option<Vec<u8>>,
        api_key: Option<String>,
    ) -> (request: PreparedRequest)
        ensures
            request.method == method,
            request.url@ == GATEWAY_URL@ + path@,
            request.content_type@ == CONTENT_TYPE@,
            match api_key {
                Some(key) => request.authorization matches Some(value) && value@ == BEARER_PREFIX@
                    + key@,
                None => request.authorization is None,
            },
            match body {
                Some(bytes) => request.body@ == bytes@,
                None => request.body@.len() == 0,
            },
            request.timeout_secs == REQUEST_TIMEOUT_SECS,
    {
        let mut url = String::from_str(GATEWAY_URL);
        url.append(path);
        let authorization = match api_key {
            Some(key) => {
                let mut value = String::from_str(BEARER_PREFIX);
                value.append(key.as_str());
                Some(value)
            },
            None => None,
        };
        let body = match body {
            Some(bytes) => bytes,
            None => Vec::new(),
        };
        PreparedRequest {
            method,
            url,
            content_type: String::from_str(CONTENT_TYPE),
            authorization,
            body,
            timeout_secs: REQUEST_TIMEOUT_SECS,
        }
    }
}

} // verus!
