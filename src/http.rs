//! Plain HTTP request and response records.

use std::collections::HashMap;
use url::Url;
use vstd::prelude::*;

verus! {

/// Declares `url::Url` so that requests and responses can carry it.
#[verifier::external_type_specification]
#[verifier::external_body]
pub struct ExUrl(Url);

/// Relies on `url::Url`'s derived `Clone`: every field is copied, so the copy
/// equals the original.
pub assume_specification[ <Url as Clone>::clone ](u: &Url) -> (r: Url)
    ensures
        r == *u,
;

/// Collection of common HTTP response status categories.
#[derive(Debug, Clone, PartialEq, Eq, Structural)]
#[non_exhaustive]
pub enum HttpResponseStatus {
    /// Informational responses.
    Status1xx,
    /// Successful responses.
    Status2xx,
    /// Redirection responses.
    Status3xx,
    /// Client error responses.
    Status4xx,
    /// Server error responses.
    Status5xx,
    /// Any other status code.
    StatusUnknown,
}

/// An HTTP method.
#[derive(Debug, Clone, PartialEq, Eq)]
pub enum HttpMethod {
    /// OPTIONS.
    Options,
    /// GET.
    Get,
    /// POST.
    Post,
    /// PUT.
    Put,
    /// DELETE.
    Delete,
    /// HEAD.
    Head,
    /// TRACE.
    Trace,
    /// CONNECT.
    Connect,
    /// PATCH.
    Patch,
    /// Any other method, by name.
    Custom(String),
}

/// An HTTP version.
#[derive(Debug, Copy, Clone, PartialEq, Eq, Structural)]
pub enum HttpVersion {
    /// HTTP/0.9.
    Http09,
    /// HTTP/1.0.
    Http10,
    /// HTTP/1.1.
    Http11,
    /// HTTP/2.
    H2,
    /// HTTP/3.
    H3,
}

/// An HTTP request as plain data.
#[derive(Debug, Clone, PartialEq, Eq)]
pub struct HTTPRequest {
    pub method: HttpMethod,
    pub url: Url,
    pub headers: HashMap<String, Vec<String>>,
    pub body: Vec<u8>,
}

/// An HTTP response as plain data.
#[derive(Debug, Clone, PartialEq, Eq)]
pub struct HTTPResponse {
    pub version: HttpVersion,
    pub url: Url,
    pub status: u16,
    pub reason: String,
    pub headers: HashMap<String, Vec<String>>,
    pub body: Vec<u8>,
}

/// The category of a status code: its hundreds digit, from 1xx to 5xx.
pub open spec fn status_category_of(status: u16) -> HttpResponseStatus {
    if 100 <= status < 200 {
        HttpResponseStatus::Status1xx
    } else if 200 <= status < 300 {
        HttpResponseStatus::Status2xx
    } else if 300 <= status < 400 {
        HttpResponseStatus::Status3xx
    } else if 400 <= status < 500 {
        HttpResponseStatus::Status4xx
    } else if 500 <= status < 600 {
        HttpResponseStatus::Status5xx
    } else {
        HttpResponseStatus::StatusUnknown
    }
}

/// Groups a status code by its range: 100-199, 200-299, ..., 500-599,
/// anything else being unknown.
pub fn common_status_category(status: u16) -> (r: HttpResponseStatus)
    ensures
        r == status_category_of(status),
{
    if status < 100 {
        HttpResponseStatus::StatusUnknown
    } else if status < 200 {
        HttpResponseStatus::Status1xx
    } else if status < 300 {
        HttpResponseStatus::Status2xx
    } else if status < 400 {
        HttpResponseStatus::Status3xx
    } else if status < 500 {
        HttpResponseStatus::Status4xx
    } else if status < 600 {
        HttpResponseStatus::Status5xx
    } else {
        HttpResponseStatus::StatusUnknown
    }
}

impl HTTPRequest {
    /// Builds a request from its parts.
    pub fn new(
        method: HttpMethod,
        url: Url,
        headers: HashMap<String, Vec<String>>,
        body: Vec<u8>,
    ) -> (r: Self)
        ensures
            r == (HTTPRequest { method, url, headers, body }),
    {
        HTTPRequest { method, url, headers, body }
    }
}

impl HTTPResponse {
    /// Builds a response whose body has not been read: the body is empty.
    pub fn new_no_body(
        version: HttpVersion,
        url: Url,
        status: u16,
        reason: String,
        headers: HashMap<String, Vec<String>>,
    ) -> (r: Self)
        ensures
            r.version == version,
            r.url == url,
            r.status == status,
            r.reason == reason,
            r.headers == headers,
            r.body@ == Seq::<u8>::empty(),
    {
        HTTPResponse { version, url, status, reason, headers, body: Vec::new() }
    }

    /// The same response with the given body.
    pub fn with_body(self, body: Vec<u8>) -> (r: Self)
        ensures
            r == (HTTPResponse { body, ..self }),
    {
        HTTPResponse { body, ..self }
    }

    /// The category of this response's status code.
    pub fn status_category(&self) -> (r: HttpResponseStatus)
        ensures
            r == status_category_of(self.status),
    {
        common_status_category(self.status)
    }
}

} // verus!
