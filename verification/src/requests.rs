//! The requests that a run sends to the forum: where each one goes and the
//! headers that it carries.

use crate::config::{Config, ConfigView};
use crate::headers::{
    create_headers, header_fault, header_fields, mark_read_fields, mark_read_headers,
    request_fields, HeaderError,
};
use crate::pages::Failure;
use crate::text::{push_signed_decimal, signed_decimal};
use reqwest::header::{HeaderMap, HeaderValue};
use vstd::prelude::*;

verus! {

/// A request to the forum, ready to be sent.
#[derive(Debug)]
pub struct Request {
    /// Address that the request goes to.
    pub url: String,
    /// Headers that it carries.
    pub headers: HeaderMap<HeaderValue>,
}

/// Address of the configured thread.
pub open spec fn thread_url(c: ConfigView) -> Seq<char> {
    c.base_url + "/threads/"@ + signed_decimal(c.thread_id)
}

/// Address of page `page` of the thread's replies.
pub open spec fn posts_url(c: ConfigView, page: int) -> Seq<char> {
    thread_url(c) + "/posts/?page="@ + signed_decimal(page)
}

/// Address that marks the thread read.
pub open spec fn mark_read_url(c: ConfigView) -> Seq<char> {
    thread_url(c) + "/mark-read"@
}

/// The line that reports how the forum answered the request to mark the
/// thread read.
pub open spec fn mark_read_notice(answer: Result<(), Failure>) -> Seq<char> {
    match answer {
        Ok(_) => "All messages marked as read."@,
        Err(failure) => crate::pages::failure_notice(failure),
    }
}

fn thread_address(config: &Config) -> (url: String)
    ensures
        url@ == thread_url(config@),
{
    let mut url = config.base_url.clone();
    url.append("/threads/");
    push_signed_decimal(&mut url, config.thread_id);
    url
}

/// The request that asks the forum about the thread itself. Fails where no
/// headers can be made from the configuration.
pub fn thread_request(config: &Config) -> (r: Result<Request, HeaderError>)
    ensures
        match r {
            Ok(request) => header_fault(config@) is None && request.url@ == thread_url(config@)
                && header_fields(request.headers) == request_fields(config@),
            Err(e) => header_fault(config@) == Some(e),
        },
{
    match create_headers(config) {
        Ok(headers) => Ok(Request { url: thread_address(config), headers }),
        Err(e) => Err(e),
    }
}

/// The request that fetches page `page` of the thread's replies. Fails
/// where no headers can be made from the configuration.
pub fn posts_request(config: &Config, page: i32) -> (r: Result<Request, HeaderError>)
    ensures
        match r {
            Ok(request) => header_fault(config@) is None && request.url@ == posts_url(
                config@,
                page as int,
            ) && header_fields(request.headers) == request_fields(config@),
            Err(e) => header_fault(config@) == Some(e),
        },
{
    match create_headers(config) {
        Ok(headers) => {
            let mut url = thread_address(config);
            url.append("/posts/?page=");
            push_signed_decimal(&mut url, page);
            Ok(Request { url, headers })
        },
        Err(e) => Err(e),
    }
}

/// The request that marks the thread read as of `epoch_millis`, the moment
/// of the call in milliseconds since the Unix epoch. Fails where no headers
/// can be made from the configuration.
pub fn mark_as_read(config: &Config, epoch_millis: u128) -> (r: Result<Request, HeaderError>)
    ensures
        match r {
            Ok(request) => header_fault(config@) is None && request.url@ == mark_read_url(config@)
                && header_fields(request.headers) == mark_read_fields(
                config@,
                epoch_millis as nat,
            ),
            Err(e) => header_fault(config@) == Some(e),
        },
{
    match mark_read_headers(config, epoch_millis) {
        Ok(headers) => {
            let mut url = thread_address(config);
            url.append("/mark-read");
            Ok(Request { url, headers })
        },
        Err(e) => Err(e),
    }
}

/// The line that tells the operator how the forum answered the request to
/// mark the thread read.
pub fn marked_notice(answer: Result<(), Failure>) -> (line: String)
    ensures
        line@ == mark_read_notice(answer),
{
    match answer {
        Ok(_) => String::from_str("All messages marked as read."),
        Err(failure) => failure.notice(),
    }
}

} // verus!
