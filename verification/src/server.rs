//! What the service answers to each kind of request: the status code and the document.

use crate::compress::extract_first_file_as_bytes;
use crate::compress::unwrapped;
use crate::dto::UrlDto;
use crate::dto::YaraResult;
use crate::http::download_url_to_bytes;
use crate::http::fetched;
use crate::http::Transfer;
use crate::yara::match_yara_rules;
use crate::yara::scan_outcome;
use crate::yara::StoreError;
use vstd::prelude::*;
use vstd::string::*;
use yara_x::Rules;

verus! {

pub const OK: u16 = 200;

pub const BAD_REQUEST: u16 = 400;

pub const INTERNAL_SERVER_ERROR: u16 = 500;

pub const BAD_GATEWAY: u16 = 502;

/// The document of an answer.
#[derive(Debug)]
pub enum ResponseBody {
    /// A short message that says what failed.
    Error(String),
    /// The result of a scan.
    Scanned(YaraResult),
    /// The rules were reloaded.
    Reloaded,
}

/// An answer: the HTTP status code and the document.
#[derive(Debug)]
pub struct Response {
    pub status: u16,
    pub body: ResponseBody,
}

/// A URL-mode request as far as it got before the library is asked.
#[derive(Debug)]
pub enum UrlSubmission {
    /// The body of the request could not be read.
    Unreadable,
    /// The body is no URL request.
    Malformed,
    /// The request was read and the transfer it asks for has ended.
    Fetched { request: UrlDto, transfer: Transfer },
}

impl Response {
    /// The answer is the refusal `status` with the message `text`.
    pub open spec fn is_error(self, status: u16, text: Seq<char>) -> bool {
        &&& self.status == status
        &&& self.body matches ResponseBody::Error(message)
        &&& message@ == text
    }

    /// The answer carries the result of a scan against `rules`: with the success status
    /// where the scan ran, with the server-error status where the engine failed.
    pub open spec fn is_scan(self, rules: Rules) -> bool {
        &&& self.body matches ResponseBody::Scanned(result)
        &&& scan_outcome(rules, result@)
        &&& self.status == if result@.error is None {
            OK
        } else {
            INTERNAL_SERVER_ERROR
        }
    }
}

/// The refusal `status` with the message `text`.
fn refusal(status: u16, text: &str) -> (r: Response)
    ensures
        r.is_error(status, text@),
{
    Response { status, body: ResponseBody::Error(String::from_str(text)) }
}

/// Scans `content` and answers with the result.
fn scanned(rules: &Rules, content: &[u8]) -> (r: Response)
    ensures
        r.is_scan(*rules),
{
    let result = match_yara_rules(rules, content);
    let status = if result.error.is_none() {
        OK
    } else {
        INTERNAL_SERVER_ERROR
    };
    Response { status, body: ResponseBody::Scanned(result) }
}

/// Scans `content`, unwrapped first where that is asked for; content that does not
/// unwrap is a bad gateway.
fn unwrapped_scan(rules: &Rules, content: &[u8], need_to_unzip: bool) -> (r: Response)
    ensures
        if need_to_unzip && unwrapped(content@) is None {
            r.is_error(BAD_GATEWAY, "Failed to unzip file"@)
        } else {
            r.is_scan(*rules)
        },
{
    if need_to_unzip {
        match extract_first_file_as_bytes(content) {
            Ok(inner) => scanned(rules, inner.as_slice()),
            Err(_) => refusal(BAD_GATEWAY, "Failed to unzip file"),
        }
    } else {
        scanned(rules, content)
    }
}

/// Answers a content-mode request: `body` is the submitted buffer, or `None` where it
/// could not be read. An unreadable body is a bad request; content that cannot be
/// unwrapped is a bad gateway; everything else is scanned.
pub fn check_content(rules: &Rules, body: Option<Vec<u8>>, need_to_unzip: bool) -> (r: Response)
    ensures
        match body {
            None => r.is_error(BAD_REQUEST, "Failed to read body"@),
            Some(bytes) => if need_to_unzip && unwrapped(bytes@) is None {
                r.is_error(BAD_GATEWAY, "Failed to unzip file"@)
            } else {
                r.is_scan(*rules)
            },
        },
{
    match body {
        None => refusal(BAD_REQUEST, "Failed to read body"),
        Some(bytes) => unwrapped_scan(rules, bytes.as_slice(), need_to_unzip),
    }
}

/// Answers a URL-mode request. An unreadable or malformed request is a bad request; a
/// transfer that yielded no content and content that cannot be unwrapped are bad
/// gateways; everything else is scanned. The first failure decides.
pub fn check_url(rules: &Rules, submission: UrlSubmission) -> (r: Response)
    ensures
        match submission {
            UrlSubmission::Unreadable => r.is_error(BAD_REQUEST, "Failed to read body"@),
            UrlSubmission::Malformed => r.is_error(BAD_REQUEST, "Invalid JSON"@),
            UrlSubmission::Fetched { request, transfer } => match fetched(transfer) {
                None => r.is_error(BAD_GATEWAY, "Failed to download file"@),
                Some(content) => if request.need_to_unzip && unwrapped(content) is None {
                    r.is_error(BAD_GATEWAY, "Failed to unzip file"@)
                } else {
                    r.is_scan(*rules)
                },
            },
        },
{
    match submission {
        UrlSubmission::Unreadable => refusal(BAD_REQUEST, "Failed to read body"),
        UrlSubmission::Malformed => refusal(BAD_REQUEST, "Invalid JSON"),
        UrlSubmission::Fetched { request, transfer } => match download_url_to_bytes(transfer) {
            Err(_) => refusal(BAD_GATEWAY, "Failed to download file"),
            Ok(content) => unwrapped_scan(rules, content.as_slice(), request.need_to_unzip),
        },
    }
}

/// Answers a reload request from the outcome of the reload.
pub fn reload(outcome: &Result<(), StoreError>) -> (r: Response)
    ensures
        match outcome {
            Ok(_) => r.status == OK && r.body is Reloaded,
            Err(error) => r.is_error(INTERNAL_SERVER_ERROR, error.text()),
        },
{
    match outcome {
        Ok(_) => Response { status: OK, body: ResponseBody::Reloaded },
        Err(error) => Response {
            status: INTERNAL_SERVER_ERROR,
            body: ResponseBody::Error(error.message()),
        },
    }
}

} // verus!
