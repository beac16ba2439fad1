//! Remote fetch: what a finished HTTP transfer yields as content.

use vstd::prelude::*;
use vstd::string::*;

verus! {

/// How an HTTP transfer ended.
#[derive(Debug)]
pub enum Transfer {
    /// The transfer itself failed; the text says why.
    Failed(String),
    /// A response arrived, with this status code and body.
    Response { status: u16, body: Vec<u8> },
}

/// Why a fetch yielded no content.
#[derive(Debug)]
pub enum FetchError {
    /// The transfer failed.
    Transport(String),
    /// The response carried a status outside the success class.
    Status(u16),
}

/// The text of one decimal digit.
pub open spec fn digit_text(d: int) -> Seq<char> {
    if d == 0 {
        "0"@
    } else if d == 1 {
        "1"@
    } else if d == 2 {
        "2"@
    } else if d == 3 {
        "3"@
    } else if d == 4 {
        "4"@
    } else if d == 5 {
        "5"@
    } else if d == 6 {
        "6"@
    } else if d == 7 {
        "7"@
    } else if d == 8 {
        "8"@
    } else {
        "9"@
    }
}

/// A number written in decimal, without leading zeros.
pub open spec fn decimal_text(n: nat) -> Seq<char>
    decreases n,
{
    if n < 10 {
        digit_text(n as int)
    } else {
        decimal_text(n / 10) + digit_text((n % 10) as int)
    }
}

/// One decimal digit as text.
fn digit(d: u16) -> (text: &'static str)
    requires
        d < 10,
    ensures
        text@ == digit_text(d as int),
{
    if d == 0 {
        "0"
    } else if d == 1 {
        "1"
    } else if d == 2 {
        "2"
    } else if d == 3 {
        "3"
    } else if d == 4 {
        "4"
    } else if d == 5 {
        "5"
    } else if d == 6 {
        "6"
    } else if d == 7 {
        "7"
    } else if d == 8 {
        "8"
    } else {
        "9"
    }
}

/// A status code written in decimal.
fn decimal(n: u16) -> (text: String)
    ensures
        text@ == decimal_text(n as nat),
    decreases n,
{
    if n < 10 {
        String::from_str(digit(n))
    } else {
        let mut text = decimal(n / 10);
        text.append(digit(n % 10));
        text
    }
}

impl FetchError {
    /// The text of the error as it is reported.
    pub open spec fn text(self) -> Seq<char> {
        match self {
            FetchError::Transport(reason) => reason@,
            FetchError::Status(code) => "HTTP status "@ + decimal_text(code as nat),
        }
    }

    /// The text of the error, for a log line or an answer.
    pub fn message(&self) -> (text: String)
        ensures
            text@ == self.text(),
    {
        match self {
            FetchError::Transport(reason) => reason.clone(),
            FetchError::Status(code) => {
                let mut text = String::from_str("HTTP status ");
                text.append(decimal(*code).as_str());
                text
            },
        }
    }
}

/// Whether an HTTP status code lies in the success class, 200 to 299.
pub open spec fn status_is_success(status: u16) -> bool {
    200 <= status < 300
}

/// What a finished transfer yields: the body of a success response, and nothing else.
pub open spec fn fetched(transfer: Transfer) -> Option<Seq<u8>> {
    match transfer {
        Transfer::Response { status, body } => if status_is_success(status) {
            Some(body@)
        } else {
            None
        },
        Transfer::Failed(_) => None,
    }
}

/// Why a finished transfer yields nothing, where it yields nothing.
pub open spec fn refusal_of(transfer: Transfer) -> FetchError {
    match transfer {
        Transfer::Response { status, body } => FetchError::Status(status),
        Transfer::Failed(reason) => FetchError::Transport(reason),
    }
}

/// Whether a response with this status code is accepted.
pub fn status_accepted(status: u16) -> (b: bool)
    ensures
        b == status_is_success(status),
{
    200 <= status && status < 300
}

/// Turns a finished transfer into the fetched bytes. A failed transfer and a response
/// outside the success class are both hard failures.
pub fn download_url_to_bytes(transfer: Transfer) -> (r: Result<Vec<u8>, FetchError>)
    ensures
        match transfer {
            Transfer::Failed(reason) => r matches Err(FetchError::Transport(text)) && text@
                == reason@,
            Transfer::Response { status, body } => if status_is_success(status) {
                r matches Ok(bytes) && bytes@ == body@
            } else {
                r matches Err(FetchError::Status(code)) && code == status
            },
        },
{
    match transfer {
        Transfer::Failed(reason) => Err(FetchError::Transport(reason)),
        Transfer::Response { status, body } => {
            if status_accepted(status) {
                Ok(body)
            } else {
                Err(FetchError::Status(status))
            }
        },
    }
}

} // verus!
