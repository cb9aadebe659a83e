//! Errors the client reports, with their exact messages, and the
//! classification of HTTP response statuses.

use vstd::prelude::*;
use crate::text::{decimal, owned, push_str, u32_text};

verus! {

/// An error reported to the user.
#[derive(Debug)]
pub enum MochifyError {
    /// `usage` was asked for without an API key.
    UsageNeedsAuth,
    /// The API answered 429; `authenticated` tells whether a key was sent.
    RateLimited { authenticated: bool },
    /// The API answered with another non-success status.
    Api { status: String, body: String },
    /// A PDF job was given neither an operation nor a prompt.
    NoPdfOperation,
    /// A PDF job named an operation other than split or rasterize.
    UnknownPdfOperation { op: String },
    /// PDFs and images were given in one command.
    MixedInputs,
    /// A rotation other than 0, 90, 180 or 270 was asked for.
    InvalidRotation { rotation: u32 },
    /// Browser sign-in was not completed in time.
    AuthTimeout,
}

/// The message shown for an error.
pub open spec fn message_of(e: MochifyError) -> Seq<char> {
    match e {
        MochifyError::UsageNeedsAuth => "Usage tracking requires authentication. Run `mochify auth login` to sign in, or set MOCHIFY_API_KEY / pass --api-key for automation. Sign up at https://mochify.app if you don't have an account."@,
        MochifyError::RateLimited { authenticated } => if authenticated {
            "Rate limit exceeded. You've hit your plan's monthly limit. Upgrade at https://mochify.app for higher limits (Seller: 300/month, Pro: 1200/month)."@
        } else {
            "Rate limit exceeded. Unauthenticated requests are limited to 3/month per IP. Sign up at https://mochify.app, then run `mochify auth login` for 25 free requests/month."@
        },
        MochifyError::Api { status, body } => "API error "@ + status@ + ": "@ + body@,
        MochifyError::NoPdfOperation => "Specify a PDF operation with --op split|rasterize, or describe it with --prompt."@,
        MochifyError::UnknownPdfOperation { op } => "Unknown --op '"@ + op@
            + "'. Use 'split' or 'rasterize'."@,
        MochifyError::MixedInputs => "Can't mix PDFs and images in one command — run them separately."@,
        MochifyError::InvalidRotation { rotation } => "Invalid --rotation "@ + decimal(
            rotation as nat,
        ) + ". Use 0, 90, 180, or 270."@,
        MochifyError::AuthTimeout => "Authorization timed out. Run `mochify auth login` to try again."@,
    }
}

impl MochifyError {
    /// The message shown for this error.
    pub fn message(&self) -> (m: String)
        ensures
            m@ == message_of(*self),
    {
        match self {
            MochifyError::UsageNeedsAuth => owned(
                "Usage tracking requires authentication. Run `mochify auth login` to sign in, or set MOCHIFY_API_KEY / pass --api-key for automation. Sign up at https://mochify.app if you don't have an account.",
            ),
            MochifyError::RateLimited { authenticated } => if *authenticated {
                owned(
                    "Rate limit exceeded. You've hit your plan's monthly limit. Upgrade at https://mochify.app for higher limits (Seller: 300/month, Pro: 1200/month).",
                )
            } else {
                owned(
                    "Rate limit exceeded. Unauthenticated requests are limited to 3/month per IP. Sign up at https://mochify.app, then run `mochify auth login` for 25 free requests/month.",
                )
            },
            MochifyError::Api { status, body } => {
                let mut m = owned("API error ");
                push_str(&mut m, status.as_str());
                push_str(&mut m, ": ");
                push_str(&mut m, body.as_str());
                m
            },
            MochifyError::NoPdfOperation => owned(
                "Specify a PDF operation with --op split|rasterize, or describe it with --prompt.",
            ),
            MochifyError::UnknownPdfOperation { op } => {
                let mut m = owned("Unknown --op '");
                push_str(&mut m, op.as_str());
                push_str(&mut m, "'. Use 'split' or 'rasterize'.");
                m
            },
            MochifyError::MixedInputs => owned(
                "Can't mix PDFs and images in one command — run them separately.",
            ),
            MochifyError::InvalidRotation { rotation } => {
                let mut m = owned("Invalid --rotation ");
                push_str(&mut m, u32_text(*rotation).as_str());
                push_str(&mut m, ". Use 0, 90, 180, or 270.");
                m
            },
            MochifyError::AuthTimeout => owned(
                "Authorization timed out. Run `mochify auth login` to try again.",
            ),
        }
    }
}

/// Map a non-success rate-limit status to a helpful, plan-aware error.
pub fn rate_limit_error(has_key: bool) -> (e: MochifyError)
    ensures
        e == (MochifyError::RateLimited { authenticated: has_key }),
{
    MochifyError::RateLimited { authenticated: has_key }
}

/// How a response status is handled.
#[derive(Debug, Clone, Copy, PartialEq, Eq)]
pub enum StatusClass {
    /// 2xx: the body carries the result.
    Success,
    /// 429: the plan's or the anonymous rate limit was hit.
    TooManyRequests,
    /// Any other status: the body describes the failure.
    Failure,
}

/// The class of an HTTP status code: success for 200–299, rate-limited for
/// 429, failure otherwise.
pub open spec fn status_class(code: u16) -> StatusClass {
    if 200 <= code && code <= 299 {
        StatusClass::Success
    } else if code == 429 {
        StatusClass::TooManyRequests
    } else {
        StatusClass::Failure
    }
}

/// Classifies an HTTP status code.
pub fn classify_status(code: u16) -> (c: StatusClass)
    ensures
        c == status_class(code),
{
    if 200 <= code && code <= 299 {
        StatusClass::Success
    } else if code == 429 {
        StatusClass::TooManyRequests
    } else {
        StatusClass::Failure
    }
}

} // verus!
