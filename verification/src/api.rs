//! Values exchanged with the API: account usage and the metadata reported
//! with a processed image.

use vstd::prelude::*;
use crate::errors::MochifyError;
use crate::text::{copy_opt, text_eq};

verus! {

/// The account usage reported by `/v1/usage`.
#[derive(Debug)]
pub struct UsageInfo {
    pub remaining: i32,
    pub quota: i32,
    pub plan: String,
    pub available: bool,
}

/// What the API reported about one processed image (from response headers).
#[derive(Debug)]
pub struct SquishMeta {
    pub latency_ms: Option<String>,
    pub optimized: bool,
    pub reason: Option<String>,
    pub quality: Option<String>,
    pub saliency: Option<String>,
    pub bg_removed: bool,
}

/// The key to send to `/v1/usage`. Unauthenticated, the endpoint reports
/// an anonymous per-IP quota, so `mochify usage` (which reports the
/// account's usage) refuses to run without a key.
pub fn usage_api_key(api_key: &Option<String>) -> (r: Result<&String, MochifyError>)
    ensures
        api_key is Some ==> (r matches Ok(k) && k == api_key->0),
        api_key is None ==> r matches Err(MochifyError::UsageNeedsAuth),
{
    match api_key {
        Some(k) => Ok(k),
        None => Err(MochifyError::UsageNeedsAuth),
    }
}

/// A header flag is set when its value is exactly "true".
pub open spec fn flag_set(value: Option<Seq<char>>) -> bool {
    value == Some("true"@)
}

fn header_flag(value: &Option<String>) -> (r: bool)
    ensures
        r == flag_set(value.deep_view()),
{
    match value {
        Some(v) => text_eq(v.as_str(), "true"),
        None => false,
    }
}

/// The metadata of a processed image from the values of its `x-latency-ms`,
/// `x-mochify-optimized`, `x-mochify-reason`, `x-mochify-quality`,
/// `x-mochify-saliency` and `x-mochify-bgremoved` headers (absent or not
/// text: `None`). The two flags are set only by the value "true".
pub fn squish_meta_from_headers(
    latency_ms: &Option<String>,
    optimized: &Option<String>,
    reason: &Option<String>,
    quality: &Option<String>,
    saliency: &Option<String>,
    bg_removed: &Option<String>,
) -> (m: SquishMeta)
    ensures
        m.latency_ms.deep_view() == latency_ms.deep_view(),
        m.optimized == flag_set(optimized.deep_view()),
        m.reason.deep_view() == reason.deep_view(),
        m.quality.deep_view() == quality.deep_view(),
        m.saliency.deep_view() == saliency.deep_view(),
        m.bg_removed == flag_set(bg_removed.deep_view()),
{
    SquishMeta {
        latency_ms: copy_opt(latency_ms),
        optimized: header_flag(optimized),
        reason: copy_opt(reason),
        quality: copy_opt(quality),
        saliency: copy_opt(saliency),
        bg_removed: header_flag(bg_removed),
    }
}

} // verus!
