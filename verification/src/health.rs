//! The startup health probe: one best-effort reachability request against
//! the upstream API. The request target, headers and outcome classification
//! are computed here; the probe is advisory and never blocks serving.
use vstd::prelude::*;

verus! {

use crate::config::Settings;
use crate::registry::bearer_header_value;
use crate::registry::spec_bearer;

/// A string with its trailing `/` characters removed.
pub open spec fn without_trailing_slashes(s: Seq<char>) -> Seq<char>
    decreases s.len(),
{
    if s.len() > 0 && s.last() == '/' {
        without_trailing_slashes(s.drop_last())
    } else {
        s
    }
}

/// The probe target: the stable `/domains` endpoint under the base
/// address, with trailing slashes of the base collapsed.
pub fn health_check_url(base_url: &str) -> (r: String)
    ensures
        r@ == without_trailing_slashes(base_url@) + "/domains"@,
{
    let len = base_url.unicode_len();
    let mut n: usize = len;
    let mut stop: bool = false;
    proof {
        assert(base_url@.take(len as int) =~= base_url@);
    }
    while !stop && n > 0
        invariant
            0 <= n <= len,
            len == base_url@.len(),
            without_trailing_slashes(base_url@) == without_trailing_slashes(base_url@.take(n as int)),
            stop ==> n > 0 && base_url@[n - 1] != '/',
        decreases n + (if stop { 0int } else { 1int }),
    {
        let c = base_url.get_char(n - 1);
        if c == '/' {
            proof {
                assert(base_url@.take(n as int).drop_last() =~= base_url@.take(n - 1));
                assert(base_url@.take(n as int).last() == base_url@[n - 1]);
            }
            n = n - 1;
        } else {
            stop = true;
        }
    }
    proof {
        if stop {
            assert(base_url@.take(n as int).last() == base_url@[n - 1]);
            assert(without_trailing_slashes(base_url@.take(n as int)) == base_url@.take(n as int));
        } else {
            assert(n == 0);
            assert(base_url@.take(0) =~= Seq::<char>::empty());
            assert(without_trailing_slashes(base_url@.take(0)) == base_url@.take(0));
        }
    }
    let trimmed = base_url.substring_char(0, n);
    let mut out = String::from_str(trimmed);
    out.append("/domains");
    proof {
        assert(out@ =~= without_trailing_slashes(base_url@) + "/domains"@);
    }
    out
}

/// Everything the one probe request sends: its target and the two headers
/// every upstream call carries.
#[derive(Debug)]
pub struct HealthRequest {
    pub url: String,
    pub authorization: String,
    pub content_type: String,
}

/// Builds the probe request from the validated settings: the `/domains`
/// target, the bearer authorization derived from the credential, and the
/// JSON content type.
pub fn health_request(settings: &Settings) -> (r: HealthRequest)
    ensures
        r.url@ == without_trailing_slashes(settings.base_url@) + "/domains"@,
        r.authorization@ == spec_bearer(settings.api_key@),
        r.content_type@ == "application/json"@,
{
    HealthRequest {
        url: health_check_url(settings.base_url.as_str()),
        authorization: bearer_header_value(settings.api_key.as_str()),
        content_type: String::from_str("application/json"),
    }
}

/// How many characters of a response body the failure diagnostic keeps.
pub const EXCERPT_LIMIT: usize = 200;

/// The bounded excerpt of a response body kept in a failure diagnostic.
pub open spec fn spec_excerpt(s: Seq<char>) -> Seq<char> {
    if s.len() <= EXCERPT_LIMIT {
        s
    } else {
        s.take(EXCERPT_LIMIT as int)
    }
}

/// Truncates a response body to the excerpt the diagnostic may carry.
pub fn body_excerpt(body: &str) -> (r: String)
    ensures
        r@ == spec_excerpt(body@),
        r@.len() <= EXCERPT_LIMIT,
{
    let len = body.unicode_len();
    if len <= EXCERPT_LIMIT {
        String::from_str(body)
    } else {
        String::from_str(body.substring_char(0, EXCERPT_LIMIT))
    }
}

/// An HTTP success status: the 2xx range.
pub open spec fn is_success_status(status: u16) -> bool {
    200 <= status && status < 300
}

/// The outcome of the one probe attempt. `Unreachable` carries the
/// transport error's message; `Failed` carries the non-success status and
/// a bounded body excerpt.
#[derive(Debug)]
pub enum HealthOutcome {
    Passed,
    Unreachable { message: String },
    Failed { status: u16, body_excerpt: String },
}

/// Classifies the probe response: any 2xx status passes; anything else
/// fails with the status and a bounded excerpt of the body.
pub fn classify_health_response(status: u16, body: &str) -> (r: HealthOutcome)
    ensures
        r is Passed <==> is_success_status(status),
        !is_success_status(status) ==> (r matches HealthOutcome::Failed {
            status: st,
            body_excerpt: e,
        } && st == status && e@ == spec_excerpt(body@)),
{
    if 200 <= status && status < 300 {
        HealthOutcome::Passed
    } else {
        HealthOutcome::Failed { status, body_excerpt: body_excerpt(body) }
    }
}

/// Whether the startup probe runs at all: disabling the health check in
/// the settings skips it entirely, so no request is made.
pub fn should_run_health_check(settings: &Settings) -> (r: bool)
    ensures
        r == settings.health_check,
{
    settings.health_check
}

/// Whether an outcome is logged as a warning: every outcome other than a
/// pass warns, and no outcome is fatal.
pub fn probe_warns(outcome: &HealthOutcome) -> (r: bool)
    ensures
        r <==> !(*outcome is Passed),
{
    match outcome {
        HealthOutcome::Passed => false,
        HealthOutcome::Unreachable { .. } => true,
        HealthOutcome::Failed { .. } => true,
    }
}

} // verus!
