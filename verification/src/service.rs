use vstd::prelude::*;

use crate::capability::{
    check_issue, expiry, issue_error, Capability, CapabilityError, CapabilityView,
};
use crate::clock::unix_seconds;
use crate::labels::{DataLabel, Operation};
use crate::policy::{
    cap_views, law_issued_capability_authorizes_until_expiry, precheck, reason_text, reports,
    verdict, Decision, PolicyEngine, RequestView, ToolRequest, Verdict,
};
use crate::workflow::presented;

verus! {

/// The body of an evaluation request made to the HTTP service.
#[derive(Clone, Debug, PartialEq, Eq)]
pub struct Request {
    /// Requested operation.
    pub operation: Operation,
    /// Taint label of the argument.
    pub label: DataLabel,
    /// Argument or resource identifier.
    pub argument: String,
    /// Workflow subject; `api-workflow` when absent.
    pub subject: Option<String>,
    /// Lifetime of a capability to issue for the request, if one is wanted.
    pub capability_ttl_seconds: Option<u64>,
}

/// The subject a service request is evaluated for.
pub open spec fn request_subject(request: Request) -> Seq<char> {
    match request.subject {
        Some(s) => s@,
        None => "api-workflow"@,
    }
}

/// The tool request a service request stands for.
pub open spec fn tool_request_of(request: Request) -> RequestView {
    RequestView {
        subject: request_subject(request),
        operation: request.operation,
        label: request.label,
        argument: request.argument@,
    }
}

/// What the service answers a request with, given the clock reading taken when
/// the capability is issued and the one taken when the request is evaluated:
/// the issuing error, the clock error, or the policy's verdict on the request
/// presented with the capability issued for its subject.
pub open spec fn service_answer(
    request: Request,
    issued_at: Result<u64, CapabilityError>,
    now: u64,
) -> Result<Verdict, CapabilityError> {
    match request.capability_ttl_seconds {
        Some(ttl) => match issue_error(request_subject(request), ttl) {
            Some(e) => Err(e),
            None => match issued_at {
                Ok(t) => Ok(
                    verdict(
                        tool_request_of(request),
                        presented(request.operation, request_subject(request), Some(ttl), t),
                        now,
                    ),
                ),
                Err(_) => Err(CapabilityError::Clock),
            },
        },
        None => Ok(verdict(tool_request_of(request), Seq::empty(), now)),
    }
}

/// A result gives an answer: the same error, or a decision that stands for the
/// same verdict.
pub open spec fn gives(r: Result<Decision, CapabilityError>, answer: Result<Verdict, CapabilityError>) -> bool {
    match answer {
        Ok(v) => r matches Ok(d) && reports(d, v),
        Err(e) => r == Err::<Decision, CapabilityError>(e),
    }
}

/// The service's result is fixed by the request and the two clock readings:
/// two results that give the same answer are both errors with the same error,
/// or both decisions with the same outcome and reason (the capability's random
/// id plays no part).
pub proof fn law_service_result_is_determined(
    request: Request,
    issued_at: Result<u64, CapabilityError>,
    now: u64,
    r1: Result<Decision, CapabilityError>,
    r2: Result<Decision, CapabilityError>,
)
    requires
        gives(r1, service_answer(request, issued_at, now)),
        gives(r2, service_answer(request, issued_at, now)),
    ensures
        r1 is Err ==> r1 == r2,
        r1 matches Ok(d1) ==> r2 matches Ok(d2) && d1.allowed == d2.allowed && d1.reason@ == d2.reason@,
{
}

/// Evaluates a service request with the given clock readings: issues the
/// capability it asks for, if any, for its subject at `issued_at`, and decides
/// the request against it at `now`.
pub fn evaluate_with_readings(
    request: Request,
    issued_at: Result<u64, CapabilityError>,
    now: u64,
) -> (r: Result<Decision, CapabilityError>)
    ensures
        gives(r, service_answer(request, issued_at, now)),
        request.capability_ttl_seconds matches Some(ttl) ==> (issue_error(request_subject(request), ttl) matches Some(e)
            ==> r == Err::<Decision, CapabilityError>(e)),
        request.capability_ttl_seconds matches Some(ttl) ==> (issue_error(request_subject(request), ttl) is None
            && issued_at is Err ==> r == Err::<Decision, CapabilityError>(CapabilityError::Clock)),
        request.capability_ttl_seconds is None || (issue_error(request_subject(request), request.capability_ttl_seconds->Some_0) is None
            && issued_at is Ok) ==> r is Ok,
        r matches Ok(d) ==> reports(d, verdict(
            tool_request_of(request),
            presented(request.operation, request_subject(request), request.capability_ttl_seconds, issued_at->Ok_0),
            now,
        )),
{
    let ghost original = request;
    let subject = match request.subject {
        Some(s) => s,
        None => "api-workflow".to_owned(),
    };
    assert(subject@ == request_subject(original));
    let mut capabilities: Vec<Capability> = Vec::new();
    match request.capability_ttl_seconds {
        Some(ttl) => {
            if let Some(e) = check_issue(subject.as_str(), ttl) {
                return Err(e);
            }
            match issued_at {
                Ok(t) => match Capability::issue_at(request.operation, subject.as_str(), ttl, t) {
                    Ok(cap) => capabilities.push(cap),
                    Err(e) => {
                        return Err(e);
                    },
                },
                Err(_) => {
                    return Err(CapabilityError::Clock);
                },
            }
        },
        None => {},
    }
    let ghost caps = presented(
        request.operation,
        subject@,
        request.capability_ttl_seconds,
        issued_at->Ok_0,
    );
    assert(cap_views(capabilities@) =~= caps);
    let tool_request = ToolRequest::new(
        subject.as_str(),
        request.operation,
        request.label,
        request.argument.as_str(),
    );
    Ok(PolicyEngine.evaluate_at(&tool_request, capabilities.as_slice(), now))
}

/// A capability issued for a request is valid at the moment it is issued: a
/// request that passes the bound and flow checks and asks for a capability with
/// an accepted lifetime is authorized when it is decided at the issue reading.
pub proof fn law_fresh_capability_authorizes_its_request(request: Request, t: u64)
    requires
        request.capability_ttl_seconds is Some,
        issue_error(request_subject(request), request.capability_ttl_seconds->Some_0) is None,
        precheck(tool_request_of(request)) is None,
    ensures
        service_answer(request, Ok(t), t) == Ok::<Verdict, CapabilityError>(Verdict::Authorized),
{
    let ttl = request.capability_ttl_seconds->Some_0;
    let req = tool_request_of(request);
    law_issued_capability_authorizes_until_expiry(req, t, ttl, t);
    assert(presented(request.operation, request_subject(request), Some(ttl), t) =~= seq![
        CapabilityView { operation: req.operation, subject: req.subject, expires_unix_seconds: expiry(t, ttl) },
    ]);
}

/// Evaluates a service request by the system clock. The clock is read once,
/// after the lifetime checks: the capability is issued at that reading and the
/// request is decided at it (at the latest representable time when no
/// capability is asked for and the clock reads before the Unix epoch).
pub fn evaluate(request: Request) -> (r: Result<Decision, CapabilityError>)
    ensures
        exists|issued_at: Result<u64, CapabilityError>, now: u64|
            #[trigger] gives(r, service_answer(request, issued_at, now)),
        r != Err::<Decision, CapabilityError>(CapabilityError::Clock) ==> exists|now: u64|
            #[trigger] gives(r, service_answer(request, Ok::<u64, CapabilityError>(now), now)),
        request.capability_ttl_seconds matches Some(ttl) ==> (issue_error(request_subject(request), ttl) matches Some(e)
            ==> r == Err::<Decision, CapabilityError>(e)),
        r matches Err(e) ==> request.capability_ttl_seconds matches Some(ttl) && (issue_error(
            request_subject(request),
            ttl,
        ) == Some(e) || e == CapabilityError::Clock),
        request.capability_ttl_seconds is None ==> r is Ok,
        request.capability_ttl_seconds is Some && issue_error(request_subject(request), request.capability_ttl_seconds->Some_0) is None
            && precheck(tool_request_of(request)) is None ==> r == Err::<Decision, CapabilityError>(CapabilityError::Clock)
            || (r matches Ok(d) && d.allowed && d.reason@ == reason_text(Verdict::Authorized)),
{
    let ghost original = request;
    let now: u64 = match request.capability_ttl_seconds {
        Some(ttl) => {
            let subject = match &request.subject {
                Some(s) => s.as_str(),
                None => "api-workflow",
            };
            assert(subject@ == request_subject(original));
            match check_issue(subject, ttl) {
                Some(e) => {
                    assert(gives(Err(e), service_answer(original, Ok(0), 0)));
                    return Err(e);
                },
                None => match unix_seconds() {
                    Ok(t) => t,
                    Err(_) => {
                        assert(gives(
                            Err(CapabilityError::Clock),
                            service_answer(original, Err(CapabilityError::Clock), 0),
                        ));
                        return Err(CapabilityError::Clock);
                    },
                },
            }
        },
        None => match unix_seconds() {
            Ok(secs) => secs,
            Err(_) => u64::MAX,
        },
    };
    let r = evaluate_with_readings(request, Ok(now), now);
    assert(gives(r, service_answer(original, Ok(now), now)));
    proof {
        if original.capability_ttl_seconds is Some && issue_error(
            request_subject(original),
            original.capability_ttl_seconds->Some_0,
        ) is None && precheck(tool_request_of(original)) is None {
            law_fresh_capability_authorizes_its_request(original, now);
        }
    }
    r
}

} // verus!
