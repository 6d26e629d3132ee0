use vstd::prelude::*;

use crate::audit::{next_entry, AuditChain, AuditError, EntryView, MAX_EVENT_BYTES};
use crate::capability::{
    check_issue, expiry, issue_error, subject_in_bounds, Capability, CapabilityError,
    CapabilityView,
};
use crate::clock::unix_seconds;
use crate::encoding::byte_len;
use crate::labels::{DataLabel, Operation};
use crate::policy::{
    law_issued_capability_authorizes_until_expiry, precheck, reason_text, reports, verdict, Decision,
    PolicyEngine, RequestView, ToolRequest, Verdict,
};

verus! {

/// Why a single evaluation could not be completed.
#[derive(Clone, Copy, Debug, PartialEq, Eq, Structural)]
pub enum RunError {
    /// The requested capability could not be issued.
    Capability(CapabilityError),
    /// The decision could not be recorded in the audit chain.
    Audit(AuditError),
}

/// A decision together with the audit chain that records it.
#[derive(Debug)]
pub struct Outcome {
    /// The policy decision.
    pub decision: Decision,
    /// Whether the audit chain verifies.
    pub audit_valid: bool,
    /// The audit chain holding the decision's record.
    pub audit: AuditChain,
}

/// The audit event text of a decision: `true` or `false`, a colon, then the reason.
pub open spec fn event_text(d: Decision) -> Seq<char> {
    (if d.allowed {
        "true"@
    } else {
        "false"@
    }) + ":"@ + d.reason@
}

/// The capabilities an evaluation presents: one issued at `issued_at` for the
/// request's operation and subject when a lifetime is given, none otherwise.
pub open spec fn presented(
    operation: Operation,
    subject: Seq<char>,
    ttl_seconds: Option<u64>,
    issued_at: u64,
) -> Seq<CapabilityView> {
    match ttl_seconds {
        Some(ttl) => seq![CapabilityView { operation, subject, expires_unix_seconds: expiry(issued_at, ttl) }],
        None => Seq::empty(),
    }
}

/// The lifetime of the capability an evaluation asks for, if it asks for one.
pub open spec fn requested_ttl(issue_capability: bool, ttl_seconds: u64) -> Option<u64> {
    if issue_capability {
        Some(ttl_seconds)
    } else {
        None
    }
}

/// What a single evaluation ends in, given the clock reading taken when the
/// capability is issued and the one taken when the request is evaluated: the
/// issuing error, the clock error, the audit error (the subject is out of
/// bounds for the audit record), or the policy's verdict on the request
/// presented with the capability issued for it.
pub open spec fn record_answer(
    req: RequestView,
    ttl_seconds: u64,
    issue_capability: bool,
    issued_at: Result<u64, CapabilityError>,
    now: u64,
) -> Result<Verdict, RunError> {
    if issue_capability && issue_error(req.subject, ttl_seconds) is Some {
        Err(RunError::Capability(issue_error(req.subject, ttl_seconds)->Some_0))
    } else if issue_capability && issued_at is Err {
        Err(RunError::Capability(CapabilityError::Clock))
    } else if !subject_in_bounds(req.subject) {
        Err(RunError::Audit(AuditError::Oversized))
    } else {
        Ok(
            verdict(
                req,
                presented(
                    req.operation,
                    req.subject,
                    requested_ttl(issue_capability, ttl_seconds),
                    issued_at->Ok_0,
                ),
                now,
            ),
        )
    }
}

/// A result records an answer: the same error, or a decision that stands for
/// the verdict together with a valid audit chain holding exactly its record.
pub open spec fn records(r: Result<Outcome, RunError>, answer: Result<Verdict, RunError>, subject: Seq<char>) -> bool {
    match answer {
        Ok(v) => r matches Ok(o) && {
            &&& reports(o.decision, v)
            &&& o.audit@ == seq![next_entry(Seq::<EntryView>::empty(), subject, event_text(o.decision))]
            &&& o.audit_valid
        },
        Err(e) => r == Err::<Outcome, RunError>(e),
    }
}

/// A single evaluation's result is fixed by its arguments and the two clock
/// readings: two results that record the same answer are both the same error,
/// or both decisions with the same outcome and reason whose audit chains hold
/// the same entries (the capability's random id plays no part).
pub proof fn law_recorded_result_is_determined(
    req: RequestView,
    ttl_seconds: u64,
    issue_capability: bool,
    issued_at: Result<u64, CapabilityError>,
    now: u64,
    r1: Result<Outcome, RunError>,
    r2: Result<Outcome, RunError>,
)
    requires
        records(r1, record_answer(req, ttl_seconds, issue_capability, issued_at, now), req.subject),
        records(r2, record_answer(req, ttl_seconds, issue_capability, issued_at, now), req.subject),
    ensures
        r1 is Err ==> r1 == r2,
        r1 matches Ok(o1) ==> r2 matches Ok(o2) && o1.decision.allowed == o2.decision.allowed
            && o1.decision.reason@ == o2.decision.reason@ && o1.audit@ == o2.audit@
            && o1.audit_valid == o2.audit_valid,
{
}

/// Every reason text is short.
proof fn lemma_reason_short(v: Verdict)
    ensures
        reason_text(v).len() <= 64,
{
    reveal_strlit("workflow subject is outside configured bounds");
    reveal_strlit("argument exceeds the configured policy limit");
    reveal_strlit("argument contains a NUL byte");
    reveal_strlit("secret data cannot cross the network boundary");
    reveal_strlit("untrusted data cannot drive a sensitive operation");
    reveal_strlit("matching unexpired capability");
    reveal_strlit("no matching unexpired capability");
}

/// The event text of any decision fits the audit bounds.
proof fn lemma_event_in_bounds(d: Decision, v: Verdict)
    requires
        reports(d, v),
    ensures
        event_text(d).len() != 0,
        byte_len(event_text(d)) <= MAX_EVENT_BYTES,
{
    reveal_strlit("true");
    reveal_strlit("false");
    reveal_strlit(":");
    lemma_reason_short(v);
    crate::encoding::lemma_byte_len_bound(event_text(d));
}

/// Builds the audit event text of a decision.
pub fn decision_event(d: &Decision) -> (text: String)
    ensures
        text@ == event_text(*d),
{
    let mut text = if d.allowed {
        "true".to_owned()
    } else {
        "false".to_owned()
    };
    text.append(":");
    text.append(d.reason);
    text
}

/// Evaluates one request for `subject` with the given clock readings,
/// presenting a capability issued for it at `issued_at` when
/// `issue_capability` is set, deciding at `now`, and records the decision in a
/// fresh audit chain.
pub fn evaluate_and_record_with_readings(
    subject: &str,
    operation: Operation,
    label: DataLabel,
    argument: &str,
    ttl_seconds: u64,
    issue_capability: bool,
    issued_at: Result<u64, CapabilityError>,
    now: u64,
) -> (r: Result<Outcome, RunError>)
    ensures
        records(
            r,
            record_answer(
                RequestView { subject: subject@, operation, label, argument: argument@ },
                ttl_seconds,
                issue_capability,
                issued_at,
                now,
            ),
            subject@,
        ),
{
    let ghost req = RequestView { subject: subject@, operation, label, argument: argument@ };
    let mut capabilities: Vec<Capability> = Vec::new();
    if issue_capability {
        if let Some(e) = check_issue(subject, ttl_seconds) {
            return Err(RunError::Capability(e));
        }
        match issued_at {
            Ok(t) => match Capability::issue_at(operation, subject, ttl_seconds, t) {
                Ok(cap) => capabilities.push(cap),
                Err(e) => {
                    return Err(RunError::Capability(e));
                },
            },
            Err(_) => {
                return Err(RunError::Capability(CapabilityError::Clock));
            },
        }
    }
    let ghost caps = presented(
        operation,
        subject@,
        requested_ttl(issue_capability, ttl_seconds),
        issued_at->Ok_0,
    );
    assert(crate::policy::cap_views(capabilities@) =~= caps);
    let request = ToolRequest::new(subject, operation, label, argument);
    let decision = PolicyEngine.evaluate_at(&request, capabilities.as_slice(), now);
    proof {
        lemma_event_in_bounds(decision, verdict(req, caps, now));
    }
    let event = decision_event(&decision);
    let mut audit = AuditChain::default();
    match audit.append(subject, event.as_str()) {
        Ok(_) => {},
        Err(e) => {
            return Err(RunError::Audit(e));
        },
    }
    assert(audit@ =~= seq![next_entry(Seq::<EntryView>::empty(), subject@, event_text(decision))]);
    let audit_valid = audit.verify();
    Ok(Outcome { decision, audit_valid, audit })
}

/// A capability issued for the evaluated request is valid at the moment it is
/// issued: a request that passes the bound and flow checks, with an accepted
/// subject and lifetime for its capability, is authorized when it is decided at
/// the issue reading.
pub proof fn law_fresh_capability_authorizes_recorded_request(req: RequestView, ttl_seconds: u64, t: u64)
    requires
        issue_error(req.subject, ttl_seconds) is None,
        precheck(req) is None,
    ensures
        record_answer(req, ttl_seconds, true, Ok(t), t) == Ok::<Verdict, RunError>(Verdict::Authorized),
{
    law_issued_capability_authorizes_until_expiry(req, t, ttl_seconds, t);
    assert(presented(req.operation, req.subject, Some(ttl_seconds), t) =~= seq![
        CapabilityView { operation: req.operation, subject: req.subject, expires_unix_seconds: expiry(t, ttl_seconds) },
    ]);
}

/// Evaluates one request for `subject` by the system clock, presenting a
/// capability issued for it when `issue_capability` is set, and records the
/// decision in a fresh audit chain. The clock is read once: the capability is
/// issued at that reading and the request is decided at it (at the latest
/// representable time when no capability is asked for and the clock reads
/// before the Unix epoch).
pub fn evaluate_and_record(
    subject: &str,
    operation: Operation,
    label: DataLabel,
    argument: &str,
    ttl_seconds: u64,
    issue_capability: bool,
) -> (r: Result<Outcome, RunError>)
    ensures
        exists|issued_at: Result<u64, CapabilityError>, now: u64| #[trigger] records(
            r,
            record_answer(
                RequestView { subject: subject@, operation, label, argument: argument@ },
                ttl_seconds,
                issue_capability,
                issued_at,
                now,
            ),
            subject@,
        ),
        issue_capability && issue_error(subject@, ttl_seconds) is Some ==> r == Err::<Outcome, RunError>(
            RunError::Capability(issue_error(subject@, ttl_seconds)->Some_0),
        ),
        r matches Err(RunError::Capability(e)) ==> issue_capability && (issue_error(subject@, ttl_seconds) == Some(e) || e == CapabilityError::Clock),
        r matches Err(RunError::Audit(e)) ==> e == AuditError::Oversized && !subject_in_bounds(subject@),
        (!issue_capability || issue_error(subject@, ttl_seconds) is None) && !subject_in_bounds(subject@)
            ==> r is Err,
        subject_in_bounds(subject@) && (!issue_capability || issue_error(subject@, ttl_seconds) is None) ==> (r is Ok || r == Err::<Outcome, RunError>(RunError::Capability(CapabilityError::Clock))),
        r matches Ok(o) ==> o.audit@ == seq![next_entry(Seq::<EntryView>::empty(), subject@, event_text(o.decision))],
        r matches Ok(o) ==> o.audit_valid,
        r != Err::<Outcome, RunError>(RunError::Capability(CapabilityError::Clock)) ==> exists|now: u64| #[trigger] records(
            r,
            record_answer(
                RequestView { subject: subject@, operation, label, argument: argument@ },
                ttl_seconds,
                issue_capability,
                Ok::<u64, CapabilityError>(now),
                now,
            ),
            subject@,
        ),
        issue_capability && issue_error(subject@, ttl_seconds) is None && precheck(
            RequestView { subject: subject@, operation, label, argument: argument@ },
        ) is None ==> r == Err::<Outcome, RunError>(RunError::Capability(CapabilityError::Clock))
            || (r matches Ok(o) && o.decision.allowed && o.decision.reason@ == reason_text(Verdict::Authorized)),
{
    let ghost req = RequestView { subject: subject@, operation, label, argument: argument@ };
    let now: u64 = if issue_capability {
        if let Some(e) = check_issue(subject, ttl_seconds) {
            let r = Err(RunError::Capability(e));
            assert(records(r, record_answer(req, ttl_seconds, issue_capability, Ok(0), 0), subject@));
            return r;
        }
        match unix_seconds() {
            Ok(t) => t,
            Err(_) => {
                let r = Err(RunError::Capability(CapabilityError::Clock));
                assert(records(
                    r,
                    record_answer(req, ttl_seconds, issue_capability, Err(CapabilityError::Clock), 0),
                    subject@,
                ));
                return r;
            },
        }
    } else {
        match unix_seconds() {
            Ok(secs) => secs,
            Err(_) => u64::MAX,
        }
    };
    let r = evaluate_and_record_with_readings(
        subject,
        operation,
        label,
        argument,
        ttl_seconds,
        issue_capability,
        Ok(now),
        now,
    );
    assert(records(r, record_answer(req, ttl_seconds, issue_capability, Ok(now), now), subject@));
    proof {
        if issue_capability && issue_error(subject@, ttl_seconds) is None && precheck(req) is None {
            law_fresh_capability_authorizes_recorded_request(req, ttl_seconds, now);
        }
    }
    r
}

} // verus!
