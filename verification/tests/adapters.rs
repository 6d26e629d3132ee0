use aegisflow_core::service::{evaluate, evaluate_with_readings, Request};
use aegisflow_core::workflow::{
    decision_event, evaluate_and_record, evaluate_and_record_with_readings, RunError,
};
use aegisflow_core::{AuditError, CapabilityError, DataLabel, Decision, Operation};

#[test]
fn decision_event_text() {
    let allow = Decision { allowed: true, reason: "matching unexpired capability" };
    assert_eq!(decision_event(&allow), "true:matching unexpired capability");
    let deny = Decision { allowed: false, reason: "no matching unexpired capability" };
    assert_eq!(decision_event(&deny), "false:no matching unexpired capability");
}

#[test]
fn record_with_issued_capability_allows_and_verifies() {
    let outcome = evaluate_and_record(
        "workflow-local",
        Operation::FileRead,
        DataLabel::Trusted,
        "/safe/input.txt",
        60,
        true,
    )
    .unwrap();
    assert!(outcome.decision.allowed);
    assert!(outcome.audit_valid);
    let entries = outcome.audit.entries();
    assert_eq!(entries.len(), 1);
    assert_eq!(entries[0].workflow_id(), "workflow-local");
    assert_eq!(entries[0].event(), "true:matching unexpired capability");
}

#[test]
fn record_without_capability_denies() {
    let outcome = evaluate_and_record(
        "workflow-local",
        Operation::FileRead,
        DataLabel::Trusted,
        "/safe/input.txt",
        60,
        false,
    )
    .unwrap();
    assert!(!outcome.decision.allowed);
    assert_eq!(
        outcome.audit.entries()[0].event(),
        "false:no matching unexpired capability"
    );
}

#[test]
fn record_errors() {
    assert_eq!(
        evaluate_and_record("w", Operation::FileRead, DataLabel::Trusted, "x", 0, true).unwrap_err(),
        RunError::Capability(CapabilityError::InvalidTtl)
    );
    assert_eq!(
        evaluate_and_record("", Operation::FileRead, DataLabel::Trusted, "x", 60, false)
            .unwrap_err(),
        RunError::Audit(AuditError::Oversized)
    );
    assert_eq!(
        evaluate_and_record("", Operation::FileRead, DataLabel::Trusted, "x", 60, true)
            .unwrap_err(),
        RunError::Capability(CapabilityError::InvalidSubject)
    );
}

fn request(subject: Option<&str>, ttl: Option<u64>) -> Request {
    Request {
        operation: Operation::FileRead,
        label: DataLabel::Trusted,
        argument: "/safe/input.txt".to_string(),
        subject: subject.map(|s| s.to_string()),
        capability_ttl_seconds: ttl,
    }
}

#[test]
fn service_without_ttl_denies_by_default() {
    let d = evaluate(request(None, None)).unwrap();
    assert!(!d.allowed);
    assert_eq!(d.reason, "no matching unexpired capability");
}

#[test]
fn service_with_ttl_allows() {
    assert!(evaluate(request(None, Some(60))).unwrap().allowed);
    assert!(evaluate(request(Some("workflow-7"), Some(60))).unwrap().allowed);
}

#[test]
fn service_rejects_bad_capability_requests() {
    assert_eq!(
        evaluate(request(None, Some(0))).unwrap_err(),
        CapabilityError::InvalidTtl
    );
    assert_eq!(
        evaluate(request(Some(""), Some(60))).unwrap_err(),
        CapabilityError::InvalidSubject
    );
}

#[test]
fn service_secret_post_is_denied() {
    let mut r = request(None, Some(60));
    r.operation = Operation::NetworkPost;
    r.label = DataLabel::Secret;
    let d = evaluate(r).unwrap();
    assert!(!d.allowed);
    assert_eq!(d.reason, "secret data cannot cross the network boundary");
}

#[test]
fn service_readings_trusted_read_with_lifetime_is_allowed() {
    let d = evaluate_with_readings(request(None, Some(60)), Ok(1_000), 1_000).unwrap();
    assert!(d.allowed);
    assert_eq!(d.reason, "matching unexpired capability");
    let d = evaluate_with_readings(request(None, Some(60)), Ok(1_000), 1_060).unwrap();
    assert!(d.allowed);
    let d = evaluate_with_readings(request(None, Some(60)), Ok(1_000), 1_061).unwrap();
    assert!(!d.allowed);
    assert_eq!(d.reason, "no matching unexpired capability");
}

#[test]
fn service_readings_errors() {
    assert_eq!(
        evaluate_with_readings(request(None, Some(60)), Err(CapabilityError::Clock), 5).unwrap_err(),
        CapabilityError::Clock
    );
    assert_eq!(
        evaluate_with_readings(request(None, Some(0)), Err(CapabilityError::Clock), 5).unwrap_err(),
        CapabilityError::InvalidTtl
    );
    let d = evaluate_with_readings(request(None, None), Err(CapabilityError::Clock), 5).unwrap();
    assert!(!d.allowed);
}

#[test]
fn service_readings_results_do_not_depend_on_the_capability_id() {
    let a = evaluate_with_readings(request(Some("w"), Some(30)), Ok(7), 20).unwrap();
    let b = evaluate_with_readings(request(Some("w"), Some(30)), Ok(7), 20).unwrap();
    assert_eq!(a, b);
}

#[test]
fn record_readings_pins_the_outcome() {
    let o = evaluate_and_record_with_readings(
        "workflow-1",
        Operation::FileRead,
        DataLabel::Trusted,
        "/safe/input.txt",
        60,
        true,
        Ok(100),
        160,
    )
    .unwrap();
    assert!(o.decision.allowed);
    assert!(o.audit_valid);
    assert_eq!(o.audit.entries()[0].event(), "true:matching unexpired capability");
    let late = evaluate_and_record_with_readings(
        "workflow-1",
        Operation::FileRead,
        DataLabel::Trusted,
        "/safe/input.txt",
        60,
        true,
        Ok(100),
        161,
    )
    .unwrap();
    assert!(!late.decision.allowed);
    assert_eq!(
        evaluate_and_record_with_readings(
            "workflow-1",
            Operation::FileRead,
            DataLabel::Trusted,
            "x",
            60,
            true,
            Err(CapabilityError::Clock),
            0,
        )
        .unwrap_err(),
        RunError::Capability(CapabilityError::Clock)
    );
    let no_cap = evaluate_and_record_with_readings(
        "workflow-1",
        Operation::FileRead,
        DataLabel::Trusted,
        "x",
        60,
        false,
        Err(CapabilityError::Clock),
        0,
    )
    .unwrap();
    assert!(!no_cap.decision.allowed);
    assert_eq!(
        evaluate_and_record_with_readings(
            "",
            Operation::FileRead,
            DataLabel::Trusted,
            "x",
            60,
            false,
            Ok(0),
            0,
        )
        .unwrap_err(),
        RunError::Audit(AuditError::Oversized)
    );
}
