use aegisflow_core::capability::check_issue;
use aegisflow_core::{Capability, CapabilityError, Operation};

#[test]
fn subject_must_be_non_empty_and_bounded() {
    assert_eq!(
        Capability::issue(Operation::FileRead, "", 60).unwrap_err(),
        CapabilityError::InvalidSubject
    );
    let long = "s".repeat(257);
    assert_eq!(
        Capability::issue(Operation::FileRead, &long, 60).unwrap_err(),
        CapabilityError::InvalidSubject
    );
    assert!(Capability::issue(Operation::FileRead, &"s".repeat(256), 60).is_ok());
}

#[test]
fn subject_is_checked_before_ttl() {
    assert_eq!(
        Capability::issue(Operation::FileRead, "", 0).unwrap_err(),
        CapabilityError::InvalidSubject
    );
}

#[test]
fn ttl_must_be_between_one_second_and_an_hour() {
    assert_eq!(
        Capability::issue(Operation::FileRead, "w", 0).unwrap_err(),
        CapabilityError::InvalidTtl
    );
    assert_eq!(
        Capability::issue(Operation::FileRead, "w", 3601).unwrap_err(),
        CapabilityError::InvalidTtl
    );
    assert!(Capability::issue(Operation::FileRead, "w", 1).is_ok());
    assert!(Capability::issue(Operation::FileRead, "w", 3600).is_ok());
}

#[test]
fn issued_capability_carries_scope_and_expiry() {
    let c = Capability::issue_at(Operation::SecretRead, "workflow-9", 30, 1_000).unwrap();
    assert_eq!(c.operation(), Operation::SecretRead);
    assert_eq!(c.subject(), "workflow-9");
    assert_eq!(c.expires_unix_seconds(), 1_030);
}

#[test]
fn expiry_saturates() {
    let c = Capability::issue_at(Operation::FileRead, "w", 10, u64::MAX - 5).unwrap();
    assert_eq!(c.expires_unix_seconds(), u64::MAX);
}

#[test]
fn authorizes_only_its_scope() {
    let c = Capability::issue_at(Operation::FileRead, "w", 10, 100).unwrap();
    assert!(c.authorizes(Operation::FileRead, &"w".to_string(), 110));
    assert!(!c.authorizes(Operation::FileRead, &"w".to_string(), 111));
    assert!(!c.authorizes(Operation::FileWrite, &"w".to_string(), 100));
    assert!(!c.authorizes(Operation::FileRead, &"v".to_string(), 100));
}

#[test]
fn clock_based_issue_expires_in_the_future() {
    let c = Capability::issue(Operation::FileRead, "w", 60).unwrap();
    let now = std::time::SystemTime::now()
        .duration_since(std::time::UNIX_EPOCH)
        .unwrap()
        .as_secs();
    assert!(c.expires_unix_seconds() >= 60);
    assert!(c.expires_unix_seconds() <= now + 60);
    assert!(c.expires_unix_seconds() + 120 > now + 60);
}

#[test]
fn error_messages() {
    assert_eq!(
        CapabilityError::InvalidSubject.message(),
        "capability subject must contain 1..=256 bytes"
    );
    assert_eq!(
        CapabilityError::InvalidTtl.message(),
        "capability TTL must contain 1..=3600 seconds"
    );
    assert_eq!(
        CapabilityError::Clock.message(),
        "system clock is before the Unix epoch"
    );
}

#[test]
fn clone_keeps_every_field() {
    let c = Capability::issue_at(Operation::FileWrite, "w", 30, 10).unwrap();
    let d = c.clone();
    assert_eq!(c, d);
    assert_eq!(c.id(), d.id());
    assert_eq!(d.subject(), "w");
    assert_eq!(d.expires_unix_seconds(), 40);
    let e = Capability::issue_at(Operation::FileWrite, "w", 30, 10).unwrap();
    assert_ne!(c.id(), e.id());
}

#[test]
fn check_issue_reports_the_first_failing_bound() {
    assert_eq!(check_issue("", 0), Some(CapabilityError::InvalidSubject));
    assert_eq!(check_issue("w", 0), Some(CapabilityError::InvalidTtl));
    assert_eq!(check_issue("w", 1), None);
}
