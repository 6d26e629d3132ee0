use aegisflow_core::{Capability, DataLabel, Decision, Operation, PolicyEngine, ToolRequest};

fn cap(op: Operation, subject: &str, ttl: u64, now: u64) -> Capability {
    Capability::issue_at(op, subject, ttl, now).unwrap()
}

fn eval(request: &ToolRequest, caps: &[Capability], now: u64) -> Decision {
    PolicyEngine.evaluate_at(request, caps, now)
}

#[test]
fn empty_subject_is_denied() {
    let request = ToolRequest::new("", Operation::FileRead, DataLabel::Trusted, "a");
    let d = eval(&request, &[], 0);
    assert!(!d.allowed);
    assert_eq!(d.reason, "workflow subject is outside configured bounds");
}

#[test]
fn subject_bound_counts_bytes() {
    let ok = "a".repeat(256);
    let request = ToolRequest::new(&ok, Operation::FileRead, DataLabel::Trusted, "a");
    let d = eval(&request, &[cap(Operation::FileRead, &ok, 60, 0)], 0);
    assert!(d.allowed);

    let long = "a".repeat(257);
    let request = ToolRequest::new(&long, Operation::FileRead, DataLabel::Trusted, "a");
    let d = eval(&request, &[], 0);
    assert!(!d.allowed);
    assert_eq!(d.reason, "workflow subject is outside configured bounds");

    // 129 two-byte characters are 258 bytes.
    let wide = "é".repeat(129);
    let request = ToolRequest::new(&wide, Operation::FileRead, DataLabel::Trusted, "a");
    let d = eval(&request, &[], 0);
    assert_eq!(d.reason, "workflow subject is outside configured bounds");
}

#[test]
fn oversized_argument_is_denied() {
    let at_limit = "x".repeat(64 * 1024);
    let request = ToolRequest::new("w", Operation::FileRead, DataLabel::Trusted, &at_limit);
    assert!(eval(&request, &[cap(Operation::FileRead, "w", 60, 0)], 0).allowed);

    let over = "x".repeat(64 * 1024 + 1);
    let request = ToolRequest::new("w", Operation::FileRead, DataLabel::Trusted, &over);
    let d = eval(&request, &[cap(Operation::FileRead, "w", 60, 0)], 0);
    assert!(!d.allowed);
    assert_eq!(d.reason, "argument exceeds the configured policy limit");
}

#[test]
fn nul_byte_in_argument_is_denied() {
    let request = ToolRequest::new("w", Operation::FileRead, DataLabel::Trusted, "a\0b");
    let d = eval(&request, &[cap(Operation::FileRead, "w", 60, 0)], 0);
    assert!(!d.allowed);
    assert_eq!(d.reason, "argument contains a NUL byte");
}

#[test]
fn secret_cannot_reach_network_even_with_capability() {
    for op in [Operation::NetworkGet, Operation::NetworkPost] {
        let request = ToolRequest::new("w", op, DataLabel::Secret, "https://example.test");
        let d = eval(&request, &[cap(op, "w", 60, 0)], 0);
        assert!(!d.allowed);
        assert_eq!(d.reason, "secret data cannot cross the network boundary");
    }
    let request = ToolRequest::new("w", Operation::FileRead, DataLabel::Secret, "/s");
    assert!(eval(&request, &[cap(Operation::FileRead, "w", 60, 0)], 0).allowed);
}

#[test]
fn untrusted_cannot_drive_sensitive_operations() {
    for op in [Operation::FileWrite, Operation::SecretRead] {
        let request = ToolRequest::new("w", op, DataLabel::Untrusted, "x");
        let d = eval(&request, &[cap(op, "w", 60, 0)], 0);
        assert!(!d.allowed);
        assert_eq!(d.reason, "untrusted data cannot drive a sensitive operation");
    }
    let request = ToolRequest::new("w", Operation::NetworkGet, DataLabel::Untrusted, "x");
    assert!(eval(&request, &[cap(Operation::NetworkGet, "w", 60, 0)], 0).allowed);
}

#[test]
fn deny_by_default_without_capabilities() {
    let request = ToolRequest::new("w", Operation::FileRead, DataLabel::Public, "x");
    let d = eval(&request, &[], 0);
    assert!(!d.allowed);
    assert_eq!(d.reason, "no matching unexpired capability");
}

#[test]
fn matching_capability_allows_with_reason() {
    let request = ToolRequest::new("w", Operation::FileRead, DataLabel::Public, "x");
    let d = eval(&request, &[cap(Operation::FileRead, "w", 60, 100)], 150);
    assert!(d.allowed);
    assert_eq!(d.reason, "matching unexpired capability");
}

#[test]
fn capability_for_other_operation_does_not_match() {
    let request = ToolRequest::new("w", Operation::FileWrite, DataLabel::Trusted, "x");
    let d = eval(&request, &[cap(Operation::FileRead, "w", 60, 0)], 0);
    assert!(!d.allowed);
    assert_eq!(d.reason, "no matching unexpired capability");
}

#[test]
fn capability_valid_through_its_expiry_second() {
    let request = ToolRequest::new("w", Operation::FileRead, DataLabel::Trusted, "x");
    let c = [cap(Operation::FileRead, "w", 10, 100)];
    assert!(eval(&request, &c, 110).allowed);
    assert!(!eval(&request, &c, 111).allowed);
}

#[test]
fn more_capabilities_never_revoke() {
    let request = ToolRequest::new("w", Operation::FileRead, DataLabel::Trusted, "x");
    let one = [cap(Operation::FileRead, "w", 10, 0)];
    let two = [
        cap(Operation::FileRead, "w", 10, 0),
        cap(Operation::SecretRead, "other", 10, 0),
    ];
    assert!(eval(&request, &one, 5).allowed);
    assert!(eval(&request, &two, 5).allowed);
    let later = [
        cap(Operation::SecretRead, "other", 10, 0),
        cap(Operation::FileRead, "w", 10, 0),
    ];
    assert!(eval(&request, &later, 5).allowed);
}

#[test]
fn request_fields_are_kept() {
    let request = ToolRequest::new("w", Operation::NetworkGet, DataLabel::Public, "u");
    assert_eq!(request.subject, "w");
    assert_eq!(request.operation, Operation::NetworkGet);
    assert_eq!(request.label, DataLabel::Public);
    assert_eq!(request.argument, "u");
}
