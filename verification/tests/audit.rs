use aegisflow_core::{AuditChain, AuditError};

const FIRST_HASH: &str = "10e36da4cb2835bc5e4c4b7a60b2770cea868f94bd9ee23c4cd624d6ac78260e";
const SECOND_HASH: &str = "d9143a7fd7c1515d4f9f9a455cc7227918947e2d129ec15ff4f1dbe6c8dde8f5";

#[test]
fn empty_chain_verifies() {
    let chain = AuditChain::default();
    assert!(chain.verify());
    assert!(chain.entries().is_empty());
}

#[test]
fn entries_are_numbered_linked_and_hashed() {
    let mut chain = AuditChain::default();
    {
        let first = chain.append("workflow-1", "allow").unwrap();
        assert_eq!(first.sequence(), 0);
        assert_eq!(first.workflow_id(), "workflow-1");
        assert_eq!(first.event(), "allow");
        assert_eq!(first.previous_hash(), "0".repeat(64));
        assert_eq!(first.hash(), FIRST_HASH);
    }
    {
        let second = chain.append("workflow-1", "deny").unwrap();
        assert_eq!(second.sequence(), 1);
        assert_eq!(second.previous_hash(), FIRST_HASH);
        assert_eq!(second.hash(), SECOND_HASH);
    }
    assert_eq!(chain.entries().len(), 2);
    assert!(chain.verify());
}

#[test]
fn oversized_fields_are_rejected_and_leave_chain_unchanged() {
    let mut chain = AuditChain::default();
    chain.append("w", "e").unwrap();
    assert_eq!(chain.append("", "e").unwrap_err(), AuditError::Oversized);
    assert_eq!(chain.append("w", "").unwrap_err(), AuditError::Oversized);
    assert_eq!(
        chain.append(&"w".repeat(257), "e").unwrap_err(),
        AuditError::Oversized
    );
    assert_eq!(
        chain.append("w", &"e".repeat(4097)).unwrap_err(),
        AuditError::Oversized
    );
    assert_eq!(chain.entries().len(), 1);
    assert!(chain.append(&"w".repeat(256), &"e".repeat(4096)).is_ok());
    assert_eq!(chain.entries().len(), 2);
    assert!(chain.verify());
}

#[test]
fn appending_keeps_long_chains_valid() {
    let mut chain = AuditChain::default();
    for i in 0..20 {
        chain.append("workflow", &format!("event-{i}")).unwrap();
        assert!(chain.verify());
    }
    let entries = chain.entries();
    for i in 1..entries.len() {
        assert_eq!(entries[i].previous_hash(), entries[i - 1].hash());
        assert_eq!(entries[i].sequence(), i as u64);
    }
}

#[test]
fn hashes_differ_when_events_differ() {
    let mut a = AuditChain::default();
    let mut b = AuditChain::default();
    a.append("w", "allow").unwrap();
    b.append("w", "deny").unwrap();
    assert_ne!(a.entries()[0].hash(), b.entries()[0].hash());
    // The length prefix keeps field boundaries apart.
    let mut c = AuditChain::default();
    let mut d = AuditChain::default();
    c.append("ab", "c").unwrap();
    d.append("a", "bc").unwrap();
    assert_ne!(c.entries()[0].hash(), d.entries()[0].hash());
}

#[test]
fn audit_error_message() {
    assert_eq!(
        AuditError::Oversized.message(),
        "audit fields exceed configured bounds"
    );
}
