use uuid::Uuid;
use vstd::prelude::*;

use crate::clock::unix_seconds;
use crate::encoding::byte_len;
use crate::labels::Operation;

verus! {

/// Largest accepted workflow subject, in bytes.
pub const MAX_SUBJECT_BYTES: usize = 256;

/// Longest accepted capability lifetime, in seconds.
pub const MAX_TTL_SECONDS: u64 = 3600;

#[verifier::external_type_specification]
#[verifier::external_body]
pub struct ExUuid(Uuid);

/// Calls `Uuid::new_v4`. Nothing is stated of the result: it is random.
#[verifier::external_body]
fn fresh_id() -> (id: Uuid) {
    Uuid::new_v4()
}

/// Short-lived authorization scoped to an operation and workflow subject.
#[derive(Debug, PartialEq, Eq)]
pub struct Capability {
    id: Uuid,
    operation: Operation,
    subject: String,
    expires_unix_seconds: u64,
}

/// What a capability grants: an operation, for a subject, until a time.
pub struct CapabilityView {
    pub operation: Operation,
    pub subject: Seq<char>,
    pub expires_unix_seconds: u64,
}

impl View for Capability {
    type V = CapabilityView;

    closed spec fn view(&self) -> CapabilityView {
        CapabilityView {
            operation: self.operation,
            subject: self.subject@,
            expires_unix_seconds: self.expires_unix_seconds,
        }
    }
}

impl Clone for Capability {
    fn clone(&self) -> (c: Self)
        ensures
            c@ == self@,
            c.id_of() == self.id_of(),
    {
        Capability {
            id: self.id,
            operation: self.operation,
            subject: self.subject.clone(),
            expires_unix_seconds: self.expires_unix_seconds,
        }
    }
}

/// Capability construction errors.
#[derive(Clone, Copy, Debug, PartialEq, Eq, Structural)]
pub enum CapabilityError {
    /// Subject was empty or unreasonably large.
    InvalidSubject,
    /// TTL was zero or exceeded the supported maximum.
    InvalidTtl,
    /// System clock could not be represented.
    Clock,
}

impl CapabilityError {
    /// Human-readable description of the error.
    pub fn message(&self) -> (text: &'static str)
        ensures
            text@ == match self {
                CapabilityError::InvalidSubject => "capability subject must contain 1..=256 bytes"@,
                CapabilityError::InvalidTtl => "capability TTL must contain 1..=3600 seconds"@,
                CapabilityError::Clock => "system clock is before the Unix epoch"@,
            },
    {
        match self {
            CapabilityError::InvalidSubject => "capability subject must contain 1..=256 bytes",
            CapabilityError::InvalidTtl => "capability TTL must contain 1..=3600 seconds",
            CapabilityError::Clock => "system clock is before the Unix epoch",
        }
    }
}

/// A subject is non-empty and at most `MAX_SUBJECT_BYTES` bytes long.
pub open spec fn subject_in_bounds(subject: Seq<char>) -> bool {
    subject.len() != 0 && byte_len(subject) <= MAX_SUBJECT_BYTES
}

/// A lifetime is between one second and `MAX_TTL_SECONDS`.
pub open spec fn ttl_in_bounds(ttl_seconds: u64) -> bool {
    1 <= ttl_seconds <= MAX_TTL_SECONDS
}

/// The expiry of a capability issued at `now` for `ttl_seconds`: their sum,
/// saturated at `u64::MAX`.
pub open spec fn expiry(now: u64, ttl_seconds: u64) -> u64 {
    if now + ttl_seconds > u64::MAX {
        u64::MAX
    } else {
        (now + ttl_seconds) as u64
    }
}

/// Whether a capability authorizes `operation` for `subject` at time `now`.
pub open spec fn grants(cap: CapabilityView, operation: Operation, subject: Seq<char>, now: u64) -> bool {
    &&& cap.operation == operation
    &&& cap.subject == subject
    &&& now <= cap.expires_unix_seconds
}

/// The error that issuing for `subject` and `ttl_seconds` is refused with, if any.
pub open spec fn issue_error(subject: Seq<char>, ttl_seconds: u64) -> Option<CapabilityError> {
    if !subject_in_bounds(subject) {
        Some(CapabilityError::InvalidSubject)
    } else if !ttl_in_bounds(ttl_seconds) {
        Some(CapabilityError::InvalidTtl)
    } else {
        None
    }
}

/// Checks the subject and lifetime of a capability request: the error that
/// issuing would be refused with, if any.
pub fn check_issue(subject: &str, ttl_seconds: u64) -> (r: Option<CapabilityError>)
    ensures
        r == issue_error(subject@, ttl_seconds),
{
    if subject.is_empty() || subject.as_bytes().len() > MAX_SUBJECT_BYTES {
        return Some(CapabilityError::InvalidSubject);
    }
    if !(1 <= ttl_seconds && ttl_seconds <= MAX_TTL_SECONDS) {
        return Some(CapabilityError::InvalidTtl);
    }
    None
}

impl Capability {
    /// Issues a bounded capability that expires `ttl_seconds` after the given
    /// time `now_unix_seconds`.
    pub fn issue_at(operation: Operation, subject: &str, ttl_seconds: u64, now_unix_seconds: u64) -> (r:
        Result<Capability, CapabilityError>)
        ensures
            r is Err <==> issue_error(subject@, ttl_seconds) is Some,
            r matches Err(e) ==> issue_error(subject@, ttl_seconds) == Some(e),
            r matches Ok(c) ==> c@ == (CapabilityView {
                operation,
                subject: subject@,
                expires_unix_seconds: expiry(now_unix_seconds, ttl_seconds),
            }),
    {
        if let Some(e) = check_issue(subject, ttl_seconds) {
            return Err(e);
        }
        Ok(Capability::mint(operation, subject, ttl_seconds, now_unix_seconds))
    }

    /// Builds a capability from checked fields, with a fresh random id.
    fn mint(operation: Operation, subject: &str, ttl_seconds: u64, now_unix_seconds: u64) -> (c:
        Capability)
        ensures
            c@ == (CapabilityView {
                operation,
                subject: subject@,
                expires_unix_seconds: expiry(now_unix_seconds, ttl_seconds),
            }),
    {
        Capability {
            id: fresh_id(),
            operation,
            subject: subject.to_owned(),
            expires_unix_seconds: now_unix_seconds.saturating_add(ttl_seconds),
        }
    }

    /// Issues a bounded capability that expires `ttl_seconds` from now by the
    /// system clock. Production deployments should replace this local issuer with
    /// a signed authority.
    pub fn issue(operation: Operation, subject: &str, ttl_seconds: u64) -> (r: Result<
        Capability,
        CapabilityError,
    >)
        ensures
            issue_error(subject@, ttl_seconds) matches Some(e) ==> r == Err::<Capability, CapabilityError>(e),
            issue_error(subject@, ttl_seconds) is None ==> (r is Ok || r == Err::<Capability, CapabilityError>(CapabilityError::Clock)),
            r matches Ok(c) ==> c@.operation == operation && c@.subject == subject@ && exists|now: u64|
                c@.expires_unix_seconds == #[trigger] expiry(now, ttl_seconds),
    {
        if let Some(e) = check_issue(subject, ttl_seconds) {
            return Err(e);
        }
        match unix_seconds() {
            Ok(now) => Ok(Capability::mint(operation, subject, ttl_seconds, now)),
            Err(e) => Err(e),
        }
    }

    /// Whether this capability authorizes `operation` for `subject` at time `now`.
    pub fn authorizes(&self, operation: Operation, subject: &String, now: u64) -> (r: bool)
        ensures
            r == grants(self@, operation, subject@, now),
    {
        self.operation == operation && self.subject == *subject && now <= self.expires_unix_seconds
    }

    /// The random identifier of the capability.
    pub closed spec fn id_of(&self) -> Uuid {
        self.id
    }

    /// The random identifier of the capability.
    pub fn id(&self) -> (r: Uuid)
        ensures
            r == self.id_of(),
    {
        self.id
    }

    /// The operation the capability is scoped to.
    pub fn operation(&self) -> (r: Operation)
        ensures
            r == self@.operation,
    {
        self.operation
    }

    /// The workflow subject the capability is scoped to.
    pub fn subject(&self) -> (r: &str)
        ensures
            r@ == self@.subject,
    {
        self.subject.as_str()
    }

    /// The last Unix second at which the capability is valid.
    pub fn expires_unix_seconds(&self) -> (r: u64)
        ensures
            r == self@.expires_unix_seconds,
    {
        self.expires_unix_seconds
    }
}

} // verus!
