use vstd::prelude::*;

use crate::capability::{expiry, grants, Capability, CapabilityView, MAX_SUBJECT_BYTES};
use crate::clock::unix_seconds;
use crate::encoding::{byte_len, utf8};
use crate::labels::{DataLabel, Operation};

verus! {

/// Largest accepted argument, in bytes.
pub const MAX_ARGUMENT_BYTES: usize = 64 * 1024;

/// A typed request produced by a planner. It is not executed directly.
#[derive(Clone, Debug, PartialEq, Eq)]
pub struct ToolRequest {
    /// Stable workflow or principal identifier.
    pub subject: String,
    /// Requested operation.
    pub operation: Operation,
    /// Taint label of the argument.
    pub label: DataLabel,
    /// Bounded non-secret argument or resource identifier.
    pub argument: String,
}

/// What a tool request asks for.
pub struct RequestView {
    pub subject: Seq<char>,
    pub operation: Operation,
    pub label: DataLabel,
    pub argument: Seq<char>,
}

impl View for ToolRequest {
    type V = RequestView;

    open spec fn view(&self) -> RequestView {
        RequestView {
            subject: self.subject@,
            operation: self.operation,
            label: self.label,
            argument: self.argument@,
        }
    }
}

impl ToolRequest {
    /// Creates a request. Oversized arguments are retained but denied by policy.
    pub fn new(subject: &str, operation: Operation, label: DataLabel, argument: &str) -> (r: Self)
        ensures
            r@ == (RequestView { subject: subject@, operation, label, argument: argument@ }),
    {
        ToolRequest { subject: subject.to_owned(), operation, label, argument: argument.to_owned() }
    }
}

/// Explainable policy result.
#[derive(Clone, Copy, Debug, PartialEq, Eq)]
pub struct Decision {
    /// Whether execution may proceed.
    pub allowed: bool,
    /// Stable human-readable reason.
    pub reason: &'static str,
}

/// The outcome of evaluating a request, one variant per reason.
#[derive(Clone, Copy, Debug, PartialEq, Eq, Structural)]
pub enum Verdict {
    /// The subject is empty or longer than `MAX_SUBJECT_BYTES`.
    SubjectOutOfBounds,
    /// The argument is longer than `MAX_ARGUMENT_BYTES`.
    ArgumentTooLarge,
    /// The argument holds a NUL byte.
    ArgumentHasNul,
    /// Secret data would cross the network boundary.
    SecretToNetwork,
    /// Untrusted data would drive a sensitive operation.
    UntrustedToSensitive,
    /// A capability authorizes the request.
    Authorized,
    /// No capability authorizes the request.
    NoCapability,
}

/// The stable reason text of each verdict.
pub open spec fn reason_text(v: Verdict) -> Seq<char> {
    match v {
        Verdict::SubjectOutOfBounds => "workflow subject is outside configured bounds"@,
        Verdict::ArgumentTooLarge => "argument exceeds the configured policy limit"@,
        Verdict::ArgumentHasNul => "argument contains a NUL byte"@,
        Verdict::SecretToNetwork => "secret data cannot cross the network boundary"@,
        Verdict::UntrustedToSensitive => "untrusted data cannot drive a sensitive operation"@,
        Verdict::Authorized => "matching unexpired capability"@,
        Verdict::NoCapability => "no matching unexpired capability"@,
    }
}

/// A decision stands for a verdict when it allows exactly when the verdict
/// authorizes and gives that verdict's reason.
pub open spec fn reports(d: Decision, v: Verdict) -> bool {
    &&& d.allowed == (v == Verdict::Authorized)
    &&& d.reason@ == reason_text(v)
}

/// What each capability of a sequence grants.
pub open spec fn cap_views(caps: Seq<Capability>) -> Seq<CapabilityView> {
    caps.map_values(|c: Capability| c@)
}

/// Some capability of `caps` authorizes the request at time `now`.
pub open spec fn some_capability_grants(req: RequestView, caps: Seq<CapabilityView>, now: u64) -> bool {
    exists|i: int| 0 <= i < caps.len() && grants(#[trigger] caps[i], req.operation, req.subject, now)
}

/// The checks that come before any capability is consulted, in order; `None`
/// when the request passes all of them.
pub open spec fn precheck(req: RequestView) -> Option<Verdict> {
    if req.subject.len() == 0 || byte_len(req.subject) > MAX_SUBJECT_BYTES {
        Some(Verdict::SubjectOutOfBounds)
    } else if byte_len(req.argument) > MAX_ARGUMENT_BYTES {
        Some(Verdict::ArgumentTooLarge)
    } else if utf8(req.argument).contains(0u8) {
        Some(Verdict::ArgumentHasNul)
    } else if req.label == DataLabel::Secret && req.operation.spec_is_network() {
        Some(Verdict::SecretToNetwork)
    } else if req.label == DataLabel::Untrusted && req.operation.spec_is_sensitive() {
        Some(Verdict::UntrustedToSensitive)
    } else {
        None
    }
}

/// The verdict of the deny-by-default policy on a request, given the capabilities
/// presented and the current time.
pub open spec fn verdict(req: RequestView, caps: Seq<CapabilityView>, now: u64) -> Verdict {
    match precheck(req) {
        Some(v) => v,
        None => if some_capability_grants(req, caps, now) {
            Verdict::Authorized
        } else {
            Verdict::NoCapability
        },
    }
}

/// Secret data never crosses the network boundary: a request that would send
/// secret-labelled data to a network operation is denied, whatever capabilities
/// are presented and whenever it is evaluated.
pub proof fn law_secret_never_crosses_network(req: RequestView, caps: Seq<CapabilityView>, now: u64)
    requires
        req.label == DataLabel::Secret,
        req.operation.spec_is_network(),
    ensures
        verdict(req, caps, now) != Verdict::Authorized,
{
}

/// Untrusted data never drives a sensitive operation (file writes, secret reads),
/// whatever capabilities are presented.
pub proof fn law_untrusted_never_drives_sensitive(
    req: RequestView,
    caps: Seq<CapabilityView>,
    now: u64,
)
    requires
        req.label == DataLabel::Untrusted,
        req.operation.spec_is_sensitive(),
    ensures
        verdict(req, caps, now) != Verdict::Authorized,
{
}

/// Deny by default: without capabilities no request is allowed.
pub proof fn law_deny_by_default(req: RequestView, now: u64)
    ensures
        verdict(req, Seq::<CapabilityView>::empty(), now) != Verdict::Authorized,
{
}

/// Only a capability authorizes: an allowed request passed every bound and flow
/// check, and some presented capability names its operation and subject and has
/// not expired.
pub proof fn law_allowed_needs_matching_capability(
    req: RequestView,
    caps: Seq<CapabilityView>,
    now: u64,
)
    requires
        verdict(req, caps, now) == Verdict::Authorized,
    ensures
        precheck(req) is None,
        exists|i: int|
            0 <= i < caps.len() && #[trigger] caps[i].operation == req.operation && caps[i].subject
                == req.subject && now <= caps[i].expires_unix_seconds,
{
    let i = choose|i: int| 0 <= i < caps.len() && grants(#[trigger] caps[i], req.operation, req.subject, now);
    assert(caps[i].operation == req.operation);
}

/// A capability scoped to another subject or operation, or already expired,
/// never authorizes a request: a request whose only capabilities all fail to
/// match is denied.
pub proof fn law_unmatched_capabilities_deny(req: RequestView, caps: Seq<CapabilityView>, now: u64)
    requires
        forall|i: int|
            0 <= i < caps.len() ==> (#[trigger] caps[i]).subject != req.subject || caps[i].operation
                != req.operation || now > caps[i].expires_unix_seconds,
    ensures
        verdict(req, caps, now) != Verdict::Authorized,
{
}

/// A matching unexpired capability authorizes any request that passes the bound
/// and flow checks.
pub proof fn law_matching_capability_allows(
    req: RequestView,
    caps: Seq<CapabilityView>,
    now: u64,
    i: int,
)
    requires
        precheck(req) is None,
        0 <= i < caps.len(),
        grants(caps[i], req.operation, req.subject, now),
    ensures
        verdict(req, caps, now) == Verdict::Authorized,
{
}

/// Presenting more capabilities never turns an allowed request into a denied
/// one, and never changes a denial that comes from the bound and flow checks.
pub proof fn law_more_capabilities_never_revoke(
    req: RequestView,
    caps: Seq<CapabilityView>,
    more: Seq<CapabilityView>,
    now: u64,
)
    ensures
        verdict(req, caps, now) == Verdict::Authorized ==> verdict(req, caps + more, now)
            == Verdict::Authorized,
        precheck(req) is Some ==> verdict(req, caps + more, now) == verdict(req, caps, now),
{
    if verdict(req, caps, now) == Verdict::Authorized {
        let i = choose|i: int|
            0 <= i < caps.len() && grants(#[trigger] caps[i], req.operation, req.subject, now);
        assert((caps + more)[i] == caps[i]);
    }
}

/// A capability is usable only until it expires: the same request and
/// capabilities evaluated later are never allowed where they were denied for
/// lack of a capability.
pub proof fn law_expiry_is_monotone(
    req: RequestView,
    caps: Seq<CapabilityView>,
    now: u64,
    later: u64,
)
    requires
        now <= later,
        verdict(req, caps, now) == Verdict::NoCapability,
    ensures
        verdict(req, caps, later) == Verdict::NoCapability,
{
    if some_capability_grants(req, caps, later) {
        let i = choose|i: int|
            0 <= i < caps.len() && grants(#[trigger] caps[i], req.operation, req.subject, later);
        assert(grants(caps[i], req.operation, req.subject, now));
    }
}

/// A capability issued at `issued_at` for a request's operation and subject
/// authorizes that request, if it passes the bound and flow checks, exactly up to
/// and including its expiry second, `ttl_seconds` after issue (saturating).
pub proof fn law_issued_capability_authorizes_until_expiry(
    req: RequestView,
    issued_at: u64,
    ttl_seconds: u64,
    now: u64,
)
    requires
        precheck(req) is None,
    ensures
        (verdict(
            req,
            seq![CapabilityView { operation: req.operation, subject: req.subject, expires_unix_seconds: expiry(issued_at, ttl_seconds) }],
            now,
        ) == Verdict::Authorized) <==> now <= expiry(issued_at, ttl_seconds),
{
    let caps = seq![CapabilityView { operation: req.operation, subject: req.subject, expires_unix_seconds: expiry(issued_at, ttl_seconds) }];
    if now <= expiry(issued_at, ttl_seconds) {
        assert(grants(caps[0], req.operation, req.subject, now));
    }
}

/// The label-flow rules are exactly these two: for a request within bounds that
/// a presented capability matches, the decision is a denial exactly when secret
/// data would go to `NetworkGet` or `NetworkPost`, or untrusted data would drive
/// `FileWrite` or `SecretRead`; every other label and operation is authorized.
pub proof fn law_label_flow_rules_are_exact(req: RequestView, caps: Seq<CapabilityView>, now: u64, i: int)
    requires
        req.subject.len() != 0,
        byte_len(req.subject) <= MAX_SUBJECT_BYTES,
        byte_len(req.argument) <= MAX_ARGUMENT_BYTES,
        !utf8(req.argument).contains(0u8),
        0 <= i < caps.len(),
        caps[i].operation == req.operation,
        caps[i].subject == req.subject,
        now <= caps[i].expires_unix_seconds,
    ensures
        req.label == DataLabel::Secret && (req.operation == Operation::NetworkGet || req.operation
            == Operation::NetworkPost) ==> verdict(req, caps, now) == Verdict::SecretToNetwork,
        req.label == DataLabel::Untrusted && (req.operation == Operation::FileWrite || req.operation
            == Operation::SecretRead) ==> verdict(req, caps, now) == Verdict::UntrustedToSensitive,
        (verdict(req, caps, now) == Verdict::Authorized) <==> !(req.label == DataLabel::Secret && (
        req.operation == Operation::NetworkGet || req.operation == Operation::NetworkPost)) && !(
        req.label == DataLabel::Untrusted && (req.operation == Operation::FileWrite || req.operation
            == Operation::SecretRead)),
{
    assert(grants(caps[i], req.operation, req.subject, now));
}

fn deny(v: Verdict, reason: &'static str) -> (d: Decision)
    requires
        v != Verdict::Authorized,
        reason@ == reason_text(v),
    ensures
        reports(d, v),
{
    Decision { allowed: false, reason }
}

/// Whether a byte slice holds a zero byte.
fn has_nul(bytes: &[u8]) -> (r: bool)
    ensures
        r == bytes@.contains(0u8),
{
    let n = bytes.len();
    let mut i: usize = 0;
    while i < n
        invariant
            n == bytes@.len(),
            i <= n,
            forall|j: int| 0 <= j < i ==> bytes@[j] != 0u8,
        decreases n - i,
    {
        if bytes[i] == 0u8 {
            assert(bytes@[i as int] == 0u8);
            return true;
        }
        i = i + 1;
    }
    false
}

/// Stateless deny-by-default reference policy.
#[derive(Clone, Copy, Debug)]
pub struct PolicyEngine;

impl Default for PolicyEngine {
    fn default() -> (engine: Self) {
        PolicyEngine
    }
}

impl PolicyEngine {
    /// Evaluates label flow, request bounds, and capabilities at time `now`.
    pub fn evaluate_at(&self, request: &ToolRequest, capabilities: &[Capability], now: u64) -> (d:
        Decision)
        ensures
            reports(d, verdict(request@, cap_views(capabilities@), now)),
    {
        let subject_len = request.subject.as_str().as_bytes().len();
        if request.subject.as_str().is_empty() || subject_len > MAX_SUBJECT_BYTES {
            return deny(Verdict::SubjectOutOfBounds, "workflow subject is outside configured bounds");
        }
        let argument = request.argument.as_str().as_bytes();
        if argument.len() > MAX_ARGUMENT_BYTES {
            return deny(Verdict::ArgumentTooLarge, "argument exceeds the configured policy limit");
        }
        if has_nul(argument) {
            return deny(Verdict::ArgumentHasNul, "argument contains a NUL byte");
        }
        if request.label == DataLabel::Secret && request.operation.is_network() {
            return deny(Verdict::SecretToNetwork, "secret data cannot cross the network boundary");
        }
        if request.label == DataLabel::Untrusted && request.operation.is_sensitive() {
            return deny(
                Verdict::UntrustedToSensitive,
                "untrusted data cannot drive a sensitive operation",
            );
        }
        let ghost caps = cap_views(capabilities@);
        let n = capabilities.len();
        let mut i: usize = 0;
        while i < n
            invariant
                n == capabilities@.len(),
                caps == cap_views(capabilities@),
                precheck(request@) is None,
                i <= n,
                forall|j: int|
                    0 <= j < i ==> !grants(
                        #[trigger] caps[j],
                        request@.operation,
                        request@.subject,
                        now,
                    ),
            decreases n - i,
        {
            if capabilities[i].authorizes(request.operation, &request.subject, now) {
                assert(grants(caps[i as int], request@.operation, request@.subject, now));
                return Decision { allowed: true, reason: "matching unexpired capability" };
            }
            i = i + 1;
        }
        deny(Verdict::NoCapability, "no matching unexpired capability")
    }

    /// Evaluates label flow, request bounds, and capabilities at the current time
    /// by the system clock (the latest representable time when the clock reads
    /// before the Unix epoch).
    pub fn evaluate(&self, request: &ToolRequest, capabilities: &[Capability]) -> (d: Decision)
        ensures
            exists|now: u64| reports(d, #[trigger] verdict(request@, cap_views(capabilities@), now)),
    {
        let now = match unix_seconds() {
            Ok(secs) => secs,
            Err(_) => u64::MAX,
        };
        self.evaluate_at(request, capabilities, now)
    }
}

} // verus!
