use vstd::prelude::*;

verus! {

/// Classification attached to data as it crosses workflow boundaries.
#[derive(Clone, Copy, Debug, PartialEq, Eq, Structural)]
pub enum DataLabel {
    /// Public information.
    Public,
    /// Data produced by a trusted source.
    Trusted,
    /// Data controlled by an external or untrusted source.
    Untrusted,
    /// Confidential data that must not cross network boundaries.
    Secret,
}

/// Operations that require explicit policy decisions.
#[derive(Clone, Copy, Debug, PartialEq, Eq, Hash, Structural)]
pub enum Operation {
    /// Read a local file through a constrained adapter.
    FileRead,
    /// Write a local file through a constrained adapter.
    FileWrite,
    /// Retrieve a network resource.
    NetworkGet,
    /// Send data to a network resource.
    NetworkPost,
    /// Read a secret from an approved secret store.
    SecretRead,
}

impl Operation {
    /// Whether the operation crosses the network boundary.
    pub open spec fn spec_is_network(self) -> bool {
        self == Operation::NetworkGet || self == Operation::NetworkPost
    }

    /// Whether the operation is sensitive enough that untrusted data may not drive it.
    pub open spec fn spec_is_sensitive(self) -> bool {
        self == Operation::FileWrite || self == Operation::SecretRead
    }

    /// Whether the operation crosses the network boundary.
    #[verifier::when_used_as_spec(spec_is_network)]
    pub fn is_network(self) -> (r: bool)
        ensures
            r == self.spec_is_network(),
            r <==> (self == Operation::NetworkGet || self == Operation::NetworkPost),
    {
        match self {
            Operation::NetworkGet | Operation::NetworkPost => true,
            _ => false,
        }
    }

    /// Whether the operation is sensitive enough that untrusted data may not drive it.
    #[verifier::when_used_as_spec(spec_is_sensitive)]
    pub fn is_sensitive(self) -> (r: bool)
        ensures
            r == self.spec_is_sensitive(),
            r <==> (self == Operation::FileWrite || self == Operation::SecretRead),
    {
        match self {
            Operation::FileWrite | Operation::SecretRead => true,
            _ => false,
        }
    }
}

} // verus!
