//! The failures of a run.

use vstd::prelude::*;

verus! {

/// What can go wrong. Where the provider answered with a message, the
/// variant keeps it; where a domain is concerned, the variant names it.
#[derive(Debug, Clone, PartialEq, Eq)]
pub enum Errors {
    /// The provider refused the credentials; its long message.
    Login(String),
    /// The logout call did not succeed.
    Logout,
    /// A successful login answer carried no session id.
    RetrieveAPISesionId,
    /// The request could not be sent or no answer came back.
    SendRequest,
    /// The answer is not a well-formed envelope of the expected action.
    SerializeResponse,
    /// The environment file could not be loaded.
    LoadingEnvFile,
    /// The provider answered with a validation error, mostly a rate limit;
    /// its long message.
    ValidationError(String),
    /// A domain entry of the configuration is empty.
    SerializeDomains,
    /// The zone or its records were not found, or the session may not see them.
    DNSZoneNotFound(String),
    /// The provider rejected a call on the domain's zone or records.
    DNSZoneRejected(String),
}

} // verus!
