//! The error type shared by every fallible operation of the library.

use vstd::prelude::*;
use vstd::string::StringExecFns;

verus! {

/// What can go wrong in a group operation.
///
/// Every operation that returns one of these leaves the group it was called
/// on exactly as it found it.
#[derive(Debug, PartialEq, Eq)]
pub enum MarmotError {
    /// Malformed identity or key material.
    InvalidKey(String),
    /// No group is known under the given identifier.
    GroupNotFound(String),
    /// A failure of the group-messaging protocol itself.
    MlsError(String),
    /// A Welcome, Commit or exported state that is not well formed.
    SerializationError(String),
    /// A cryptographic primitive failed.
    CryptoError(String),
    /// A commit for another group or another epoch, an exhausted epoch
    /// counter, or an exported state whose fields contradict each other.
    InvalidState(String),
    /// The named identity is not a member of the group.
    MemberNotFound(String),
    /// The identity to add is a member already.
    AlreadyMember,
    /// The acting identity is not a member of the group.
    NotMember,
    /// Any other failure.
    Internal(String),
}

impl MarmotError {
    /// The human-readable text of this error.
    pub open spec fn message_spec(&self) -> Seq<char> {
        match self {
            MarmotError::InvalidKey(detail) => "Invalid key format: "@ + detail@,
            MarmotError::GroupNotFound(detail) => "Group not found: "@ + detail@,
            MarmotError::MlsError(detail) => "MLS error: "@ + detail@,
            MarmotError::SerializationError(detail) => "Serialization error: "@ + detail@,
            MarmotError::CryptoError(detail) => "Crypto error: "@ + detail@,
            MarmotError::InvalidState(detail) => "Invalid state: "@ + detail@,
            MarmotError::MemberNotFound(detail) => "Member not found: "@ + detail@,
            MarmotError::AlreadyMember => "Already a member"@,
            MarmotError::NotMember => "Not a member of the group"@,
            MarmotError::Internal(detail) => "Internal error: "@ + detail@,
        }
    }

    /// Renders this error as text: a fixed phrase for the kind, followed by
    /// the detail where the kind carries one.
    pub fn message(&self) -> (text: String)
        ensures
            text@ == self.message_spec(),
    {
        match self {
            MarmotError::InvalidKey(detail) => prefixed("Invalid key format: ", detail),
            MarmotError::GroupNotFound(detail) => prefixed("Group not found: ", detail),
            MarmotError::MlsError(detail) => prefixed("MLS error: ", detail),
            MarmotError::SerializationError(detail) => prefixed("Serialization error: ", detail),
            MarmotError::CryptoError(detail) => prefixed("Crypto error: ", detail),
            MarmotError::InvalidState(detail) => prefixed("Invalid state: ", detail),
            MarmotError::MemberNotFound(detail) => prefixed("Member not found: ", detail),
            MarmotError::AlreadyMember => String::from_str("Already a member"),
            MarmotError::NotMember => String::from_str("Not a member of the group"),
            MarmotError::Internal(detail) => prefixed("Internal error: ", detail),
        }
    }
}

/// `prefix` followed by `detail`, as a new string.
fn prefixed(prefix: &str, detail: &String) -> (text: String)
    ensures
        text@ == prefix@ + detail@,
{
    let mut text = String::from_str(prefix);
    text.append(detail.as_str());
    text
}

} // verus!
