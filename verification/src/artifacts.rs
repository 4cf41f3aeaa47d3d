//! What group members hand to each other: the Welcome that lets a new member
//! join, the Commit that tells the others of a transition, and the envelope
//! of an encrypted message.

use crate::error::MarmotError;
use crate::roster::all_distinct;
use vstd::prelude::*;
use vstd::string::StringExecFns;

verus! {

/// A Welcome as a mathematical value.
pub ghost struct WelcomeView {
    pub group_id: Seq<u8>,
    pub group_name: Seq<char>,
    pub epoch: u64,
    pub members: Seq<Seq<char>>,
    pub group_secrets: Seq<u8>,
    pub encrypted_group_info: Seq<u8>,
}

/// A Commit as a mathematical value.
pub ghost struct CommitView {
    pub group_id: Seq<u8>,
    pub epoch: u64,
    pub removed_members: Seq<Seq<char>>,
    pub added_members: Seq<Seq<char>>,
}

/// An encrypted message as a mathematical value.
pub ghost struct MessageView {
    pub sender_public_key: Seq<char>,
    pub epoch: u64,
    pub ciphertext: Seq<u8>,
}

/// The snapshot of a group that a newly added member joins from. Its member
/// list never names an identity twice.
#[derive(Debug)]
pub struct WelcomeData {
    group_id: Vec<u8>,
    group_name: String,
    epoch: u64,
    members: Vec<String>,
    group_secrets: Vec<u8>,
    encrypted_group_info: Vec<u8>,
}

impl View for WelcomeData {
    type V = WelcomeView;

    closed spec fn view(&self) -> WelcomeView {
        WelcomeView {
            group_id: self.group_id@,
            group_name: self.group_name@,
            epoch: self.epoch,
            members: self.members.deep_view(),
            group_secrets: self.group_secrets@,
            encrypted_group_info: self.encrypted_group_info@,
        }
    }
}

/// The detail of the error for a Welcome that names a member twice.
pub open spec fn duplicate_member_detail() -> Seq<char> {
    "Welcome lists a member twice"@
}

impl WelcomeData {
    /// Holds of every Welcome: no identity is listed twice.
    #[verifier::type_invariant]
    spec fn distinct_members(self) -> bool {
        self.members.deep_view().no_duplicates()
    }

    /// Builds a Welcome from its fields. A member list that names an
    /// identity twice is refused as malformed.
    pub fn new(
        group_id: Vec<u8>,
        group_name: String,
        epoch: u64,
        members: Vec<String>,
        group_secrets: Vec<u8>,
        encrypted_group_info: Vec<u8>,
    ) -> (built: Result<Self, MarmotError>)
        ensures
            members.deep_view().no_duplicates() ==> (built matches Ok(w) && w@ == (WelcomeView {
                group_id: group_id@,
                group_name: group_name@,
                epoch,
                members: members.deep_view(),
                group_secrets: group_secrets@,
                encrypted_group_info: encrypted_group_info@,
            })),
            !members.deep_view().no_duplicates() ==> (built matches Err(
                MarmotError::SerializationError(detail),
            ) && detail@ == duplicate_member_detail()),
    {
        if all_distinct(&members) {
            Ok(
                WelcomeData {
                    group_id,
                    group_name,
                    epoch,
                    members,
                    group_secrets,
                    encrypted_group_info,
                },
            )
        } else {
            Err(MarmotError::SerializationError(String::from_str("Welcome lists a member twice")))
        }
    }

    /// Builds a Welcome from fields whose member list is known to be free of
    /// duplicates.
    pub(crate) fn from_distinct(
        group_id: Vec<u8>,
        group_name: String,
        epoch: u64,
        members: Vec<String>,
        group_secrets: Vec<u8>,
        encrypted_group_info: Vec<u8>,
    ) -> (w: Self)
        requires
            members.deep_view().no_duplicates(),
        ensures
            w@ == (WelcomeView {
                group_id: group_id@,
                group_name: group_name@,
                epoch,
                members: members.deep_view(),
                group_secrets: group_secrets@,
                encrypted_group_info: encrypted_group_info@,
            }),
    {
        WelcomeData { group_id, group_name, epoch, members, group_secrets, encrypted_group_info }
    }

    /// The identifier of the group to join.
    pub fn group_id(&self) -> (id: &Vec<u8>)
        ensures
            id@ == self@.group_id,
    {
        &self.group_id
    }

    /// The name of the group to join.
    pub fn group_name(&self) -> (name: &String)
        ensures
            name@ == self@.group_name,
    {
        &self.group_name
    }

    /// The epoch at which the Welcome was issued.
    pub fn epoch(&self) -> (epoch: u64)
        ensures
            epoch == self@.epoch,
    {
        self.epoch
    }

    /// The members at the time of issuance, the new member among them.
    pub fn members(&self) -> (members: &Vec<String>)
        ensures
            members.deep_view() == self@.members,
            self@.members.no_duplicates(),
    {
        proof {
            use_type_invariant(self);
        }
        &self.members
    }

    /// The group secret at the time of issuance.
    pub fn group_secrets(&self) -> (secret: &Vec<u8>)
        ensures
            secret@ == self@.group_secrets,
    {
        &self.group_secrets
    }

    /// The encrypted group information; empty in this scheme.
    pub fn encrypted_group_info(&self) -> (info: &Vec<u8>)
        ensures
            info@ == self@.encrypted_group_info,
    {
        &self.encrypted_group_info
    }
}

/// The record of one transition, issued by the member who made it and
/// applied by every other member.
#[derive(Debug)]
pub struct CommitData {
    pub group_id: Vec<u8>,
    pub epoch: u64,
    pub removed_members: Vec<String>,
    pub added_members: Vec<String>,
}

impl View for CommitData {
    type V = CommitView;

    open spec fn view(&self) -> CommitView {
        CommitView {
            group_id: self.group_id@,
            epoch: self.epoch,
            removed_members: self.removed_members.deep_view(),
            added_members: self.added_members.deep_view(),
        }
    }
}

/// The envelope of one encrypted message.
#[derive(Debug)]
pub struct EncryptedMessage {
    pub sender_public_key: String,
    pub epoch: u64,
    pub ciphertext: Vec<u8>,
}

impl View for EncryptedMessage {
    type V = MessageView;

    open spec fn view(&self) -> MessageView {
        MessageView {
            sender_public_key: self.sender_public_key@,
            epoch: self.epoch,
            ciphertext: self.ciphertext@,
        }
    }
}

} // verus!
