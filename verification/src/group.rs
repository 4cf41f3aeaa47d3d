//! The group: its state, and the operations that create it, change its
//! membership, advance its keys and protect its messages.

use crate::artifacts::CommitData;
use crate::artifacts::EncryptedMessage;
use crate::artifacts::WelcomeData;
use crate::bytes::bytes_equal;
use crate::cipher::apply_keystream;
use crate::entropy::random_bytes;
use crate::error::MarmotError;
use crate::key_schedule::SECRET_LEN;
use crate::key_schedule::derive_application_secret;
use crate::key_schedule::derive_next_secret;
use crate::roster::add_each;
use crate::roster::all_distinct;
use crate::roster::clone_identities;
use crate::roster::contains_identity;
use crate::roster::is_not;
use crate::roster::lemma_apply_changes;
use crate::roster::lemma_filter_no_duplicates;
use crate::roster::lemma_remove_is_without;
use crate::roster::lemma_with_one_no_duplicates;
use crate::roster::position_of_identity;
use crate::roster::remove_each;
use crate::state::GroupState;
use crate::state::GroupView;
use crate::text::append_decimal;
use crate::text::decimal;
use crate::text::decode_text;
use vstd::prelude::*;
use vstd::string::StringExecFns;

verus! {

/// Length in bytes of a freshly drawn group identifier.
pub const GROUP_ID_LEN: usize = 32;

/// The detail of the error for a failed random source.
pub open spec fn entropy_failure_detail() -> Seq<char> {
    "Entropy source failed"@
}

/// The detail of the error for a group whose epoch counter is at its end.
pub open spec fn epoch_exhausted_detail() -> Seq<char> {
    "Epoch counter exhausted"@
}

/// The detail of the error for a commit that names another group.
pub open spec fn group_id_mismatch_detail() -> Seq<char> {
    "Group ID mismatch"@
}

/// The detail of the error for a commit that names `got` where the group
/// expects `expected` as its next epoch.
pub open spec fn epoch_mismatch_detail(expected: nat, got: nat) -> Seq<char> {
    "Unexpected epoch: expected "@ + decimal(expected) + ", got "@ + decimal(got)
}

/// The detail of the error for an exported state whose fields contradict
/// each other.
pub open spec fn corrupted_state_detail() -> Seq<char> {
    "Corrupted group state"@
}

/// A group as its local member holds it.
#[derive(Debug)]
pub struct MlsGroup {
    group_id: Vec<u8>,
    name: String,
    epoch: u64,
    members: Vec<String>,
    group_secret: Vec<u8>,
    application_secret: Vec<u8>,
}

impl View for MlsGroup {
    type V = GroupView;

    closed spec fn view(&self) -> GroupView {
        GroupView {
            group_id: self.group_id@,
            name: self.name@,
            epoch: self.epoch,
            members: self.members.deep_view(),
            group_secret: self.group_secret@,
            application_secret: self.application_secret@,
        }
    }
}

impl MlsGroup {
    /// Holds of every group: its state is well formed, and its application
    /// secret has the length of a digest.
    #[verifier::type_invariant]
    spec fn inv(self) -> bool {
        &&& self@.wf()
        &&& self.application_secret@.len() == SECRET_LEN
    }

    /// Founds a group under `name` with `creator_public_key` as its only
    /// member, at epoch 0, from the given identifier and first secret.
    pub fn create_with_secrets(
        name: &str,
        creator_public_key: &str,
        group_id: Vec<u8>,
        group_secret: Vec<u8>,
    ) -> (group: Self)
        ensures
            group@ == GroupView::founded(name@, creator_public_key@, group_id@, group_secret@),
            group@.wf(),
    {
        let application_secret = derive_application_secret(group_secret.as_slice(), 0);
        let mut members: Vec<String> = Vec::new();
        members.push(creator_public_key.to_owned());
        assert(members.deep_view() =~= seq![creator_public_key@]);
        MlsGroup {
            group_id,
            name: name.to_owned(),
            epoch: 0,
            members,
            group_secret,
            application_secret,
        }
    }

    /// Founds a group under `name` with `creator_public_key` as its only
    /// member, at epoch 0, with a fresh random identifier and a fresh random
    /// secret of 32 bytes each. Fails only where the random source fails.
    pub fn create(name: &str, creator_public_key: &str) -> (created: Result<Self, MarmotError>)
        ensures
            match created {
                Ok(group) => {
                    &&& group@ == GroupView::founded(
                        name@,
                        creator_public_key@,
                        group@.group_id,
                        group@.group_secret,
                    )
                    &&& group@.group_id.len() == GROUP_ID_LEN
                    &&& group@.group_secret.len() == SECRET_LEN
                    &&& group@.wf()
                },
                Err(error) => error matches MarmotError::CryptoError(detail) && detail@
                    == entropy_failure_detail(),
            },
    {
        let group_id = match random_bytes(GROUP_ID_LEN) {
            Some(bytes) => bytes,
            None => {
                return Err(MarmotError::CryptoError(String::from_str("Entropy source failed")));
            },
        };
        let group_secret = match random_bytes(SECRET_LEN) {
            Some(bytes) => bytes,
            None => {
                return Err(MarmotError::CryptoError(String::from_str("Entropy source failed")));
            },
        };
        Ok(Self::create_with_secrets(name, creator_public_key, group_id, group_secret))
    }

    /// Joins the group that `welcome` describes. Fails with `NotMember`
    /// where the Welcome does not list `joiner_public_key`; otherwise the
    /// group takes every field from the Welcome and derives its application
    /// secret from the Welcome's secret and epoch.
    pub fn from_welcome(welcome: &WelcomeData, joiner_public_key: &str) -> (joined: Result<
        Self,
        MarmotError,
    >)
        ensures
            match joined {
                Ok(group) => {
                    &&& welcome@.members.contains(joiner_public_key@)
                    &&& group@ == GroupView::joined(welcome@)
                    &&& group@.wf()
                },
                Err(error) => {
                    &&& !welcome@.members.contains(joiner_public_key@)
                    &&& error == MarmotError::NotMember
                },
            },
    {
        if !contains_identity(welcome.members(), joiner_public_key) {
            return Err(MarmotError::NotMember);
        }
        let application_secret = derive_application_secret(
            welcome.group_secrets().as_slice(),
            welcome.epoch(),
        );
        let group_id = welcome.group_id().clone();
        let group_secret = welcome.group_secrets().clone();
        assert(group_id@ =~= welcome@.group_id);
        assert(group_secret@ =~= welcome@.group_secrets);
        Ok(
            MlsGroup {
                group_id,
                name: welcome.group_name().clone(),
                epoch: welcome.epoch(),
                members: clone_identities(welcome.members()),
                group_secret,
                application_secret,
            },
        )
    }

    /// The identifier of the group.
    pub fn group_id(&self) -> (id: &Vec<u8>)
        ensures
            id@ == self@.group_id,
    {
        &self.group_id
    }

    /// The name of the group.
    pub fn name(&self) -> (name: &String)
        ensures
            name@ == self@.name,
    {
        &self.name
    }

    /// The current epoch.
    pub fn epoch(&self) -> (epoch: u64)
        ensures
            epoch == self@.epoch,
    {
        self.epoch
    }

    /// The current members, in the order in which they joined.
    pub fn members(&self) -> (members: &Vec<String>)
        ensures
            members.deep_view() == self@.members,
            self@.wf(),
    {
        proof {
            use_type_invariant(self);
        }
        &self.members
    }

    /// Moves the group to its next epoch with `members` as its members.
    fn advance(&mut self, members: Vec<String>)
        requires
            old(self)@.can_advance(),
            members.deep_view().no_duplicates(),
        ensures
            final(self)@ == old(self)@.advanced(members.deep_view()),
            final(self)@.wf(),
    {
        proof {
            use_type_invariant(&*self);
        }
        let epoch: u64 = self.epoch + 1;
        let group_secret = derive_next_secret(self.group_secret.as_slice());
        let application_secret = derive_application_secret(group_secret.as_slice(), epoch);
        let mut group_id: Vec<u8> = Vec::new();
        std::mem::swap(&mut group_id, &mut self.group_id);
        let mut name = String::new();
        std::mem::swap(&mut name, &mut self.name);
        *self = MlsGroup { group_id, name, epoch, members, group_secret, application_secret };
    }

    /// The error for a group whose epoch counter is at its end.
    fn epoch_exhausted() -> (error: MarmotError)
        ensures
            error matches MarmotError::InvalidState(detail) && detail@ == epoch_exhausted_detail(),
    {
        MarmotError::InvalidState(String::from_str("Epoch counter exhausted"))
    }

    /// Adds `member_public_key` to the group and returns the Welcome for the
    /// new member: the group as it stands after the addition.
    ///
    /// Fails with `AlreadyMember` where the identity is a member already, and
    /// with `InvalidState` where the epoch counter is at its end. A failed
    /// call leaves the group as it was.
    pub fn add_member(&mut self, member_public_key: &str) -> (added: Result<
        WelcomeData,
        MarmotError,
    >)
        ensures
            match added {
                Ok(welcome) => {
                    &&& !old(self)@.members.contains(member_public_key@)
                    &&& old(self)@.can_advance()
                    &&& final(self)@ == old(self)@.with_member_added(member_public_key@)
                    &&& welcome@ == final(self)@.welcome()
                },
                Err(error) => {
                    &&& final(self)@ == old(self)@
                    &&& if old(self)@.members.contains(member_public_key@) {
                        error == MarmotError::AlreadyMember
                    } else {
                        &&& !old(self)@.can_advance()
                        &&& error matches MarmotError::InvalidState(detail)
                        &&& detail@ == epoch_exhausted_detail()
                    }
                },
            },
            final(self)@.wf(),
    {
        proof {
            use_type_invariant(&*self);
        }
        if contains_identity(&self.members, member_public_key) {
            return Err(MarmotError::AlreadyMember);
        }
        if self.epoch == u64::MAX {
            return Err(Self::epoch_exhausted());
        }
        let mut members: Vec<String> = Vec::new();
        std::mem::swap(&mut members, &mut self.members);
        members.push(member_public_key.to_owned());
        proof {
            assert(members.deep_view() =~= old(self)@.members.push(member_public_key@));
            lemma_with_one_no_duplicates(old(self)@.members, member_public_key@);
        }
        self.advance(members);
        Ok(self.welcome())
    }

    /// The Welcome that describes the group as it stands.
    fn welcome(&self) -> (welcome: WelcomeData)
        ensures
            welcome@ == self@.welcome(),
    {
        proof {
            use_type_invariant(self);
        }
        let group_id = self.group_id.clone();
        let group_secret = self.group_secret.clone();
        assert(group_id@ =~= self.group_id@);
        assert(group_secret@ =~= self.group_secret@);
        WelcomeData::from_distinct(
            group_id,
            self.name.clone(),
            self.epoch,
            clone_identities(&self.members),
            group_secret,
            Vec::new(),
        )
    }

    /// The Commit that announces the group's current state, reached by
    /// removing `removed`.
    fn commit(&self, removed: Vec<String>) -> (commit: CommitData)
        ensures
            commit@ == self@.commit(removed.deep_view()),
    {
        let group_id = self.group_id.clone();
        assert(group_id@ =~= self.group_id@);
        let added: Vec<String> = Vec::new();
        assert(added.deep_view() =~= Seq::<Seq<char>>::empty());
        CommitData { group_id, epoch: self.epoch, removed_members: removed, added_members: added }
    }

    /// Removes `member_public_key` from the group and returns the Commit
    /// that tells the other members.
    ///
    /// Fails with `MemberNotFound` where the identity is no member, and with
    /// `InvalidState` where the epoch counter is at its end. A failed call
    /// leaves the group as it was.
    pub fn remove_member(&mut self, member_public_key: &str) -> (removed: Result<
        CommitData,
        MarmotError,
    >)
        ensures
            match removed {
                Ok(commit) => {
                    &&& old(self)@.members.contains(member_public_key@)
                    &&& old(self)@.can_advance()
                    &&& final(self)@ == old(self)@.with_member_removed(member_public_key@)
                    &&& commit@ == final(self)@.commit(seq![member_public_key@])
                },
                Err(error) => {
                    &&& final(self)@ == old(self)@
                    &&& if !old(self)@.members.contains(member_public_key@) {
                        &&& error matches MarmotError::MemberNotFound(detail)
                        &&& detail@ == member_public_key@
                    } else {
                        &&& !old(self)@.can_advance()
                        &&& error matches MarmotError::InvalidState(detail)
                        &&& detail@ == epoch_exhausted_detail()
                    }
                },
            },
            final(self)@.wf(),
    {
        proof {
            use_type_invariant(&*self);
        }
        let pos = match position_of_identity(&self.members, member_public_key) {
            Some(pos) => pos,
            None => {
                return Err(MarmotError::MemberNotFound(member_public_key.to_owned()));
            },
        };
        if self.epoch == u64::MAX {
            return Err(Self::epoch_exhausted());
        }
        let mut members: Vec<String> = Vec::new();
        std::mem::swap(&mut members, &mut self.members);
        members.remove(pos);
        proof {
            let before = old(self)@.members;
            assert(members.deep_view() =~= before.remove(pos as int));
            lemma_remove_is_without(before, pos as int);
            lemma_filter_no_duplicates(before, is_not(member_public_key@));
        }
        self.advance(members);
        let mut gone: Vec<String> = Vec::new();
        gone.push(member_public_key.to_owned());
        assert(gone.deep_view() =~= seq![member_public_key@]);
        Ok(self.commit(gone))
    }

    /// Advances the group's keys without changing its membership and
    /// returns the Commit that tells the other members.
    ///
    /// Fails only where the epoch counter is at its end, and then leaves the
    /// group as it was.
    pub fn update_keys(&mut self) -> (updated: Result<CommitData, MarmotError>)
        ensures
            match updated {
                Ok(commit) => {
                    &&& old(self)@.can_advance()
                    &&& final(self)@ == old(self)@.rekeyed()
                    &&& commit@ == final(self)@.commit(Seq::empty())
                },
                Err(error) => {
                    &&& final(self)@ == old(self)@
                    &&& !old(self)@.can_advance()
                    &&& error matches MarmotError::InvalidState(detail)
                    &&& detail@ == epoch_exhausted_detail()
                },
            },
            final(self)@.wf(),
    {
        proof {
            use_type_invariant(&*self);
        }
        if self.epoch == u64::MAX {
            return Err(Self::epoch_exhausted());
        }
        let mut members: Vec<String> = Vec::new();
        std::mem::swap(&mut members, &mut self.members);
        self.advance(members);
        let none: Vec<String> = Vec::new();
        assert(none.deep_view() =~= Seq::<Seq<char>>::empty());
        Ok(self.commit(none))
    }

    /// The error for a commit that names `got` where the group expects the
    /// epoch after `current`.
    fn epoch_mismatch(current: u64, got: u64) -> (error: MarmotError)
        ensures
            error matches MarmotError::InvalidState(detail) && detail@ == epoch_mismatch_detail(
                (current + 1) as nat,
                got as nat,
            ),
    {
        let mut detail = String::from_str("Unexpected epoch: expected ");
        let expected: u128 = current as u128 + 1;
        append_decimal(&mut detail, expected);
        detail.append(", got ");
        append_decimal(&mut detail, got as u128);
        MarmotError::InvalidState(detail)
    }

    /// Applies a Commit that another member issued.
    ///
    /// Fails with `InvalidState` where the Commit names another group, or an
    /// epoch other than the one that follows the current epoch; the group is
    /// then left as it was. Otherwise everyone the Commit removes leaves,
    /// everyone it adds who is no member yet joins, and the group moves to
    /// the Commit's epoch along its own secret chain.
    pub fn process_commit(&mut self, commit: &CommitData) -> (applied: Result<(), MarmotError>)
        ensures
            match applied {
                Ok(_) => {
                    &&& old(self)@.accepts(commit@)
                    &&& final(self)@ == old(self)@.with_commit_applied(commit@)
                },
                Err(error) => {
                    &&& final(self)@ == old(self)@
                    &&& !old(self)@.accepts(commit@)
                    &&& error matches MarmotError::InvalidState(detail)
                    &&& detail@ == if commit@.group_id != old(self)@.group_id {
                        group_id_mismatch_detail()
                    } else {
                        epoch_mismatch_detail((old(self)@.epoch + 1) as nat, commit@.epoch as nat)
                    }
                },
            },
            final(self)@.wf(),
    {
        proof {
            use_type_invariant(&*self);
        }
        if !bytes_equal(commit.group_id.as_slice(), self.group_id.as_slice()) {
            return Err(MarmotError::InvalidState(String::from_str("Group ID mismatch")));
        }
        if self.epoch == u64::MAX || commit.epoch != self.epoch + 1 {
            return Err(Self::epoch_mismatch(self.epoch, commit.epoch));
        }
        let mut members = remove_each(&self.members, &commit.removed_members);
        add_each(&mut members, &commit.added_members);
        proof {
            lemma_apply_changes(
                old(self)@.members,
                commit@.removed_members,
                commit@.added_members,
            );
        }
        self.advance(members);
        Ok(())
    }

    /// Encrypts `plaintext` for the group on behalf of `sender_public_key`:
    /// the text's UTF-8 bytes under the current application secret, in an
    /// envelope that names the sender and the current epoch.
    ///
    /// Fails with `NotMember` where the sender is no member. The group is
    /// not changed.
    pub fn encrypt_message(&mut self, plaintext: &str, sender_public_key: &str) -> (sealed: Result<
        EncryptedMessage,
        MarmotError,
    >)
        ensures
            final(self)@ == old(self)@,
            match sealed {
                Ok(message) => {
                    &&& old(self)@.members.contains(sender_public_key@)
                    &&& message@ == old(self)@.sealed(plaintext@, sender_public_key@)
                },
                Err(error) => {
                    &&& !old(self)@.members.contains(sender_public_key@)
                    &&& error == MarmotError::NotMember
                },
            },
    {
        proof {
            use_type_invariant(&*self);
        }
        if !contains_identity(&self.members, sender_public_key) {
            return Err(MarmotError::NotMember);
        }
        let ciphertext = apply_keystream(plaintext.as_bytes(), self.application_secret.as_slice());
        Ok(
            EncryptedMessage {
                sender_public_key: sender_public_key.to_owned(),
                epoch: self.epoch,
                ciphertext,
            },
        )
    }

    /// Decrypts `message` under the current application secret and returns
    /// the sender, the text, and the epoch that the envelope names.
    ///
    /// Fails with `NotMember` where the sender is no member, and with
    /// `SerializationError` where what comes out is not UTF-8, as happens to
    /// a message from another epoch. The group is not changed.
    pub fn decrypt_message(&mut self, message: &EncryptedMessage) -> (opened: Result<
        (String, String, u64),
        MarmotError,
    >)
        ensures
            final(self)@ == old(self)@,
            match opened {
                Ok((sender, plaintext, epoch)) => old(self)@.opened(message@) == Some(
                    (sender@, plaintext@, epoch),
                ),
                Err(error) => {
                    &&& old(self)@.opened(message@) is None
                    &&& if !old(self)@.members.contains(message@.sender_public_key) {
                        error == MarmotError::NotMember
                    } else {
                        error is SerializationError
                    }
                },
            },
    {
        proof {
            use_type_invariant(&*self);
        }
        if !contains_identity(&self.members, message.sender_public_key.as_str()) {
            return Err(MarmotError::NotMember);
        }
        let plaintext_bytes = apply_keystream(
            message.ciphertext.as_slice(),
            self.application_secret.as_slice(),
        );
        match decode_text(plaintext_bytes) {
            Ok(plaintext) => Ok((message.sender_public_key.clone(), plaintext, message.epoch)),
            Err(detail) => Err(MarmotError::SerializationError(detail)),
        }
    }

    /// The group with all its fields laid open, secrets included.
    pub fn export_state(&self) -> (state: GroupState)
        ensures
            state@ == self@.exported(),
            state@.wf(),
    {
        proof {
            use_type_invariant(self);
        }
        let group_id = self.group_id.clone();
        let group_secret = self.group_secret.clone();
        let application_secret = self.application_secret.clone();
        assert(group_id@ =~= self.group_id@);
        assert(group_secret@ =~= self.group_secret@);
        assert(application_secret@ =~= self.application_secret@);
        GroupState {
            group_id,
            name: self.name.clone(),
            epoch: self.epoch,
            members: clone_identities(&self.members),
            group_secret,
            application_secret,
        }
    }

    /// Restores a group from an exported state, field for field.
    ///
    /// Fails with `InvalidState` where the state names a member twice or
    /// holds an application secret other than the one that its group secret
    /// and epoch give.
    pub fn import_state(state: &GroupState) -> (imported: Result<Self, MarmotError>)
        ensures
            match imported {
                Ok(group) => GroupView::imported(state@) == Some(group@),
                Err(error) => {
                    &&& GroupView::imported(state@) is None
                    &&& error matches MarmotError::InvalidState(detail)
                    &&& detail@ == corrupted_state_detail()
                },
            },
    {
        let expected = derive_application_secret(state.group_secret.as_slice(), state.epoch);
        if !all_distinct(&state.members) || !bytes_equal(
            state.application_secret.as_slice(),
            expected.as_slice(),
        ) {
            return Err(MarmotError::InvalidState(String::from_str("Corrupted group state")));
        }
        let group_id = state.group_id.clone();
        let group_secret = state.group_secret.clone();
        assert(group_id@ =~= state.group_id@);
        assert(group_secret@ =~= state.group_secret@);
        Ok(
            MlsGroup {
                group_id,
                name: state.name.clone(),
                epoch: state.epoch,
                members: clone_identities(&state.members),
                group_secret,
                application_secret: expected,
            },
        )
    }
}

} // verus!
