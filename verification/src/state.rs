//! The group as a mathematical value, the transitions of its state machine,
//! and the plain record in which a group is exported and imported.

use crate::artifacts::CommitView;
use crate::artifacts::MessageView;
use crate::artifacts::WelcomeView;
use crate::cipher::xor_keystream;
use crate::key_schedule::application_secret;
use crate::key_schedule::next_secret;
use crate::roster::apply_changes;
use crate::roster::without;
use vstd::prelude::*;
use vstd::utf8::decode_utf8;
use vstd::utf8::encode_utf8;
use vstd::utf8::valid_utf8;

verus! {

/// A group as a mathematical value.
pub ghost struct GroupView {
    pub group_id: Seq<u8>,
    pub name: Seq<char>,
    pub epoch: u64,
    pub members: Seq<Seq<char>>,
    pub group_secret: Seq<u8>,
    pub application_secret: Seq<u8>,
}

impl GroupView {
    /// What holds of every group: no identity is a member twice, and the
    /// application secret is the one that the key schedule derives from the
    /// group secret and the epoch.
    pub open spec fn wf(self) -> bool {
        &&& self.members.no_duplicates()
        &&& self.application_secret == application_secret(self.group_secret, self.epoch)
    }

    /// The group that `creator` founds under `name` with the given
    /// identifier and first secret.
    pub open spec fn founded(
        name: Seq<char>,
        creator: Seq<char>,
        group_id: Seq<u8>,
        group_secret: Seq<u8>,
    ) -> GroupView {
        GroupView {
            group_id,
            name,
            epoch: 0,
            members: seq![creator],
            group_secret,
            application_secret: application_secret(group_secret, 0),
        }
    }

    /// The group as a member sees it who joins from `welcome`.
    pub open spec fn joined(welcome: WelcomeView) -> GroupView {
        GroupView {
            group_id: welcome.group_id,
            name: welcome.group_name,
            epoch: welcome.epoch,
            members: welcome.members,
            group_secret: welcome.group_secrets,
            application_secret: application_secret(welcome.group_secrets, welcome.epoch),
        }
    }

    /// Whether the epoch counter can still be advanced.
    pub open spec fn can_advance(self) -> bool {
        self.epoch < u64::MAX
    }

    /// The group one epoch later, with `members` as its members: the epoch
    /// counts one up, the group secret moves one step along its chain, and
    /// the application secret is derived anew.
    pub open spec fn advanced(self, members: Seq<Seq<char>>) -> GroupView {
        let epoch = (self.epoch + 1) as u64;
        let group_secret = next_secret(self.group_secret);
        GroupView {
            group_id: self.group_id,
            name: self.name,
            epoch,
            members,
            group_secret,
            application_secret: application_secret(group_secret, epoch),
        }
    }

    /// The group after `id` has been added.
    pub open spec fn with_member_added(self, id: Seq<char>) -> GroupView {
        self.advanced(self.members.push(id))
    }

    /// The group after `id` has been removed.
    pub open spec fn with_member_removed(self, id: Seq<char>) -> GroupView {
        self.advanced(without(self.members, id))
    }

    /// The group after a key update.
    pub open spec fn rekeyed(self) -> GroupView {
        self.advanced(self.members)
    }

    /// Whether `commit` is the next transition of this group: it names this
    /// group and the epoch that follows the current one.
    pub open spec fn accepts(self, commit: CommitView) -> bool {
        &&& commit.group_id == self.group_id
        &&& commit.epoch == self.epoch + 1
    }

    /// The group after `commit` has been applied.
    pub open spec fn with_commit_applied(self, commit: CommitView) -> GroupView {
        self.advanced(apply_changes(self.members, commit.removed_members, commit.added_members))
    }

    /// The Welcome that describes this group to a new member.
    pub open spec fn welcome(self) -> WelcomeView {
        WelcomeView {
            group_id: self.group_id,
            group_name: self.name,
            epoch: self.epoch,
            members: self.members,
            group_secrets: self.group_secret,
            encrypted_group_info: Seq::empty(),
        }
    }

    /// The Commit that announces this state, reached by removing `removed`.
    pub open spec fn commit(self, removed: Seq<Seq<char>>) -> CommitView {
        CommitView {
            group_id: self.group_id,
            epoch: self.epoch,
            removed_members: removed,
            added_members: Seq::empty(),
        }
    }

    /// The group as it is exported: every field as it stands.
    pub open spec fn exported(self) -> GroupView {
        self
    }

    /// The group that an exported `state` restores: the state itself where
    /// its fields agree with each other, nothing where they do not.
    pub open spec fn imported(state: GroupView) -> Option<GroupView> {
        if state.wf() {
            Some(state)
        } else {
            None
        }
    }

    /// The envelope in which `sender` sends `plaintext` to this group.
    pub open spec fn sealed(self, plaintext: Seq<char>, sender: Seq<char>) -> MessageView {
        MessageView {
            sender_public_key: sender,
            epoch: self.epoch,
            ciphertext: xor_keystream(encode_utf8(plaintext), self.application_secret),
        }
    }

    /// The bytes that `message` holds once this group's key is taken off.
    pub open spec fn unsealed_bytes(self, message: MessageView) -> Seq<u8> {
        xor_keystream(message.ciphertext, self.application_secret)
    }

    /// What this group reads from `message`: the sender, the text, and the
    /// epoch named on the envelope; nothing where the sender is no member or
    /// the bytes are not text.
    pub open spec fn opened(self, message: MessageView) -> Option<(Seq<char>, Seq<char>, u64)> {
        if self.members.contains(message.sender_public_key) && valid_utf8(
            self.unsealed_bytes(message),
        ) {
            Some(
                (
                    message.sender_public_key,
                    decode_utf8(self.unsealed_bytes(message)),
                    message.epoch,
                ),
            )
        } else {
            None
        }
    }
}

/// A group with all its fields laid open, secrets included: the form in
/// which a group is stored and restored.
#[derive(Debug)]
pub struct GroupState {
    pub group_id: Vec<u8>,
    pub name: String,
    pub epoch: u64,
    pub members: Vec<String>,
    pub group_secret: Vec<u8>,
    pub application_secret: Vec<u8>,
}

impl View for GroupState {
    type V = GroupView;

    open spec fn view(&self) -> GroupView {
        GroupView {
            group_id: self.group_id@,
            name: self.name@,
            epoch: self.epoch,
            members: self.members.deep_view(),
            group_secret: self.group_secret@,
            application_secret: self.application_secret@,
        }
    }
}

} // verus!
