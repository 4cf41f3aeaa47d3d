//! What holds of the group state machine as a whole, stated over its
//! mathematical model and proved once for every state.

use crate::artifacts::CommitView;
use crate::cipher::lemma_xor_keystream_involution;
use crate::key_schedule::APPLICATION_SECRET_LABEL;
use crate::key_schedule::application_secret;
use crate::key_schedule::application_secret_preimage;
use crate::key_schedule::next_secret;
use crate::key_schedule::sha256;
use crate::roster::is_not;
use crate::roster::is_not_in;
use crate::roster::lemma_apply_changes;
use crate::roster::lemma_filter_membership;
use crate::roster::lemma_filter_no_duplicates;
use crate::roster::lemma_with_one_no_duplicates;
use crate::roster::with_all;
use crate::roster::without;
use crate::roster::without_all;
use crate::state::GroupView;
use vstd::bytes::spec_u64_from_le_bytes;
use vstd::bytes::spec_u64_to_le_bytes;
use vstd::prelude::*;
use vstd::utf8::encode_utf8;

verus! {

/// Importing what a group exports restores the group in every field.
pub proof fn lemma_import_inverts_export(group: GroupView)
    requires
        group.wf(),
    ensures
        GroupView::imported(group.exported()) == Some(group),
{
}

/// Every transition moves the epoch exactly one up.
pub proof fn lemma_transitions_count_epochs(
    group: GroupView,
    id: Seq<char>,
    commit: CommitView,
)
    requires
        group.can_advance(),
    ensures
        group.with_member_added(id).epoch == group.epoch + 1,
        group.with_member_removed(id).epoch == group.epoch + 1,
        group.rekeyed().epoch == group.epoch + 1,
        group.with_commit_applied(commit).epoch == group.epoch + 1,
{
}

/// Every transition keeps the group well formed: adding an identity that is
/// no member, removing one, a key update, and applying a commit all leave a
/// member list without duplicates and an application secret that matches
/// the new group secret and epoch.
pub proof fn lemma_transitions_preserve_wf(group: GroupView, id: Seq<char>, commit: CommitView)
    requires
        group.wf(),
    ensures
        !group.members.contains(id) ==> group.with_member_added(id).wf(),
        group.with_member_removed(id).wf(),
        group.rekeyed().wf(),
        group.with_commit_applied(commit).wf(),
{
    if !group.members.contains(id) {
        lemma_with_one_no_duplicates(group.members, id);
    }
    lemma_filter_no_duplicates(group.members, is_not(id));
    lemma_apply_changes(group.members, commit.removed_members, commit.added_members);
}

/// Who is a member after a removal: everyone who was, but the one removed.
pub proof fn lemma_removed_member_is_gone(group: GroupView, id: Seq<char>, other: Seq<char>)
    ensures
        !group.with_member_removed(id).members.contains(id),
        group.with_member_removed(id).members.contains(other) <==> group.members.contains(other)
            && other != id,
{
    lemma_filter_membership(group.members, is_not(id), id);
    lemma_filter_membership(group.members, is_not(id), other);
}

/// Who is a member after a commit: everyone who was and is not removed, and
/// everyone the commit adds.
pub proof fn lemma_commit_membership(group: GroupView, commit: CommitView, id: Seq<char>)
    requires
        group.wf(),
    ensures
        group.with_commit_applied(commit).members.contains(id) <==> (group.members.contains(id)
            && !commit.removed_members.contains(id)) || commit.added_members.contains(id),
{
    lemma_apply_changes(group.members, commit.removed_members, commit.added_members);
}

/// A member who joins from the Welcome of an addition holds the group
/// exactly as the member who issued it does, application secret included.
pub proof fn lemma_welcome_synchronizes(group: GroupView, id: Seq<char>)
    ensures
        GroupView::joined(group.with_member_added(id).welcome()) == group.with_member_added(id),
{
}

/// Two predicates that agree on every element filter alike.
proof fn lemma_filter_agree(
    s: Seq<Seq<char>>,
    p: spec_fn(Seq<char>) -> bool,
    q: spec_fn(Seq<char>) -> bool,
)
    requires
        forall|x: Seq<char>| #[trigger] p(x) == q(x),
    ensures
        s.filter(p) == s.filter(q),
    decreases s.len(),
{
    reveal(Seq::filter);
    if s.len() > 0 {
        lemma_filter_agree(s.drop_last(), p, q);
    }
}

/// A member who applies the Commit of a removal or of a key update arrives
/// at the state of the member who issued it, provided both held the same
/// state before.
pub proof fn lemma_commit_synchronizes(group: GroupView, id: Seq<char>)
    requires
        group.can_advance(),
    ensures
        group.accepts(group.with_member_removed(id).commit(seq![id])),
        group.with_commit_applied(group.with_member_removed(id).commit(seq![id]))
            == group.with_member_removed(id),
        group.accepts(group.rekeyed().commit(Seq::empty())),
        group.with_commit_applied(group.rekeyed().commit(Seq::empty())) == group.rekeyed(),
{
    let none = Seq::<Seq<char>>::empty();
    assert(with_all(without_all(group.members, seq![id]), none) == without(group.members, id))
        by {
        assert forall|x: Seq<char>| #[trigger] is_not_in(seq![id])(x) == is_not(id)(x) by {
            if x == id {
                assert(seq![id][0] == x);
            }
        }
        lemma_filter_agree(group.members, is_not_in(seq![id]), is_not(id));
    }
    assert(with_all(without_all(group.members, none), none) == group.members) by {
        assert forall|x: Seq<char>| #[trigger] is_not_in(none)(x) by {}
        lemma_filter_true(group.members, is_not_in(none));
    }
}

/// A filter that every value passes changes nothing.
proof fn lemma_filter_true(s: Seq<Seq<char>>, p: spec_fn(Seq<char>) -> bool)
    requires
        forall|x: Seq<char>| #[trigger] p(x),
    ensures
        s.filter(p) == s,
    decreases s.len(),
{
    reveal(Seq::filter);
    if s.len() > 0 {
        lemma_filter_true(s.drop_last(), p);
        assert(s.drop_last().push(s.last()) =~= s);
    }
}

/// What a member seals, every holder of the same state opens again: the
/// sender, the text, and the epoch come back as they went in.
pub proof fn lemma_open_inverts_seal(group: GroupView, plaintext: Seq<char>, sender: Seq<char>)
    requires
        group.members.contains(sender),
    ensures
        group.opened(group.sealed(plaintext, sender)) == Some((sender, plaintext, group.epoch)),
{
    lemma_xor_keystream_involution(encode_utf8(plaintext), group.application_secret);
    vstd::utf8::encode_utf8_valid_utf8(plaintext);
    vstd::utf8::encode_utf8_decode_utf8(plaintext);
}

/// Two distinct inputs with the same SHA-256 digest.
pub open spec fn sha256_collision(a: Seq<u8>, b: Seq<u8>) -> bool {
    a != b && sha256(a) == sha256(b)
}

/// Two group secrets give the same application secret at an epoch only if
/// they are the same secret, or the two inputs to SHA-256 collide.
pub proof fn lemma_application_secret_binds_group_secret(a: Seq<u8>, b: Seq<u8>, epoch: u64)
    requires
        application_secret(a, epoch) == application_secret(b, epoch),
    ensures
        a == b || sha256_collision(
            application_secret_preimage(a, epoch),
            application_secret_preimage(b, epoch),
        ),
{
    let pa = application_secret_preimage(a, epoch);
    let pb = application_secret_preimage(b, epoch);
    if pa == pb {
        let tail = encode_utf8(APPLICATION_SECRET_LABEL@)
            + spec_u64_to_le_bytes(epoch);
        assert(pa =~= a + tail);
        assert(pb =~= b + tail);
        assert(a.len() == b.len());
        assert forall|i: int| 0 <= i < a.len() implies a[i] == b[i] by {
            assert((a + tail)[i] == (b + tail)[i]);
        }
        assert(a =~= b);
    }
}

/// One group secret gives the same application secret at two epochs only if
/// the epochs are the same, or the two inputs to SHA-256 collide.
pub proof fn lemma_application_secret_binds_epoch(secret: Seq<u8>, first: u64, second: u64)
    requires
        application_secret(secret, first) == application_secret(secret, second),
    ensures
        first == second || sha256_collision(
            application_secret_preimage(secret, first),
            application_secret_preimage(secret, second),
        ),
{
    let pa = application_secret_preimage(secret, first);
    let pb = application_secret_preimage(secret, second);
    if pa == pb {
        let head = secret + encode_utf8(APPLICATION_SECRET_LABEL@);
        let ea = spec_u64_to_le_bytes(first);
        let eb = spec_u64_to_le_bytes(second);
        vstd::bytes::lemma_auto_spec_u64_to_from_le_bytes();
        assert(ea.len() == 8 && eb.len() == 8);
        assert forall|i: int| 0 <= i < 8 implies ea[i] == eb[i] by {
            assert((head + ea)[head.len() + i] == (head + eb)[head.len() + i]);
        }
        assert(ea =~= eb);
        assert(spec_u64_from_le_bytes(ea) == first);
        assert(spec_u64_from_le_bytes(eb) == second);
    }
}

/// After a removal the group secret is the next one in the chain, and the
/// new application secret cannot be had from the old group secret: deriving
/// at the new epoch from the old secret gives the new application secret
/// only if the chain stood still at the old secret, or SHA-256 collides.
pub proof fn lemma_removal_moves_secrets(group: GroupView, id: Seq<char>)
    ensures
        group.with_member_removed(id).group_secret == next_secret(group.group_secret),
        application_secret(group.group_secret, group.with_member_removed(id).epoch)
            == group.with_member_removed(id).application_secret ==> group.group_secret
            == next_secret(group.group_secret) || sha256_collision(
            application_secret_preimage(group.group_secret, group.with_member_removed(id).epoch),
            application_secret_preimage(
                next_secret(group.group_secret),
                group.with_member_removed(id).epoch,
            ),
        ),
{
    let after = group.with_member_removed(id);
    if application_secret(group.group_secret, after.epoch) == after.application_secret {
        lemma_application_secret_binds_group_secret(
            group.group_secret,
            next_secret(group.group_secret),
            after.epoch,
        );
    }
}

} // verus!
