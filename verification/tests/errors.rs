use openchat_native::error::MarmotError;

#[test]
fn messages_name_the_kind_and_the_detail() {
    assert_eq!(
        MarmotError::InvalidKey(String::from("bad hex")).message(),
        "Invalid key format: bad hex"
    );
    assert_eq!(
        MarmotError::GroupNotFound(String::from("0707")).message(),
        "Group not found: 0707"
    );
    assert_eq!(
        MarmotError::MlsError(String::from("x")).message(),
        "MLS error: x"
    );
    assert_eq!(
        MarmotError::SerializationError(String::from("eof")).message(),
        "Serialization error: eof"
    );
    assert_eq!(
        MarmotError::CryptoError(String::from("rng")).message(),
        "Crypto error: rng"
    );
    assert_eq!(
        MarmotError::InvalidState(String::from("Group ID mismatch")).message(),
        "Invalid state: Group ID mismatch"
    );
    assert_eq!(
        MarmotError::MemberNotFound(String::from("Z")).message(),
        "Member not found: Z"
    );
    assert_eq!(
        MarmotError::Internal(String::from("oops")).message(),
        "Internal error: oops"
    );
}

#[test]
fn messages_without_detail_are_fixed() {
    assert_eq!(MarmotError::AlreadyMember.message(), "Already a member");
    assert_eq!(MarmotError::NotMember.message(), "Not a member of the group");
}

#[test]
fn empty_detail_leaves_the_phrase_alone() {
    assert_eq!(
        MarmotError::InvalidState(String::new()).message(),
        "Invalid state: "
    );
}

#[test]
fn errors_compare_by_kind_and_detail() {
    assert_eq!(MarmotError::NotMember, MarmotError::NotMember);
    assert_ne!(MarmotError::NotMember, MarmotError::AlreadyMember);
    assert_eq!(
        MarmotError::InvalidKey(String::from("a")),
        MarmotError::InvalidKey(String::from("a"))
    );
    assert_ne!(
        MarmotError::InvalidKey(String::from("a")),
        MarmotError::InvalidKey(String::from("b"))
    );
    assert_ne!(
        MarmotError::InvalidKey(String::from("a")),
        MarmotError::Internal(String::from("a"))
    );
}
