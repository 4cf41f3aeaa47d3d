use openchat_native::artifacts::EncryptedMessage;
use openchat_native::error::MarmotError;
use openchat_native::group::MlsGroup;

fn group_of_two() -> MlsGroup {
    let secret: Vec<u8> = (0u8..32).collect();
    let mut group = MlsGroup::create_with_secrets("Test", "A", vec![7u8; 32], secret);
    group.update_keys().unwrap();
    group
}

fn epoch_zero_group() -> MlsGroup {
    let secret: Vec<u8> = (0u8..32).collect();
    MlsGroup::create_with_secrets("Test", "A", vec![7u8; 32], secret)
}

#[test]
fn encrypt_xors_the_text_with_the_application_secret() {
    let mut group = epoch_zero_group();
    let message = group.encrypt_message("hi é", "A").unwrap();
    assert_eq!(message.sender_public_key, "A");
    assert_eq!(message.epoch, 0);
    assert_eq!(message.ciphertext, vec![220, 62, 193, 205, 144]);
}

#[test]
fn decrypt_returns_what_encrypt_was_given() {
    let mut group = group_of_two();
    for text in ["", "hello", "hi é", "\u{1F600} and more", "line\nbreak\0nul"] {
        let message = group.encrypt_message(text, "A").unwrap();
        let (sender, plaintext, epoch) = group.decrypt_message(&message).unwrap();
        assert_eq!(sender, "A");
        assert_eq!(plaintext, text);
        assert_eq!(epoch, group.epoch());
    }
}

#[test]
fn long_text_wraps_around_the_secret() {
    let mut group = group_of_two();
    let text = "0123456789".repeat(20);
    let message = group.encrypt_message(&text, "A").unwrap();
    assert_eq!(message.ciphertext.len(), 200);
    assert_ne!(message.ciphertext, text.as_bytes());
    let key: Vec<u8> = group.export_state().application_secret;
    for (i, byte) in message.ciphertext.iter().enumerate() {
        assert_eq!(*byte, text.as_bytes()[i] ^ key[i % 32]);
    }
    let (_, plaintext, _) = group.decrypt_message(&message).unwrap();
    assert_eq!(plaintext, text);
}

#[test]
fn another_member_with_the_same_state_decrypts() {
    let mut a = MlsGroup::create("Test", "A").unwrap();
    let welcome = a.add_member("B").unwrap();
    let mut b = MlsGroup::from_welcome(&welcome, "B").unwrap();
    let message = a.encrypt_message("to B", "A").unwrap();
    assert_eq!(
        b.decrypt_message(&message).unwrap(),
        (String::from("A"), String::from("to B"), 1)
    );
    let reply = b.encrypt_message("to A", "B").unwrap();
    assert_eq!(
        a.decrypt_message(&reply).unwrap(),
        (String::from("B"), String::from("to A"), 1)
    );
}

#[test]
fn encrypt_refuses_a_sender_outside_the_group() {
    let mut group = group_of_two();
    let before = group.export_state();
    assert!(matches!(
        group.encrypt_message("hello", "Z"),
        Err(MarmotError::NotMember)
    ));
    let after = group.export_state();
    assert_eq!(after.epoch, before.epoch);
    assert_eq!(after.members, before.members);
    assert_eq!(after.application_secret, before.application_secret);
}

#[test]
fn decrypt_refuses_a_sender_outside_the_group() {
    let mut group = group_of_two();
    let mut message = group.encrypt_message("hello", "A").unwrap();
    message.sender_public_key = String::from("Z");
    assert!(matches!(
        group.decrypt_message(&message),
        Err(MarmotError::NotMember)
    ));
}

#[test]
fn decrypt_refuses_a_removed_sender() {
    let mut group = group_of_two();
    group.add_member("B").unwrap();
    let message = group.encrypt_message("hello", "B").unwrap();
    group.remove_member("B").unwrap();
    assert!(matches!(
        group.decrypt_message(&message),
        Err(MarmotError::NotMember)
    ));
}

#[test]
fn messaging_does_not_change_the_group() {
    let mut group = group_of_two();
    let before = group.export_state();
    let message = group.encrypt_message("hello", "A").unwrap();
    group.decrypt_message(&message).unwrap();
    let after = group.export_state();
    assert_eq!(after.group_id, before.group_id);
    assert_eq!(after.name, before.name);
    assert_eq!(after.epoch, before.epoch);
    assert_eq!(after.members, before.members);
    assert_eq!(after.group_secret, before.group_secret);
    assert_eq!(after.application_secret, before.application_secret);
}

#[test]
fn decrypt_reports_the_epoch_on_the_envelope() {
    let mut group = group_of_two();
    let mut message = group.encrypt_message("hello", "A").unwrap();
    message.epoch = 77;
    let (_, plaintext, epoch) = group.decrypt_message(&message).unwrap();
    assert_eq!(plaintext, "hello");
    assert_eq!(epoch, 77);
}

#[test]
fn a_message_from_an_earlier_epoch_does_not_come_out_as_sent() {
    let mut group = group_of_two();
    let message = group.encrypt_message("a text long enough to notice", "A").unwrap();
    group.update_keys().unwrap();
    match group.decrypt_message(&message) {
        Ok((_, plaintext, _)) => assert_ne!(plaintext, "a text long enough to notice"),
        Err(MarmotError::SerializationError(_)) => {}
        Err(other) => panic!("unexpected error: {:?}", other),
    }
}

#[test]
fn decrypt_refuses_bytes_that_are_not_text() {
    let mut group = group_of_two();
    let key = group.export_state().application_secret;
    let message = EncryptedMessage {
        sender_public_key: String::from("A"),
        epoch: 1,
        ciphertext: vec![0xff ^ key[0], 0xfe ^ key[1]],
    };
    match group.decrypt_message(&message) {
        Err(MarmotError::SerializationError(detail)) => assert!(!detail.is_empty()),
        other => panic!("unexpected outcome: {:?}", other),
    }
}
