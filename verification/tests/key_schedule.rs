use openchat_native::cipher::apply_keystream;
use openchat_native::entropy::delivered;
use openchat_native::entropy::random_bytes;
use openchat_native::key_schedule::derive_application_secret;
use openchat_native::key_schedule::derive_next_secret;
use openchat_native::key_schedule::SECRET_LEN;

fn counting_secret() -> Vec<u8> {
    (0u8..32).collect()
}

#[test]
fn next_secret_is_sha256_of_secret_and_label() {
    let next = derive_next_secret(&counting_secret());
    assert_eq!(
        next,
        vec![
            144, 207, 146, 173, 192, 252, 223, 19, 93, 202, 193, 65, 216, 124, 0, 66, 37, 76, 230,
            247, 168, 100, 79, 110, 35, 78, 242, 96, 102, 248, 146, 206
        ]
    );
}

#[test]
fn next_secret_of_empty_secret_hashes_the_label_alone() {
    let next = derive_next_secret(&[]);
    assert_eq!(
        next,
        vec![
            10, 20, 128, 81, 108, 25, 231, 131, 127, 205, 234, 159, 194, 224, 107, 167, 133, 230,
            253, 161, 231, 93, 26, 228, 214, 86, 114, 161, 192, 142, 224, 240
        ]
    );
}

#[test]
fn application_secret_at_epoch_zero() {
    let secret = derive_application_secret(&counting_secret(), 0);
    assert_eq!(
        secret,
        vec![
            180, 87, 225, 14, 57, 39, 210, 62, 244, 117, 159, 229, 204, 167, 209, 8, 103, 41, 109,
            148, 234, 190, 206, 248, 52, 92, 156, 252, 236, 171, 57, 147
        ]
    );
}

#[test]
fn application_secret_binds_the_epoch_little_endian() {
    let at_one = derive_application_secret(&counting_secret(), 1);
    assert_eq!(
        at_one,
        vec![
            210, 135, 182, 249, 8, 181, 42, 220, 226, 197, 37, 173, 84, 94, 184, 114, 130, 150,
            156, 41, 202, 59, 250, 1, 180, 177, 149, 190, 135, 205, 157, 110
        ]
    );
    let at_258 = derive_application_secret(&counting_secret(), 258);
    assert_eq!(
        at_258,
        vec![
            6, 143, 130, 176, 184, 169, 243, 157, 134, 240, 72, 220, 8, 104, 223, 12, 56, 61, 56,
            243, 193, 50, 224, 119, 110, 30, 35, 226, 207, 11, 19, 91
        ]
    );
}

#[test]
fn derivations_are_deterministic_and_32_bytes_long() {
    let secret = counting_secret();
    assert_eq!(derive_next_secret(&secret), derive_next_secret(&secret));
    assert_eq!(
        derive_application_secret(&secret, 7),
        derive_application_secret(&secret, 7)
    );
    assert_eq!(derive_next_secret(&secret).len(), SECRET_LEN);
    assert_eq!(derive_application_secret(&secret, 7).len(), SECRET_LEN);
    assert_eq!(SECRET_LEN, 32);
}

#[test]
fn the_two_derivations_are_kept_apart() {
    let secret = counting_secret();
    assert_ne!(derive_next_secret(&secret), derive_application_secret(&secret, 0));
    assert_ne!(derive_next_secret(&secret), secret);
}

#[test]
fn keystream_is_byte_wise_xor_with_repeating_key() {
    let out = apply_keystream(&[0x00, 0xff, 0x0f, 0xf0, 0x55], &[0x01, 0x02]);
    assert_eq!(out, vec![0x01, 0xfd, 0x0e, 0xf2, 0x54]);
}

#[test]
fn keystream_applied_twice_gives_the_data_back() {
    let data: Vec<u8> = (0u8..100).collect();
    let key = derive_application_secret(&counting_secret(), 3);
    let once = apply_keystream(&data, &key);
    assert_ne!(once, data);
    assert_eq!(apply_keystream(&once, &key), data);
}

#[test]
fn keystream_of_no_data_is_empty() {
    assert_eq!(apply_keystream(&[], &[9]), Vec::<u8>::new());
}

#[test]
fn random_bytes_have_the_length_asked_for() {
    assert_eq!(random_bytes(0).unwrap().len(), 0);
    assert_eq!(random_bytes(32).unwrap().len(), 32);
    assert_eq!(random_bytes(100).unwrap().len(), 100);
}

#[test]
fn random_bytes_are_drawn_afresh() {
    let first = random_bytes(32).unwrap();
    let second = random_bytes(32).unwrap();
    assert_ne!(first, second);
    assert_ne!(first, vec![0u8; 32]);
}

#[test]
fn asking_for_no_random_bytes_succeeds_with_none() {
    assert_eq!(random_bytes(0), Some(Vec::new()));
}

#[test]
fn a_delivered_draw_is_the_buffer() {
    assert_eq!(delivered(vec![1, 2, 3], Ok(())), Some(vec![1, 2, 3]));
    assert_eq!(delivered(vec![], Ok(())), Some(vec![]));
}

#[test]
fn a_failed_draw_is_nothing() {
    assert_eq!(delivered(vec![1, 2, 3], Err(rand::Error::new("source down"))), None);
    assert_eq!(delivered(vec![], Err(rand::Error::new("source down"))), None);
}
