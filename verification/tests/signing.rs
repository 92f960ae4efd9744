use cryptoserver::{
    compute_hmac, select_secret, sign, Mode, Secret, SecretFile, SecretLocation, SecretReadError,
    SigningError, MAX_PAYLOAD_LEN,
};

const HELLO_UNDER_ELEVENS: [u8; 32] = [
    122, 254, 15, 120, 108, 46, 22, 183, 185, 29, 150, 59, 37, 17, 73, 99, 159, 91, 222, 192, 27,
    7, 36, 208, 81, 5, 64, 156, 175, 124, 216, 7,
];

const HELLO_UNDER_ZEROS: [u8; 32] = [
    67, 82, 178, 110, 51, 254, 13, 118, 154, 137, 34, 166, 186, 41, 0, 65, 9, 240, 22, 136, 226,
    106, 204, 158, 108, 179, 71, 229, 165, 175, 196, 218,
];

const PAYLOAD_UNDER_COUNT: [u8; 32] = [
    104, 2, 81, 17, 132, 101, 14, 7, 58, 11, 225, 157, 80, 146, 157, 108, 149, 31, 6, 11, 220,
    166, 196, 30, 3, 127, 56, 241, 60, 2, 88, 129,
];

const EMPTY_UNDER_ELEVENS: [u8; 32] = [
    2, 194, 202, 228, 95, 130, 206, 75, 118, 204, 117, 161, 139, 154, 240, 214, 126, 201, 178,
    234, 225, 105, 93, 4, 128, 243, 66, 37, 51, 187, 6, 210,
];

fn counting_key() -> [u8; 32] {
    let mut key = [0u8; 32];
    for (i, byte) in key.iter_mut().enumerate() {
        *byte = i as u8;
    }
    key
}

#[test]
fn hmac_of_hello_under_a_known_secret() {
    let mut secret = Secret::new([0x11; 32]);
    assert_eq!(compute_hmac(&mut secret, b"hello"), HELLO_UNDER_ELEVENS);
}

#[test]
fn hmac_of_other_inputs() {
    let mut secret = Secret::new(counting_key());
    assert_eq!(compute_hmac(&mut secret, b"payload"), PAYLOAD_UNDER_COUNT);
    let mut secret = Secret::new([0x11; 32]);
    assert_eq!(compute_hmac(&mut secret, b""), EMPTY_UNDER_ELEVENS);
}

#[test]
fn hmac_depends_on_secret_and_message() {
    let mut elevens = Secret::new([0x11; 32]);
    let mut zeros = Secret::new([0; 32]);
    assert_ne!(compute_hmac(&mut elevens, b"hello"), compute_hmac(&mut zeros, b"hello"));
    let mut first = Secret::new([0x11; 32]);
    let mut second = Secret::new([0x11; 32]);
    assert_ne!(compute_hmac(&mut first, b"hello"), compute_hmac(&mut second, b"hellp"));
}

#[test]
fn signing_twice_gives_the_same_digest() {
    let mut first = Secret::new([0x11; 32]);
    let mut second = Secret::new([0x11; 32]);
    assert_eq!(compute_hmac(&mut first, b"hello"), compute_hmac(&mut second, b"hello"));
}

#[test]
fn signing_erases_the_secret() {
    let mut secret = Secret::new([0x11; 32]);
    assert_eq!(compute_hmac(&mut secret, b"hello"), HELLO_UNDER_ELEVENS);
    assert_eq!(compute_hmac(&mut secret, b"hello"), HELLO_UNDER_ZEROS);
}

#[test]
fn erased_secret_is_all_zeros() {
    let mut secret = Secret::new(counting_key());
    secret.erase();
    assert_eq!(compute_hmac(&mut secret, b"hello"), HELLO_UNDER_ZEROS);
}

#[test]
fn secret_from_a_full_read() {
    let bytes = counting_key();
    let mut secret = Secret::from_read(&bytes).ok().expect("32 bytes are a secret");
    assert_eq!(compute_hmac(&mut secret, b"payload"), PAYLOAD_UNDER_COUNT);
}

#[test]
fn secret_from_a_longer_read_is_its_first_32_bytes() {
    let mut bytes = counting_key().to_vec();
    bytes.extend_from_slice(&[0xaa; 8]);
    let mut secret = Secret::from_read(&bytes).ok().expect("40 bytes hold a secret");
    assert_eq!(compute_hmac(&mut secret, b"payload"), PAYLOAD_UNDER_COUNT);
}

#[test]
fn secret_from_a_short_read_is_truncated() {
    assert_eq!(Secret::from_read(&[0x11; 31]).err(), Some(SecretReadError::Truncated));
    assert_eq!(Secret::from_read(&[]).err(), Some(SecretReadError::Truncated));
}

#[test]
fn sign_with_a_secret_that_was_read() {
    let outcome = sign(b"hello", Ok(Secret::new([0x11; 32])));
    assert_eq!(outcome, Ok(HELLO_UNDER_ELEVENS));
}

#[test]
fn sign_wraps_the_read_error() {
    assert_eq!(
        sign(b"hello", Err(SecretReadError::Missing)),
        Err(SigningError::SecretRead(SecretReadError::Missing))
    );
    assert_eq!(
        sign(b"hello", Err(SecretReadError::Unreadable)),
        Err(SigningError::SecretRead(SecretReadError::Unreadable))
    );
    assert_eq!(
        sign(b"hello", Err(SecretReadError::Truncated)),
        Err(SigningError::SecretRead(SecretReadError::Truncated))
    );
}

#[test]
fn payload_selects_its_secret() {
    assert_eq!(
        select_secret(Mode::Mode0, b"hello"),
        SecretLocation { file: SecretFile::Single, offset: 0 }
    );
    assert_eq!(
        select_secret(Mode::Mode16, b"hello"),
        SecretLocation { file: SecretFile::Keyspace, offset: 0x748a * 32 }
    );
    assert_eq!(
        select_secret(Mode::Mode32, b"hello"),
        SecretLocation { file: SecretFile::Shard(0xc859), offset: 0x748a * 32 }
    );
    assert_eq!(
        select_secret(Mode::Mode32, b""),
        SecretLocation { file: SecretFile::Shard(0x0232), offset: 0x6d44 * 32 }
    );
}

#[test]
fn longest_payload() {
    assert_eq!(MAX_PAYLOAD_LEN, (1u64 << 61) - 65);
    // One block of 64 bytes and the longest payload are just under 2^64 bits.
    assert_eq!((64 + MAX_PAYLOAD_LEN as u128) * 8, (1u128 << 64) - 8);
}
