use lilnas_server_ui::hasher::{digest, hash, COST, DIGEST_LEN, DIGEST_TEXT_LEN, SALT};
use lilnas_server_ui::login::LoginInfo;

fn encode(bytes: &[u8]) -> String {
    LoginInfo::new(String::new(), bytes).digest().to_string()
}

#[test]
fn encode_is_standard_base64_with_padding() {
    assert_eq!(encode(b""), "");
    assert_eq!(encode(b"f"), "Zg==");
    assert_eq!(encode(b"fo"), "Zm8=");
    assert_eq!(encode(b"foo"), "Zm9v");
    assert_eq!(encode(b"foob"), "Zm9vYg==");
    assert_eq!(encode(b"hello world"), "aGVsbG8gd29ybGQ=");
    assert_eq!(encode(&[0xfb, 0xff]), "+/8=");
}

#[test]
fn encode_has_four_characters_for_three_bytes() {
    for n in 0usize..40 {
        let bytes = vec![0xa5u8; n];
        assert_eq!(encode(&bytes).len(), 4 * ((n + 2) / 3));
    }
}

#[test]
fn hash_is_deterministic_and_24_bytes() {
    let a = hash(b"correct-password-123");
    let b = hash(b"correct-password-123");
    assert_eq!(a.len(), DIGEST_LEN);
    assert_eq!(a, b);
    assert_ne!(&a[..], &b"correct-password-123"[..]);
}

#[test]
fn hash_is_bcrypt_with_the_fixed_salt_and_cost() {
    assert_eq!(COST, 12);
    assert_eq!(SALT.len(), 16);
    assert_eq!(hash(b"correct-password-123"), bcrypt::bcrypt(COST, SALT, b"correct-password-123"));
}

#[test]
fn hash_tells_secrets_apart() {
    assert_ne!(hash(b"correct-password-123"), hash(b"correct-password-124"));
}

#[test]
fn hash_takes_the_shortest_and_the_longest_secret() {
    assert_eq!(hash(b"x").len(), DIGEST_LEN);
    assert_eq!(hash(&[b'x'; 72]).len(), DIGEST_LEN);
}

#[test]
fn digest_is_the_encoded_hash() {
    let text = digest("correct-password-123");
    assert_eq!(text.len(), DIGEST_TEXT_LEN);
    assert_eq!(text, encode(&hash(b"correct-password-123")));
    assert_eq!(text, base64::encode(bcrypt::bcrypt(12, SALT, b"correct-password-123")));
    assert_ne!(text, "correct-password-123");
}

#[test]
fn digest_of_a_secret_of_32_characters_is_not_the_secret() {
    let secret = "0123456789abcdef0123456789abcdef";
    assert_eq!(secret.len(), DIGEST_TEXT_LEN);
    assert_ne!(digest(secret), secret);
}
