use vanity_ssh::keypair::{generate_keypair_batch, KeyPair, BATCH_SIZE};

#[test]
fn public_key_is_deterministic_function_of_secret() {
    let secret = [7u8; 32];
    let a = KeyPair::from_secret(secret);
    let b = KeyPair::from_secret(secret);
    assert_eq!(a.secret_key, secret);
    assert_eq!(a.public_key, b.public_key);
}

#[test]
fn derived_public_key_agrees_with_signing_key_derivation() {
    let secret = [3u8; 32];
    let kp = KeyPair::from_secret(secret);
    let expected = ed25519_dalek::SigningKey::from_bytes(&secret)
        .verifying_key()
        .to_bytes();
    assert_eq!(kp.public_key, expected);
}

#[test]
fn distinct_secrets_give_distinct_public_keys() {
    let a = KeyPair::from_secret([0u8; 32]);
    let b = KeyPair::from_secret([1u8; 32]);
    assert_ne!(a.public_key, b.public_key);
}

#[test]
fn batch_has_requested_size_and_well_formed_pairs() {
    let batch = generate_keypair_batch(BATCH_SIZE);
    assert_eq!(batch.len(), BATCH_SIZE);
    for kp in &batch {
        let again = KeyPair::from_secret(kp.secret_key);
        assert_eq!(again.public_key, kp.public_key);
    }
}

#[test]
fn openssh_bytes_concatenate_secret_and_public() {
    let kp = KeyPair::from_secret([9u8; 32]);
    let bytes = kp.to_openssh_bytes();
    assert_eq!(bytes.len(), 64);
    assert_eq!(&bytes[..32], &kp.secret_key[..]);
    assert_eq!(&bytes[32..], &kp.public_key[..]);
}
