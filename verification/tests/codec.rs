use batoulab::codec::{decrypt, decrypt_once, encrypt, encrypt_once, encrypt_with_nonce, erase_key, Envelope};
use batoulab::error::VaultError;

const KEY: [u8; 32] = [0x11; 32];

fn sealed_hello() -> Envelope {
    encrypt_with_nonce(&KEY, &[0x22; 24], b"hello").unwrap()
}

#[test]
fn seal_matches_known_answer() {
    let e = sealed_hello();
    assert_eq!(e.nonce, vec![0x22; 24]);
    assert_eq!(
        e.ciphertext,
        vec![235, 2, 139, 96, 51, 14, 126, 186, 150, 76, 187, 2, 243, 190, 211, 167, 124, 251, 191, 196, 60]
    );
}

#[test]
fn open_matches_known_answer() {
    let e = Envelope {
        nonce: vec![0x22; 24],
        ciphertext: vec![235, 2, 139, 96, 51, 14, 126, 186, 150, 76, 187, 2, 243, 190, 211, 167, 124, 251, 191, 196, 60],
    };
    assert_eq!(decrypt(&KEY, &e), Ok(b"hello".to_vec()));
}

#[test]
fn decrypt_inverts_encrypt() {
    let payloads: Vec<Vec<u8>> = vec![vec![], vec![0], b"hello".to_vec(), vec![0xff; 1000], (0..=255).collect()];
    let keys: Vec<[u8; 32]> = vec![[0; 32], [0x11; 32], [0xff; 32]];
    for k in &keys {
        for p in &payloads {
            let e = encrypt(k, p).unwrap();
            assert_eq!(e.nonce.len(), 24);
            assert_eq!(e.ciphertext.len(), p.len() + 16);
            assert_eq!(decrypt(k, &e), Ok(p.clone()));
        }
    }
}

#[test]
fn nonces_are_fresh() {
    let a = encrypt(&KEY, b"same").unwrap();
    let b = encrypt(&KEY, b"same").unwrap();
    assert_ne!(a.nonce, b.nonce);
    assert_ne!(a.ciphertext, b.ciphertext);
    assert_ne!(a.nonce, vec![0u8; 24]);
}

#[test]
fn every_flipped_nonce_bit_is_refused() {
    let e = sealed_hello();
    for i in 0..e.nonce.len() {
        for bit in 0..8 {
            let mut nonce = e.nonce.clone();
            nonce[i] ^= 1 << bit;
            let tampered = Envelope { nonce, ciphertext: e.ciphertext.clone() };
            assert_eq!(decrypt(&KEY, &tampered), Err(VaultError::CryptoError));
        }
    }
}

#[test]
fn every_flipped_ciphertext_bit_is_refused() {
    let e = sealed_hello();
    for i in 0..e.ciphertext.len() {
        for bit in 0..8 {
            let mut ciphertext = e.ciphertext.clone();
            ciphertext[i] ^= 1 << bit;
            let tampered = Envelope { nonce: e.nonce.clone(), ciphertext };
            assert_eq!(decrypt(&KEY, &tampered), Err(VaultError::CryptoError));
        }
    }
}

#[test]
fn wrong_key_is_refused() {
    let e = sealed_hello();
    assert_eq!(decrypt(&[0x12; 32], &e), Err(VaultError::CryptoError));
}

#[test]
fn truncated_input_is_refused() {
    let e = sealed_hello();
    for n in 0..e.ciphertext.len() {
        let cut = Envelope { nonce: e.nonce.clone(), ciphertext: e.ciphertext[..n].to_vec() };
        assert_eq!(decrypt(&KEY, &cut), Err(VaultError::CryptoError));
    }
    for n in 0..24 {
        let cut = Envelope { nonce: e.nonce[..n].to_vec(), ciphertext: e.ciphertext.clone() };
        assert_eq!(decrypt(&KEY, &cut), Err(VaultError::CryptoError));
    }
    let long = Envelope { nonce: vec![0x22; 25], ciphertext: e.ciphertext.clone() };
    assert_eq!(decrypt(&KEY, &long), Err(VaultError::CryptoError));
}

#[test]
fn a_key_used_once_is_overwritten() {
    let mut key = KEY;
    let e = encrypt_once(&mut key, b"hello").unwrap();
    assert_eq!(key, [0u8; 32]);
    assert_eq!(decrypt(&KEY, &e), Ok(b"hello".to_vec()));

    let mut key = KEY;
    assert_eq!(decrypt_once(&mut key, &e), Ok(b"hello".to_vec()));
    assert_eq!(key, [0u8; 32]);

    let mut wrong = [0x12u8; 32];
    assert_eq!(decrypt_once(&mut wrong, &e), Err(VaultError::CryptoError));
    assert_eq!(wrong, [0u8; 32]);

    let mut key = [0xffu8; 32];
    erase_key(&mut key);
    assert_eq!(key, [0u8; 32]);
}
