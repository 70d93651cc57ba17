use sha2::Digest;
use tfserver::data_cipher::{CipherError, DataCipher, EncryptionType};

const ALL: [EncryptionType; 4] = [
    EncryptionType::Aes256Cbc,
    EncryptionType::Aes256Ctr,
    EncryptionType::Aes128Ctr,
    EncryptionType::Aes128Cbc,
];

fn openssl_cipher(t: EncryptionType) -> openssl::symm::Cipher {
    match t {
        EncryptionType::Aes256Cbc => openssl::symm::Cipher::aes_256_cbc(),
        EncryptionType::Aes256Ctr => openssl::symm::Cipher::aes_256_ctr(),
        EncryptionType::Aes128Cbc => openssl::symm::Cipher::aes_128_cbc(),
        EncryptionType::Aes128Ctr => openssl::symm::Cipher::aes_128_ctr(),
    }
}

#[test]
fn buffer_sizes() {
    let cbc = DataCipher::new_init(EncryptionType::Aes256Cbc, "secret".to_string());
    assert_eq!(cbc.block_size(), 16);
    assert_eq!(cbc.required_buffer_size(0), 16);
    assert_eq!(cbc.required_buffer_size(16), 32);
    assert_eq!(cbc.required_buffer_size(17), 33);
    let ctr = DataCipher::new_init(EncryptionType::Aes128Ctr, "secret".to_string());
    assert_eq!(ctr.required_buffer_size(17), 17);
    assert_eq!(ctr.block_size(), 1);

    let input = [7u8; 16];
    let mut output = vec![0u8; cbc.required_buffer_size(input.len())];
    let n = cbc.encrypt_block(&input, &mut output, &[3u8; 16]).ok().unwrap();
    assert_eq!(n, 32);
}

#[test]
fn encryption_matches_openssl_with_the_digest_key() {
    let pass = "pass phrase";
    let key = sha2::Sha256::digest(pass.as_bytes()).to_vec();
    let iv = [7u8; 16];
    let input = b"some traffic to hide".to_vec();
    for t in ALL {
        let cipher = DataCipher::new_init(t, pass.to_string());
        let c = openssl_cipher(t);
        let expected = openssl::symm::encrypt(c, &key[..c.key_len()], Some(&iv), &input).unwrap();
        let mut output = vec![0u8; input.len() + 16];
        let n = cipher.encrypt_block(&input, &mut output, &iv).ok().unwrap();
        assert_eq!(&output[..n], &expected[..]);
        assert_ne!(&output[..n], &input[..]);

        let mut plain = vec![0u8; n + 16];
        let m = cipher.decrypt_block(&output[..n], &mut plain, &iv).ok().unwrap();
        assert_eq!(&plain[..m], &input[..]);
    }
}

#[test]
fn short_iv_is_refused() {
    let cipher = DataCipher::new_init(EncryptionType::Aes256Cbc, "k".to_string());
    let mut output = vec![0u8; 64];
    assert!(matches!(cipher.encrypt_block(b"abc", &mut output, &[1u8; 8]), Err(CipherError::IvTooShort)));
    assert_eq!(output, vec![0u8; 64]);
}

#[test]
fn partial_block_is_refused_by_openssl() {
    let cipher = DataCipher::new_init(EncryptionType::Aes128Cbc, "k".to_string());
    let mut output = vec![9u8; 64];
    let partial = [5u8; 5];
    assert!(matches!(cipher.decrypt_block(&partial, &mut output, &[0u8; 16]), Err(CipherError::Openssl(_))));
    assert_eq!(output, vec![9u8; 64]);
}

#[test]
fn key_and_iv_checks() {
    let cipher = DataCipher::new_init(EncryptionType::Aes128Cbc, "k".to_string());
    assert!(cipher.key_fits());
    assert!(cipher.iv_fits(&[0u8; 16]));
    assert!(cipher.iv_fits(&[0u8; 40]));
    assert!(!cipher.iv_fits(&[0u8; 15]));
    let mut small = vec![0u8; 2];
    assert!(matches!(cipher.encrypt_block(b"abcdef", &mut small, &[1u8; 3]), Err(CipherError::IvTooShort)));
}

#[test]
fn cipher_error_texts() {
    let cipher = DataCipher::new_init(EncryptionType::Aes128Ctr, "k".to_string());
    let mut out = [0u8; 3];
    match cipher.encrypt_block(&[1, 2, 3], &mut out, &[0u8; 8]) {
        Err(e) => assert_eq!(e.to_string(), "IV is too short for the selected cipher"),
        Ok(_) => panic!("a short IV was accepted"),
    }
    assert_eq!(out, [0, 0, 0]);
    assert_eq!(CipherError::KeyTooShort.to_string(), "Key is too short for the selected cipher");

    let ctr = DataCipher::new_init(EncryptionType::Aes256Ctr, "k".to_string());
    let input = [5u8; 21];
    let mut exact = [0u8; 21];
    let n = ctr.encrypt_block(&input, &mut exact, &[9u8; 16]).ok().unwrap();
    assert_eq!(n, 21);
    let mut back = [0u8; 21];
    assert_eq!(ctr.decrypt_block(&exact, &mut back, &[9u8; 16]).ok().unwrap(), 21);
    assert_eq!(back, input);
}
