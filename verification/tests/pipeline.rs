use fcx::file::{FcxFile, FormatError};
use fcx::pipeline::{decrypt_from_container, encrypt_to_container};

#[test]
fn round_trip_for_assorted_plaintexts() {
    let plaintexts: Vec<Vec<u8>> = vec![
        Vec::new(),
        vec![0u8],
        b"hello world".to_vec(),
        vec![0xffu8; 1000],
        (0u16..256).map(|b| b as u8).collect(),
    ];
    for p in plaintexts {
        let f = encrypt_to_container(b"a pass phrase", 1, &p);
        let out = decrypt_from_container(&f, b"a pass phrase").expect("round trip");
        assert_eq!(out, p);
    }
}

#[test]
fn round_trip_survives_serialization() {
    let f = encrypt_to_container(b"pw", 7, b"payload");
    let g = FcxFile::parse(&f.to_bytes()).expect("serialized container parses");
    assert_eq!(g.rounds, 7);
    let out = decrypt_from_container(&g, b"pw").expect("round trip through bytes");
    assert_eq!(out, b"payload");
}

#[test]
fn wrong_password_is_rejected() {
    let f = encrypt_to_container(b"right", 1, b"hello world");
    assert!(decrypt_from_container(&f, b"wrong").is_err());
    assert!(decrypt_from_container(&f, b"").is_err());
    assert!(decrypt_from_container(&f, b"right ").is_err());
}

#[test]
fn every_body_bit_flip_is_caught() {
    let plain = b"hello world";
    let f = encrypt_to_container(b"pw", 1, plain);
    let b = f.to_bytes();
    let body = 42..(42 + plain.len() + 16);
    for i in body {
        for bit in 0..8 {
            let mut bad = b.clone();
            bad[i] ^= 1 << bit;
            match FcxFile::parse(&bad) {
                Err(FormatError::IntegrityFailure) => {}
                Err(e) => panic!("unexpected parse error {:?}", e),
                Ok(g) => {
                    // the checksum happened to collide: the tag must not
                    let out = decrypt_from_container(&g, b"pw");
                    assert!(out.is_err(), "a bit flip at byte {} bit {} went unnoticed", i, bit);
                }
            }
        }
    }
}

#[test]
fn salts_and_nonces_do_not_repeat() {
    let mut pairs: Vec<(Vec<u8>, Vec<u8>)> = Vec::with_capacity(10_000);
    for _ in 0..10_000 {
        let f = encrypt_to_container(b"same password", 1, b"same plaintext");
        pairs.push((f.salt.clone(), f.nonce.clone()));
    }
    pairs.sort();
    for w in pairs.windows(2) {
        assert_ne!(w[0], w[1], "a (salt, nonce) pair repeated");
    }
}

#[test]
fn documented_scenario_holds() {
    let f = encrypt_to_container(b"correct horse", 100_000, b"hello world");
    let b = f.to_bytes();
    assert!(b.len() >= 42 + 11 + 4);
    assert_eq!(&b[0..8], &[0x66, 0x63, 0x3c, 0x33, 0x72, 0x75, 0x73, 0x74]);
    let g = FcxFile::parse(&b).expect("the scenario container parses");
    let out = decrypt_from_container(&g, b"correct horse").expect("the right password decrypts");
    assert_eq!(out, b"hello world");
    assert!(decrypt_from_container(&g, b"wrong").is_err());
}
