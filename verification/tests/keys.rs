use std::collections::HashSet;
use wg_vankey::keys::Keypair;

fn hex(text: &str) -> [u8; 32] {
    let mut bytes = [0u8; 32];
    for (i, byte) in bytes.iter_mut().enumerate() {
        *byte = u8::from_str_radix(&text[2 * i..2 * i + 2], 16).unwrap();
    }
    bytes
}

#[test]
fn from_seed_derives_the_public_key_of_a_known_secret() {
    let seed = hex("77076d0a7318a57d3c16c17251b26645df4c2f87ebc0992ab177fba51db92c2a");
    let pair = Keypair::from_seed(seed);
    assert_eq!(
        pair.public_bytes,
        hex("8520f0098930a754748b7ddcb43ef75a0dbf3a0d26381af4eba4a98eaa9b4e6a")
    );
    assert_eq!(
        pair.private_bytes,
        hex("70076d0a7318a57d3c16c17251b26645df4c2f87ebc0992ab177fba51db92c6a")
    );
}

#[test]
fn generated_keys_do_not_collide() {
    let mut seen = HashSet::new();
    for _ in 0..10_000 {
        let pair = match Keypair::generate() {
            Ok(pair) => pair,
            Err(failure) => panic!("no entropy: {}", failure.reason),
        };
        assert!(seen.insert(pair.public_bytes));
    }
    assert_eq!(seen.len(), 10_000);
}

#[test]
fn a_seed_is_clamped() {
    let pair = Keypair::from_seed([0xff; 32]);
    let mut expected = [0xffu8; 32];
    expected[0] = 0xf8;
    expected[31] = 0x7f;
    assert_eq!(pair.private_bytes, expected);
    let pair = Keypair::from_seed([0; 32]);
    let mut expected = [0u8; 32];
    expected[31] = 0x40;
    assert_eq!(pair.private_bytes, expected);
}

#[test]
fn a_clamped_secret_is_kept_as_it_is() {
    let first = Keypair::from_seed([0x5a; 32]);
    let second = Keypair::from_seed(first.private_bytes);
    assert_eq!(second.private_bytes, first.private_bytes);
    assert_eq!(second.public_bytes, first.public_bytes);
}

#[test]
fn the_public_key_of_the_second_known_secret() {
    let seed = hex("5dab087e624a8a4b79e17f8b83800ee66f3bb1292618b6fd1c2f8b27ff88e0eb");
    let pair = Keypair::from_seed(seed);
    assert_eq!(
        pair.public_bytes,
        hex("de9edb7d7b7dc1b4d35b61c2ece435373f8343c85b78674dadfc7e146f882b4f")
    );
}

#[test]
fn a_generated_pair_is_a_clamped_secret_with_its_public_key() {
    for _ in 0..100 {
        let pair = match Keypair::generate() {
            Ok(pair) => pair,
            Err(failure) => panic!("no entropy: {}", failure.reason),
        };
        assert_eq!(pair.private_bytes[0] & 7, 0);
        assert_eq!(pair.private_bytes[31] & 128, 0);
        assert_eq!(pair.private_bytes[31] & 64, 64);
        let again = Keypair::from_seed(pair.private_bytes);
        assert_eq!(again.private_bytes, pair.private_bytes);
        assert_eq!(again.public_bytes, pair.public_bytes);
        assert_ne!(pair.public_bytes, pair.private_bytes);
    }
}
