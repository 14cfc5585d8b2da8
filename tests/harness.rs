use ed25519_abi::batch::Batch;
use ed25519_abi::driver::{Backend, Driver, INVALID, VALID};
use ed25519_abi::keys::{bytes_equal, join_halves};
use sha2::Digest;

fn hex<const L: usize>(s: &str) -> [u8; L] {
    assert_eq!(s.len(), 2 * L);
    let mut out = [0u8; L];
    for i in 0..L {
        out[i] = u8::from_str_radix(&s[2 * i..2 * i + 2], 16).unwrap();
    }
    out
}

fn dalek() -> Driver {
    Driver::new(Backend::Dalek)
}

#[test]
fn four_trials_detect_flipped_message() {
    let d = dalek();
    let mut b = Batch::<4, 32>::new(&d).unwrap();
    assert_eq!(b.verify_with(&d), vec![VALID; 4]);
    b.messages[2][0] ^= 0xff;
    let st = b.verify_with(&d);
    assert_eq!(st[0], VALID);
    assert_eq!(st[1], VALID);
    assert_ne!(st[2], VALID);
    assert_eq!(st[3], VALID);
}

#[test]
fn generated_batch_verifies_under_its_driver() {
    let d = dalek();
    let b = Batch::<8, 128>::new(&d).unwrap();
    assert_eq!(b.lengths, [128usize; 8]);
    assert_eq!(b.verify_with(&d), vec![VALID; 8]);
    assert!(b.public_keys_agree_with(&d));
}

#[test]
fn second_driver_agrees_on_generated_batch() {
    let d1 = dalek();
    let d2 = Driver::new(d1.backend());
    let b = Batch::<5, 64>::new(&d1).unwrap();
    assert_eq!(b.verify_with(&d2), b.verify_with(&d1));
    assert!(b.public_keys_agree_with(&d2));
}

#[test]
fn public_keys_disagree_after_tamper() {
    let d = dalek();
    let mut b = Batch::<3, 16>::new(&d).unwrap();
    b.public_keys[1][5] ^= 0x10;
    assert!(!b.public_keys_agree_with(&d));
}

#[test]
fn batch_verify_matches_single_verify() {
    let d = dalek();
    let b = Batch::<6, 40>::new(&d).unwrap();
    let (agg, items) = b.verify_batch_with(&d);
    assert_eq!(agg, VALID);
    assert_eq!(items, vec![1; 6]);
}

#[test]
fn batch_verify_marks_tampered_items() {
    let d = dalek();
    let mut b = Batch::<5, 32>::new(&d).unwrap();
    b.signatures[1][0] ^= 0x01;
    b.messages[4][31] ^= 0x80;
    let single = b.verify_with(&d);
    let (agg, items) = b.verify_batch_with(&d);
    assert_eq!(agg, INVALID);
    assert_eq!(items, vec![1, 0, 1, 1, 0]);
    for i in 0..5 {
        assert_eq!(items[i] == 1, single[i] == VALID);
    }
}

#[test]
fn single_bit_flips_are_rejected() {
    let d = dalek();
    let b = Batch::<1, 32>::new(&d).unwrap();
    let (m, pk, sig) = (b.messages[0], b.public_keys[0], b.signatures[0]);
    assert_eq!(d.ed25519_sign_open(&m, 32, &pk, &sig), VALID);
    for bit in [0usize, 7, 100, 255] {
        let mut m2 = m;
        m2[bit / 8] ^= 1 << (bit % 8);
        assert_ne!(d.ed25519_sign_open(&m2, 32, &pk, &sig), VALID);
    }
    for bit in [0usize, 9, 130, 300, 511] {
        let mut s2 = sig;
        s2[bit / 8] ^= 1 << (bit % 8);
        assert_ne!(d.ed25519_sign_open(&m, 32, &pk, &s2), VALID);
    }
    for bit in [0usize, 77, 200] {
        let mut p2 = pk;
        p2[bit / 8] ^= 1 << (bit % 8);
        assert_ne!(d.ed25519_sign_open(&m, 32, &p2, &sig), VALID);
    }
}

#[test]
fn from_seeds_reproduces_rfc8032_empty_message() {
    let d = dalek();
    let sk: [u8; 32] = hex("9d61b19deffd5a60ba844af492ec2cc44449c5697b326919703bac031cae7f60");
    let b = Batch::<1, 0>::from_seeds(&d, [sk], [[]]);
    assert_eq!(
        b.public_keys[0],
        hex::<32>("d75a980182b10ab7d54bfed3c964073a0ee172f3daa62325af021a68f707511a")
    );
    assert_eq!(
        b.signatures[0],
        hex::<64>(&(String::from("e5564300c360ac729086e2cc806e828a84877f1eb8e5d974d873e065224901555") + "fb8821590a33bacc61e39701cf9b46bd25bf5f0595bbe24655141438e7a100b"))
    );
    assert_eq!(b.lengths, [0usize]);
    assert_eq!(b.verify_with(&d), vec![VALID]);
}

#[test]
fn from_seeds_reproduces_rfc8032_one_byte_message() {
    let d = dalek();
    let sk: [u8; 32] = hex("4ccd089b28ff96da9db6c346ec114e0f5b8a319f35aba624da8cf6ed4fb8a6fb");
    let b = Batch::<1, 1>::from_seeds(&d, [sk], [[0x72]]);
    assert_eq!(b.secret_keys[0], sk);
    assert_eq!(
        b.public_keys[0],
        hex::<32>("3d4017c3e843895a92b70aa74d1b7ebc9c982ccf2ec4968cc0cd55f12af4660c")
    );
    assert_eq!(
        b.signatures[0],
        hex::<64>(&(String::from("92a009a9f0d4cab8720e820b5f642540a2b27b5416503f8fb3762223ebdb69da") + "085ac1e43e15996e458f3613d0f11d8c387b2eaeb4302aeeb00d291612bb0c00"))
    );
}

#[test]
fn sign_uses_only_the_given_length() {
    let d = dalek();
    let sk = [7u8; 32];
    let pk = d.ed25519_publickey(&sk);
    let long = [0x72u8, 1, 2, 3];
    let short = [0x72u8];
    let a = d.ed25519_sign(&long, 1, &sk, &pk);
    let b = d.ed25519_sign(&short, 1, &sk, &pk);
    assert_eq!(a, b);
    assert_eq!(d.ed25519_sign_open(&long, 1, &pk, &a), VALID);
    assert_ne!(d.ed25519_sign_open(&long, 4, &pk, &a), VALID);
}

#[test]
fn base_mult_matches_rfc7748() {
    let d = dalek();
    let alice: [u8; 32] = hex("77076d0a7318a57d3c16c17251b26645df4c2f87ebc0992ab177fba51db92c2a");
    let bob: [u8; 32] = hex("5dab087e624a8a4b79e17f8b83800ee66f3bb1292618b6fd1c2f8b27ff88e0eb");
    assert_eq!(
        d.curved25519_scalarmult_basepoint(&alice),
        hex::<32>("8520f0098930a754748b7ddcb43ef75a0dbf3a0d26381af4eba4a98eaa9b4e6a")
    );
    assert_eq!(
        d.curved25519_scalarmult_basepoint(&bob),
        hex::<32>("de9edb7d7b7dc1b4d35b61c2ece435373f8343c85b78674dadfc7e146f882b4f")
    );
}

#[test]
fn scalar_mult_matches_rfc7748_shared_secret() {
    let d = dalek();
    let alice: [u8; 32] = hex("77076d0a7318a57d3c16c17251b26645df4c2f87ebc0992ab177fba51db92c2a");
    let bob: [u8; 32] = hex("5dab087e624a8a4b79e17f8b83800ee66f3bb1292618b6fd1c2f8b27ff88e0eb");
    let alice_pub = d.curved25519_scalarmult_basepoint(&alice);
    let bob_pub = d.curved25519_scalarmult_basepoint(&bob);
    let shared = hex::<32>("4a5d9d5ba4ce2de1728e3bf480350f25e07e21c947d19e3376f09b3c1e161742");
    assert_eq!(d.curve25519_scalarmult(&alice, &bob_pub), shared);
    assert_eq!(d.curve25519_scalarmult(&bob, &alice_pub), shared);
}

#[test]
fn extended_key_of_hashed_seed_matches_public_key() {
    let d = dalek();
    let sk: [u8; 32] = hex("9d61b19deffd5a60ba844af492ec2cc44449c5697b326919703bac031cae7f60");
    let h = sha2::Sha512::digest(sk);
    let mut lo = [0u8; 32];
    let mut hi = [0u8; 32];
    lo.copy_from_slice(&h[..32]);
    hi.copy_from_slice(&h[32..]);
    let pk = d.ed25519_publickey_ext(&lo, &hi);
    assert_eq!(pk, d.ed25519_publickey(&sk));
    let m = [1u8, 2, 3];
    let sig = d.ed25519_sign_ext(&m, 3, &lo, &hi, &pk);
    assert_eq!(sig, d.ed25519_sign(&m, 3, &sk, &pk));
    assert_eq!(d.ed25519_sign_open(&m, 3, &pk, &sig), VALID);
}

#[test]
fn extended_signature_verifies() {
    let d = dalek();
    let lo = [0x11u8; 32];
    let hi = [0x22u8; 32];
    let pk = d.ed25519_publickey_ext(&lo, &hi);
    let m = [9u8; 20];
    let sig = d.ed25519_sign_ext(&m, 20, &lo, &hi, &pk);
    assert_eq!(d.ed25519_sign_open(&m, 20, &pk, &sig), VALID);
    assert_ne!(d.ed25519_sign_open(&m, 19, &pk, &sig), VALID);
}

#[test]
fn join_halves_concatenates() {
    let r = join_halves(&[1u8; 32], &[2u8; 32]);
    assert_eq!(&r[..32], &[1u8; 32]);
    assert_eq!(&r[32..], &[2u8; 32]);
}

#[test]
fn bytes_equal_compares_contents() {
    assert!(bytes_equal(&[1, 2, 3], &[1, 2, 3]));
    assert!(!bytes_equal(&[1, 2, 3], &[1, 2, 4]));
    assert!(!bytes_equal(&[1, 2], &[1, 2, 3]));
    assert!(bytes_equal(&[], &[]));
}

#[test]
fn batch_verify_of_empty_input_is_valid() {
    let d = dalek();
    let (agg, items) = d.ed25519_sign_open_batch(&[], &[], &[], &[], 0);
    assert_eq!(agg, VALID);
    assert!(items.is_empty());
}

#[test]
fn empty_batch_is_always_built() {
    let d = dalek();
    let b = Batch::<0, 32>::new(&d).unwrap();
    assert!(b.verify_with(&d).is_empty());
    let (agg, items) = b.verify_batch_with(&d);
    assert_eq!(agg, VALID);
    assert!(items.is_empty());
}
