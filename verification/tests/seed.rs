use signature_to_keys::secret::is_zero_seed;
use signature_to_keys::seed::{derive_seed, derive_seed_erasing};

#[test]
fn seed_of_abc_is_its_sha256() {
    assert_eq!(
        derive_seed(b"abc"),
        [
            186, 120, 22, 191, 143, 1, 207, 234, 65, 65, 64, 222, 93, 174, 34, 35, 176, 3, 97,
            163, 150, 23, 122, 156, 180, 16, 255, 97, 242, 0, 21, 173
        ]
    );
}

#[test]
fn seed_of_nothing_is_the_sha256_of_nothing() {
    assert_eq!(
        derive_seed(b""),
        [
            227, 176, 196, 66, 152, 252, 28, 20, 154, 251, 244, 200, 153, 111, 185, 36, 39, 174,
            65, 228, 100, 155, 147, 76, 164, 149, 153, 27, 120, 82, 184, 85
        ]
    );
}

#[test]
fn same_signature_same_seed() {
    let signature: Vec<u8> = (0..=255u8).cycle().take(1000).collect();
    assert_eq!(derive_seed(&signature), derive_seed(&signature));
    assert_eq!(derive_seed(&signature), derive_seed(&signature.clone()));
}

#[test]
fn one_changed_byte_changes_about_half_the_bits() {
    let first: Vec<u8> = format!("0x{}", "00".repeat(65)).into_bytes();
    for at in 2..first.len() {
        let mut second = first.clone();
        second[at] = b'1';
        let a = derive_seed(&first);
        let b = derive_seed(&second);
        let differing: u32 = a.iter().zip(b.iter()).map(|(x, y)| (x ^ y).count_ones()).sum();
        assert!(differing >= 80 && differing <= 176, "{} bits differ", differing);
    }
}

#[test]
fn seed_is_not_the_input() {
    let input = [7u8; 32];
    assert_ne!(derive_seed(&input), input);
}

#[test]
fn zero_seed_is_told_from_others() {
    assert!(is_zero_seed(&[0u8; 32]));
    for at in 0..32 {
        let mut seed = [0u8; 32];
        seed[at] = 1;
        assert!(!is_zero_seed(&seed));
    }
}

#[test]
fn erasing_derivation_gives_the_same_seed_and_empties_the_buffer() {
    let mut signature = b"abc".to_vec();
    assert_eq!(derive_seed_erasing(&mut signature), derive_seed(b"abc"));
    assert!(signature.is_empty());
}
