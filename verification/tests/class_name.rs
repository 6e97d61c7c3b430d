use rand::rngs::StdRng;
use rand::SeedableRng;
use sir::class_name::{class_name_of, generate_class_name, ALPHABET, ID_LENGTH};

#[test]
fn test_generate_class_name() {
    let mut rng = StdRng::seed_from_u64(42);
    // snapshot
    assert_eq!(generate_class_name(&mut rng), "_t5bwm0ra7vs5of3");
}

#[test]
fn same_seed_gives_the_same_names() {
    let mut first = StdRng::seed_from_u64(7);
    let mut second = StdRng::seed_from_u64(7);
    for _ in 0..10 {
        assert_eq!(generate_class_name(&mut first), generate_class_name(&mut second));
    }
}

#[test]
fn one_generator_gives_different_names() {
    let mut rng = StdRng::seed_from_u64(42);
    let first = generate_class_name(&mut rng);
    let second = generate_class_name(&mut rng);
    assert_eq!(first, "_t5bwm0ra7vs5of3");
    assert_ne!(first, second);
}

#[test]
fn names_have_the_fixed_shape() {
    assert_eq!(ID_LENGTH, 15);
    assert_eq!(ALPHABET, "abcdefghijklmnopqrstuvwxyz0123456789");
    for seed in 0..50u64 {
        let mut rng = StdRng::seed_from_u64(seed);
        let name = generate_class_name(&mut rng);
        assert_eq!(name.len(), 16);
        assert_eq!(name.chars().count(), 16);
        assert!(name.starts_with('_'));
        for c in name.chars().skip(1) {
            assert!(c.is_ascii_lowercase() || c.is_ascii_digit());
        }
    }
}

#[test]
fn class_name_is_an_underscore_and_the_drawn_characters() {
    assert_eq!(class_name_of(&vec!['a', 'b', 'c']), "_abc");
    assert_eq!(class_name_of(&vec!['z', '0', 'z', '9']), "_z0z9");
    assert_eq!(class_name_of(&Vec::new()), "_");
    let drawn: Vec<char> = "t5bwm0ra7vs5of3".chars().collect();
    assert_eq!(class_name_of(&drawn), "_t5bwm0ra7vs5of3");
}

#[test]
fn names_use_more_than_one_character() {
    let mut rng = StdRng::seed_from_u64(1);
    let name = generate_class_name(&mut rng);
    let first = name.chars().nth(1).unwrap();
    assert!(name.chars().skip(1).any(|c| c != first));
}
