use matrix_rain_core::CharacterSet;
use rand::SeedableRng;

#[test]
fn test_japanese_characters() {
    let chars = CharacterSet::Japanese.get_characters();
    assert!(!chars.is_empty());
    assert!(chars.len() > 100); // Should have plenty of characters
}

#[test]
fn test_all_character_sets() {
    let sets = vec![
        CharacterSet::Japanese,
        CharacterSet::Hindi,
        CharacterSet::Tamil,
        CharacterSet::Sinhala,
        CharacterSet::Korean,
        CharacterSet::Jawi,
        CharacterSet::Mixed,
    ];

    for set in sets {
        let chars = set.get_characters();
        assert!(
            !chars.is_empty(),
            "Character set {:?} should not be empty",
            set
        );
    }
}

#[test]
fn test_random_character() {
    let mut rng = rand::rngs::StdRng::from_entropy();
    let char_set = CharacterSet::Japanese;

    for _ in 0..10 {
        let ch = char_set.random_character(&mut rng);
        assert!(char_set.get_characters().contains(&ch));
    }
}

#[test]
fn test_default_character_set() {
    assert_eq!(CharacterSet::default(), CharacterSet::Japanese);
}

#[test]
fn test_mixed_character_set() {
    let chars = CharacterSet::Mixed.get_characters();

    // Should have around 500 characters
    assert!(
        chars.len() >= 400 && chars.len() <= 600,
        "Mixed set should have ~500 characters, got {}",
        chars.len()
    );

    // Should not be empty
    assert!(!chars.is_empty());

    // Get individual sets for comparison
    let japanese_chars = CharacterSet::Japanese.get_characters();
    let hindi_chars = CharacterSet::Hindi.get_characters();
    let tamil_chars = CharacterSet::Tamil.get_characters();
    let sinhala_chars = CharacterSet::Sinhala.get_characters();
    let korean_chars = CharacterSet::Korean.get_characters();
    let jawi_chars = CharacterSet::Jawi.get_characters();

    // Count how many characters from each set appear in mixed
    let japanese_count = chars.iter().filter(|c| japanese_chars.contains(c)).count();
    let hindi_count = chars.iter().filter(|c| hindi_chars.contains(c)).count();
    let tamil_count = chars.iter().filter(|c| tamil_chars.contains(c)).count();
    let sinhala_count = chars.iter().filter(|c| sinhala_chars.contains(c)).count();
    let korean_count = chars.iter().filter(|c| korean_chars.contains(c)).count();
    let jawi_count = chars.iter().filter(|c| jawi_chars.contains(c)).count();

    // Japanese should be roughly 50% (within tolerance)
    let total = chars.len() as f32;
    let japanese_ratio = japanese_count as f32 / total;
    assert!(
        (0.45..=0.55).contains(&japanese_ratio),
        "Japanese should be ~50%, got {:.1}%",
        japanese_ratio * 100.0
    );

    // Each other set should be roughly 10% (within tolerance)
    for (name, count) in [
        ("Hindi", hindi_count),
        ("Tamil", tamil_count),
        ("Sinhala", sinhala_count),
        ("Korean", korean_count),
        ("Jawi", jawi_count),
    ] {
        let ratio = count as f32 / total;
        assert!(
            (0.05..=0.15).contains(&ratio),
            "{} should be ~10%, got {:.1}%",
            name,
            ratio * 100.0
        );
    }
}

#[test]
fn test_mixed_random_character() {
    let mut rng = rand::rngs::StdRng::from_entropy();
    let char_set = CharacterSet::Mixed;

    // Generate 100 random characters and ensure they're all valid
    for _ in 0..100 {
        let ch = char_set.random_character(&mut rng);
        assert!(char_set.get_characters().contains(&ch));
    }
}

#[test]
fn test_japanese_inventory_contents() {
    // The inventory starts with the katakana block in code-point order and
    // carries the ASCII digits among its extras.
    let chars = CharacterSet::Japanese.get_characters();
    assert_eq!(chars[0], char::from_u32(0x30A0).unwrap());
    assert_eq!(chars[1], char::from_u32(0x30A1).unwrap());
    assert_eq!(chars[95], char::from_u32(0x30FF).unwrap());
    assert_eq!(chars[96], char::from_u32(0xFF65).unwrap());
    for d in '0'..='9' {
        assert!(chars.contains(&d));
    }
    assert_eq!(chars.len(), 207);
}

#[test]
fn test_inventories_are_stable() {
    // The same selector yields the same inventory on every call.
    for set in [
        CharacterSet::Japanese,
        CharacterSet::Hindi,
        CharacterSet::Tamil,
        CharacterSet::Sinhala,
        CharacterSet::Korean,
        CharacterSet::Jawi,
        CharacterSet::Mixed,
    ] {
        assert_eq!(set.get_characters(), set.get_characters());
    }
}
