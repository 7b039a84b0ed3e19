use matrix_rain_core::{CharacterSet, RainColumn};
use rand::SeedableRng;

fn rng() -> rand::rngs::StdRng {
    rand::rngs::StdRng::from_entropy()
}

#[test]
fn test_column_creation() {
    let mut rng = rng();
    let column = RainColumn::new(5, 20, 1000, &mut rng);

    assert_eq!(column.x, 5);
    assert!(column.y_milli < 0); // Should start above screen
    assert!(column.active);
    assert!(column.max_length <= 20);
}

#[test]
fn test_column_update() {
    let mut rng = rng();
    let char_set = CharacterSet::Japanese;
    let mut column = RainColumn::new(5, 20, 1000, &mut rng);

    let initial_y = column.y_milli;
    column.update(&char_set, &mut rng);

    // Column should have moved down
    assert!(column.y_milli > initial_y);
}

#[test]
fn test_column_builds_trail() {
    let mut rng = rng();
    let char_set = CharacterSet::Japanese;
    let mut column = RainColumn::new(5, 20, 1000, &mut rng);

    // Update multiple times to build trail
    for _ in 0..50 {
        column.update(&char_set, &mut rng);
    }

    // Should have some characters in the trail
    assert!(!column.characters.is_empty());
    assert!(column.characters.len() <= column.max_length);
}

#[test]
fn test_off_screen_detection() {
    let mut rng = rng();
    let mut column = RainColumn::new(5, 20, 1000, &mut rng);

    // Column starts above screen, so not off screen yet
    // (a 1000-pixel surface, 20-pixel cells)
    assert!(!column.is_off_screen(1000, 20_000));

    // Move column way down (100 cells)
    column.y_milli = 100_000;
    assert!(column.is_off_screen(1000, 20_000));
}

#[test]
fn test_column_reset() {
    let mut rng = rng();
    let char_set = CharacterSet::Japanese;
    let mut column = RainColumn::new(5, 20, 1000, &mut rng);

    // Build up the column
    for _ in 0..50 {
        column.update(&char_set, &mut rng);
    }

    let had_characters = !column.characters.is_empty();

    // Reset
    column.reset(&mut rng);

    assert!(had_characters); // Confirm we had something to reset
    assert!(column.characters.is_empty());
    assert!(column.y_milli < 0);
    assert!(column.active);
}

#[test]
fn test_trail_positions() {
    let mut rng = rng();
    let char_set = CharacterSet::Japanese;
    let mut column = RainColumn::new(5, 20, 1000, &mut rng);

    // Build up some trail
    for _ in 0..10 {
        column.update(&char_set, &mut rng);
    }

    let positions = column.get_trail_positions();

    // Should have positions for all characters
    assert_eq!(positions.len(), column.characters.len());

    if positions.len() > 1 {
        // First character (head) should have a trail offset near 0
        assert!(positions[0].2 < 100);

        // Last character (tail) should have a trail offset near 1000
        let last_idx = positions.len() - 1;
        assert!(positions[last_idx].2 > 900);
    }
}

#[test]
fn test_trail_position_endpoints_exact() {
    let mut rng = rng();
    let char_set = CharacterSet::Korean;
    let mut column = RainColumn::new(0, 30, 1000, &mut rng);
    for _ in 0..60 {
        column.update(&char_set, &mut rng);
    }
    let positions = column.get_trail_positions();
    assert!(!positions.is_empty());

    // Head at offset exactly 0; glyph positions step down one cell per index
    assert_eq!(positions[0].2, 0);
    for (i, p) in positions.iter().enumerate() {
        assert_eq!(p.1, column.y_milli - (i as i64) * 1000);
    }
    if positions.len() > 1 {
        // Tail at offset exactly 1000, by the formula i * 1000 / (len - 1)
        assert_eq!(positions[positions.len() - 1].2, 1000);
    }
}

#[test]
fn test_fresh_column_never_off_screen() {
    // Freshly created and freshly reset columns sit above the surface, so
    // they are on-surface for any surface size.
    let mut rng = rng();
    for _ in 0..20 {
        let mut column = RainColumn::new(1, 12, 2000, &mut rng);
        assert!(column.y_milli < 0);
        assert!(!column.is_off_screen(1, 19_200));
        assert!(!column.is_off_screen(4000, 19_200));
        column.reset(&mut rng);
        assert!(column.y_milli < 0);
        assert!(!column.is_off_screen(1, 19_200));
    }
}

#[test]
fn test_fresh_glyph_joins_at_head() {
    // When the trail grows by one, the newcomer stands at index 0 (the
    // head) and every prior glyph reappears shifted up one index, modulo at
    // most one glitched position; when the length is unchanged, at most one
    // glyph differs in place.
    let mut rng = rng();
    let char_set = CharacterSet::Japanese;
    let mut column = RainColumn::new(0, 30, 1000, &mut rng);
    let inventory = char_set.get_characters();
    let mut grown_checks = 0;
    for _ in 0..120 {
        let before = column.characters.clone();
        column.update(&char_set, &mut rng);
        let after = &column.characters;
        if after.len() == before.len() + 1 {
            grown_checks += 1;
            assert!(inventory.contains(&after[0]));
            let mismatches = (0..before.len())
                .filter(|&j| after[j + 1] != before[j])
                .count();
            assert!(mismatches <= 1, "prior glyphs must shift up one index");
        } else {
            assert_eq!(after.len(), before.len());
            let mismatches = (0..before.len())
                .filter(|&j| after[j] != before[j])
                .count();
            assert!(mismatches <= 1, "at most one glyph may glitch in place");
        }
    }
    assert!(grown_checks > 0);
}

#[test]
fn test_trail_never_exceeds_cap() {
    let mut rng = rng();
    let char_set = CharacterSet::Mixed;
    let mut column = RainColumn::new(0, 12, 2000, &mut rng);
    for _ in 0..500 {
        column.update(&char_set, &mut rng);
        assert!(column.characters.len() <= column.max_length);
    }
}

#[test]
fn test_speed_jitter_within_bounds() {
    let mut rng = rng();
    for _ in 0..50 {
        let column = RainColumn::new(0, 20, 1000, &mut rng);
        assert!(column.speed_milli >= 700);
        assert!(column.speed_milli <= 1300);
        assert!(column.max_length >= 10 && column.max_length <= 20);
        assert!(column.y_milli >= -20_000 && column.y_milli <= -5_000);
    }
}
