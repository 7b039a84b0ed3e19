use matrix_rain_core::{
    CharacterSet, Color, ColorScheme, MatrixRain, RainSpeed, RenderChar, Renderer,
    ScreenSaverConfig,
};

// Mock renderer for testing
struct MockRenderer {
    width: u32,
    height: u32,
    chars_drawn: Vec<RenderChar>,
}

impl MockRenderer {
    fn new(width: u32, height: u32) -> Self {
        Self {
            width,
            height,
            chars_drawn: Vec::new(),
        }
    }
}

impl Renderer for MockRenderer {
    fn clear(&mut self, _color: Color) {
        self.chars_drawn.clear();
    }

    fn draw_char(&mut self, render_char: &RenderChar) {
        self.chars_drawn.push(render_char.clone());
    }

    fn present(&mut self) {}

    fn width(&self) -> u32 {
        self.width
    }

    fn height(&self) -> u32 {
        self.height
    }
}

#[test]
fn test_matrix_rain_creation() {
    let config = ScreenSaverConfig::default();
    let matrix = MatrixRain::new(config);

    assert!(matrix.total_columns() > 0);
    assert_eq!(matrix.config().character_set, CharacterSet::Japanese);
}

#[test]
fn test_matrix_rain_update() {
    let config = ScreenSaverConfig::default();
    let mut matrix = MatrixRain::new(config);

    // Run a few updates
    for _ in 0..10 {
        matrix.update();
    }

    // Some columns should be active
    assert!(matrix.active_columns() > 0);
}

#[test]
fn test_matrix_rain_render() {
    let config = ScreenSaverConfig::default();
    let mut matrix = MatrixRain::new(config);
    let mut renderer = MockRenderer::new(1920, 1080);

    // Update a few times to build up trails
    for _ in 0..50 {
        matrix.update();
    }

    // Render
    matrix.render(&mut renderer);

    // Should have rendered some characters
    assert!(!renderer.chars_drawn.is_empty());
}

#[test]
fn test_config_update() {
    let config = ScreenSaverConfig::default();
    let mut matrix = MatrixRain::new(config);

    let original_columns = matrix.total_columns();

    // Update config with different dimensions
    let new_config = ScreenSaverConfig::new(
        CharacterSet::Korean,
        ColorScheme::Purple,
        RainSpeed::Fast,
        2560,
        1440,
    );

    matrix.set_config(new_config);

    // Should have different number of columns for different width
    assert_ne!(matrix.total_columns(), original_columns);
    assert_eq!(matrix.config().character_set, CharacterSet::Korean);
}

#[test]
fn test_speed_affects_columns() {
    let config = ScreenSaverConfig::new(
        CharacterSet::Japanese,
        ColorScheme::MatrixGreen,
        RainSpeed::VerySlow,
        1920,
        1080,
    );
    let slow_matrix = MatrixRain::new(config);

    let config = ScreenSaverConfig::new(
        CharacterSet::Japanese,
        ColorScheme::MatrixGreen,
        RainSpeed::VeryFast,
        1920,
        1080,
    );
    let fast_matrix = MatrixRain::new(config);

    // Fast should have shorter max trail lengths
    assert!(
        slow_matrix.config().speed.max_trail_length()
            > fast_matrix.config().speed.max_trail_length()
    );
}

#[test]
fn test_column_counts_for_full_hd_surface() {
    // 1920 / (16 * 0.6) = 200 foreground slots; the background takes every
    // 3rd slot (0, 3, ..., 198), 67 columns.
    let config = ScreenSaverConfig::new(
        CharacterSet::Japanese,
        ColorScheme::MatrixGreen,
        RainSpeed::Medium,
        1920,
        1080,
    );
    assert!(config.enable_background_layer);
    let matrix = MatrixRain::new(config);
    assert_eq!(matrix.total_columns(), 200);
    assert_eq!(matrix.total_background_columns(), 67);
}

#[test]
fn test_reconfigure_same_surface_keeps_column_count() {
    let config = ScreenSaverConfig::default();
    let mut matrix = MatrixRain::new(config);
    let fg = matrix.total_columns();
    let bg = matrix.total_background_columns();

    // Same dimensions, different speed: counts must be preserved exactly
    let mut new_config = ScreenSaverConfig::default();
    new_config.speed = RainSpeed::VeryFast;
    new_config.color_scheme = ColorScheme::Red;
    matrix.set_config(new_config);
    assert_eq!(matrix.total_columns(), fg);
    assert_eq!(matrix.total_background_columns(), bg);

    // A different width changes the foreground count to ceil(width / 9.6)
    let wider = ScreenSaverConfig::new(
        CharacterSet::Japanese,
        ColorScheme::MatrixGreen,
        RainSpeed::Medium,
        960,
        1080,
    );
    matrix.set_config(wider);
    assert_eq!(matrix.total_columns(), 100);
}

#[test]
fn test_render_batch_order_is_back_to_front() {
    // Run 50 ticks on a default configuration: the batch must be non-empty
    // and every background record (smaller font) must precede every
    // foreground record (full font).
    let config = ScreenSaverConfig::default();
    let mut matrix = MatrixRain::new(config);
    for _ in 0..50 {
        matrix.update();
    }

    let batch = matrix.get_render_data();
    assert!(!batch.is_empty());

    let mut seen_foreground = false;
    for rc in &batch {
        match rc.font_size_milli {
            14_400 => assert!(!seen_foreground, "background record after a foreground one"),
            16_000 => seen_foreground = true,
            other => panic!("unexpected font size {}", other),
        }
    }

    // The side-effect-free batch is exactly what a sink receives
    let mut renderer = MockRenderer::new(1920, 1080);
    matrix.render(&mut renderer);
    assert_eq!(renderer.chars_drawn.len(), batch.len());
}

#[test]
fn test_render_records_are_within_surface() {
    let config = ScreenSaverConfig::default();
    let mut matrix = MatrixRain::new(config);
    for _ in 0..80 {
        matrix.update();
    }
    for rc in matrix.get_render_data() {
        // Positions are in thousandths of a pixel
        assert!(rc.y_milli <= 1080 * 1000);
        assert!(rc.color.a_milli <= 1000);
    }
}
