use matrix_rain_core::{Color, RenderChar, Renderer};

#[test]
fn test_color_creation() {
    let color = Color::rgb(100, 150, 200);
    assert_eq!(color.r, 100);
    assert_eq!(color.g, 150);
    assert_eq!(color.b, 200);
    assert_eq!(color.a_milli, 1000);
}

#[test]
fn color_test_color_with_alpha() {
    let color = Color::rgba(100, 150, 200, 500);
    assert_eq!(color.a_milli, 500);
}

#[test]
fn test_alpha_clamping() {
    let color1 = Color::rgba(100, 150, 200, 1500);
    assert_eq!(color1.a_milli, 1000);

    let color2 = Color::rgba(100, 150, 200, 0);
    assert_eq!(color2.a_milli, 0);
}

#[test]
fn test_darken() {
    let color = Color::rgb(100, 100, 100);
    let darkened = color.darken(500);
    assert_eq!(darkened.r, 50);
    assert_eq!(darkened.g, 50);
    assert_eq!(darkened.b, 50);
}

#[test]
fn test_lighten() {
    let color = Color::rgb(100, 100, 100);
    let lightened = color.lighten(500);
    assert!(lightened.r > 100);
    assert!(lightened.g > 100);
    assert!(lightened.b > 100);
}

#[test]
fn test_with_alpha() {
    let color = Color::rgb(100, 150, 200);
    let with_alpha = color.with_alpha(700);
    assert_eq!(with_alpha.r, 100);
    assert_eq!(with_alpha.g, 150);
    assert_eq!(with_alpha.b, 200);
    assert_eq!(with_alpha.a_milli, 700);
}

#[test]
fn test_from_tuples() {
    let color1 = Color::from_rgb_tuple((100, 150, 200));
    assert_eq!(color1.r, 100);
    assert_eq!(color1.g, 150);
    assert_eq!(color1.b, 200);

    let color2 = Color::from_rgba_tuple((100, 150, 200, 500));
    assert_eq!(color2.a_milli, 500);
}

#[test]
fn test_constants() {
    assert_eq!(Color::black().r, 0);
    assert_eq!(Color::white().r, 255);
    assert_eq!(Color::matrix_green().g, 255);
}

#[test]
fn test_default_color_is_black() {
    assert_eq!(Color::default(), Color::black());
}

// Mock renderer for testing the sink contract
struct MockRenderer {
    width: u32,
    height: u32,
    chars_drawn: Vec<RenderChar>,
}

impl MockRenderer {
    fn new(width: u32, height: u32) -> Self {
        Self {
            width,
            height,
            chars_drawn: Vec::new(),
        }
    }
}

impl Renderer for MockRenderer {
    fn clear(&mut self, _color: Color) {
        self.chars_drawn.clear();
    }

    fn draw_char(&mut self, render_char: &RenderChar) {
        self.chars_drawn.push(render_char.clone());
    }

    fn present(&mut self) {
        // No-op for mock
    }

    fn width(&self) -> u32 {
        self.width
    }

    fn height(&self) -> u32 {
        self.height
    }
}

#[test]
fn test_mock_renderer() {
    let mut renderer = MockRenderer::new(1920, 1080);
    assert_eq!(renderer.width(), 1920);
    assert_eq!(renderer.height(), 1080);

    let render_char = RenderChar {
        character: 'A',
        x_milli: 100_000,
        y_milli: 200_000,
        color: Color::matrix_green(),
        font_size_milli: 16_000,
    };

    renderer.draw_char(&render_char);
    assert_eq!(renderer.chars_drawn.len(), 1);
    assert_eq!(renderer.chars_drawn[0].character, 'A');
}

#[test]
fn test_draw_multiple_chars() {
    let mut renderer = MockRenderer::new(1920, 1080);

    let chars = vec![
        RenderChar {
            character: 'A',
            x_milli: 0,
            y_milli: 0,
            color: Color::matrix_green(),
            font_size_milli: 16_000,
        },
        RenderChar {
            character: 'B',
            x_milli: 20_000,
            y_milli: 0,
            color: Color::matrix_green(),
            font_size_milli: 16_000,
        },
    ];

    renderer.draw_chars(&chars);
    assert_eq!(renderer.chars_drawn.len(), 2);
}

#[test]
fn test_clear() {
    let mut renderer = MockRenderer::new(1920, 1080);

    let render_char = RenderChar {
        character: 'A',
        x_milli: 100_000,
        y_milli: 200_000,
        color: Color::matrix_green(),
        font_size_milli: 16_000,
    };

    renderer.draw_char(&render_char);
    assert_eq!(renderer.chars_drawn.len(), 1);

    renderer.clear(Color::black());
    assert_eq!(renderer.chars_drawn.len(), 0);
}
