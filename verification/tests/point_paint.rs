use galileo::render::point_paint::CircleFill;
use galileo::Color;

#[test]
fn circle_fill_from_color() {
    let color = Color::red();
    let fill: CircleFill = color.into();
    assert_eq!(fill.center_color, color);
    assert_eq!(fill.side_color, color);
}

#[test]
fn color_channels_and_alpha() {
    let c = Color::rgba(1, 2, 3, 4);
    assert_eq!(c.to_u8_array(), [1, 2, 3, 4]);
    assert_eq!((c.r(), c.g(), c.b(), c.a()), (1, 2, 3, 4));
    assert_eq!(c.with_alpha(0).to_u8_array(), [1, 2, 3, 0]);
    assert!(c.with_alpha(0).is_transparent());
    assert!(!c.is_transparent());
    assert_eq!(Color::black().to_u8_array(), [0, 0, 0, 255]);
    assert_eq!(Color::white().to_u8_array(), [255, 255, 255, 255]);
    assert_eq!(Color::transparent().to_u8_array(), [0, 0, 0, 0]);
}
