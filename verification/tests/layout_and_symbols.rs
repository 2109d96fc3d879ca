use rust_image_gen::geometry::{
    parse_wrap_mode, Alignment, AxisAlignment, Color, ConfigurationError, Offset, Size,
    TextAlignment, WrapMode,
};
use rust_image_gen::layout::{resolve_position, Position};

fn align(x: AxisAlignment, y: AxisAlignment) -> Alignment {
    Alignment { x, y }
}

#[test]
fn start_alignment_is_the_offset() {
    let p = resolve_position(
        align(AxisAlignment::Start, AxisAlignment::Start),
        Offset::new(-7, 13),
        Size::new(100, 40),
        Size::new(250, 3),
    );
    assert_eq!(p, Position { x: -7, y: 13 });
}

#[test]
fn end_alignment_touches_the_far_edge() {
    let p = resolve_position(
        align(AxisAlignment::End, AxisAlignment::End),
        Offset::new(10, 20),
        Size::new(100, 40),
        Size::new(30, 50),
    );
    assert_eq!(p, Position { x: 80, y: 10 });
    assert_eq!(p.x + 30, 10 + 100);
    assert_eq!(p.y + 50, 20 + 40);
}

#[test]
fn center_alignment_halves_the_slack() {
    let p = resolve_position(
        align(AxisAlignment::Center, AxisAlignment::Center),
        Offset::new(10, 20),
        Size::new(100, 41),
        Size::new(30, 20),
    );
    assert_eq!(p, Position { x: 45, y: 30 });
}

#[test]
fn center_alignment_rounds_down_when_the_block_is_larger() {
    let p = resolve_position(
        align(AxisAlignment::Center, AxisAlignment::Center),
        Offset::new(0, 0),
        Size::new(50, 50),
        Size::new(53, 54),
    );
    assert_eq!(p, Position { x: -2, y: -2 });
}

#[test]
fn axes_are_resolved_independently() {
    let p = resolve_position(
        align(AxisAlignment::End, AxisAlignment::Start),
        Offset::new(5, 6),
        Size::new(20, 20),
        Size::new(8, 8),
    );
    assert_eq!(p, Position { x: 17, y: 6 });
}

#[test]
fn extreme_values_do_not_overflow() {
    let p = resolve_position(
        align(AxisAlignment::End, AxisAlignment::Center),
        Offset::new(i32::MAX, i32::MIN),
        Size::new(i32::MAX, i32::MIN),
        Size::new(i32::MIN, i32::MAX),
    );
    assert_eq!(p.x, i32::MAX as i64 + i32::MAX as i64 - i32::MIN as i64);
    assert_eq!(p.y, i32::MIN as i64 + (i32::MIN as i64 - i32::MAX as i64).div_euclid(2));
}

#[test]
fn alignment_symbols_resolve() {
    let cases = [
        ("l", "t", AxisAlignment::Start, AxisAlignment::Start),
        ("m", "m", AxisAlignment::Center, AxisAlignment::Center),
        ("r", "b", AxisAlignment::End, AxisAlignment::End),
        ("l", "b", AxisAlignment::Start, AxisAlignment::End),
    ];
    for (x, y, ax, ay) in cases {
        let symbols = TextAlignment::new(x.to_string(), y.to_string());
        assert_eq!(symbols.resolve(), Ok(Alignment { x: ax, y: ay }));
    }
}

#[test]
fn unknown_horizontal_symbol_is_rejected() {
    for bad in ["", "x", "L", "ll", "t", "left"] {
        let symbols = TextAlignment::new(bad.to_string(), "t".to_string());
        assert_eq!(symbols.resolve(), Err(ConfigurationError::UnknownHorizontalAlignment));
    }
}

#[test]
fn unknown_vertical_symbol_is_rejected() {
    for bad in ["", "x", "T", "l", "r", "top"] {
        let symbols = TextAlignment::new("l".to_string(), bad.to_string());
        assert_eq!(symbols.resolve(), Err(ConfigurationError::UnknownVerticalAlignment));
    }
}

#[test]
fn horizontal_symbol_is_checked_first() {
    let symbols = TextAlignment::new("?".to_string(), "?".to_string());
    assert_eq!(symbols.resolve(), Err(ConfigurationError::UnknownHorizontalAlignment));
}

#[test]
fn wrap_symbols_resolve() {
    assert_eq!(parse_wrap_mode(&"word".to_string()), Ok(WrapMode::Word));
    assert_eq!(parse_wrap_mode(&"lines".to_string()), Ok(WrapMode::Lines));
    for bad in ["", "Word", "line", "words", "char"] {
        assert_eq!(parse_wrap_mode(&bad.to_string()), Err(ConfigurationError::UnknownWrapMode));
    }
}

#[test]
fn value_types_keep_what_they_are_given() {
    let offset = Offset::new(-3, 4);
    assert_eq!((offset.x(), offset.y()), (-3, 4));
    let size = Size::new(640, 480);
    assert_eq!((size.width(), size.height()), (640, 480));
    let color = Color::new(1, 2, 3);
    assert_eq!((color.r(), color.g(), color.b()), (1, 2, 3));
    let symbols = TextAlignment::new("m".to_string(), "b".to_string());
    assert_eq!((symbols.x(), symbols.y()), ("m".to_string(), "b".to_string()));
}

#[test]
fn paintable_sizes() {
    assert!(Size::new(1, 1).is_paintable());
    assert!(Size::new(200, 200).is_paintable());
    assert!(!Size::new(0, 10).is_paintable());
    assert!(!Size::new(10, 0).is_paintable());
    assert!(!Size::new(-1, 10).is_paintable());
    assert!(!Size::new(10, i32::MIN).is_paintable());
}
