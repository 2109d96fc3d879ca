use rust_image_gen::geometry::{
    AxisAlignment, Color, ConfigurationError, Offset, Size, TextAlignment, WrapMode,
};
use rust_image_gen::layout::Position;
use rust_image_gen::plan::{plan_text, plan_texts, PlanError, TextPlacement};
use rust_image_gen::request::TextComponent;
use std::cell::Cell;

fn square(_text: &str, size: u32, _wrap: WrapMode, _width: i32) -> (i32, i32) {
    (size as i32, size as i32)
}

fn block(x: &str, y: &str, wrap: &str) -> TextComponent {
    TextComponent::new(
        "Hi".to_string(),
        Offset::new(100, 200),
        Size::new(50, 80),
        Color::new(10, 20, 30),
        10,
        100,
        TextAlignment::new(x.to_string(), y.to_string()),
        wrap.to_string(),
    )
}

#[test]
fn text_block_is_fitted_and_placed() {
    let plan = plan_text(&block("m", "b", "word"), &square).unwrap();
    assert_eq!(
        plan,
        TextPlacement {
            font_size: 50,
            position: Position { x: 100, y: 230 },
            alignment: AxisAlignment::Center,
            wrap: WrapMode::Word,
            box_width: 50,
            color: Color::new(10, 20, 30),
        }
    );
}

#[test]
fn each_axis_is_placed_on_its_own() {
    let tall = |_t: &str, size: u32, _w: WrapMode, _width: i32| (size as i32 / 2, size as i32);
    let plan = plan_text(&block("r", "m", "lines"), &tall).unwrap();
    assert_eq!(plan.font_size, 80);
    assert_eq!(plan.position, Position { x: 100 + 50 - 40, y: 200 });
    assert_eq!(plan.alignment, AxisAlignment::End);
    assert_eq!(plan.wrap, WrapMode::Lines);
}

#[test]
fn measuring_uses_the_wrap_mode_of_the_block() {
    let by_mode = |_t: &str, size: u32, wrap: WrapMode, _width: i32| match wrap {
        WrapMode::Word => (size as i32, size as i32),
        WrapMode::Lines => (size as i32 * 5, 1),
    };
    assert_eq!(plan_text(&block("l", "t", "word"), &by_mode).unwrap().font_size, 50);
    assert_eq!(plan_text(&block("l", "t", "lines"), &by_mode).unwrap().font_size, 10);
}

#[test]
fn unknown_alignment_is_a_configuration_error_before_any_measurement() {
    let calls = Cell::new(0u32);
    let counting = |_t: &str, size: u32, _w: WrapMode, _width: i32| {
        calls.set(calls.get() + 1);
        (size as i32, size as i32)
    };
    assert_eq!(
        plan_text(&block("x", "t", "word"), &counting),
        Err(ConfigurationError::UnknownHorizontalAlignment)
    );
    assert_eq!(
        plan_text(&block("l", "x", "word"), &counting),
        Err(ConfigurationError::UnknownVerticalAlignment)
    );
    assert_eq!(calls.get(), 0);
}

#[test]
fn unknown_wrap_mode_is_a_configuration_error() {
    assert_eq!(
        plan_text(&block("l", "t", "wrap"), &square),
        Err(ConfigurationError::UnknownWrapMode)
    );
    assert_eq!(
        plan_text(&block("?", "t", "wrap"), &square),
        Err(ConfigurationError::UnknownHorizontalAlignment)
    );
}

#[test]
fn inverted_range_is_no_error() {
    let component = TextComponent::new(
        "Hi".to_string(),
        Offset::new(0, 0),
        Size::new(50, 50),
        Color::new(0, 0, 0),
        30,
        20,
        TextAlignment::new("l".to_string(), "t".to_string()),
        "word".to_string(),
    );
    assert_eq!(plan_text(&component, &square).unwrap().font_size, 30);
}

#[test]
fn text_pass_plans_in_list_order() {
    let blocks = vec![block("l", "t", "word"), block("r", "b", "lines"), block("m", "m", "word")];
    let plans = plan_texts(&blocks, &square).unwrap();
    assert_eq!(plans.len(), 3);
    for (plan, component) in plans.iter().zip(blocks.iter()) {
        assert_eq!(Ok(*plan), plan_text(component, &square));
    }
    assert_eq!(plans[0].position, Position { x: 100, y: 200 });
    assert_eq!(plans[1].position, Position { x: 100, y: 230 });
    assert_eq!(plans[2].position, Position { x: 100, y: 215 });
}

#[test]
fn text_pass_stops_at_the_first_misconfigured_block() {
    let measured = Cell::new(0u32);
    let counting = |_t: &str, size: u32, _w: WrapMode, _width: i32| {
        measured.set(measured.get() + 1);
        (size as i32 * 100, 1)
    };
    let blocks = vec![
        block("l", "t", "word"),
        block("l", "t", "page"),
        block("q", "t", "word"),
        block("l", "t", "word"),
    ];
    assert_eq!(
        plan_texts(&blocks, &counting),
        Err(PlanError { index: 1, error: ConfigurationError::UnknownWrapMode })
    );
    assert_eq!(measured.get(), 1);
}

#[test]
fn empty_text_pass_plans_nothing() {
    assert_eq!(plan_texts(&Vec::new(), &square), Ok(Vec::new()));
}

#[test]
fn text_component_keeps_what_it_is_given() {
    let c = block("m", "b", "lines");
    assert_eq!(c.text(), "Hi");
    assert_eq!(c.offset(), Offset::new(100, 200));
    assert_eq!(c.size(), Size::new(50, 80));
    assert_eq!(c.color(), Color::new(10, 20, 30));
    assert_eq!((c.min_font_size(), c.max_font_size()), (10, 100));
    assert_eq!(c.text_align(), TextAlignment::new("m".to_string(), "b".to_string()));
    assert_eq!(c.wrap(), "lines");
}

#[test]
fn only_the_sizes_of_the_range_and_the_own_wrap_mode_are_measured() {
    let strict = |text: &str, size: u32, wrap: WrapMode, width: i32| {
        assert_eq!(text, "Hi");
        assert!((10..=100).contains(&size), "size {}", size);
        assert_eq!(wrap, WrapMode::Lines);
        assert_eq!(width, 50);
        (size as i32, size as i32)
    };
    let plan = plan_text(&block("l", "t", "lines"), &strict).unwrap();
    assert_eq!(plan.font_size, 50);
}
