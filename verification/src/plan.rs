//! The text pass, up to the drawing: for each text block, check its symbols,
//! find its font size and work out where it is drawn.

use crate::fit::{fit_text, fitted_size, measures, MeasureModel, TextFit};
use crate::geometry::{
    alignment_of, parse_wrap_mode, wrap_mode_of, Alignment, AxisAlignment, Color,
    ConfigurationError, Size, WrapMode,
};
use crate::layout::{resolve_axis, resolve_position, Position};
use crate::request::TextComponent;
use vstd::prelude::*;

verus! {

/// Everything that drawing a text block takes, besides the text and the font.
#[derive(Clone, Copy, Debug, PartialEq, Eq, Structural)]
pub struct TextPlacement {
    /// The chosen font size.
    pub font_size: u32,
    /// The top-left corner of the measured block.
    pub position: Position,
    /// How the lines are aligned within the box's width.
    pub alignment: AxisAlignment,
    pub wrap: WrapMode,
    /// The width that lines are wrapped to and aligned within.
    pub box_width: i32,
    pub color: Color,
}

/// A misconfigured text block: which one of the list, and what is wrong.
#[derive(Clone, Copy, Debug, PartialEq, Eq, Structural)]
pub struct PlanError {
    pub index: usize,
    pub error: ConfigurationError,
}

/// The validated symbols of a text block, or the first one that is unknown:
/// the horizontal alignment is looked at first, then the vertical one, then
/// the wrapping strategy.
pub open spec fn configuration_of(component: TextComponent) -> Result<
    (Alignment, WrapMode),
    ConfigurationError,
> {
    match alignment_of(component.text_align.x@, component.text_align.y@) {
        Err(e) => Err(e),
        Ok(alignment) => match wrap_mode_of(component.wrap@) {
            None => Err(ConfigurationError::UnknownWrapMode),
            Some(wrap) => Ok((alignment, wrap)),
        },
    }
}

/// The placement of a validated text block whose search ended with `fit`.
pub open spec fn placement_of(
    component: TextComponent,
    alignment: Alignment,
    wrap: WrapMode,
    fit: TextFit,
) -> TextPlacement {
    TextPlacement {
        font_size: fit.font_size,
        position: Position {
            x: resolve_axis(
                alignment.x,
                component.offset.x as int,
                component.size.width as int,
                fit.width as int,
            ) as i64,
            y: resolve_axis(
                alignment.y,
                component.offset.y as int,
                component.size.height as int,
                fit.height as int,
            ) as i64,
        },
        alignment: alignment.x,
        wrap,
        box_width: component.size.width,
        color: component.color,
    }
}

/// What planning a text block yields when measuring follows the model `m`.
pub open spec fn planned(m: MeasureModel, component: TextComponent) -> Result<
    TextPlacement,
    ConfigurationError,
> {
    match configuration_of(component) {
        Err(e) => Err(e),
        Ok((alignment, wrap)) => {
            let font_size = fitted_size(
                m,
                component.text@,
                wrap,
                component.size.width as int,
                component.size.height as int,
                component.min_font_size as int,
                component.max_font_size as int,
            );
            let measured = m(component.text@, font_size, wrap, component.size.width as int);
            Ok(
                placement_of(
                    component,
                    alignment,
                    wrap,
                    TextFit {
                        font_size: font_size as u32,
                        width: measured.0 as i32,
                        height: measured.1 as i32,
                    },
                ),
            )
        },
    }
}

/// `measure` may be called for `component` wherever the search may call it:
/// on its text, at its minimum size and at every size of its range, with its
/// own wrapping strategy and the box's width as the wrap width. Nothing is
/// asked for a misconfigured block, which is never measured.
pub open spec fn can_measure<F: Fn(&str, u32, WrapMode, i32) -> (i32, i32)>(
    measure: F,
    component: TextComponent,
) -> bool {
    match configuration_of(component) {
        Err(_) => true,
        Ok((_, wrap)) => forall|text: &str, size: u32|
            text@ == component.text@ && (size == component.min_font_size
                || component.min_font_size <= size <= component.max_font_size)
                ==> #[trigger] call_requires(
                measure,
                (text, size, wrap, component.size.width),
            ),
    }
}

/// `placement` is a plan for `component` that `measure` bears out, whatever
/// the capability is: the block is well configured, the font size is its
/// minimum or lies in its range, and the position is resolved from a
/// measurement that the capability gave for the text at that size.
pub open spec fn planned_by<F: Fn(&str, u32, WrapMode, i32) -> (i32, i32)>(
    measure: F,
    component: TextComponent,
    placement: TextPlacement,
) -> bool {
    match configuration_of(component) {
        Err(_) => false,
        Ok((alignment, wrap)) => {
            &&& placement.font_size == component.min_font_size || component.min_font_size
                <= placement.font_size <= component.max_font_size
            &&& exists|text: &str, width: i32, height: i32|
                {
                    &&& text@ == component.text@
                    &&& #[trigger] call_ensures(
                        measure,
                        (text, placement.font_size, wrap, component.size.width),
                        (width, height),
                    )
                    &&& placement == placement_of(
                        component,
                        alignment,
                        wrap,
                        TextFit { font_size: placement.font_size, width, height },
                    )
                }
        },
    }
}

/// Plans one text block. The symbols are checked before anything is measured,
/// so a misconfigured block costs no measurement and leaves nothing to draw.
pub fn plan_text<F: Fn(&str, u32, WrapMode, i32) -> (i32, i32)>(
    component: &TextComponent,
    measure: &F,
) -> (plan: Result<TextPlacement, ConfigurationError>)
    requires
        can_measure(*measure, *component),
    ensures
        match configuration_of(*component) {
            Err(e) => plan == Err::<TextPlacement, ConfigurationError>(e),
            Ok(_) => plan matches Ok(placement) && planned_by(*measure, *component, placement),
        },
        forall|m: MeasureModel| #[trigger] measures(*measure, m) ==> plan == planned(m, *component),
{
    let alignment = match component.text_align.resolve() {
        Ok(alignment) => alignment,
        Err(e) => {
            return Err(e);
        },
    };
    let wrap = match parse_wrap_mode(&component.wrap) {
        Ok(wrap) => wrap,
        Err(e) => {
            return Err(e);
        },
    };
    let text = component.text.as_str();
    let fit = fit_text(
        text,
        measure,
        wrap,
        component.size.width,
        component.size.height,
        component.min_font_size,
        component.max_font_size,
    );
    let position = resolve_position(
        alignment,
        component.offset,
        component.size,
        Size { width: fit.width, height: fit.height },
    );
    let placement = TextPlacement {
        font_size: fit.font_size,
        position,
        alignment: alignment.x,
        wrap,
        box_width: component.size.width,
        color: component.color,
    };
    proof {
        assert(placement == placement_of(*component, alignment, wrap, fit));
        assert(call_ensures(
            *measure,
            (text, placement.font_size, wrap, component.size.width),
            (fit.width, fit.height),
        ));
    }
    Ok(placement)
}

/// The text pass: plans every block, in list order, and stops at the first
/// misconfigured one.
pub fn plan_texts<F: Fn(&str, u32, WrapMode, i32) -> (i32, i32)>(
    components: &Vec<TextComponent>,
    measure: &F,
) -> (plans: Result<Vec<TextPlacement>, PlanError>)
    requires
        forall|i: int|
            0 <= i < components.len() ==> can_measure(*measure, #[trigger] components[i]),
    ensures
        match plans {
            Ok(placements) => {
                &&& placements.len() == components.len()
                &&& forall|i: int|
                    0 <= i < components.len() ==> planned_by(
                        *measure,
                        #[trigger] components[i],
                        placements[i],
                    )
                &&& forall|m: MeasureModel, i: int|
                    measures(*measure, m) && 0 <= i < components.len() ==> #[trigger] planned(
                        m,
                        components[i],
                    ) == Ok::<TextPlacement, ConfigurationError>(placements[i])
            },
            Err(e) => {
                &&& e.index < components.len()
                &&& configuration_of(components[e.index as int]) == Err::<
                    (Alignment, WrapMode),
                    ConfigurationError,
                >(e.error)
                &&& forall|i: int|
                    0 <= i < e.index ==> configuration_of(#[trigger] components[i]) is Ok
            },
        },
{
    let mut placements: Vec<TextPlacement> = Vec::new();
    let mut i: usize = 0;
    while i < components.len()
        invariant
            i <= components.len(),
            placements.len() == i,
            forall|k: int|
                0 <= k < components.len() ==> can_measure(*measure, #[trigger] components[k]),
            forall|k: int|
                0 <= k < i ==> planned_by(*measure, #[trigger] components[k], placements[k]),
            forall|m: MeasureModel, k: int|
                measures(*measure, m) && 0 <= k < i ==> #[trigger] planned(m, components[k])
                    == Ok::<TextPlacement, ConfigurationError>(placements[k]),
        decreases components.len() - i,
    {
        match plan_text(&components[i], measure) {
            Ok(placement) => {
                placements.push(placement);
            },
            Err(error) => {
                return Err(PlanError { index: i, error });
            },
        }
        i = i + 1;
    }
    Ok(placements)
}

} // verus!
