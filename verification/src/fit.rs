//! The font-size search: bisects a range of font sizes for a large one at
//! which a text still fits its box, measuring only a logarithmic number of
//! sizes. The answer is best effort: a probe that meets the box exactly on one
//! axis ends the search, though a larger size might still fit.
//!
//! Measuring is not this library's business. The search takes a measuring
//! capability, a function from text, font size, wrapping strategy and wrap
//! width to the width and height of the rendered block, and its contract is
//! stated over a mathematical model of that capability.

use crate::geometry::WrapMode;
use vstd::prelude::*;

verus! {

/// The outcome of a search: the chosen font size and what the text measures
/// at that size.
#[derive(Clone, Copy, Debug, PartialEq, Eq, Structural)]
pub struct TextFit {
    pub font_size: u32,
    pub width: i32,
    pub height: i32,
}

/// A model of a measuring capability: the width and height of `text` at a font
/// size, for a wrapping strategy and a wrap width.
pub type MeasureModel = spec_fn(Seq<char>, int, WrapMode, int) -> (int, int);

/// The capability `measure` returns what the model `m` says, on every input.
pub open spec fn measures<F: Fn(&str, u32, WrapMode, i32) -> (i32, i32)>(
    measure: F,
    m: MeasureModel,
) -> bool {
    forall|text: &str, size: u32, wrap: WrapMode, width: i32, r: (i32, i32)|
        #[trigger] call_ensures(measure, (text, size, wrap, width), r) ==> m(
            text@,
            size as int,
            wrap,
            width as int,
        ) == (r.0 as int, r.1 as int)
}

/// A measured block of `size.0` by `size.1` lies within the target box.
pub open spec fn fits(size: (int, int), target_width: int, target_height: int) -> bool {
    size.0 <= target_width && size.1 <= target_height
}

/// A measured block reaches the edge of the target box, or goes beyond it, on
/// at least one axis.
pub open spec fn fills(size: (int, int), target_width: int, target_height: int) -> bool {
    size.0 >= target_width || size.1 >= target_height
}

/// The size that the bisection of `lower..=upper` settles on.
///
/// A range of one size yields that size. A range of two yields the upper one
/// if it fits and the lower one otherwise. A wider range is probed in the
/// middle: a probe that overflows the box discards the middle and everything
/// above it, a probe that meets the box exactly on an axis is the answer, and
/// a probe that leaves room on both axes discards everything below it.
pub open spec fn search_size(
    m: MeasureModel,
    text: Seq<char>,
    wrap: WrapMode,
    target_width: int,
    target_height: int,
    lower: int,
    upper: int,
) -> int
    decreases upper - lower,
{
    if upper <= lower {
        lower
    } else if upper == lower + 1 {
        if fits(m(text, upper, wrap, target_width), target_width, target_height) {
            upper
        } else {
            lower
        }
    } else {
        let mid = (lower + upper) / 2;
        let probe = m(text, mid, wrap, target_width);
        if !fits(probe, target_width, target_height) {
            search_size(m, text, wrap, target_width, target_height, lower, mid - 1)
        } else if probe.0 == target_width || probe.1 == target_height {
            mid
        } else {
            search_size(m, text, wrap, target_width, target_height, mid, upper)
        }
    }
}

/// The font size that the search returns.
///
/// The minimum is a hard floor: when the text at the minimum size already
/// fills the box on an axis, the minimum is returned, overflow or not. An
/// empty range, `max_size < min_size`, leaves the minimum as the only
/// candidate. Otherwise the range is bisected.
pub open spec fn fitted_size(
    m: MeasureModel,
    text: Seq<char>,
    wrap: WrapMode,
    target_width: int,
    target_height: int,
    min_size: int,
    max_size: int,
) -> int {
    if fills(m(text, min_size, wrap, target_width), target_width, target_height) || max_size
        < min_size {
        min_size
    } else {
        search_size(m, text, wrap, target_width, target_height, min_size, max_size)
    }
}

/// Finds the font size for `text` in a box of `target_width` by
/// `target_height`, measuring with `target_width` as the wrap width.
///
/// The result is the size that [`fitted_size`] names, together with a
/// measurement that the capability returned for that size.
pub fn fit_text<F: Fn(&str, u32, WrapMode, i32) -> (i32, i32)>(
    text: &str,
    measure: &F,
    wrap: WrapMode,
    target_width: i32,
    target_height: i32,
    min_font_size: u32,
    max_font_size: u32,
) -> (fit: TextFit)
    requires
        forall|size: u32|
            size == min_font_size || min_font_size <= size <= max_font_size ==> call_requires(
                *measure,
                (text, size, wrap, target_width),
            ),
    ensures
        fit.font_size == min_font_size || min_font_size <= fit.font_size <= max_font_size,
        call_ensures(
            *measure,
            (text, fit.font_size, wrap, target_width),
            (fit.width, fit.height),
        ),
        forall|m: MeasureModel| #[trigger]
            measures(*measure, m) ==> fit.font_size == fitted_size(
                m,
                text@,
                wrap,
                target_width as int,
                target_height as int,
                min_font_size as int,
                max_font_size as int,
            ),
{
    let first = measure(text, min_font_size, wrap, target_width);
    if first.0 >= target_width || first.1 >= target_height || max_font_size < min_font_size {
        return TextFit { font_size: min_font_size, width: first.0, height: first.1 };
    }
    let mut lower = min_font_size;
    let mut upper = max_font_size;
    loop
        invariant
            min_font_size <= lower <= upper <= max_font_size,
            forall|size: u32|
                size == min_font_size || min_font_size <= size <= max_font_size ==> call_requires(
                    *measure,
                    (text, size, wrap, target_width),
                ),
            forall|m: MeasureModel| #[trigger]
                measures(*measure, m) ==> search_size(
                    m,
                    text@,
                    wrap,
                    target_width as int,
                    target_height as int,
                    lower as int,
                    upper as int,
                ) == fitted_size(
                    m,
                    text@,
                    wrap,
                    target_width as int,
                    target_height as int,
                    min_font_size as int,
                    max_font_size as int,
                ),
        decreases upper - lower,
    {
        if lower == upper {
            let last = measure(text, lower, wrap, target_width);
            return TextFit { font_size: lower, width: last.0, height: last.1 };
        }
        if upper - lower == 1 {
            let high = measure(text, upper, wrap, target_width);
            if high.0 <= target_width && high.1 <= target_height {
                return TextFit { font_size: upper, width: high.0, height: high.1 };
            }
            let low = measure(text, lower, wrap, target_width);
            return TextFit { font_size: lower, width: low.0, height: low.1 };
        }
        let mid = lower + (upper - lower) / 2;
        let probe = measure(text, mid, wrap, target_width);
        if probe.0 > target_width || probe.1 > target_height {
            upper = mid - 1;
        } else if probe.0 == target_width || probe.1 == target_height {
            return TextFit { font_size: mid, width: probe.0, height: probe.1 };
        } else {
            lower = mid;
        }
    }
}

/// Between the sizes `from` and `to`, growing the font never shrinks the
/// measured block, on either axis.
pub open spec fn non_decreasing(
    m: MeasureModel,
    text: Seq<char>,
    wrap: WrapMode,
    width: int,
    from: int,
    to: int,
) -> bool {
    forall|small: int, large: int|
        from <= small <= large <= to ==> (#[trigger] m(text, small, wrap, width)).0 <= (
        #[trigger] m(text, large, wrap, width)).0 && m(text, small, wrap, width).1 <= m(
            text,
            large,
            wrap,
            width,
        ).1
}

/// The bisection of a range answers with a size of that range, and when the
/// text fits at the lower end it fits at the answer too.
pub proof fn lemma_search_stays_in_range(
    m: MeasureModel,
    text: Seq<char>,
    wrap: WrapMode,
    target_width: int,
    target_height: int,
    lower: int,
    upper: int,
)
    requires
        lower <= upper,
    ensures
        lower <= search_size(m, text, wrap, target_width, target_height, lower, upper) <= upper,
        fits(m(text, lower, wrap, target_width), target_width, target_height) ==> fits(
            m(
                text,
                search_size(m, text, wrap, target_width, target_height, lower, upper),
                wrap,
                target_width,
            ),
            target_width,
            target_height,
        ),
    decreases upper - lower,
{
    if upper > lower + 1 {
        let mid = (lower + upper) / 2;
        let probe = m(text, mid, wrap, target_width);
        if !fits(probe, target_width, target_height) {
            lemma_search_stays_in_range(
                m,
                text,
                wrap,
                target_width,
                target_height,
                lower,
                mid - 1,
            );
        } else if probe.0 == target_width || probe.1 == target_height {
        } else {
            lemma_search_stays_in_range(m, text, wrap, target_width, target_height, mid, upper);
        }
    }
}

/// When the text at the minimum size already fills the box on an axis, the
/// search answers with the minimum, whatever the maximum is.
pub proof fn lemma_filled_at_minimum(
    m: MeasureModel,
    text: Seq<char>,
    wrap: WrapMode,
    target_width: int,
    target_height: int,
    min_size: int,
    max_size: int,
)
    requires
        fills(m(text, min_size, wrap, target_width), target_width, target_height),
    ensures
        fitted_size(m, text, wrap, target_width, target_height, min_size, max_size) == min_size,
{
}

/// A range of a single size answers with that size, whether the text fits
/// or not.
pub proof fn lemma_single_candidate(
    m: MeasureModel,
    text: Seq<char>,
    wrap: WrapMode,
    target_width: int,
    target_height: int,
    size: int,
)
    ensures
        fitted_size(m, text, wrap, target_width, target_height, size, size) == size,
{
}

/// The answer is never below the minimum and never outside a non-empty range.
pub proof fn lemma_fitted_size_in_range(
    m: MeasureModel,
    text: Seq<char>,
    wrap: WrapMode,
    target_width: int,
    target_height: int,
    min_size: int,
    max_size: int,
)
    ensures
        min_size <= fitted_size(m, text, wrap, target_width, target_height, min_size, max_size),
        min_size <= max_size ==> fitted_size(
            m,
            text,
            wrap,
            target_width,
            target_height,
            min_size,
            max_size,
        ) <= max_size,
{
    if min_size <= max_size {
        lemma_search_stays_in_range(
            m,
            text,
            wrap,
            target_width,
            target_height,
            min_size,
            max_size,
        );
    }
}

/// When the text fits the box at the minimum size, it fits at the answer:
/// the search never trades a fitting size for an overflowing one.
pub proof fn lemma_fit_is_kept(
    m: MeasureModel,
    text: Seq<char>,
    wrap: WrapMode,
    target_width: int,
    target_height: int,
    min_size: int,
    max_size: int,
)
    requires
        fits(m(text, min_size, wrap, target_width), target_width, target_height),
    ensures
        fits(
            m(
                text,
                fitted_size(m, text, wrap, target_width, target_height, min_size, max_size),
                wrap,
                target_width,
            ),
            target_width,
            target_height,
        ),
{
    if min_size <= max_size {
        lemma_search_stays_in_range(
            m,
            text,
            wrap,
            target_width,
            target_height,
            min_size,
            max_size,
        );
    }
}

/// With a measurement that never shrinks as the font grows through the
/// range, the answer does not exceed the largest size of the range at which the text fits, and it
/// is at least the minimum.
///
/// `largest` is that size: the text fits there and at no larger size of the
/// range. Where no size of the range fits there is no such size, and the
/// answer is the minimum, the floor that is never gone below.
pub proof fn lemma_never_beyond_largest_fit(
    m: MeasureModel,
    text: Seq<char>,
    wrap: WrapMode,
    target_width: int,
    target_height: int,
    min_size: int,
    max_size: int,
    largest: int,
)
    requires
        non_decreasing(m, text, wrap, target_width, min_size, max_size),
        min_size <= largest <= max_size,
        fits(m(text, largest, wrap, target_width), target_width, target_height),
        forall|size: int|
            largest < size <= max_size ==> !fits(
                #[trigger] m(text, size, wrap, target_width),
                target_width,
                target_height,
            ),
    ensures
        min_size <= fitted_size(m, text, wrap, target_width, target_height, min_size, max_size)
            <= largest,
{
    let answer = fitted_size(m, text, wrap, target_width, target_height, min_size, max_size);
    lemma_fitted_size_in_range(m, text, wrap, target_width, target_height, min_size, max_size);
    assert(m(text, min_size, wrap, target_width).0 <= m(text, largest, wrap, target_width).0);
    assert(m(text, min_size, wrap, target_width).1 <= m(text, largest, wrap, target_width).1);
    lemma_fit_is_kept(m, text, wrap, target_width, target_height, min_size, max_size);
    assert(fits(m(text, answer, wrap, target_width), target_width, target_height));
}

} // verus!
