//! Resolution of a resize request into a height and a width, asking the
//! user for what the request leaves open.
//!
//! `resolve` is a pure step function: given the request, the source image
//! and the answers collected so far, it names either the next question or
//! the outcome. A caller asks each question, appends the answer, and calls
//! it again.
use vstd::prelude::*;
use crate::args::ArgsResult;
use crate::dimension::Dimension;
use crate::sample::ImageSample;
use crate::unit::Unit;
use crate::validation::Ratio;

verus! {

/// A fully resolved target size; both sides are positive.
#[derive(Clone, Copy, Debug, PartialEq, Eq, Structural)]
pub struct ResolvedSize {
    pub height: u32,
    pub width: u32,
}

/// Why a dimension was refused.
#[derive(Clone, Copy, Debug, PartialEq, Eq, Structural)]
pub enum DimensionIssue {
    /// A pixel count of zero.
    ZeroPixels,
    /// A percentage outside `1..100`.
    PercentOutOfRange,
    /// A side of the resolved size came out as zero.
    EmptyResult,
}

/// Why no size could be resolved for the current image.
#[derive(Clone, Copy, Debug, PartialEq, Eq, Structural)]
pub enum ResolveError {
    /// A ratio outside `(0, 1]`.
    InvalidRatio,
    InvalidDimension(DimensionIssue),
    /// The user cancelled, or an answer did not fit its question.
    InteractionAborted,
}

/// A question for the user.
#[derive(Clone, Copy, Debug, PartialEq, Eq, Structural)]
pub enum Prompt {
    /// Choose a `Unit`.
    Unit,
    /// Choose a `Dimension`.
    Dimension,
    /// Type the value of one dimension, in pixels where `is_pixel`, in
    /// percent otherwise.
    Value { dimension: Dimension, is_pixel: bool },
    /// Type a ratio.
    Ratio,
}

/// The user's answer to a `Prompt`.
#[derive(Clone, Copy, Debug, PartialEq, Eq, Structural)]
pub enum Answer {
    Unit(Unit),
    Dimension(Dimension),
    Value(u32),
    Ratio(Ratio),
    /// The user cancelled the question.
    Aborted,
}

/// What to do next: ask a question, or stop with an outcome.
#[derive(Clone, Copy, Debug, PartialEq, Eq)]
pub enum Step {
    Ask(Prompt),
    Done(Result<ResolvedSize, ResolveError>),
}

/// A dimension given directly: the pixel count itself, or the percentage
/// of the source side `original`, rounded down.
pub open spec fn applied(original: u32, value: u32, is_pixel: bool) -> int {
    if is_pixel {
        value as int
    } else {
        original as int * value as int / 100
    }
}

/// A dimension derived from the other one, keeping the aspect ratio of the
/// source: `other_src * value / given_src` in pixels (rounded down, at most
/// `u32::MAX`, and zero for an empty source), the same percentage of
/// `other_src` in percent.
pub open spec fn derived(given_src: u32, value: u32, other_src: u32, is_pixel: bool) -> int {
    if !is_pixel {
        other_src as int * value as int / 100
    } else if given_src == 0 {
        0
    } else if other_src as int * value as int / given_src as int > u32::MAX {
        u32::MAX as int
    } else {
        other_src as int * value as int / given_src as int
    }
}

/// What is wrong with `value` as a dimension in its unit, if anything.
pub open spec fn value_issue(value: u32, is_pixel: bool) -> Option<DimensionIssue> {
    if is_pixel {
        if value == 0 {
            Some(DimensionIssue::ZeroPixels)
        } else {
            None
        }
    } else if 1 <= value < 100 {
        None
    } else {
        Some(DimensionIssue::PercentOutOfRange)
    }
}

/// The size `height` by `width`, refused where a side is zero.
pub open spec fn sized(height: int, width: int) -> Result<ResolvedSize, ResolveError> {
    if height <= 0 || width <= 0 {
        Err(ResolveError::InvalidDimension(DimensionIssue::EmptyResult))
    } else {
        Ok(ResolvedSize { height: height as u32, width: width as u32 })
    }
}

/// Both sides of a `height` by `width` source scaled by `ratio`, rounded down.
pub open spec fn by_ratio(height: u32, width: u32, ratio: Ratio) -> Result<
    ResolvedSize,
    ResolveError,
> {
    if !ratio.is_valid() {
        Err(ResolveError::InvalidRatio)
    } else {
        sized(
            height as int * ratio.numerator as int / ratio.denominator as int,
            width as int * ratio.numerator as int / ratio.denominator as int,
        )
    }
}

/// Both sides given directly.
pub open spec fn by_both(height: u32, width: u32, h: u32, w: u32, is_pixel: bool) -> Result<
    ResolvedSize,
    ResolveError,
> {
    match value_issue(h, is_pixel) {
        Some(issue) => Err(ResolveError::InvalidDimension(issue)),
        None => match value_issue(w, is_pixel) {
            Some(issue) => Err(ResolveError::InvalidDimension(issue)),
            None => sized(applied(height, h, is_pixel), applied(width, w, is_pixel)),
        },
    }
}

/// The height given, the width derived from the aspect ratio.
pub open spec fn by_height(height: u32, width: u32, h: u32, is_pixel: bool) -> Result<
    ResolvedSize,
    ResolveError,
> {
    match value_issue(h, is_pixel) {
        Some(issue) => Err(ResolveError::InvalidDimension(issue)),
        None => sized(applied(height, h, is_pixel), derived(height, h, width, is_pixel)),
    }
}

/// The width given, the height derived from the aspect ratio.
pub open spec fn by_width(height: u32, width: u32, w: u32, is_pixel: bool) -> Result<
    ResolvedSize,
    ResolveError,
> {
    match value_issue(w, is_pixel) {
        Some(issue) => Err(ResolveError::InvalidDimension(issue)),
        None => sized(derived(width, w, height, is_pixel), applied(width, w, is_pixel)),
    }
}

/// Refused: the user cancelled, or an answer did not fit its question.
pub open spec fn aborted() -> Step {
    Step::Done(Err(ResolveError::InteractionAborted))
}

/// The step of a fully interactive resolution, after `answers`: a unit
/// first; for a ratio, the ratio; otherwise which dimensions, then their
/// values.
pub open spec fn interactive_step(height: u32, width: u32, answers: Seq<Answer>) -> Step {
    if answers.len() == 0 {
        Step::Ask(Prompt::Unit)
    } else {
        match answers[0] {
            Answer::Unit(Unit::Ratio) => if answers.len() == 1 {
                Step::Ask(Prompt::Ratio)
            } else {
                match answers[1] {
                    Answer::Ratio(r) => Step::Done(by_ratio(height, width, r)),
                    _ => aborted(),
                }
            },
            Answer::Unit(unit) => {
                let is_pixel = unit == Unit::Pixel;
                if answers.len() == 1 {
                    Step::Ask(Prompt::Dimension)
                } else {
                    match answers[1] {
                        Answer::Dimension(Dimension::Height) => if answers.len() == 2 {
                            Step::Ask(Prompt::Value { dimension: Dimension::Height, is_pixel })
                        } else {
                            match answers[2] {
                                Answer::Value(h) => Step::Done(by_height(height, width, h, is_pixel)),
                                _ => aborted(),
                            }
                        },
                        Answer::Dimension(Dimension::Width) => if answers.len() == 2 {
                            Step::Ask(Prompt::Value { dimension: Dimension::Width, is_pixel })
                        } else {
                            match answers[2] {
                                Answer::Value(w) => Step::Done(by_width(height, width, w, is_pixel)),
                                _ => aborted(),
                            }
                        },
                        Answer::Dimension(Dimension::Both) => if answers.len() == 2 {
                            Step::Ask(Prompt::Value { dimension: Dimension::Height, is_pixel })
                        } else {
                            match answers[2] {
                                Answer::Value(h) => match value_issue(h, is_pixel) {
                                    Some(issue) => Step::Done(
                                        Err(ResolveError::InvalidDimension(issue)),
                                    ),
                                    None => if answers.len() == 3 {
                                        Step::Ask(
                                            Prompt::Value { dimension: Dimension::Width, is_pixel },
                                        )
                                    } else {
                                        match answers[3] {
                                            Answer::Value(w) => Step::Done(
                                                by_both(height, width, h, w, is_pixel),
                                            ),
                                            _ => aborted(),
                                        }
                                    },
                                },
                                _ => aborted(),
                            }
                        },
                        _ => aborted(),
                    }
                }
            },
            _ => aborted(),
        }
    }
}

/// The step of resolving `request` for a `height` by `width` source after
/// `answers`. A ratio, two dimensions, or one dimension with the aspect
/// ratio kept need no question; one dimension with the aspect ratio ignored
/// asks for the other; no dimension at all is fully interactive.
pub open spec fn wizard_step(request: ArgsResult, height: u32, width: u32, answers: Seq<Answer>) -> Step {
    match request {
        ArgsResult::Ratio(r) => Step::Done(by_ratio(height, width, r)),
        ArgsResult::Dimensions(Some(h), Some(w), meta) => Step::Done(
            by_both(height, width, h, w, meta.is_pixel),
        ),
        ArgsResult::Dimensions(Some(h), None, meta) => if !meta.ignore_aspect_ratio {
            Step::Done(by_height(height, width, h, meta.is_pixel))
        } else {
            match value_issue(h, meta.is_pixel) {
                Some(issue) => Step::Done(Err(ResolveError::InvalidDimension(issue))),
                None => if answers.len() == 0 {
                    Step::Ask(Prompt::Value { dimension: Dimension::Width, is_pixel: meta.is_pixel })
                } else {
                    match answers[0] {
                        Answer::Value(w) => Step::Done(by_both(height, width, h, w, meta.is_pixel)),
                        _ => aborted(),
                    }
                },
            }
        },
        ArgsResult::Dimensions(None, Some(w), meta) => if !meta.ignore_aspect_ratio {
            Step::Done(by_width(height, width, w, meta.is_pixel))
        } else {
            match value_issue(w, meta.is_pixel) {
                Some(issue) => Step::Done(Err(ResolveError::InvalidDimension(issue))),
                None => if answers.len() == 0 {
                    Step::Ask(Prompt::Value { dimension: Dimension::Height, is_pixel: meta.is_pixel })
                } else {
                    match answers[0] {
                        Answer::Value(h) => Step::Done(by_both(height, width, h, w, meta.is_pixel)),
                        _ => aborted(),
                    }
                },
            }
        },
        _ => interactive_step(height, width, answers),
    }
}


/// The product of two `u32`, which always fits in a `u64`.
pub(crate) fn widening_mul(a: u32, b: u32) -> (r: u64)
    ensures
        r == a * b,
{
    assert(0 <= a * b <= 0xFFFF_FFFF * 0xFFFF_FFFF) by (nonlinear_arith)
        requires
            0 <= a <= 0xFFFF_FFFF,
            0 <= b <= 0xFFFF_FFFF,
    ;
    a as u64 * b as u64
}

/// A dimension given directly: `target_size_pixels_or_percent` itself in
/// pixels, or that percentage of `original_size`, rounded down.
pub fn maybe_apply_percent(original_size: u32, target_size_pixels_or_percent: u32, is_pixel: bool) -> (r: u32)
    requires
        is_pixel || target_size_pixels_or_percent <= 100,
    ensures
        r == applied(original_size, target_size_pixels_or_percent, is_pixel),
{
    if is_pixel {
        target_size_pixels_or_percent
    } else {
        let product = widening_mul(original_size, target_size_pixels_or_percent);
        assert(product <= 100 * 0xFFFF_FFFF) by (nonlinear_arith)
            requires
                product == original_size * target_size_pixels_or_percent,
                target_size_pixels_or_percent <= 100,
                original_size <= 0xFFFF_FFFF,
        ;
        (product / 100) as u32
    }
}

/// A dimension derived from the other one: `current_dimension` is the
/// value given for the side that measures `image_first_dimension` in the
/// source, and the result is the side that measures
/// `image_second_dimension`, keeping the source's aspect ratio.
pub fn resize(image_first_dimension: u32, current_dimension: u32, image_second_dimension: u32, is_pixel: bool) -> (r: u32)
    requires
        is_pixel || current_dimension <= 100,
    ensures
        r == derived(image_first_dimension, current_dimension, image_second_dimension, is_pixel),
{
    let product = widening_mul(image_second_dimension, current_dimension);
    assert(product <= 0xFFFF_FFFF * 0xFFFF_FFFF) by (nonlinear_arith)
        requires
            product == image_second_dimension * current_dimension,
            image_second_dimension <= 0xFFFF_FFFF,
            current_dimension <= 0xFFFF_FFFF,
    ;
    if !is_pixel {
        assert(product <= 100 * 0xFFFF_FFFF) by (nonlinear_arith)
            requires
                product == image_second_dimension * current_dimension,
                current_dimension <= 100,
                image_second_dimension <= 0xFFFF_FFFF,
        ;
        return (product / 100) as u32;
    }
    if image_first_dimension == 0 {
        return 0;
    }
    let scaled = product / image_first_dimension as u64;
    if scaled > 0xFFFF_FFFF {
        0xFFFF_FFFF
    } else {
        scaled as u32
    }
}

/// Both sides of `image` scaled by `ratio`, rounded down, as
/// `(height, width)`.
pub fn apply_ratio_to_image(image: &ImageSample, ratio: &Ratio) -> (r: (u32, u32))
    requires
        ratio.is_valid(),
    ensures
        r.0 == image.height as int * ratio.numerator as int / ratio.denominator as int,
        r.1 == image.width as int * ratio.numerator as int / ratio.denominator as int,
{
    (scale(image.height, ratio), scale(image.width, ratio))
}

fn scale(side: u32, ratio: &Ratio) -> (r: u32)
    requires
        ratio.is_valid(),
    ensures
        r == side as int * ratio.numerator as int / ratio.denominator as int,
{
    let product = widening_mul(side, ratio.numerator);
    let n = ratio.numerator as u64;
    let d = ratio.denominator as u64;
    assert(product <= side * d) by (nonlinear_arith)
        requires
            product == side * n,
            n <= d,
    ;
    assert(product / d <= side) by (nonlinear_arith)
        requires
            product <= side * d,
            d > 0,
    ;
    (product / d) as u32
}

/// What is wrong with `value` as a dimension in its unit, if anything.
fn check_value(value: u32, is_pixel: bool) -> (r: Option<DimensionIssue>)
    ensures
        r == value_issue(value, is_pixel),
{
    if is_pixel {
        if value == 0 {
            Some(DimensionIssue::ZeroPixels)
        } else {
            None
        }
    } else if 1 <= value && value < 100 {
        None
    } else {
        Some(DimensionIssue::PercentOutOfRange)
    }
}

/// The size `height` by `width`, refused where a side is zero.
fn finish(height: u32, width: u32) -> (r: Result<ResolvedSize, ResolveError>)
    ensures
        r == sized(height as int, width as int),
{
    if height == 0 || width == 0 {
        Err(ResolveError::InvalidDimension(DimensionIssue::EmptyResult))
    } else {
        Ok(ResolvedSize { height, width })
    }
}

fn resolve_ratio(source: &ImageSample, ratio: &Ratio) -> (r: Result<ResolvedSize, ResolveError>)
    ensures
        r == by_ratio(source.height, source.width, *ratio),
{
    if !ratio.check() {
        return Err(ResolveError::InvalidRatio);
    }
    let (height, width) = apply_ratio_to_image(source, ratio);
    finish(height, width)
}

fn resolve_both(source: &ImageSample, h: u32, w: u32, is_pixel: bool) -> (r: Result<ResolvedSize, ResolveError>)
    ensures
        r == by_both(source.height, source.width, h, w, is_pixel),
{
    if let Some(issue) = check_value(h, is_pixel) {
        return Err(ResolveError::InvalidDimension(issue));
    }
    if let Some(issue) = check_value(w, is_pixel) {
        return Err(ResolveError::InvalidDimension(issue));
    }
    finish(
        maybe_apply_percent(source.height, h, is_pixel),
        maybe_apply_percent(source.width, w, is_pixel),
    )
}

fn resolve_height(source: &ImageSample, h: u32, is_pixel: bool) -> (r: Result<ResolvedSize, ResolveError>)
    ensures
        r == by_height(source.height, source.width, h, is_pixel),
{
    if let Some(issue) = check_value(h, is_pixel) {
        return Err(ResolveError::InvalidDimension(issue));
    }
    finish(
        maybe_apply_percent(source.height, h, is_pixel),
        resize(source.height, h, source.width, is_pixel),
    )
}

fn resolve_width(source: &ImageSample, w: u32, is_pixel: bool) -> (r: Result<ResolvedSize, ResolveError>)
    ensures
        r == by_width(source.height, source.width, w, is_pixel),
{
    if let Some(issue) = check_value(w, is_pixel) {
        return Err(ResolveError::InvalidDimension(issue));
    }
    finish(
        resize(source.width, w, source.height, is_pixel),
        maybe_apply_percent(source.width, w, is_pixel),
    )
}

fn interactive(source: &ImageSample, answers: &Vec<Answer>) -> (r: Step)
    ensures
        r == interactive_step(source.height, source.width, answers@),
        r is Ask ==> answers@.len() < 4,
{
    let n = answers.len();
    if n == 0 {
        return Step::Ask(Prompt::Unit);
    }
    let is_pixel = match answers[0] {
        Answer::Unit(Unit::Ratio) => {
            if n == 1 {
                return Step::Ask(Prompt::Ratio);
            }
            return match answers[1] {
                Answer::Ratio(r) => Step::Done(resolve_ratio(source, &r)),
                _ => Step::Done(Err(ResolveError::InteractionAborted)),
            };
        },
        Answer::Unit(Unit::Pixel) => true,
        Answer::Unit(Unit::Percentage) => false,
        _ => return Step::Done(Err(ResolveError::InteractionAborted)),
    };
    if n == 1 {
        return Step::Ask(Prompt::Dimension);
    }
    let dimension = match answers[1] {
        Answer::Dimension(d) => d,
        _ => return Step::Done(Err(ResolveError::InteractionAborted)),
    };
    if n == 2 {
        let first = match dimension {
            Dimension::Width => Dimension::Width,
            _ => Dimension::Height,
        };
        return Step::Ask(Prompt::Value { dimension: first, is_pixel });
    }
    let value = match answers[2] {
        Answer::Value(v) => v,
        _ => return Step::Done(Err(ResolveError::InteractionAborted)),
    };
    match dimension {
        Dimension::Height => Step::Done(resolve_height(source, value, is_pixel)),
        Dimension::Width => Step::Done(resolve_width(source, value, is_pixel)),
        Dimension::Both => {
            if let Some(issue) = check_value(value, is_pixel) {
                return Step::Done(Err(ResolveError::InvalidDimension(issue)));
            }
            if n == 3 {
                return Step::Ask(Prompt::Value { dimension: Dimension::Width, is_pixel });
            }
            match answers[3] {
                Answer::Value(w) => Step::Done(resolve_both(source, value, w, is_pixel)),
                _ => Step::Done(Err(ResolveError::InteractionAborted)),
            }
        },
    }
}

/// The next step in resolving `request` for `source`, after `answers`: the
/// next question to ask, or the resolved size, or why there is none.
pub fn resolve(request: &ArgsResult, source: &ImageSample, answers: &Vec<Answer>) -> (r: Step)
    ensures
        r == wizard_step(*request, source.height, source.width, answers@),
        r is Ask ==> answers@.len() < 4,
{
    match request {
        ArgsResult::Ratio(ratio) => Step::Done(resolve_ratio(source, ratio)),
        ArgsResult::Dimensions(Some(h), Some(w), meta) => Step::Done(
            resolve_both(source, *h, *w, meta.is_pixel),
        ),
        ArgsResult::Dimensions(Some(h), None, meta) => {
            if !meta.ignore_aspect_ratio {
                return Step::Done(resolve_height(source, *h, meta.is_pixel));
            }
            if let Some(issue) = check_value(*h, meta.is_pixel) {
                return Step::Done(Err(ResolveError::InvalidDimension(issue)));
            }
            if answers.len() == 0 {
                return Step::Ask(Prompt::Value { dimension: Dimension::Width, is_pixel: meta.is_pixel });
            }
            match answers[0] {
                Answer::Value(w) => Step::Done(resolve_both(source, *h, w, meta.is_pixel)),
                _ => Step::Done(Err(ResolveError::InteractionAborted)),
            }
        },
        ArgsResult::Dimensions(None, Some(w), meta) => {
            if !meta.ignore_aspect_ratio {
                return Step::Done(resolve_width(source, *w, meta.is_pixel));
            }
            if let Some(issue) = check_value(*w, meta.is_pixel) {
                return Step::Done(Err(ResolveError::InvalidDimension(issue)));
            }
            if answers.len() == 0 {
                return Step::Ask(Prompt::Value { dimension: Dimension::Height, is_pixel: meta.is_pixel });
            }
            match answers[0] {
                Answer::Value(h) => Step::Done(resolve_both(source, h, *w, meta.is_pixel)),
                _ => Step::Done(Err(ResolveError::InteractionAborted)),
            }
        },
        _ => interactive(source, answers),
    }
}

} // verus!
