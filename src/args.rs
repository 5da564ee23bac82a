//! The resize flags and the request that they make.
use vstd::prelude::*;
use crate::validation::Ratio;

verus! {

/// The resize flags as given on the command line.
///
/// `height` and `width` are in pixels, `height_percent` and `width_percent`
/// in percent of the source image.
#[derive(Clone, Copy, Debug, PartialEq, Eq, Structural)]
pub struct Args {
    pub height: Option<u32>,
    pub width: Option<u32>,
    pub height_percent: Option<u32>,
    pub width_percent: Option<u32>,
    pub ratio: Option<Ratio>,
    pub ignore_aspect_ratio: bool,
}

/// How the dimensions of a request are to be read.
#[derive(Clone, Copy, Debug, PartialEq, Eq, Structural)]
pub struct ArgsMetadata {
    /// The dimensions are pixel counts; otherwise they are percentages.
    pub is_pixel: bool,
    /// A missing dimension is asked for instead of derived from the aspect
    /// ratio of the source.
    pub ignore_aspect_ratio: bool,
}

impl ArgsMetadata {
    pub fn new(is_pixel: bool, ignore_aspect_ratio: bool) -> (r: ArgsMetadata)
        ensures
            r.is_pixel == is_pixel,
            r.ignore_aspect_ratio == ignore_aspect_ratio,
    {
        ArgsMetadata { is_pixel, ignore_aspect_ratio }
    }
}

/// A resize request: explicit dimensions, a uniform ratio, or nothing, in
/// which case everything is asked for.
#[derive(Clone, Copy, Debug, PartialEq, Eq, Structural)]
pub enum ArgsResult {
    /// Height, width, and how to read them.
    Dimensions(Option<u32>, Option<u32>, ArgsMetadata),
    /// No resize flag was given.
    NoFlags,
    /// Both dimensions are scaled by this ratio.
    Ratio(Ratio),
}

/// Flags that cannot be given together.
#[derive(Clone, Copy, Debug, PartialEq, Eq, Structural)]
pub enum ArgsConflict {
    /// `ratio` with a height or a width.
    RatioWithDimensions,
    /// `ratio` with `ignore_aspect_ratio`.
    RatioWithIgnoreAspectRatio,
    /// A dimension in pixels with one in percent.
    PixelsWithPercent,
    /// `ignore_aspect_ratio` with both dimensions in pixels.
    IgnoreAspectRatioWithBothPixels,
    /// `ignore_aspect_ratio` with both dimensions in percent.
    IgnoreAspectRatioWithBothPercents,
}

/// No dimension flag is set.
pub open spec fn no_dimension(args: Args) -> bool {
    &&& args.height is None
    &&& args.height_percent is None
    &&& args.width is None
    &&& args.width_percent is None
}

/// The request that `args` makes.
pub open spec fn request_of(args: Args) -> ArgsResult {
    if no_dimension(args) && args.ratio is None {
        ArgsResult::NoFlags
    } else if args.ratio is Some {
        ArgsResult::Ratio(args.ratio->0)
    } else {
        ArgsResult::Dimensions(
            if args.height is Some {
                args.height
            } else {
                args.height_percent
            },
            if args.width is Some {
                args.width
            } else {
                args.width_percent
            },
            ArgsMetadata {
                is_pixel: args.height is Some || args.width is Some,
                ignore_aspect_ratio: args.ignore_aspect_ratio,
            },
        )
    }
}

/// The first conflict among `args`, in the order that `ArgsConflict` lists.
pub open spec fn conflict_of(args: Args) -> Option<ArgsConflict> {
    if args.ratio is Some && !no_dimension(args) {
        Some(ArgsConflict::RatioWithDimensions)
    } else if args.ratio is Some && args.ignore_aspect_ratio {
        Some(ArgsConflict::RatioWithIgnoreAspectRatio)
    } else if (args.height is Some || args.width is Some) && (args.height_percent is Some
        || args.width_percent is Some) {
        Some(ArgsConflict::PixelsWithPercent)
    } else if args.ignore_aspect_ratio && args.height is Some && args.width is Some {
        Some(ArgsConflict::IgnoreAspectRatioWithBothPixels)
    } else if args.ignore_aspect_ratio && args.height_percent is Some && args.width_percent is Some {
        Some(ArgsConflict::IgnoreAspectRatioWithBothPercents)
    } else {
        None
    }
}

/// Whether `flag` is unset.
pub fn is_unset(flag: &Option<u32>) -> (r: bool)
    ensures
        r == flag is None,
{
    flag.is_none()
}

/// Relies on `itertools::all`: true exactly when the predicate holds of
/// every item.
#[verifier::external_body]
fn all_unset(flags: &[Option<u32>; 4]) -> (r: bool)
    ensures
        r == forall|i: int| 0 <= i < 4 ==> (#[trigger] flags@[i]) is None,
{
    itertools::all(flags, is_unset)
}

impl Args {
    /// The first pair of flags that cannot be given together, if any.
    pub fn check_conflicts(&self) -> (r: Result<(), ArgsConflict>)
        ensures
            r == (match conflict_of(*self) {
                Some(c) => Err(c),
                None => Ok::<(), ArgsConflict>(()),
            }),
    {
        let has_pixels = self.height.is_some() || self.width.is_some();
        let has_percent = self.height_percent.is_some() || self.width_percent.is_some();
        if self.ratio.is_some() && (has_pixels || has_percent) {
            Err(ArgsConflict::RatioWithDimensions)
        } else if self.ratio.is_some() && self.ignore_aspect_ratio {
            Err(ArgsConflict::RatioWithIgnoreAspectRatio)
        } else if has_pixels && has_percent {
            Err(ArgsConflict::PixelsWithPercent)
        } else if self.ignore_aspect_ratio && self.height.is_some() && self.width.is_some() {
            Err(ArgsConflict::IgnoreAspectRatioWithBothPixels)
        } else if self.ignore_aspect_ratio && self.height_percent.is_some()
            && self.width_percent.is_some() {
            Err(ArgsConflict::IgnoreAspectRatioWithBothPercents)
        } else {
            Ok(())
        }
    }
}

impl ArgsResult {
    /// The request that the flags make.
    pub fn get(args: &Args) -> (r: ArgsResult)
        ensures
            r == request_of(*args),
    {
        let flags = [args.height, args.height_percent, args.width, args.width_percent];
        if all_unset(&flags) && args.ratio.is_none() {
            assert(flags@[0] is None && flags@[1] is None && flags@[2] is None && flags@[3] is None);
            return ArgsResult::NoFlags;
        }
        if let Some(ratio) = args.ratio {
            return ArgsResult::Ratio(ratio);
        }
        let has_pixel_height = args.height.is_some();
        let has_pixel_width = args.width.is_some();
        let height = if has_pixel_height {
            args.height
        } else {
            args.height_percent
        };
        let width = if has_pixel_width {
            args.width
        } else {
            args.width_percent
        };
        ArgsResult::Dimensions(
            height,
            width,
            ArgsMetadata::new(has_pixel_height || has_pixel_width, args.ignore_aspect_ratio),
        )
    }
}

} // verus!
