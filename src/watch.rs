//! The decisions of the clipboard watch loop. The caller polls the
//! clipboard, asks the user, publishes and sleeps; this module decides what
//! to do with each image seen and produces the resized output.
use vstd::prelude::*;
use crate::args::ArgsResult;
use crate::fingerprint::{decision_for, fingerprint, fingerprint_of, Decision, FingerprintTracker};
use crate::sample::{ImageSample, CHANNELS};
use crate::wizard::{resolve, widening_mul, wizard_step, Answer, ResolvedSize, Step};

verus! {

/// The pixels that a Lanczos3 resampling of a `width` by `height` image
/// with `pixels` to `new_width` by `new_height` yields.
pub uninterp spec fn lanczos3_resampled(
    pixels: Seq<u8>,
    width: u32,
    height: u32,
    new_width: u32,
    new_height: u32,
) -> Seq<u8>;

/// Resampling fits in memory: the intermediate image of `width` by
/// `new_height` pixels in 32-bit floats, and the result in bytes.
pub open spec fn resample_fits(width: u32, new_width: u32, new_height: u32) -> bool {
    &&& CHANNELS * 4 * width * new_height <= isize::MAX
    &&& CHANNELS * new_width * new_height <= isize::MAX
}

/// Relies on `image::imageops::resize` with `FilterType::Lanczos3`: an image
/// of the requested size whose pixels depend on the source and the sizes
/// alone. `RgbaImage::from_raw`, which accepts a buffer of the exact size,
/// and `into_raw` convert.
#[verifier::external_body]
fn resample(source: &ImageSample, new_width: u32, new_height: u32) -> (r: Vec<u8>)
    requires
        source.is_well_formed(),
        new_width > 0,
        new_height > 0,
        resample_fits(source.width, new_width, new_height),
    ensures
        r@ == lanczos3_resampled(source.pixels@, source.width, source.height, new_width, new_height),
        r@.len() == CHANNELS * new_width * new_height,
{
    let image = image::RgbaImage::from_raw(source.width, source.height, source.pixels.clone()).unwrap();
    image::imageops::resize(&image, new_width, new_height, image::imageops::FilterType::Lanczos3).into_raw()
}

/// What to do with one clipboard snapshot.
#[derive(Clone, Copy, Debug, PartialEq, Eq, Structural)]
pub enum WatchAction {
    /// Nothing: no usable image, or the process's own last output.
    Skip,
    /// A new image: resolve its target size and resize it.
    Resolve,
}

/// Why no output was produced for a resolved size.
#[derive(Clone, Copy, Debug, PartialEq, Eq, Structural)]
pub enum ProduceError {
    /// The source's pixels do not match its size.
    MalformedSource,
    /// A side of the target size is zero.
    EmptySize,
    /// Resampling to that size would not fit in memory.
    TooLarge,
}

/// The action for `snapshot` when the last published output had the
/// fingerprint `last`: skip where there is no well-formed image or where it
/// is that output again, resolve otherwise.
pub open spec fn action_for(last: Option<Seq<u8>>, snapshot: Option<ImageSample>) -> WatchAction {
    match snapshot {
        None => WatchAction::Skip,
        Some(sample) => if !sample.is_well_formed() {
            WatchAction::Skip
        } else if decision_for(last, fingerprint_of(sample)) == Decision::EchoOfOwnOutput {
            WatchAction::Skip
        } else {
            WatchAction::Resolve
        },
    }
}

/// The outcome of producing an output of `size` from `source`, where it
/// fails.
pub open spec fn produce_error(source: ImageSample, size: ResolvedSize) -> Option<ProduceError> {
    if !source.is_well_formed() {
        Some(ProduceError::MalformedSource)
    } else if size.height == 0 || size.width == 0 {
        Some(ProduceError::EmptySize)
    } else if !resample_fits(source.width, size.width, size.height) {
        Some(ProduceError::TooLarge)
    } else {
        None
    }
}

/// The state of the watch loop: the request it resolves and the
/// fingerprint of its last published output.
#[derive(Debug)]
pub struct WatchLoop {
    request: ArgsResult,
    tracker: FingerprintTracker,
}

impl WatchLoop {
    /// The request that every new image is resolved against.
    pub closed spec fn request(&self) -> ArgsResult {
        self.request
    }

    /// The fingerprint of the last output, once one was produced.
    pub closed spec fn last_output(&self) -> Option<Seq<u8>> {
        self.tracker@
    }

    /// A loop that has produced nothing yet.
    pub fn new(request: ArgsResult) -> (r: WatchLoop)
        ensures
            r.request() == request,
            r.last_output() == None::<Seq<u8>>,
    {
        WatchLoop { request, tracker: FingerprintTracker::new() }
    }

    /// What to do with a clipboard snapshot; `None` where no image could be
    /// read.
    pub fn on_snapshot(&self, snapshot: &Option<ImageSample>) -> (r: WatchAction)
        ensures
            r == action_for(self.last_output(), *snapshot),
    {
        match snapshot {
            None => WatchAction::Skip,
            Some(sample) => {
                if !sample.check_well_formed() {
                    return WatchAction::Skip;
                }
                match self.tracker.observe(&fingerprint(sample)) {
                    Decision::EchoOfOwnOutput => WatchAction::Skip,
                    Decision::New => WatchAction::Resolve,
                }
            },
        }
    }

    /// The next step in resolving the loop's request for `source`, after
    /// `answers`.
    pub fn next_step(&self, source: &ImageSample, answers: &Vec<Answer>) -> (r: Step)
        ensures
            r == wizard_step(self.request(), source.height, source.width, answers@),
            r is Ask ==> answers@.len() < 4,
    {
        resolve(&self.request, source, answers)
    }

    /// Records `output` as the last output, so that the next snapshot that
    /// shows it is skipped.
    pub fn record_output(&mut self, output: &ImageSample)
        ensures
            final(self).request() == old(self).request(),
            final(self).last_output() == Some(fingerprint_of(*output)),
    {
        self.tracker.record(fingerprint(output));
    }

    /// Resizes `source` to `size` and records the output's fingerprint
    /// before handing it out for publishing. On failure the loop is left as
    /// it was.
    pub fn on_resolved(&mut self, source: &ImageSample, size: &ResolvedSize) -> (r: Result<
        ImageSample,
        ProduceError,
    >)
        ensures
            final(self).request() == old(self).request(),
            match produce_error(*source, *size) {
                Some(e) => r == Err::<ImageSample, ProduceError>(e) && final(self).last_output()
                    == old(self).last_output(),
                None => r matches Ok(output) && {
                    &&& output.width == size.width
                    &&& output.height == size.height
                    &&& output.pixels@ == lanczos3_resampled(
                        source.pixels@,
                        source.width,
                        source.height,
                        size.width,
                        size.height,
                    )
                    &&& output.is_well_formed()
                    &&& final(self).last_output() == Some(fingerprint_of(output))
                },
            },
    {
        if !source.check_well_formed() {
            return Err(ProduceError::MalformedSource);
        }
        if size.height == 0 || size.width == 0 {
            return Err(ProduceError::EmptySize);
        }
        let limit = isize::MAX as u128;
        let intermediate = 16 * (widening_mul(source.width, size.height) as u128);
        let output_len = 4 * (widening_mul(size.width, size.height) as u128);
        assert(intermediate == CHANNELS * 4 * source.width * size.height) by (nonlinear_arith)
            requires
                intermediate == 16 * (source.width * size.height),
                CHANNELS == 4,
        ;
        assert(output_len == CHANNELS * size.width * size.height) by (nonlinear_arith)
            requires
                output_len == 4 * (size.width * size.height),
                CHANNELS == 4,
        ;
        if intermediate > limit || output_len > limit {
            return Err(ProduceError::TooLarge);
        }
        let pixels = resample(source, size.width, size.height);
        let output = ImageSample::new(size.width, size.height, pixels);
        self.record_output(&output);
        Ok(output)
    }
}

/// Echo suppression: once the loop has produced an output, the next
/// snapshot that shows that output is skipped, not resized again.
pub proof fn own_output_is_skipped(after: WatchLoop, output: ImageSample)
    requires
        output.is_well_formed(),
        after.last_output() == Some(fingerprint_of(output)),
    ensures
        action_for(after.last_output(), Some(output)) == WatchAction::Skip,
{
}

} // verus!
