//! Fingerprints of images, and the tracker that tells a new image from the
//! one that this process last published.
use vstd::prelude::*;
use crate::sample::ImageSample;

verus! {

/// What a fingerprint holds of an image: its pixel bytes.
pub open spec fn fingerprint_of(sample: ImageSample) -> Seq<u8> {
    sample.pixels@
}

/// A comparable record of an image's pixel content.
#[derive(Debug)]
pub struct Fingerprint {
    bytes: Vec<u8>,
}

impl View for Fingerprint {
    type V = Seq<u8>;

    closed spec fn view(&self) -> Seq<u8> {
        self.bytes@
    }
}

/// Relies on `itertools::equal`: true exactly when both sequences have the
/// same length and pairwise equal items.
#[verifier::external_body]
fn same_bytes(a: &Vec<u8>, b: &Vec<u8>) -> (r: bool)
    ensures
        r == (a@ == b@),
{
    itertools::equal(a, b)
}

impl PartialEq for Fingerprint {
    fn eq(&self, other: &Fingerprint) -> (r: bool)
        ensures
            r == (self@ == other@),
    {
        same_bytes(&self.bytes, &other.bytes)
    }
}

impl vstd::std_specs::cmp::PartialEqSpecImpl for Fingerprint {
    open spec fn obeys_eq_spec() -> bool {
        true
    }

    open spec fn eq_spec(&self, other: &Fingerprint) -> bool {
        self@ == other@
    }
}

impl Fingerprint {
    /// A fingerprint that holds `bytes`.
    pub fn from_bytes(bytes: Vec<u8>) -> (r: Fingerprint)
        ensures
            r@ == bytes@,
    {
        Fingerprint { bytes }
    }
}

/// The fingerprint of `sample`'s pixel content.
pub fn fingerprint(sample: &ImageSample) -> (r: Fingerprint)
    ensures
        r@ == fingerprint_of(*sample),
{
    let bytes = sample.pixels.clone();
    assert(bytes@ =~= sample.pixels@);
    Fingerprint { bytes }
}

/// Two images with the same pixels have the same fingerprint, whenever
/// either was captured.
pub proof fn fingerprint_is_deterministic(a: ImageSample, b: ImageSample)
    requires
        a.pixels@ == b.pixels@,
    ensures
        fingerprint_of(a) == fingerprint_of(b),
{
}

/// Whether an observed image is new input or the process's own last output.
#[derive(Clone, Copy, Debug, PartialEq, Eq, Structural)]
pub enum Decision {
    New,
    EchoOfOwnOutput,
}

/// The decision on `candidate` when the last published output had the
/// fingerprint `last`, if any.
pub open spec fn decision_for(last: Option<Seq<u8>>, candidate: Seq<u8>) -> Decision {
    match last {
        Some(fp) if fp == candidate => Decision::EchoOfOwnOutput,
        _ => Decision::New,
    }
}

/// Holds the fingerprint of the last image that this process published.
#[derive(Debug)]
pub struct FingerprintTracker {
    last: Option<Fingerprint>,
}

impl View for FingerprintTracker {
    type V = Option<Seq<u8>>;

    closed spec fn view(&self) -> Option<Seq<u8>> {
        match self.last {
            Some(fp) => Some(fp@),
            None => None,
        }
    }
}

impl FingerprintTracker {
    /// A tracker that has recorded nothing yet.
    pub fn new() -> (r: FingerprintTracker)
        ensures
            r@ == None::<Seq<u8>>,
    {
        FingerprintTracker { last: None }
    }

    /// Decides whether `candidate` is new input or an echo of the last
    /// recorded output. The tracker is left as it was.
    pub fn observe(&self, candidate: &Fingerprint) -> (r: Decision)
        ensures
            r == decision_for(self@, candidate@),
    {
        match &self.last {
            Some(fp) => {
                if same_bytes(&fp.bytes, &candidate.bytes) {
                    Decision::EchoOfOwnOutput
                } else {
                    Decision::New
                }
            },
            None => Decision::New,
        }
    }

    /// Records `fp` as the fingerprint of the last published output.
    pub fn record(&mut self, fp: Fingerprint)
        ensures
            final(self)@ == Some(fp@),
    {
        self.last = Some(fp);
    }
}

/// Once an output's fingerprint is recorded, observing that output again is
/// an echo, whatever was recorded before.
pub proof fn recorded_output_is_echo(output: ImageSample)
    ensures
        decision_for(Some(fingerprint_of(output)), fingerprint_of(output)) == Decision::EchoOfOwnOutput,
{
}

} // verus!
