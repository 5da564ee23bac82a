use picst::args::ArgsResult;
use picst::fingerprint::{fingerprint, Decision, Fingerprint, FingerprintTracker};
use picst::sample::ImageSample;
use picst::validation::Ratio;
use picst::wizard::{Answer, ResolvedSize, Step};
use picst::watch::{ProduceError, WatchAction, WatchLoop};

fn gradient(width: u32, height: u32) -> ImageSample {
    let mut pixels = Vec::new();
    for y in 0..height {
        for x in 0..width {
            pixels.extend_from_slice(&[(x * 37 % 256) as u8, (y * 11 % 256) as u8, 90, 255]);
        }
    }
    ImageSample::new(width, height, pixels)
}

#[test]
fn equal_pixels_give_equal_fingerprints() {
    let a = gradient(8, 6);
    let b = gradient(8, 6);
    assert_eq!(fingerprint(&a), fingerprint(&b));
    let mut c = gradient(8, 6);
    c.pixels[5] ^= 1;
    assert_ne!(fingerprint(&a), fingerprint(&c));
    assert_eq!(fingerprint(&a), Fingerprint::from_bytes(a.pixels.clone()));
}

#[test]
fn tracker_starts_empty_and_records() {
    let mut tracker = FingerprintTracker::new();
    let a = fingerprint(&gradient(4, 4));
    let b = fingerprint(&gradient(5, 4));
    assert_eq!(tracker.observe(&a), Decision::New);
    tracker.record(fingerprint(&gradient(4, 4)));
    assert_eq!(tracker.observe(&a), Decision::EchoOfOwnOutput);
    assert_eq!(tracker.observe(&b), Decision::New);
}

#[test]
fn observe_twice_gives_the_same_decision() {
    let mut tracker = FingerprintTracker::new();
    let a = fingerprint(&gradient(4, 4));
    assert_eq!(tracker.observe(&a), tracker.observe(&a));
    tracker.record(fingerprint(&gradient(3, 3)));
    let first = tracker.observe(&a);
    let second = tracker.observe(&a);
    assert_eq!(first, Decision::New);
    assert_eq!(first, second);
    let own = fingerprint(&gradient(3, 3));
    assert_eq!(tracker.observe(&own), tracker.observe(&own));
}

#[test]
fn snapshots_without_usable_image_are_skipped() {
    let watch = WatchLoop::new(ArgsResult::NoFlags);
    assert_eq!(watch.on_snapshot(&None), WatchAction::Skip);
    let malformed = ImageSample::new(4, 4, vec![0; 10]);
    assert_eq!(watch.on_snapshot(&Some(malformed)), WatchAction::Skip);
    assert_eq!(watch.on_snapshot(&Some(gradient(4, 4))), WatchAction::Resolve);
}

#[test]
fn published_output_is_not_resized_again() {
    let mut watch = WatchLoop::new(ArgsResult::Ratio(Ratio::new(1, 2)));
    let input = gradient(40, 30);
    assert_eq!(watch.on_snapshot(&Some(input.clone())), WatchAction::Resolve);
    let size = match watch.next_step(&input, &Vec::<Answer>::new()) {
        Step::Done(Ok(size)) => size,
        other => panic!("unexpected step {:?}", other),
    };
    assert_eq!(size, ResolvedSize { height: 15, width: 20 });
    let output = watch.on_resolved(&input, &size).unwrap();
    assert_eq!(output.width, 20);
    assert_eq!(output.height, 15);
    assert_eq!(output.pixels.len(), 4 * 20 * 15);
    assert_ne!(output.pixels, input.pixels);
    assert_eq!(watch.on_snapshot(&Some(output.clone())), WatchAction::Skip);
    assert_eq!(watch.on_snapshot(&Some(input)), WatchAction::Resolve);
}

#[test]
fn resampling_to_the_same_size_keeps_the_pixels() {
    let mut watch = WatchLoop::new(ArgsResult::NoFlags);
    let input = gradient(6, 5);
    let output = watch.on_resolved(&input, &ResolvedSize { height: 5, width: 6 }).unwrap();
    assert_eq!(output.pixels, input.pixels);
}

#[test]
fn failed_production_leaves_the_loop_unchanged() {
    let mut watch = WatchLoop::new(ArgsResult::NoFlags);
    let input = gradient(4, 4);
    let malformed = ImageSample::new(4, 4, vec![1; 3]);
    assert_eq!(
        watch.on_resolved(&malformed, &ResolvedSize { height: 2, width: 2 }),
        Err(ProduceError::MalformedSource)
    );
    assert_eq!(
        watch.on_resolved(&input, &ResolvedSize { height: 0, width: 2 }),
        Err(ProduceError::EmptySize)
    );
    assert_eq!(
        watch.on_resolved(&input, &ResolvedSize { height: u32::MAX, width: u32::MAX }),
        Err(ProduceError::TooLarge)
    );
    assert_eq!(watch.on_snapshot(&Some(input)), WatchAction::Resolve);
}

#[test]
fn recorded_output_is_skipped_next() {
    let mut watch = WatchLoop::new(ArgsResult::NoFlags);
    let output = gradient(3, 2);
    assert_eq!(watch.on_snapshot(&Some(output.clone())), WatchAction::Resolve);
    watch.record_output(&output);
    assert_eq!(watch.on_snapshot(&Some(output)), WatchAction::Skip);
    assert_eq!(watch.on_snapshot(&Some(gradient(2, 3))), WatchAction::Resolve);
}
