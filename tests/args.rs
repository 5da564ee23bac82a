use picst::args::{Args, ArgsConflict, ArgsMetadata, ArgsResult};
use picst::validation::{ratio_validator, Ratio};

fn no_flags() -> Args {
    Args {
        height: None,
        width: None,
        height_percent: None,
        width_percent: None,
        ratio: None,
        ignore_aspect_ratio: false,
    }
}

#[test]
fn check_args_result_no_flags() {
    assert_eq!(ArgsResult::get(&no_flags()), ArgsResult::NoFlags);
}

#[test]
fn check_args_result_full_dimensions_pixels() {
    // --height 10 --width 20
    let args = Args { height: Some(10), width: Some(20), ..no_flags() };
    assert_eq!(
        ArgsResult::get(&args),
        ArgsResult::Dimensions(Some(10), Some(20), ArgsMetadata::new(true, false))
    );
}

#[test]
fn check_args_result_height_only_pixels() {
    // --height 10
    let args = Args { height: Some(10), ..no_flags() };
    assert_eq!(
        ArgsResult::get(&args),
        ArgsResult::Dimensions(Some(10), None, ArgsMetadata::new(true, false))
    );
}

#[test]
fn check_args_result_width_only_pixels() {
    // --width 10
    let args = Args { width: Some(10), ..no_flags() };
    assert_eq!(
        ArgsResult::get(&args),
        ArgsResult::Dimensions(None, Some(10), ArgsMetadata::new(true, false))
    );
}

#[test]
fn check_args_result_full_dimensions_percent() {
    // --height-percent 10 --width-percent 20
    let args = Args { height_percent: Some(10), width_percent: Some(20), ..no_flags() };
    assert_eq!(
        ArgsResult::get(&args),
        ArgsResult::Dimensions(Some(10), Some(20), ArgsMetadata::new(false, false))
    );
}

#[test]
fn check_args_result_height_only_percent() {
    // --height-percent 10
    let args = Args { height_percent: Some(10), ..no_flags() };
    assert_eq!(
        ArgsResult::get(&args),
        ArgsResult::Dimensions(Some(10), None, ArgsMetadata::new(false, false))
    );
}

#[test]
fn check_args_result_width_only_percent() {
    // --width-percent 10
    let args = Args { width_percent: Some(10), ..no_flags() };
    assert_eq!(
        ArgsResult::get(&args),
        ArgsResult::Dimensions(None, Some(10), ArgsMetadata::new(false, false))
    );
}

#[test]
fn check_args_result_height_only_ignore_aspect_ratio() {
    // --height 10 --ignore-aspect-ratio
    let args = Args { height: Some(10), ignore_aspect_ratio: true, ..no_flags() };
    assert_eq!(
        ArgsResult::get(&args),
        ArgsResult::Dimensions(Some(10), None, ArgsMetadata::new(true, true))
    );
}

#[test]
fn check_args_result_width_only_ignore_aspect_ratio() {
    // --width 10 --ignore-aspect-ratio
    let args = Args { width: Some(10), ignore_aspect_ratio: true, ..no_flags() };
    assert_eq!(
        ArgsResult::get(&args),
        ArgsResult::Dimensions(None, Some(10), ArgsMetadata::new(true, true))
    );
}

#[test]
fn check_args_result_height_only_percent_ignore_aspect_ratio() {
    // --height-percent 10 --ignore-aspect-ratio
    let args = Args { height_percent: Some(10), ignore_aspect_ratio: true, ..no_flags() };
    assert_eq!(
        ArgsResult::get(&args),
        ArgsResult::Dimensions(Some(10), None, ArgsMetadata::new(false, true))
    );
}

#[test]
fn check_args_result_width_only_percent_ignore_aspect_ratio() {
    // --width-percent 10 --ignore-aspect-ratio
    let args = Args { width_percent: Some(10), ignore_aspect_ratio: true, ..no_flags() };
    assert_eq!(
        ArgsResult::get(&args),
        ArgsResult::Dimensions(None, Some(10), ArgsMetadata::new(false, true))
    );
}

#[test]
fn check_args_result_ratio() {
    // --ratio 0.7
    let args = Args { ratio: Some(ratio_validator("0.7").unwrap()), ..no_flags() };
    assert_eq!(ArgsResult::get(&args), ArgsResult::Ratio(Ratio::new(7, 10)));
}

#[test]
fn ignore_aspect_ratio_alone_asks_for_everything() {
    let args = Args { ignore_aspect_ratio: true, ..no_flags() };
    assert_eq!(ArgsResult::get(&args), ArgsResult::NoFlags);
    assert_eq!(args.check_conflicts(), Ok(()));
}

#[test]
fn conflicting_flags_are_reported() {
    let ratio = Some(Ratio::new(1, 2));
    let with_ratio = Args { ratio, height: Some(10), ..no_flags() };
    assert_eq!(with_ratio.check_conflicts(), Err(ArgsConflict::RatioWithDimensions));
    let ratio_ignore = Args { ratio, ignore_aspect_ratio: true, ..no_flags() };
    assert_eq!(ratio_ignore.check_conflicts(), Err(ArgsConflict::RatioWithIgnoreAspectRatio));
    let mixed = Args { height: Some(10), width_percent: Some(20), ..no_flags() };
    assert_eq!(mixed.check_conflicts(), Err(ArgsConflict::PixelsWithPercent));
    let both_pixels =
        Args { height: Some(10), width: Some(20), ignore_aspect_ratio: true, ..no_flags() };
    assert_eq!(both_pixels.check_conflicts(), Err(ArgsConflict::IgnoreAspectRatioWithBothPixels));
    let both_percent = Args {
        height_percent: Some(10),
        width_percent: Some(20),
        ignore_aspect_ratio: true,
        ..no_flags()
    };
    assert_eq!(
        both_percent.check_conflicts(),
        Err(ArgsConflict::IgnoreAspectRatioWithBothPercents)
    );
    let one_percent = Args { height_percent: Some(10), ignore_aspect_ratio: true, ..no_flags() };
    assert_eq!(one_percent.check_conflicts(), Ok(()));
}
