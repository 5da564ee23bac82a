use picst::dimension::Dimension;
use picst::unit::Unit;

#[test]
fn check_dimension() {
    assert_eq!(Dimension::Height.get_name(), "Height");
    assert_eq!(Dimension::Width.get_name(), "Width");

    assert_eq!(Dimension::get_items(), ["Height", "Width", "Both"]);

    let zero_to_dimension: Dimension = 0usize.try_into().unwrap();
    assert_eq!(zero_to_dimension, Dimension::Height);

    let one_to_dimension: Dimension = 1usize.try_into().unwrap();
    assert_eq!(one_to_dimension, Dimension::Width);

    let two_to_dimension: Dimension = 2usize.try_into().unwrap();
    assert_eq!(two_to_dimension, Dimension::Both);
}

#[test]
fn check_unit() {
    assert_eq!(Unit::get_items(), ["Pixel", "Percentage", "Ratio"]);

    let zero_to_unit: Unit = 0usize.try_into().unwrap();
    assert_eq!(zero_to_unit, Unit::Pixel);

    let one_to_unit: Unit = 1usize.try_into().unwrap();
    assert_eq!(one_to_unit, Unit::Percentage);

    let two_to_unit: Unit = 2usize.try_into().unwrap();
    assert_eq!(two_to_unit, Unit::Ratio);
}

#[test]
fn out_of_range_indices_are_refused() {
    let unit: Result<Unit, &str> = 3usize.try_into();
    assert_eq!(unit, Err("Index cannot be converted to unit."));
    let dimension: Result<Dimension, &str> = 3usize.try_into();
    assert_eq!(dimension, Err("Index cannot be converted to dimension."));
    assert_eq!(Dimension::Both.get_name(), "Both");
}
