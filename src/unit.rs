//! The unit in which a user chooses to give the new size.
use vstd::prelude::*;

verus! {

/// The unit chosen at the first prompt, in the order that the prompt lists.
#[derive(Clone, Copy, Debug, PartialEq, Eq, Structural)]
pub enum Unit {
    Pixel,
    Percentage,
    Ratio,
}

/// The label of each unit, in prompt order.
pub open spec fn unit_labels() -> Seq<Seq<char>> {
    seq!["Pixel"@, "Percentage"@, "Ratio"@]
}

/// The unit at `index` in prompt order, if any.
pub open spec fn unit_at(index: usize) -> Option<Unit> {
    if index == 0 {
        Some(Unit::Pixel)
    } else if index == 1 {
        Some(Unit::Percentage)
    } else if index == 2 {
        Some(Unit::Ratio)
    } else {
        None
    }
}

impl Unit {
    /// The labels offered by the unit prompt.
    pub fn get_items() -> (r: [&'static str; 3])
        ensures
            r@.map_values(|l: &str| l@) == unit_labels(),
    {
        let r = ["Pixel", "Percentage", "Ratio"];
        assert(r@.map_values(|l: &str| l@) =~= unit_labels());
        r
    }
}

impl TryFrom<usize> for Unit {
    type Error = &'static str;

    fn try_from(value: usize) -> (r: Result<Unit, &'static str>) {
        if value == 0 {
            Ok(Unit::Pixel)
        } else if value == 1 {
            Ok(Unit::Percentage)
        } else if value == 2 {
            Ok(Unit::Ratio)
        } else {
            Err("Index cannot be converted to unit.")
        }
    }
}

impl vstd::std_specs::convert::TryFromSpecImpl<usize> for Unit {
    open spec fn obeys_try_from_spec() -> bool {
        true
    }

    open spec fn try_from_spec(value: usize) -> Result<Unit, &'static str> {
        match unit_at(value) {
            Some(u) => Ok(u),
            None => Err("Index cannot be converted to unit."),
        }
    }
}

} // verus!
