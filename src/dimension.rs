//! Which of the two dimensions a user chooses to give.
use vstd::prelude::*;

verus! {

/// The dimension chosen at the dimension prompt, in the order that it lists.
#[derive(Clone, Copy, Debug, PartialEq, Eq, Structural)]
pub enum Dimension {
    Height,
    Width,
    Both,
}

/// The label of each dimension, in prompt order.
pub open spec fn dimension_labels() -> Seq<Seq<char>> {
    seq!["Height"@, "Width"@, "Both"@]
}

/// The dimension at `index` in prompt order, if any.
pub open spec fn dimension_at(index: usize) -> Option<Dimension> {
    if index == 0 {
        Some(Dimension::Height)
    } else if index == 1 {
        Some(Dimension::Width)
    } else if index == 2 {
        Some(Dimension::Both)
    } else {
        None
    }
}

/// The label of `d`.
pub open spec fn dimension_label(d: Dimension) -> Seq<char> {
    match d {
        Dimension::Height => "Height"@,
        Dimension::Width => "Width"@,
        Dimension::Both => "Both"@,
    }
}

impl Dimension {
    /// The label of this dimension, as the dimension prompt shows it.
    pub fn get_name(self) -> (r: &'static str)
        ensures
            r@ == dimension_label(self),
    {
        match self {
            Dimension::Height => "Height",
            Dimension::Width => "Width",
            Dimension::Both => "Both",
        }
    }

    /// The labels offered by the dimension prompt.
    pub fn get_items() -> (r: [&'static str; 3])
        ensures
            r@.map_values(|l: &str| l@) == dimension_labels(),
    {
        let r = ["Height", "Width", "Both"];
        assert(r@.map_values(|l: &str| l@) =~= dimension_labels());
        r
    }
}

impl TryFrom<usize> for Dimension {
    type Error = &'static str;

    fn try_from(value: usize) -> (r: Result<Dimension, &'static str>) {
        if value == 0 {
            Ok(Dimension::Height)
        } else if value == 1 {
            Ok(Dimension::Width)
        } else if value == 2 {
            Ok(Dimension::Both)
        } else {
            Err("Index cannot be converted to dimension.")
        }
    }
}

impl vstd::std_specs::convert::TryFromSpecImpl<usize> for Dimension {
    open spec fn obeys_try_from_spec() -> bool {
        true
    }

    open spec fn try_from_spec(value: usize) -> Result<Dimension, &'static str> {
        match dimension_at(value) {
            Some(d) => Ok(d),
            None => Err("Index cannot be converted to dimension."),
        }
    }
}

} // verus!
