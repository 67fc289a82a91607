use vstd::prelude::*;

verus! {

/// The verdict of a measurement against its thresholds.
#[derive(Clone, Copy, Debug, PartialEq, Eq, Structural)]
pub enum Status {
    Green,
    Yellow,
    Red,
}

/// The canonical name of a status.
pub open spec fn status_name(s: Status) -> Seq<char> {
    match s {
        Status::Green => "Green"@,
        Status::Yellow => "Yellow"@,
        Status::Red => "Red"@,
    }
}

impl Status {
    /// The canonical name: "Green", "Yellow" or "Red".
    pub fn name(&self) -> (r: &'static str)
        ensures
            r@ == status_name(*self),
    {
        match self {
            Status::Green => "Green",
            Status::Yellow => "Yellow",
            Status::Red => "Red",
        }
    }
}

} // verus!
