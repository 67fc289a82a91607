use vstd::prelude::*;
use vstd::string::StringExecFns;

use crate::duration::Duration;
use crate::status::Status;
use crate::text::{decimal, decimal_text};

verus! {

/// A scalar that can be measured and compared against thresholds.
pub trait Scalar: Copy {
    /// The value as a mathematical integer; comparisons follow it.
    spec fn rank(&self) -> int;

    fn at_most(&self, other: &Self) -> (r: bool)
        ensures
            r == (self.rank() <= other.rank()),
    ;
}

impl Scalar for u64 {
    open spec fn rank(&self) -> int {
        *self as int
    }

    fn at_most(&self, other: &u64) -> (r: bool) {
        *self <= *other
    }
}

impl Scalar for Duration {
    open spec fn rank(&self) -> int {
        self@ as int
    }

    fn at_most(&self, other: &Duration) -> (r: bool) {
        Duration::at_most(self, other)
    }
}

/// Which way a measured value gets better.
#[derive(Clone, Copy, Debug, PartialEq, Eq, Structural)]
pub enum Direction {
    /// Smaller is better (a duration): at most the green bound is green.
    LowerIsBetter,
    /// Larger is better (a counter): at least the green bound is green.
    HigherIsBetter,
}

/// The status of `actual` against the green and yellow bounds.
pub open spec fn classify(direction: Direction, green: int, yellow: int, actual: int) -> Status {
    match direction {
        Direction::LowerIsBetter => if actual <= green {
            Status::Green
        } else if actual <= yellow {
            Status::Yellow
        } else {
            Status::Red
        },
        Direction::HigherIsBetter => if actual >= green {
            Status::Green
        } else if actual >= yellow {
            Status::Yellow
        } else {
            Status::Red
        },
    }
}

/// How bad a status is: green 0, yellow 1, red 2.
pub open spec fn severity(s: Status) -> int {
    match s {
        Status::Green => 0,
        Status::Yellow => 1,
        Status::Red => 2,
    }
}

/// Bounds for the green, yellow and red verdicts, a limit past which a run
/// is aborted, and the direction in which values improve.
#[derive(Debug)]
pub struct Thresholds<T: Scalar> {
    inner_thresholds: Vec<(Status, T)>,
    max: T,
    direction: Direction,
}

impl<T: Scalar> Thresholds<T> {
    #[verifier::type_invariant]
    spec fn well_formed(&self) -> bool {
        &&& self.inner_thresholds@.len() == 3
        &&& self.inner_thresholds@[0].0 == Status::Green
        &&& self.inner_thresholds@[1].0 == Status::Yellow
        &&& self.inner_thresholds@[2].0 == Status::Red
    }

    /// The green bound: the edge of the best verdict.
    pub closed spec fn green_bound(&self) -> T {
        self.inner_thresholds@[0].1
    }

    /// The yellow bound: the edge of the middle verdict.
    pub closed spec fn yellow_bound(&self) -> T {
        self.inner_thresholds@[1].1
    }

    /// The red bound; it does not take part in classifying.
    pub closed spec fn red_bound(&self) -> T {
        self.inner_thresholds@[2].1
    }

    /// The limit past which a run is aborted rather than scored.
    pub closed spec fn limit(&self) -> T {
        self.max
    }

    /// The direction in which values improve.
    pub closed spec fn direction_of(&self) -> Direction {
        self.direction
    }

    /// The status that `actual` earns against these thresholds.
    pub open spec fn classify_value(&self, actual: T) -> Status {
        classify(self.direction_of(), self.green_bound().rank(), self.yellow_bound().rank(), actual.rank())
    }

    /// Thresholds with the given bounds, stored as given, in the given direction.
    pub fn with_direction(direction: Direction, green: T, yellow: T, red: T, max: T) -> (r: Self)
        ensures
            r.direction_of() == direction,
            r.green_bound() == green,
            r.yellow_bound() == yellow,
            r.red_bound() == red,
            r.limit() == max,
    {
        Thresholds {
            inner_thresholds: vec![(Status::Green, green), (Status::Yellow, yellow), (Status::Red, red)],
            max,
            direction,
        }
    }

    /// The bounds, in the order green, yellow, red.
    pub fn thresholds(&self) -> (r: &Vec<(Status, T)>)
        ensures
            r@ == seq![
                (Status::Green, self.green_bound()),
                (Status::Yellow, self.yellow_bound()),
                (Status::Red, self.red_bound()),
            ],
    {
        proof {
            use_type_invariant(self);
        }
        assert(self.inner_thresholds@ =~= seq![
            (Status::Green, self.green_bound()),
            (Status::Yellow, self.yellow_bound()),
            (Status::Red, self.red_bound()),
        ]);
        &self.inner_thresholds
    }

    /// The limit past which a run is aborted.
    pub fn max(&self) -> (r: T)
        ensures
            r == self.limit(),
    {
        self.max
    }

    /// The direction in which values improve.
    pub fn direction(&self) -> (r: Direction)
        ensures
            r == self.direction_of(),
    {
        self.direction
    }

    /// The bound stored for `status`.
    fn bound_for(&self, status: Status) -> (r: T)
        ensures
            status == Status::Green ==> r == self.green_bound(),
            status == Status::Yellow ==> r == self.yellow_bound(),
            status == Status::Red ==> r == self.red_bound(),
    {
        proof {
            use_type_invariant(self);
        }
        let entries = self.thresholds();
        let mut i: usize = 0;
        while i < entries.len()
            invariant
                entries@ == self.inner_thresholds@,
                self.inner_thresholds@.len() == 3,
                self.inner_thresholds@[0].0 == Status::Green,
                self.inner_thresholds@[1].0 == Status::Yellow,
                self.inner_thresholds@[2].0 == Status::Red,
                0 <= i <= 3,
                forall|j: int| 0 <= j < i ==> entries@[j].0 != status,
            decreases 3 - i,
        {
            if entries[i].0 == status {
                return entries[i].1;
            }
            i = i + 1;
        }
        proof {
            assert(entries@[0].0 != status && entries@[1].0 != status && entries@[2].0 != status);
        }
        self.max
    }

    /// The green bound.
    pub fn green_threshold(&self) -> (r: T)
        ensures
            r == self.green_bound(),
    {
        self.bound_for(Status::Green)
    }

    /// The yellow bound.
    pub fn yellow_threshold(&self) -> (r: T)
        ensures
            r == self.yellow_bound(),
    {
        self.bound_for(Status::Yellow)
    }

    /// The red bound.
    pub fn red_threshold(&self) -> (r: T)
        ensures
            r == self.red_bound(),
    {
        self.bound_for(Status::Red)
    }

    /// The status of `actual`: in the direction of these thresholds, green
    /// up to the green bound, yellow up to the yellow bound, red past both.
    pub fn status(&self, actual: T) -> (r: Status)
        ensures
            r == self.classify_value(actual),
    {
        let green = self.green_threshold();
        let yellow = self.yellow_threshold();
        match self.direction {
            Direction::LowerIsBetter => {
                if actual.at_most(&green) {
                    return Status::Green;
                }
                if actual.at_most(&yellow) {
                    return Status::Yellow;
                }
                Status::Red
            },
            Direction::HigherIsBetter => {
                if green.at_most(&actual) {
                    return Status::Green;
                }
                if yellow.at_most(&actual) {
                    return Status::Yellow;
                }
                Status::Red
            },
        }
    }
}

/// Whole seconds of a span, in decimal.
pub open spec fn secs_text(d: Duration) -> Seq<char> {
    decimal(d@ / 1_000_000_000)
}

/// The report of duration thresholds, each bound in whole seconds.
pub open spec fn duration_thresholds_text(t: Thresholds<Duration>) -> Seq<char> {
    "Green: "@ + secs_text(t.green_bound()) + " s. Yellow: "@ + secs_text(t.yellow_bound())
        + " s. Red: "@ + secs_text(t.red_bound()) + " s. Abort after: "@ + secs_text(t.limit())
        + " s"@
}

/// The report of counter thresholds.
pub open spec fn counter_thresholds_text(t: Thresholds<u64>) -> Seq<char> {
    "Max: "@ + decimal(t.limit() as nat) + ". Green: "@ + decimal(t.green_bound() as nat)
        + ". Yellow: "@ + decimal(t.yellow_bound() as nat) + ". Red: "@ + decimal(
        t.red_bound() as nat,
    ) + "."@
}

impl Thresholds<Duration> {
    /// Duration thresholds: smaller is better. The bounds are stored as given.
    pub fn new(green: Duration, yellow: Duration, red: Duration, max: Duration) -> (r: Self)
        ensures
            r.direction_of() == Direction::LowerIsBetter,
            r.green_bound() == green,
            r.yellow_bound() == yellow,
            r.red_bound() == red,
            r.limit() == max,
    {
        Self::with_direction(Direction::LowerIsBetter, green, yellow, red, max)
    }

    /// The bounds and the limit in whole seconds:
    /// `Green: g s. Yellow: y s. Red: r s. Abort after: m s`.
    pub fn report(&self) -> (r: String)
        ensures
            r@ == duration_thresholds_text(*self),
    {
        let mut s = String::from_str("Green: ");
        let g = decimal_text(self.green_threshold().as_secs());
        s.append(g.as_str());
        s.append(" s. Yellow: ");
        let y = decimal_text(self.yellow_threshold().as_secs());
        s.append(y.as_str());
        s.append(" s. Red: ");
        let r = decimal_text(self.red_threshold().as_secs());
        s.append(r.as_str());
        s.append(" s. Abort after: ");
        let m = decimal_text(self.max().as_secs());
        s.append(m.as_str());
        s.append(" s");
        s
    }
}

impl Thresholds<u64> {
    /// Counter thresholds: larger is better. The bounds are stored as given.
    pub fn new(green: u64, yellow: u64, red: u64, max: u64) -> (r: Self)
        ensures
            r.direction_of() == Direction::HigherIsBetter,
            r.green_bound() == green,
            r.yellow_bound() == yellow,
            r.red_bound() == red,
            r.limit() == max,
    {
        Self::with_direction(Direction::HigherIsBetter, green, yellow, red, max)
    }

    /// The limit and the bounds: `Max: m. Green: g. Yellow: y. Red: r.`.
    pub fn report(&self) -> (r: String)
        ensures
            r@ == counter_thresholds_text(*self),
    {
        let mut s = String::from_str("Max: ");
        let m = decimal_text(self.max());
        s.append(m.as_str());
        s.append(". Green: ");
        let g = decimal_text(self.green_threshold());
        s.append(g.as_str());
        s.append(". Yellow: ");
        let y = decimal_text(self.yellow_threshold());
        s.append(y.as_str());
        s.append(". Red: ");
        let r = decimal_text(self.red_threshold());
        s.append(r.as_str());
        s.append(".");
        s
    }
}

/// Counter thresholds for a run that aims at `counter` units: green from
/// half of it, yellow from a third, red below; the bound for red is a quarter.
pub fn thresholds_for_transaction_counter(counter: u64) -> (r: Thresholds<u64>)
    ensures
        r.direction_of() == Direction::HigherIsBetter,
        r.green_bound() == counter / 2,
        r.yellow_bound() == counter / 3,
        r.red_bound() == counter / 4,
        r.limit() == counter,
{
    let green = counter / 2;
    let yellow = counter / 3;
    let red = counter / 4;
    Thresholds::<u64>::new(green, yellow, red, counter)
}

/// Duration thresholds for a run that should take at most `duration`, in
/// whole seconds. The bounds grow from best to worst: green up to a third of
/// it, yellow up to half, red up to all of it, which is also the limit.
pub fn thresholds_for_transaction_send_by_duration(duration: Duration) -> (r: Thresholds<Duration>)
    ensures
        r.direction_of() == Direction::LowerIsBetter,
        r.green_bound()@ == (duration@ / 1_000_000_000 / 3) * 1_000_000_000,
        r.yellow_bound()@ == (duration@ / 1_000_000_000 / 2) * 1_000_000_000,
        r.red_bound()@ == (duration@ / 1_000_000_000) * 1_000_000_000,
        r.limit() == duration,
{
    let secs = duration.as_secs();
    let green = Duration::from_secs(secs / 3);
    let yellow = Duration::from_secs(secs / 2);
    let red = Duration::from_secs(secs);
    Thresholds::<Duration>::new(green, yellow, red, duration)
}

/// Under smaller-is-better thresholds, a value at or below the green bound
/// is green, whatever the yellow and red bounds are.
pub proof fn lemma_at_most_green_is_green<T: Scalar>(t: Thresholds<T>, actual: T)
    requires
        t.direction_of() == Direction::LowerIsBetter,
        actual.rank() <= t.green_bound().rank(),
    ensures
        t.classify_value(actual) == Status::Green,
{
}

/// Under larger-is-better thresholds, a value at or above the green bound
/// is green, whatever the yellow and red bounds are.
pub proof fn lemma_at_least_green_is_green<T: Scalar>(t: Thresholds<T>, actual: T)
    requires
        t.direction_of() == Direction::HigherIsBetter,
        actual.rank() >= t.green_bound().rank(),
    ensures
        t.classify_value(actual) == Status::Green,
{
}

/// Under smaller-is-better thresholds, a smaller value never earns a worse
/// status than a larger one, for any fixed bounds.
pub proof fn lemma_smaller_is_never_worse<T: Scalar>(t: Thresholds<T>, a: T, b: T)
    requires
        t.direction_of() == Direction::LowerIsBetter,
        a.rank() <= b.rank(),
    ensures
        severity(t.classify_value(a)) <= severity(t.classify_value(b)),
{
}

/// Under larger-is-better thresholds, a larger value never earns a worse
/// status than a smaller one, for any fixed bounds.
pub proof fn lemma_larger_is_never_worse<T: Scalar>(t: Thresholds<T>, a: T, b: T)
    requires
        t.direction_of() == Direction::HigherIsBetter,
        a.rank() <= b.rank(),
    ensures
        severity(t.classify_value(b)) <= severity(t.classify_value(a)),
{
}

} // verus!
