use vstd::prelude::*;
use vstd::string::StringExecFns;

use crate::duration::Duration;
use crate::status::{status_name, Status};
use crate::text::{decimal, decimal_text, push_three_digits, three_digits};
use crate::thresholds::{counter_thresholds_text, duration_thresholds_text, Scalar, Thresholds};

verus! {

/// A labelled observed value together with the thresholds it is judged by.
#[derive(Debug)]
pub struct Measurement<T: Scalar> {
    info: String,
    actual: T,
    thresholds: Thresholds<T>,
}

impl<T: Scalar> Measurement<T> {
    /// The label of the measurement.
    pub closed spec fn label(&self) -> Seq<char> {
        self.info@
    }

    /// The observed value.
    pub closed spec fn value(&self) -> T {
        self.actual
    }

    /// The thresholds the value is judged by.
    pub closed spec fn bounds(&self) -> Thresholds<T> {
        self.thresholds
    }

    /// The status of the observed value against the thresholds.
    pub open spec fn verdict(&self) -> Status {
        self.bounds().classify_value(self.value())
    }

    /// A measurement of `actual`, labelled `info`, judged by `thresholds`.
    pub fn new(info: String, actual: T, thresholds: Thresholds<T>) -> (r: Self)
        ensures
            r.label() == info@,
            r.value() == actual,
            r.bounds() == thresholds,
    {
        Measurement { info, actual, thresholds }
    }

    /// The label.
    pub fn info(&self) -> (r: String)
        ensures
            r@ == self.label(),
    {
        self.info.clone()
    }

    /// The observed value.
    pub fn actual(&self) -> (r: T)
        ensures
            r == self.value(),
    {
        self.actual
    }

    /// A copy of the thresholds.
    pub fn thresholds(&self) -> (r: Thresholds<T>)
        ensures
            r.direction_of() == self.bounds().direction_of(),
            r.green_bound() == self.bounds().green_bound(),
            r.yellow_bound() == self.bounds().yellow_bound(),
            r.red_bound() == self.bounds().red_bound(),
            r.limit() == self.bounds().limit(),
    {
        let t = &self.thresholds;
        Thresholds::with_direction(
            t.direction(),
            t.green_threshold(),
            t.yellow_threshold(),
            t.red_threshold(),
            t.max(),
        )
    }

    /// The status of the observed value against the thresholds.
    pub fn result(&self) -> (r: Status)
        ensures
            r == self.verdict(),
    {
        self.thresholds.status(self.actual)
    }
}

/// The common head of a report: label and status.
pub open spec fn report_head(info: Seq<char>, status: Status) -> Seq<char> {
    "Measurement: "@ + info + ". Result: "@ + status_name(status) + ". Actual: "@
}

/// The report of a duration measurement; the value in seconds with three
/// decimals, cut (not rounded) to whole milliseconds.
pub open spec fn duration_report(m: Measurement<Duration>) -> Seq<char> {
    report_head(m.label(), m.verdict()) + decimal(m.value()@ / 1_000_000_000) + "."@
        + three_digits((m.value()@ / 1_000_000) % 1000) + " s. Thresholds: "@
        + duration_thresholds_text(m.bounds())
}

/// The report of a counter measurement.
pub open spec fn counter_report(m: Measurement<u64>) -> Seq<char> {
    report_head(m.label(), m.verdict()) + decimal(m.value() as nat) + ". Thresholds: "@
        + counter_thresholds_text(m.bounds())
}

impl Measurement<Duration> {
    /// `Measurement: <info>. Result: <status>. Actual: <s.mmm> s. Thresholds: <thresholds>`.
    pub fn report(&self) -> (r: String)
        ensures
            r@ == duration_report(*self),
    {
        let mut s = String::from_str("Measurement: ");
        s.append(self.info.as_str());
        s.append(". Result: ");
        s.append(self.result().name());
        s.append(". Actual: ");
        let secs = decimal_text(self.actual.as_secs());
        s.append(secs.as_str());
        s.append(".");
        let millis = (self.actual.as_millis() % 1000) as u64;
        push_three_digits(&mut s, millis);
        s.append(" s. Thresholds: ");
        let t = self.thresholds.report();
        s.append(t.as_str());
        s
    }
}

impl Measurement<u64> {
    /// `Measurement: <info>. Result: <status>. Actual: <n>. Thresholds: <thresholds>`.
    pub fn report(&self) -> (r: String)
        ensures
            r@ == counter_report(*self),
    {
        let mut s = String::from_str("Measurement: ");
        s.append(self.info.as_str());
        s.append(". Result: ");
        s.append(self.result().name());
        s.append(". Actual: ");
        let n = decimal_text(self.actual);
        s.append(n.as_str());
        s.append(". Thresholds: ");
        let t = self.thresholds.report();
        s.append(t.as_str());
        s
    }
}

} // verus!
