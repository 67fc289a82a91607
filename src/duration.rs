use vstd::prelude::*;

verus! {

/// Nanoseconds in one second.
pub const NANOS_PER_SEC: u32 = 1_000_000_000;

/// Nanoseconds in one millisecond.
pub const NANOS_PER_MILLI: u32 = 1_000_000;

/// A span of time: whole seconds and a sub-second part in nanoseconds.
/// Its view is the total number of nanoseconds.
#[derive(Clone, Copy, Debug, PartialEq, Eq, Structural)]
pub struct Duration {
    secs: u64,
    nanos: u32,
}

impl View for Duration {
    type V = nat;

    /// The total number of nanoseconds.
    closed spec fn view(&self) -> nat {
        (self.secs * 1_000_000_000 + self.nanos) as nat
    }
}

impl Duration {
    #[verifier::type_invariant]
    spec fn normalized(&self) -> bool {
        self.nanos < NANOS_PER_SEC
    }

    /// A span of `secs` whole seconds.
    pub fn from_secs(secs: u64) -> (r: Duration)
        ensures
            r@ == secs * 1_000_000_000,
    {
        Duration { secs, nanos: 0 }
    }

    /// A span of `millis` milliseconds.
    pub fn from_millis(millis: u64) -> (r: Duration)
        ensures
            r@ == millis * 1_000_000,
    {
        let secs = millis / 1000;
        let rest = millis % 1000;
        let nanos = (rest as u32) * NANOS_PER_MILLI;
        assert(secs * 1_000_000_000 + nanos == millis * 1_000_000) by (nonlinear_arith)
            requires
                secs == millis / 1000,
                rest == millis % 1000,
                nanos == rest * 1_000_000,
        ;
        Duration { secs, nanos }
    }

    /// The whole seconds of the span, the rest cut off.
    pub fn as_secs(&self) -> (r: u64)
        ensures
            r == self@ / 1_000_000_000,
    {
        proof {
            use_type_invariant(self);
            lemma_split(self.secs as int, self.nanos as int, 1_000_000_000);
        }
        self.secs
    }

    /// The whole milliseconds of the span, the rest cut off.
    pub fn as_millis(&self) -> (r: u128)
        ensures
            r == self@ / 1_000_000,
    {
        proof {
            use_type_invariant(self);
            let q = self.secs as int * 1000 + self.nanos as int / 1_000_000;
            let r = self.nanos as int % 1_000_000;
            lemma_split(q, r, 1_000_000);
            assert(q * 1_000_000 + r == self.secs * 1_000_000_000 + self.nanos) by (nonlinear_arith)
                requires
                    q == self.secs as int * 1000 + self.nanos as int / 1_000_000,
                    r == self.nanos as int % 1_000_000,
            ;
            assert(self.nanos / 1_000_000 < 1000) by (nonlinear_arith)
                requires self.nanos < 1_000_000_000;
        }
        self.secs as u128 * 1000 + (self.nanos / NANOS_PER_MILLI) as u128
    }

    /// Whether this span is no longer than `other`.
    pub fn at_most(&self, other: &Duration) -> (r: bool)
        ensures
            r == (self@ <= other@),
    {
        proof {
            use_type_invariant(self);
            use_type_invariant(other);
            lemma_lex(self.secs as int, self.nanos as int, other.secs as int, other.nanos as int);
        }
        self.secs < other.secs || (self.secs == other.secs && self.nanos <= other.nanos)
    }
}

proof fn lemma_split(q: int, r: int, d: int)
    requires
        0 <= q,
        0 <= r < d,
    ensures
        (q * d + r) / d == q,
{
    vstd::arithmetic::div_mod::lemma_fundamental_div_mod_converse(q * d + r, d, q, r);
}

proof fn lemma_lex(s1: int, n1: int, s2: int, n2: int)
    requires
        0 <= s1,
        0 <= s2,
        0 <= n1 < 1_000_000_000,
        0 <= n2 < 1_000_000_000,
    ensures
        (s1 * 1_000_000_000 + n1 <= s2 * 1_000_000_000 + n2) == (s1 < s2 || (s1 == s2 && n1 <= n2)),
{
    if s1 < s2 {
        assert(s1 * 1_000_000_000 + 1_000_000_000 <= s2 * 1_000_000_000) by (nonlinear_arith)
            requires s1 < s2;
    } else if s1 > s2 {
        assert(s2 * 1_000_000_000 + 1_000_000_000 <= s1 * 1_000_000_000) by (nonlinear_arith)
            requires s2 < s1;
    }
}

} // verus!
