use vstd::prelude::*;

verus! {

/// The decimal digit characters, by value.
pub open spec fn digits() -> Seq<char> {
    "0123456789"@
}

/// The decimal form of `n`: no sign, no leading zeros.
pub open spec fn decimal(n: nat) -> Seq<char>
    decreases n,
{
    if n < 10 {
        seq![digits()[n as int]]
    } else {
        decimal(n / 10).push(digits()[(n % 10) as int])
    }
}

/// The decimal form of `n`, padded with zeros on the left to three digits.
pub open spec fn three_digits(n: nat) -> Seq<char> {
    if n < 10 {
        "00"@ + decimal(n)
    } else if n < 100 {
        "0"@ + decimal(n)
    } else {
        decimal(n)
    }
}

/// Relies on the `Display` impl of `u64` (through `ToString::to_string`): it
/// writes the value in decimal, without sign or leading zeros.
#[verifier::external_body]
pub(crate) fn decimal_text(n: u64) -> (r: String)
    ensures
        r@ == decimal(n as nat),
{
    n.to_string()
}

/// Appends `n` in decimal, padded with zeros on the left to three digits.
pub(crate) fn push_three_digits(s: &mut String, n: u64)
    requires
        n < 1000,
    ensures
        final(s)@ == old(s)@ + three_digits(n as nat),
{
    if n < 10 {
        s.append("00");
    } else if n < 100 {
        s.append("0");
    }
    let d = decimal_text(n);
    s.append(d.as_str());
}

} // verus!
