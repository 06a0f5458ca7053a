use vstd::prelude::*;

verus! {

/// The repayment policy of a loan.
#[derive(Clone, Copy, Debug, PartialEq, Eq, Structural)]
pub enum PaymentScheme {
    /// The total payment is the same in every period (an annuity).
    FixedMensualities,
    /// The part of each payment that repays principal is the same in every period.
    FixedCapital,
}

/// A scheme name that names no scheme; it keeps the name for diagnostics.
#[derive(Clone, Debug, PartialEq, Eq)]
pub struct UnrecognizedScheme {
    pub name: String,
}

/// The scheme that a name stands for, if any. Names are case-sensitive.
pub open spec fn scheme_named(s: Seq<char>) -> Option<PaymentScheme> {
    if s == "FixedMensualities"@ {
        Some(PaymentScheme::FixedMensualities)
    } else if s == "FixedCapital"@ {
        Some(PaymentScheme::FixedCapital)
    } else {
        None
    }
}

/// The name under which a scheme is written.
pub open spec fn name_of(p: PaymentScheme) -> Seq<char> {
    match p {
        PaymentScheme::FixedMensualities => "FixedMensualities"@,
        PaymentScheme::FixedCapital => "FixedCapital"@,
    }
}

impl PaymentScheme {
    /// Reads a scheme from its name; any other text is refused and handed back.
    pub fn parse(name: &str) -> (r: Result<PaymentScheme, UnrecognizedScheme>)
        ensures
            match scheme_named(name@) {
                Some(p) => r == Ok::<PaymentScheme, UnrecognizedScheme>(p),
                None => r is Err && r->Err_0.name@ == name@,
            },
    {
        let given = name.to_owned();
        if given == "FixedMensualities".to_owned() {
            Ok(PaymentScheme::FixedMensualities)
        } else if given == "FixedCapital".to_owned() {
            Ok(PaymentScheme::FixedCapital)
        } else {
            Err(UnrecognizedScheme { name: given })
        }
    }

    /// The name of the scheme, as `parse` reads it.
    pub fn name(&self) -> (r: String)
        ensures
            r@ == name_of(*self),
    {
        match self {
            PaymentScheme::FixedMensualities => "FixedMensualities".to_owned(),
            PaymentScheme::FixedCapital => "FixedCapital".to_owned(),
        }
    }
}

/// Writing a scheme's name and reading it back gives the same scheme.
pub proof fn lemma_name_round_trip(p: PaymentScheme)
    ensures
        scheme_named(name_of(p)) == Some(p),
{
    reveal_strlit("FixedMensualities");
    reveal_strlit("FixedCapital");
    assert("FixedMensualities"@ != "FixedCapital"@) by {
        assert("FixedMensualities"@.len() != "FixedCapital"@.len());
    }
}

/// A name that reads as a scheme is exactly that scheme's name.
pub proof fn lemma_named_scheme_has_that_name(s: Seq<char>)
    requires
        scheme_named(s) is Some,
    ensures
        name_of(scheme_named(s)->Some_0) == s,
{
}

} // verus!
