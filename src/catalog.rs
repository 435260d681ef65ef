use vstd::prelude::*;

verus! {

/// Selector of one of the fixed ODE problems `y' = f(x, y)` offered to the user.
#[derive(PartialEq, Eq, Structural, Debug, Clone, Copy)]
pub enum DropdownOptions {
    First,
    Second,
    Third,
    Fourth,
    Fith,
    Sixth,
    Seventh,
    Eigth,
}

/// The display label of each problem.
pub open spec fn description(p: DropdownOptions) -> Seq<char> {
    match p {
        DropdownOptions::First => "y"@,
        DropdownOptions::Second => "3y"@,
        DropdownOptions::Third => "-x²y² + 2y/x (Bernoulli)"@,
        DropdownOptions::Fourth => "y² + 4"@,
        DropdownOptions::Fith => "2exp(x) + 2y"@,
        DropdownOptions::Sixth => "exp(x) + 6y"@,
        DropdownOptions::Seventh => "x³ - x +6xy"@,
        DropdownOptions::Eigth => "4sin(x) - 2y/x"@,
    }
}

impl DropdownOptions {
    /// The label shown for this problem.
    pub fn get_description(&self) -> (r: &'static str)
        ensures
            r@ == description(*self),
    {
        match self {
            DropdownOptions::First => "y",
            DropdownOptions::Second => "3y",
            DropdownOptions::Third => "-x²y² + 2y/x (Bernoulli)",
            DropdownOptions::Fourth => "y² + 4",
            DropdownOptions::Fith => "2exp(x) + 2y",
            DropdownOptions::Sixth => "exp(x) + 6y",
            DropdownOptions::Seventh => "x³ - x +6xy",
            DropdownOptions::Eigth => "4sin(x) - 2y/x",
        }
    }
}

impl Default for DropdownOptions {
    fn default() -> (r: Self)
        ensures
            r == DropdownOptions::First,
    {
        DropdownOptions::First
    }
}

} // verus!
