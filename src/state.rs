use vstd::prelude::*;

verus! {

/// A state that can appear on a quarter. The set is closed: every member has
/// an admission year, and a match over it must name each one.
#[derive(Debug, Clone, Copy, PartialEq, Eq, Structural)]
pub enum Ustate {
    Alabama,
    Alaska,
}

impl Ustate {
    /// The year in which the state joined the union.
    pub open spec fn admission_year(self) -> int {
        match self {
            Ustate::Alabama => 1819,
            Ustate::Alaska => 1959,
        }
    }

    /// Whether the state existed in `year`.
    pub open spec fn spec_existed_in(self, year: int) -> bool {
        year >= self.admission_year()
    }

    /// The state's name, as its debug form prints it.
    pub open spec fn spec_name(self) -> Seq<char> {
        match self {
            Ustate::Alabama => "Alabama"@,
            Ustate::Alaska => "Alaska"@,
        }
    }

    /// Whether the state existed in `year`: true exactly from its admission
    /// year on.
    pub fn existed_in(&self, year: u16) -> (r: bool)
        ensures
            r == self.spec_existed_in(year as int),
    {
        match self {
            Ustate::Alabama => year >= 1819,
            Ustate::Alaska => year >= 1959,
        }
    }

    /// The state's name.
    pub fn name(&self) -> (r: &'static str)
        ensures
            r@ == self.spec_name(),
    {
        match self {
            Ustate::Alabama => "Alabama",
            Ustate::Alaska => "Alaska",
        }
    }
}

/// A state exists in every year from its admission on, and in none before.
pub proof fn lemma_existence_threshold(year: int)
    ensures
        year < 1819 ==> !Ustate::Alabama.spec_existed_in(year),
        year >= 1819 ==> Ustate::Alabama.spec_existed_in(year),
        year < 1959 ==> !Ustate::Alaska.spec_existed_in(year),
        year >= 1959 ==> Ustate::Alaska.spec_existed_in(year),
{
}

} // verus!
