use vstd::prelude::*;

use crate::state::Ustate;

verus! {

/// A coin: a plain nickel, or a quarter that carries a state.
#[derive(Debug, Clone, Copy, PartialEq, Eq, Structural)]
pub enum Coin {
    Nickel,
    Quarter(Ustate),
}

/// The year against which a quarter's state is judged old or new.
pub const REFERENCE_YEAR: u16 = 1900;

/// The text that follows the name of a state that existed in the reference year.
pub open spec fn old_suffix() -> Seq<char> {
    " is pretty old, for America!"@
}

/// The text that follows the name of a state admitted after the reference year.
pub open spec fn new_suffix() -> Seq<char> {
    " is relatively new."@
}

/// What a coin says of its state: nothing for a plain coin; for a quarter, the
/// state's name followed by whether it existed in the reference year.
pub open spec fn description(coin: Coin) -> Option<Seq<char>> {
    match coin {
        Coin::Nickel => None,
        Coin::Quarter(state) => Some(
            if state.spec_existed_in(REFERENCE_YEAR as int) {
                state.spec_name() + old_suffix()
            } else {
                state.spec_name() + new_suffix()
            },
        ),
    }
}

/// The view of an optional string.
pub open spec fn opt_view(r: Option<String>) -> Option<Seq<char>> {
    match r {
        Some(s) => Some(s@),
        None => None,
    }
}

/// Whether `needle` occurs in `hay` as a contiguous run.
pub open spec fn contains(hay: Seq<char>, needle: Seq<char>) -> bool {
    exists|i: int| 0 <= i && i + needle.len() <= hay.len() && #[trigger] hay.subrange(i, i + needle.len()) == needle
}

/// Describes a state quarter; a plain coin has no description.
pub fn describe_state_quarter(coin: Coin) -> (r: Option<String>)
    ensures
        opt_view(r) == description(coin),
{
    let Coin::Quarter(ref state) = coin else {
        return None;
    };
    let name = String::from_str(state.name());
    if state.existed_in(REFERENCE_YEAR) {
        Some(name.concat(" is pretty old, for America!"))
    } else {
        Some(name.concat(" is relatively new."))
    }
}

/// A plain coin has no description.
pub proof fn lemma_plain_coin_undescribed()
    ensures
        description(Coin::Nickel) is None,
{
}

/// An Alabama quarter is described as pretty old.
pub proof fn lemma_alabama_is_old()
    ensures
        description(Coin::Quarter(Ustate::Alabama)) matches Some(d) && contains(d, "pretty old"@),
{
    reveal_strlit("Alabama");
    reveal_strlit(" is pretty old, for America!");
    reveal_strlit("pretty old");
    let d = "Alabama"@ + " is pretty old, for America!"@;
    assert(d.subrange(11int, 11int + "pretty old"@.len()) =~= "pretty old"@);
    assert(contains(d, "pretty old"@));
}

/// An Alaska quarter is described as relatively new.
pub proof fn lemma_alaska_is_new()
    ensures
        description(Coin::Quarter(Ustate::Alaska)) matches Some(d) && contains(d, "relatively new"@),
{
    reveal_strlit("Alaska");
    reveal_strlit(" is relatively new.");
    reveal_strlit("relatively new");
    let d = "Alaska"@ + " is relatively new."@;
    assert(d.subrange(10int, 10int + "relatively new"@.len()) =~= "relatively new"@);
    assert(contains(d, "relatively new"@));
}

/// Describing the same coin twice gives the same result both times: the
/// description is a function of the coin alone.
pub proof fn lemma_describe_repeatable(coin: Coin, r1: Option<String>, r2: Option<String>)
    requires
        opt_view(r1) == description(coin),
        opt_view(r2) == description(coin),
    ensures
        opt_view(r1) == opt_view(r2),
        r1 is Some <==> r2 is Some,
{
}

} // verus!
