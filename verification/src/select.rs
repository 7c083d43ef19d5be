//! Which simulation the command line asks for.

use vstd::prelude::*;

verus! {

/// The simulations to choose from.
#[derive(Debug, Clone, Copy, PartialEq, Eq)]
pub enum Choice {
    /// The simulation by clusters, set up by `JoeFactory`.
    Joe,
    /// The mean-field simulation, set up by `MattFactory`.
    Matt,
    /// The simulation without gravity, set up by `NoGravityFactory`.
    NoGravity,
}

/// The number that `str::parse::<i32>` reads from a string of the characters
/// `s`, or `None` where it reads none.
pub uninterp spec fn parsed_int(s: Seq<char>) -> Option<i32>;

/// Calls `str::parse::<i32>` of the standard library on `s`. Nothing is proved
/// of it; it is taken to be a function of the characters of `s` alone, called
/// `parsed_int`, and an error is taken for `None`.
#[verifier::external_body]
fn parse_int(s: &str) -> (r: Option<i32>)
    ensures
        r == parsed_int(s@),
{
    s.parse::<i32>().ok()
}

/// The simulation that goes by `number`: 1 is for `Joe`, 2 for `Matt`, 3 for
/// `NoGravity`, and everything else, no number included, for `Matt` again.
pub open spec fn choice_for(number: Option<i32>) -> Choice {
    match number {
        Some(1) => Choice::Joe,
        Some(3) => Choice::NoGravity,
        _ => Choice::Matt,
    }
}

/// The simulation that the arguments `args` of a program ask for, the
/// program's name being the first of them: with exactly one argument behind the
/// name, what that argument stands for as a number; with none or several,
/// `Matt`.
pub open spec fn selection(args: Seq<String>) -> Choice {
    if args.len() == 2 {
        choice_for(parsed_int(args[1]@))
    } else {
        Choice::Matt
    }
}

/// The simulation that goes by `number`.
pub fn factory_for(number: Option<i32>) -> (r: Choice)
    ensures
        r == choice_for(number),
{
    match number {
        Some(1) => Choice::Joe,
        Some(2) => Choice::Matt,
        Some(3) => Choice::NoGravity,
        Some(_) | None => Choice::Matt,
    }
}

/// The simulation that the arguments `args` of a program ask for.
pub fn select_factory(args: &Vec<String>) -> (r: Choice)
    ensures
        r == selection(args@),
{
    if args.len() != 2 {
        return Choice::Matt;
    }
    factory_for(parse_int(args[1].as_str()))
}

} // verus!
