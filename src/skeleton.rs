use vstd::prelude::*;

verus! {

/// What a unit's solution can report.
#[derive(Debug, PartialEq, Eq)]
pub enum Error {
    /// No solution was found.
    NoSolution,
}

/// The first part of a freshly scaffolded unit: it has no solution yet.
pub fn part1(input: &str) -> (r: Result<(), Error>)
    ensures
        r == Err::<(), Error>(Error::NoSolution),
{
    Err(Error::NoSolution)
}

/// The second part of a freshly scaffolded unit: it has no solution yet.
pub fn part2(input: &str) -> (r: Result<(), Error>)
    ensures
        r == Err::<(), Error>(Error::NoSolution),
{
    Err(Error::NoSolution)
}

} // verus!
