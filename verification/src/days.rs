use vstd::prelude::*;

verus! {

/// A day of the week: a closed enumeration of the seven day names.
#[derive(Clone, Copy, PartialEq, Eq, Structural, Debug)]
pub enum Day {
    Monday,
    Tuesday,
    Wednesday,
    Thursday,
    Friday,
    Saturday,
    Sunday,
}

/// Returns true exactly when the given day is Friday; every other day,
/// weekend days included, yields false.
pub fn is_it_already_friday(day: Day) -> (r: bool)
    ensures
        r == (day is Friday),
{
    match day {
        Day::Friday => true,
        _ => false,
    }
}

} // verus!
