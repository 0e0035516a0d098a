//! The calendar date, read from the system clock.

use crate::machine::is_date_text;
use vstd::prelude::*;

verus! {

/// Today's date in the local time zone, as text. Calls
/// `chrono::Local::now()` and formats the result with `%Y-%m-%d`. Which
/// date comes out depends on the clock and on the time zone of the machine;
/// its shape does not: chrono writes the year zero-padded to four digits,
/// with a sign and as many digits as it takes outside of 0 to 9999, then
/// `-`, the month as two digits, `-` and the day as two digits.
/// `Local::now()` panics where the system clock reads a time before 1970,
/// or where the machine's time-zone data gives no offset for the time.
#[verifier::external_body]
pub(crate) fn local_date() -> (date: String)
    ensures
        is_date_text(date@),
{
    chrono::Local::now().format("%Y-%m-%d").to_string()
}

} // verus!
