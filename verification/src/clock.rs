//! The wall clock, as far as the library needs it: to date a message.

use vstd::prelude::*;

verus! {

/// How the time of a message is written: abbreviated weekday, day of the
/// month, abbreviated month, year, then hours, minutes and seconds.
pub const TIME_PATTERN: &'static str = "%a %e %b %Y, %T";

/// The local time of this moment, written as `pattern` says.
///
/// Trusted: the body calls `chrono::Local::now` and `chrono::DateTime::format`
/// and turns what they give into a `String`. Nothing is claimed of the text,
/// which depends on the clock and the time zone of the machine. The pattern
/// is held to [`TIME_PATTERN`], whose specifiers chrono knows, so that the
/// formatting cannot fail. What no argument decides is left to chrono: it
/// gives up on a machine whose clock stands before 1970 or whose time zone
/// it cannot find out.
#[verifier::external_body]
pub(crate) fn local_time(pattern: &str) -> (label: String)
    requires
        pattern@ == TIME_PATTERN@,
{
    chrono::Local::now().format(pattern).to_string()
}

} // verus!
