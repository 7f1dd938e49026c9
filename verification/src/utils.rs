//! Time zone names.

use chrono_tz::Tz;
use std::str::FromStr;
use vstd::prelude::*;

verus! {

/// Whether the time zone database knows a zone by this name: what
/// `chrono_tz::Tz::from_str` accepts, which is a lookup of the exact name in
/// the table of zones that the crate was built with.
pub uninterp spec fn timezone_known(name: Seq<char>) -> bool;

/// Whether `timezone_str` names a zone of the time zone database.
///
/// Calls `Tz::from_str` of `chrono_tz` and reports whether it returned `Ok`.
#[verifier::external_body]
pub fn is_valid_timezone(timezone_str: &str) -> (valid: bool)
    ensures
        valid == timezone_known(timezone_str@),
{
    Tz::from_str(timezone_str).is_ok()
}

/// The zone names offered to the user as examples, in the order shown.
pub open spec fn common_timezone_names() -> Seq<Seq<char>> {
    seq![
        "UTC"@,
        "US/Eastern"@,
        "US/Central"@,
        "US/Mountain"@,
        "US/Pacific"@,
        "Europe/London"@,
        "Europe/Paris"@,
        "Europe/Berlin"@,
        "Europe/Rome"@,
        "Asia/Tokyo"@,
        "Asia/Shanghai"@,
        "Asia/Kolkata"@,
        "Australia/Sydney"@,
        "America/Sao_Paulo"@,
        "America/Mexico_City"@,
        "America/Toronto"@,
        "America/New_York"@,
        "America/Los_Angeles"@,
        "America/Chicago"@,
        "Africa/Cairo"@,
        "Pacific/Auckland"@,
    ]
}

/// The texts of a list of names.
pub open spec fn texts(names: Seq<&'static str>) -> Seq<Seq<char>> {
    names.map_values(|name: &'static str| name@)
}

/// Zone names that are in common use, for the user's reference.
pub fn get_common_timezones() -> (names: Vec<&'static str>)
    ensures
        texts(names@) == common_timezone_names(),
{
    let mut names: Vec<&'static str> = Vec::new();
    names.push("UTC");
    names.push("US/Eastern");
    names.push("US/Central");
    names.push("US/Mountain");
    names.push("US/Pacific");
    names.push("Europe/London");
    names.push("Europe/Paris");
    names.push("Europe/Berlin");
    names.push("Europe/Rome");
    names.push("Asia/Tokyo");
    names.push("Asia/Shanghai");
    names.push("Asia/Kolkata");
    names.push("Australia/Sydney");
    names.push("America/Sao_Paulo");
    names.push("America/Mexico_City");
    names.push("America/Toronto");
    names.push("America/New_York");
    names.push("America/Los_Angeles");
    names.push("America/Chicago");
    names.push("Africa/Cairo");
    names.push("Pacific/Auckland");
    proof {
        assert(texts(names@) =~= common_timezone_names());
    }
    names
}

} // verus!
