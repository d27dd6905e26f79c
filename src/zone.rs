//! Timezones checked against the timezone database, and rendering of clock
//! text in them.
use std::fmt::Write;
use vstd::prelude::*;

verus! {

/// Whether the timezone database has a zone of this IANA name.
pub uninterp spec fn is_known_zone(name: Seq<char>) -> bool;

/// The text that the date/time formatter gives for `format` at the instant
/// `secs` (seconds since the Unix epoch) in the zone named `zone`; `None`
/// where the formatter refuses the format or the instant.
pub uninterp spec fn zoned_text(zone: Seq<char>, secs: int, format: Seq<char>) -> Option<
    Seq<char>,
>;

/// Relies on chrono_tz's `FromStr` for `Tz`: a lookup of the exact name in
/// the compiled-in IANA table, which succeeds or fails on the name alone.
#[verifier::external_body]
fn zone_exists(name: &str) -> (r: bool)
    ensures
        r == is_known_zone(name@),
{
    name.parse::<chrono_tz::Tz>().is_ok()
}

/// Relies on chrono's `DateTime::from_timestamp`, `with_timezone` and
/// `format` (with chrono_tz's `Tz` parsed from `zone`): the formatted local
/// time, or `None` where a step refuses its input.
#[verifier::external_body]
fn format_in_zone(zone: &str, secs: i64, format: &str) -> (r: Option<String>)
    ensures
        r matches Some(t) ==> zoned_text(zone@, secs as int, format@) == Some(t@),
        r is None ==> zoned_text(zone@, secs as int, format@) is None,
{
    let tz: chrono_tz::Tz = zone.parse().ok()?;
    let at = chrono::DateTime::from_timestamp(secs, 0)?;
    let mut out = String::new();
    write!(out, "{}", at.with_timezone(&tz).format(format)).ok()?;
    Some(out)
}

/// Relies on chrono's `Utc::now`: the current instant in whole seconds since
/// the Unix epoch. Nothing is promised of its value.
#[verifier::external_body]
fn now_seconds() -> (r: i64) {
    chrono::Utc::now().timestamp()
}

/// Why a timezone name was refused.
#[derive(Clone, Copy, Debug, PartialEq, Eq, Structural)]
pub enum TimezoneError {
    /// The timezone database has no zone of that name.
    Unknown,
}

/// An IANA timezone name that the timezone database accepts.
#[derive(Debug)]
pub struct Timezone {
    name: String,
}

impl View for Timezone {
    type V = Seq<char>;

    closed spec fn view(&self) -> Seq<char> {
        self.name@
    }
}

impl Clone for Timezone {
    fn clone(&self) -> (r: Self)
        ensures
            r@ == self@,
    {
        proof {
            use_type_invariant(self);
        }
        Timezone { name: self.name.clone() }
    }
}

impl Timezone {
    #[verifier::type_invariant]
    spec fn known(&self) -> bool {
        is_known_zone(self.name@)
    }

    /// The IANA name of this zone.
    pub fn name(&self) -> (r: &str)
        ensures
            r@ == self@,
            is_known_zone(self@),
    {
        proof {
            use_type_invariant(self);
        }
        self.name.as_str()
    }
}

/// Checks `name` against the timezone database.
pub fn parse_timezone(name: &str) -> (r: Result<Timezone, TimezoneError>)
    ensures
        r is Ok <==> is_known_zone(name@),
        r matches Ok(tz) ==> tz@ == name@,
        r matches Err(e) ==> e == TimezoneError::Unknown,
{
    if zone_exists(name) {
        Ok(Timezone { name: name.to_owned() })
    } else {
        Err(TimezoneError::Unknown)
    }
}

/// Renders `template` at the instant `secs` in the zone `tz`.
pub fn render_at(tz: &Timezone, secs: i64, template: &str) -> (r: Option<String>)
    ensures
        r matches Some(t) ==> zoned_text(tz@, secs as int, template@) == Some(t@),
        r is None ==> zoned_text(tz@, secs as int, template@) is None,
{
    format_in_zone(tz.name(), secs, template)
}

/// Renders `template` at the current instant in the zone `tz`; `None` where
/// the formatter refuses the template.
pub fn render(tz: &Timezone, template: &str) -> (r: Option<String>)
    ensures
        r matches Some(t) ==> exists|secs: i64| zoned_text(tz@, secs as int, template@) == Some(t@),
        r is None ==> exists|secs: i64| zoned_text(tz@, secs as int, template@) is None,
{
    let now = now_seconds();
    render_at(tz, now, template)
}

} // verus!
