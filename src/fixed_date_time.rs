use crate::text::opt_text;
use chrono::{DateTime, FixedOffset, SecondsFormat};
use vstd::prelude::*;

verus! {

/// A point in time with a fixed UTC offset, held as its RFC 3339 text in
/// whole seconds, with `Z` for a zero offset.
#[derive(Clone, Debug)]
pub struct FixedDateTime {
    text: String,
}

/// The text was not an RFC 3339 date and time.
#[derive(Clone, Copy, Debug, PartialEq, Eq)]
pub struct FixedDateTimeParseError;

impl View for FixedDateTime {
    type V = Seq<char>;

    closed spec fn view(&self) -> Seq<char> {
        self.text@
    }
}

/// The RFC 3339 text, in whole seconds and with `Z` for a zero offset, of
/// the date and time that `s` gives in RFC 3339 form; `None` where `s` is
/// not such a text.
pub uninterp spec fn rfc3339_canonical(s: Seq<char>) -> Option<Seq<char>>;

/// Relies on chrono's `DateTime::<FixedOffset>::parse_from_rfc3339` and
/// `to_rfc3339_opts(SecondsFormat::Secs, true)`.
#[verifier::external_body]
fn canonical_rfc3339(s: &str) -> (r: Option<String>)
    ensures
        opt_text(r) == rfc3339_canonical(s@),
{
    let t = DateTime::<FixedOffset>::parse_from_rfc3339(s).ok()?;
    Some(t.to_rfc3339_opts(SecondsFormat::Secs, true))
}

impl FixedDateTime {
    /// Parses an RFC 3339 date and time.
    pub fn from_str(s: &str) -> (r: Result<FixedDateTime, FixedDateTimeParseError>)
        ensures
            match rfc3339_canonical(s@) {
                Some(t) => r matches Ok(d) && d@ == t,
                None => r is Err,
            },
    {
        match canonical_rfc3339(s) {
            Some(text) => Ok(FixedDateTime { text }),
            None => Err(FixedDateTimeParseError),
        }
    }

    /// The RFC 3339 text, in whole seconds, with `Z` for a zero offset.
    pub fn to_string(&self) -> (r: String)
        ensures
            r@ == self@,
    {
        self.text.clone()
    }
}

impl std::str::FromStr for FixedDateTime {
    type Err = FixedDateTimeParseError;

    fn from_str(s: &str) -> Result<FixedDateTime, FixedDateTimeParseError> {
        FixedDateTime::from_str(s)
    }
}

} // verus!
