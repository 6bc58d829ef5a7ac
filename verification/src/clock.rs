use vstd::prelude::*;

verus! {

/// The RFC 3339 text that chrono gives for the UTC instant `secs` seconds and
/// `nanos` nanoseconds after the Unix epoch (`DateTime::from_timestamp` then
/// `to_rfc3339`), or `None` where chrono has no such instant.
pub uninterp spec fn rfc3339_text(secs: i64, nanos: u32) -> Option<Seq<char>>;

/// The instant, as seconds and sub-second nanoseconds after the Unix epoch,
/// that chrono's `DateTime::parse_from_rfc3339` reads from `text`, or `None`
/// where chrono refuses the text.
pub uninterp spec fn rfc3339_instant(text: Seq<char>) -> Option<(i64, u32)>;

/// Calls `chrono::Utc::now()` and returns the instant as seconds and
/// sub-second nanoseconds. chrono builds that value with
/// `DateTime::from_timestamp(secs, nanos).unwrap()`, so the same pair has RFC
/// 3339 text; that is all that is stated: the instant itself depends on the
/// clock.
#[verifier::external_body]
fn current_instant() -> (r: (i64, u32))
    ensures
        rfc3339_text(r.0, r.1) is Some,
{
    let now = chrono::Utc::now();
    (now.timestamp(), now.timestamp_subsec_nanos())
}

/// Whether `secs` seconds after the Unix epoch falls in a year from 0 to
/// 9999 (UTC), the years that RFC 3339 writes with four digits.
pub open spec fn four_digit_year(secs: i64) -> bool {
    -62167219200 <= secs < 253402300800
}

/// Calls `chrono::DateTime::from_timestamp(secs, nanos)` and renders the
/// instant with `to_rfc3339`; `None` where `from_timestamp` refuses the pair.
/// The result is the named `rfc3339_text`. In the years 0 to 9999, chrono's
/// `write_rfc3339` writes the date with four digits, the seconds (60 for a
/// leap second) and every non-zero nanosecond digit group, which
/// `parse_from_rfc3339` reads back as the same instant.
#[verifier::external_body]
fn format_rfc3339(secs: i64, nanos: u32) -> (r: Option<String>)
    ensures
        match r {
            Some(text) => rfc3339_text(secs, nanos) == Some(text@),
            None => rfc3339_text(secs, nanos) is None,
        },
        four_digit_year(secs) ==> (r matches Some(text) ==> rfc3339_instant(text@) == Some((secs, nanos))),
{
    match chrono::DateTime::from_timestamp(secs, nanos) {
        Some(dt) => Some(dt.to_rfc3339()),
        None => None,
    }
}

/// Calls `chrono::DateTime::parse_from_rfc3339(text)` and returns the parsed
/// instant as seconds (`timestamp`) and sub-second nanoseconds
/// (`timestamp_subsec_nanos`); `None` on chrono's parse error. The result is
/// the named `rfc3339_instant`. A parsed value is a `DateTime` that chrono
/// built, so `from_timestamp` accepts the same pair again.
#[verifier::external_body]
fn parse_rfc3339(text: &str) -> (r: Option<(i64, u32)>)
    ensures
        r == rfc3339_instant(text@),
        r matches Some(p) ==> rfc3339_text(p.0, p.1) is Some,
{
    match chrono::DateTime::parse_from_rfc3339(text) {
        Ok(dt) => Some((dt.timestamp(), dt.timestamp_subsec_nanos())),
        Err(_) => None,
    }
}

/// A UTC instant, kept as seconds and sub-second nanoseconds after the Unix
/// epoch. Every value is one that chrono can represent and render.
#[derive(Clone, Copy, Debug, PartialEq, Eq, Structural)]
pub struct Timestamp {
    secs: i64,
    nanos: u32,
}

impl Timestamp {
    #[verifier::type_invariant]
    spec fn representable(self) -> bool {
        rfc3339_text(self.secs, self.nanos) is Some
    }

    /// Seconds after the Unix epoch.
    pub closed spec fn spec_secs(self) -> i64 {
        self.secs
    }

    /// Sub-second nanoseconds.
    pub closed spec fn spec_nanos(self) -> u32 {
        self.nanos
    }

    /// The RFC 3339 text of the instant.
    pub open spec fn text(self) -> Seq<char> {
        rfc3339_text(self.spec_secs(), self.spec_nanos())->0
    }

    /// Two timestamps with the same seconds and nanoseconds are the same.
    pub proof fn lemma_same_instant(a: Timestamp, b: Timestamp)
        ensures
            (a.spec_secs() == b.spec_secs() && a.spec_nanos() == b.spec_nanos()) ==> a == b,
    {
    }

    pub fn secs(&self) -> (r: i64)
        ensures
            r == self.spec_secs(),
    {
        self.secs
    }

    pub fn nanos(&self) -> (r: u32)
        ensures
            r == self.spec_nanos(),
    {
        self.nanos
    }

    /// The current instant of the system clock.
    pub fn now() -> (r: Timestamp) {
        let (secs, nanos) = current_instant();
        Timestamp { secs, nanos }
    }

    /// The instant `secs` seconds and `nanos` nanoseconds after the Unix
    /// epoch, or `None` where chrono has no such instant.
    pub fn from_unix(secs: i64, nanos: u32) -> (r: Option<Timestamp>)
        ensures
            (r is Some) == (rfc3339_text(secs, nanos) is Some),
            r matches Some(t) ==> t.spec_secs() == secs && t.spec_nanos() == nanos,
    {
        match format_rfc3339(secs, nanos) {
            Some(_) => Some(Timestamp { secs, nanos }),
            None => None,
        }
    }

    /// The instant written in `text` as RFC 3339, or `None` where the text
    /// is refused.
    pub fn parse_rfc3339(text: &str) -> (r: Option<Timestamp>)
        ensures
            r is Some <==> rfc3339_instant(text@) is Some,
            r matches Some(t) ==> rfc3339_instant(text@) == Some((t.spec_secs(), t.spec_nanos())),
    {
        match parse_rfc3339(text) {
            Some((secs, nanos)) => Timestamp::from_unix(secs, nanos),
            None => None,
        }
    }

    /// The RFC 3339 text of the instant.
    pub fn to_rfc3339(&self) -> (r: String)
        ensures
            r@ == self.text(),
            four_digit_year(self.spec_secs()) ==> rfc3339_instant(r@) == Some((self.spec_secs(), self.spec_nanos())),
    {
        proof {
            use_type_invariant(self);
        }
        match format_rfc3339(self.secs, self.nanos) {
            Some(text) => text,
            None => String::new(),
        }
    }
}

} // verus!
