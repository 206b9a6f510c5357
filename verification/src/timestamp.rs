use vstd::prelude::*;

verus! {

/// The text chrono's `Display` gives the UTC instant `secs` seconds and
/// `nanos` nanoseconds after the Unix epoch, or `None` where
/// `DateTime::<Utc>::from_timestamp` refuses the pair (out of range).
pub uninterp spec fn utc_text(secs: i64, nanos: u32) -> Option<Seq<char>>;

/// Calls `chrono::Utc::now` and splits the instant into its Unix seconds and
/// sub-second nanoseconds. The instant depends on the clock, so nothing is
/// claimed of it but what chrono documents: `from_timestamp` round-trips with
/// `timestamp` and `timestamp_subsec_nanos`, so the pair has a text.
#[verifier::external_body]
fn utc_now_parts() -> (parts: (i64, u32))
    ensures
        utc_text(parts.0, parts.1) is Some,
{
    let now = chrono::Utc::now();
    (now.timestamp(), now.timestamp_subsec_nanos())
}

/// Calls `chrono::DateTime::<Utc>::from_timestamp` and, where it gives an
/// instant, its `Display` text. Claims that the result is `utc_text` of the pair.
#[verifier::external_body]
fn utc_display(secs: i64, nanos: u32) -> (text: Option<String>)
    ensures
        text matches Some(t) ==> utc_text(secs, nanos) == Some(t@),
        text is None ==> utc_text(secs, nanos) is None,
{
    match chrono::DateTime::<chrono::Utc>::from_timestamp(secs, nanos) {
        Some(t) => Some(t.to_string()),
        None => None,
    }
}

/// A UTC instant that chrono can represent: Unix seconds and the nanoseconds
/// past them, and, for an instant read from the clock, the number its reader
/// gave that reading.
#[derive(Clone, Copy, Debug)]
pub struct Timestamp {
    secs: i64,
    nanos: u32,
    reading: Option<u64>,
}

impl Timestamp {
    #[verifier::type_invariant]
    spec fn representable(self) -> bool {
        utc_text(self.secs, self.nanos) is Some
    }

    pub closed spec fn spec_secs(self) -> i64 {
        self.secs
    }

    pub closed spec fn spec_nanos(self) -> u32 {
        self.nanos
    }

    /// The text of this instant.
    pub closed spec fn text(self) -> Seq<char> {
        utc_text(self.secs, self.nanos).unwrap()
    }

    /// Which clock reading gave this instant, as numbered by the one who read
    /// the clock; `None` for an instant given by its parts.
    pub closed spec fn reading(self) -> Option<u64> {
        self.reading
    }

    /// The current instant, read from the clock (as reading number 0).
    pub fn now() -> (t: Timestamp)
        ensures
            utc_text(t.spec_secs(), t.spec_nanos()) is Some,
            t.reading() == Some(0u64),
    {
        Timestamp::read_clock(0)
    }

    /// The current instant, read from the clock and marked as the reader's
    /// reading number `number`.
    pub fn read_clock(number: u64) -> (t: Timestamp)
        ensures
            utc_text(t.spec_secs(), t.spec_nanos()) is Some,
            t.reading() == Some(number),
    {
        let (secs, nanos) = utc_now_parts();
        Timestamp { secs, nanos, reading: Some(number) }
    }

    /// The instant `secs` seconds and `nanos` nanoseconds after the epoch, if
    /// chrono can represent it.
    pub fn from_parts(secs: i64, nanos: u32) -> (t: Option<Timestamp>)
        ensures
            t is Some <==> utc_text(secs, nanos) is Some,
            t matches Some(t) ==> t.spec_secs() == secs && t.spec_nanos() == nanos && t.reading() is None,
    {
        match utc_display(secs, nanos) {
            Some(_) => Some(Timestamp { secs, nanos, reading: None }),
            None => None,
        }
    }

    pub fn secs(&self) -> (s: i64)
        ensures
            s == self.spec_secs(),
    {
        self.secs
    }

    pub fn nanos(&self) -> (n: u32)
        ensures
            n == self.spec_nanos(),
    {
        self.nanos
    }

    /// The `Display` text of the instant, as chrono writes it.
    pub fn to_text(&self) -> (text: String)
        ensures
            text@ == self.text(),
            Some(text@) == utc_text(self.spec_secs(), self.spec_nanos()),
    {
        proof {
            use_type_invariant(self);
        }
        match utc_display(self.secs, self.nanos) {
            Some(t) => t,
            None => {
                proof {
                    assert(false);
                }
                String::new()
            },
        }
    }
}

} // verus!
