//! RFC 3339 datetimes and temporal intervals: a datetime SHALL be in UTC
//! and formatted per RFC 3339 §5.6, and a temporal geometry is either a
//! datetime or an interval, which may be half-bounded using `..` or an
//! empty string.

use vstd::prelude::*;
use crate::metadata::{
    find_piece_end, lemma_piece_end, piece_end, MetadataViolation, MetadataViolationModel,
};
use crate::text::{chars_of, owned, str_eq, string_from};

verus! {

/// An instant in UTC: whole seconds since the Unix epoch and the
/// nanoseconds past them.
#[derive(Debug, Clone, Copy, PartialEq, Eq, Structural)]
pub struct UtcInstant {
    pub secs: i64,
    pub nanos: u32,
}

/// Whether `a` is no later than `b`.
pub open spec fn instant_le(a: UtcInstant, b: UtcInstant) -> bool {
    a.secs < b.secs || (a.secs == b.secs && a.nanos <= b.nanos)
}

/// What `chrono` reads from an RFC 3339 text: the instant as seconds and
/// nanoseconds, and the offset from UTC in seconds; or its error message.
pub uninterp spec fn rfc3339_reading(text: Seq<char>) -> Result<(i64, u32, i32), Seq<char>>;

/// Calls `chrono::DateTime::parse_from_rfc3339`; the result is the named
/// reading of the text, taken apart into the instant's timestamp, its
/// sub-second nanoseconds and its offset, or the parser's error message.
/// The parser reads a four-digit year and under a second of nanoseconds,
/// plus one second for a leap second (second 60, kept as second 59), so an
/// instant read with a zero offset is one the writer writes back.
#[verifier::external_body]
fn read_rfc3339(text: &str) -> (r: Result<(i64, u32, i32), String>)
    ensures
        match (r, rfc3339_reading(text@)) {
            (Ok(a), Ok(b)) => a == b,
            (Err(e), Err(m)) => e@ == m,
            _ => false,
        },
        r is Ok && r->Ok_0.2 == 0 ==> rfc3339_writable(r->Ok_0.0, r->Ok_0.1),
{
    match chrono::DateTime::parse_from_rfc3339(text) {
        Ok(t) => Ok((t.timestamp(), t.timestamp_subsec_nanos(), t.offset().local_minus_utc())),
        Err(e) => Err(e.to_string()),
    }
}

/// The reason given for a datetime with a space separator.
pub open spec fn space_reason() -> Seq<char> {
    "RFC 3339 requires the `T` date/time separator"@
}

/// The verdict on a datetime text: no space separator, an RFC 3339
/// datetime, and a zero offset from UTC.
pub open spec fn datetime_spec(value: Seq<char>) -> Result<UtcInstant, MetadataViolationModel> {
    if value.contains(' ') {
        Err(MetadataViolationModel::InvalidDateTime { value, reason: space_reason() })
    } else {
        match rfc3339_reading(value) {
            Err(m) => Err(MetadataViolationModel::InvalidDateTime { value, reason: m }),
            Ok((secs, nanos, offset)) => if offset != 0 {
                Err(MetadataViolationModel::NotUtc { value })
            } else {
                Ok(UtcInstant { secs, nanos })
            },
        }
    }
}

/// The model of a datetime result.
pub open spec fn instant_result(r: Result<UtcInstant, MetadataViolation>) -> Result<
    UtcInstant,
    MetadataViolationModel,
> {
    match r {
        Ok(t) => Ok(t),
        Err(e) => Err(e@),
    }
}

fn has_space(v: &Vec<char>) -> (r: bool)
    ensures
        r == v@.contains(' '),
{
    let mut i: usize = 0;
    while i < v.len()
        invariant
            0 <= i <= v@.len(),
            forall|j: int| 0 <= j < i ==> v@[j] != ' ',
        decreases v@.len() - i,
    {
        if v[i] == ' ' {
            assert(v@[i as int] == ' ');
            return true;
        }
        i += 1;
    }
    false
}

/// Reads an RFC 3339 datetime that must be in UTC.
pub fn parse_datetime(value: &str) -> (r: Result<UtcInstant, MetadataViolation>)
    ensures
        instant_result(r) == datetime_spec(value@),
        r is Ok ==> writable(r->Ok_0),
{
    if has_space(&chars_of(value)) {
        return Err(
            MetadataViolation::InvalidDateTime {
                value: owned(value),
                reason: owned("RFC 3339 requires the `T` date/time separator"),
            },
        );
    }
    match read_rfc3339(value) {
        Err(reason) => Err(MetadataViolation::InvalidDateTime { value: owned(value), reason }),
        Ok((secs, nanos, offset)) => if offset != 0 {
            Err(MetadataViolation::NotUtc { value: owned(value) })
        } else {
            Ok(UtcInstant { secs, nanos })
        },
    }
}

/// A temporal geometry: an instant, or an interval with at least one
/// bound.
#[derive(Debug, Clone, Copy, PartialEq, Eq, Structural)]
pub enum Temporal {
    Instant(UtcInstant),
    Interval { start: Option<UtcInstant>, end: Option<UtcInstant> },
}

/// The verdict on one bound of an interval: empty or `..` is open.
pub open spec fn bound_spec(t: Seq<char>) -> Result<Option<UtcInstant>, MetadataViolationModel> {
    if t.len() == 0 || t == ".."@ {
        Ok(None)
    } else {
        match datetime_spec(t) {
            Ok(i) => Ok(Some(i)),
            Err(e) => Err(e),
        }
    }
}

/// An invalid interval with its reason.
pub open spec fn invalid_interval(value: Seq<char>, reason: Seq<char>) -> MetadataViolationModel {
    MetadataViolationModel::InvalidTemporalInterval { value, reason }
}

/// The verdict on a temporal text: `datetime`, or `start/end` whose bounds
/// are each a datetime or open, not both open, with the start no later
/// than the end.
pub open spec fn temporal_spec(value: Seq<char>) -> Result<Temporal, MetadataViolationModel> {
    let e = piece_end(value, 0, '/');
    if e >= value.len() {
        match datetime_spec(value) {
            Ok(i) => Ok(Temporal::Instant(i)),
            Err(v) => Err(v),
        }
    } else if piece_end(value, e + 1, '/') < value.len() {
        Err(invalid_interval(value, "expected `datetime` or `start/end`"@))
    } else {
        match bound_spec(value.take(e)) {
            Err(v) => Err(v),
            Ok(start) => match bound_spec(value.skip(e + 1)) {
                Err(v) => Err(v),
                Ok(end) => if start is None && end is None {
                    Err(invalid_interval(value, "an interval requires at least one bound"@))
                } else if start is Some && end is Some && !instant_le(start->0, end->0) {
                    Err(invalid_interval(value, "interval start must not be after its end"@))
                } else {
                    Ok(Temporal::Interval { start, end })
                },
            },
        }
    }
}

fn parse_bound(t: &str) -> (r: Result<Option<UtcInstant>, MetadataViolation>)
    ensures
        match (r, bound_spec(t@)) {
            (Ok(a), Ok(b)) => a == b,
            (Err(e), Err(m)) => e@ == m,
            _ => false,
        },
        r matches Ok(Some(i)) ==> writable(i),
{
    proof {
        reveal_strlit("..");
        reveal_strlit("");
    }
    if str_eq(t, "") || str_eq(t, "..") {
        proof {
            assert(t@.len() == 0 || t@ == ".."@);
        }
        return Ok(None);
    }
    assert(t@.len() != 0) by {
        if t@.len() == 0 {
            assert(t@ =~= ""@);
        }
    }
    match parse_datetime(t) {
        Ok(i) => Ok(Some(i)),
        Err(e) => Err(e),
    }
}

impl Temporal {
    /// Reads a temporal geometry: a datetime, or an interval `start/end`.
    pub fn parse(value: &str) -> (r: Result<Temporal, MetadataViolation>)
        ensures
            match (r, temporal_spec(value@)) {
                (Ok(a), Ok(b)) => a == b,
                (Err(e), Err(m)) => e@ == m,
                _ => false,
            },
            r is Ok ==> temporal_wf(r->Ok_0),
    {
        let v = chars_of(value);
        let e = find_piece_end(&v, 0, '/');
        if e == v.len() {
            return match parse_datetime(value) {
                Ok(i) => Ok(Temporal::Instant(i)),
                Err(violation) => Err(violation),
            };
        }
        let f = find_piece_end(&v, e + 1, '/');
        if f < v.len() {
            return Err(
                MetadataViolation::InvalidTemporalInterval {
                    value: owned(value),
                    reason: "expected `datetime` or `start/end`",
                },
            );
        }
        let start_text = string_from(&v, 0, e);
        let end_text = string_from(&v, e + 1, v.len());
        proof {
            assert(start_text@ =~= value@.take(e as int));
            assert(end_text@ =~= value@.skip(e + 1));
        }
        let start = match parse_bound(start_text.as_str()) {
            Ok(b) => b,
            Err(violation) => {
                return Err(violation);
            },
        };
        let end = match parse_bound(end_text.as_str()) {
            Ok(b) => b,
            Err(violation) => {
                return Err(violation);
            },
        };
        match (start, end) {
            (None, None) => Err(
                MetadataViolation::InvalidTemporalInterval {
                    value: owned(value),
                    reason: "an interval requires at least one bound",
                },
            ),
            (Some(s), Some(t)) => if s.secs > t.secs || (s.secs == t.secs && s.nanos > t.nanos) {
                Err(
                    MetadataViolation::InvalidTemporalInterval {
                        value: owned(value),
                        reason: "interval start must not be after its end",
                    },
                )
            } else {
                Ok(Temporal::Interval { start, end })
            },
            _ => Ok(Temporal::Interval { start, end }),
        }
    }
}

// ---------------------------------------------------------------------------
// Writing

/// The earliest second of year 0 and the last second of year 9999.
pub open spec fn four_digit_years(secs: i64) -> bool {
    -62167219200 <= secs <= 253402300799
}

/// An instant `chrono` writes and reads back: a year from 0 to 9999, and
/// under a second of nanoseconds, or under two during a leap second (the
/// last second of a minute).
pub open spec fn rfc3339_writable(secs: i64, nanos: u32) -> bool {
    &&& four_digit_years(secs)
    &&& (nanos < 1_000_000_000 || (nanos < 2_000_000_000 && secs % 60 == 59))
}

/// What `chrono` writes for an instant in RFC 3339 with `Z` and as many
/// fractional digits as the nanoseconds need; `None` when `chrono` cannot
/// represent the instant.
pub uninterp spec fn rfc3339_writing(secs: i64, nanos: u32) -> Option<Seq<char>>;

/// Calls `chrono::DateTime::<Utc>::from_timestamp` and then
/// `to_rfc3339_opts(SecondsFormat::AutoSi, true)`; the result is the named
/// writing. For an instant in the years 0 to 9999 with fewer than a second
/// of nanoseconds, or a leap second (second 60 of a minute), the text exists, is at least 20 characters long, holds
/// no space and no `/`, and `parse_from_rfc3339` reads it back as the same
/// instant with a zero offset.
#[verifier::external_body]
fn write_rfc3339(secs: i64, nanos: u32) -> (r: Option<String>)
    ensures
        match (r, rfc3339_writing(secs, nanos)) {
            (Some(a), Some(b)) => a@ == b,
            (None, None) => true,
            _ => false,
        },
        rfc3339_writable(secs, nanos) ==> {
            &&& r is Some
            &&& r->0@.len() >= 20
            &&& !r->0@.contains(' ')
            &&& !r->0@.contains('/')
            &&& rfc3339_reading(r->0@) == Ok::<(i64, u32, i32), Seq<char>>((secs, nanos, 0i32))
        },
{
    match chrono::DateTime::<chrono::Utc>::from_timestamp(secs, nanos) {
        Some(t) => Some(t.to_rfc3339_opts(chrono::SecondsFormat::AutoSi, true)),
        None => None,
    }
}

/// Writes an instant in RFC 3339 form with `Z`; `None` when the instant is
/// outside what `chrono` represents.
pub fn format_datetime(instant: &UtcInstant) -> (r: Option<String>)
    ensures
        match (r, rfc3339_writing(instant.secs, instant.nanos)) {
            (Some(a), Some(b)) => a@ == b,
            (None, None) => true,
            _ => false,
        },
        writable(*instant) ==> r is Some && datetime_spec(r->0@) == Ok::<
            UtcInstant,
            MetadataViolationModel,
        >(*instant),
{
    let r = write_rfc3339(instant.secs, instant.nanos);
    proof {
        if writable(*instant) {
            assert(!r->0@.contains(' '));
        }
    }
    r
}

/// The text of one bound of an interval: `..` when open.
pub open spec fn bound_text(b: Option<UtcInstant>) -> Option<Seq<char>> {
    match b {
        None => Some(".."@),
        Some(i) => rfc3339_writing(i.secs, i.nanos),
    }
}

/// The canonical text of a temporal geometry.
pub open spec fn temporal_text(t: Temporal) -> Option<Seq<char>> {
    match t {
        Temporal::Instant(i) => rfc3339_writing(i.secs, i.nanos),
        Temporal::Interval { start, end } => match (bound_text(start), bound_text(end)) {
            (Some(a), Some(b)) => Some(a + seq!['/'] + b),
            _ => None,
        },
    }
}

fn write_bound(b: Option<UtcInstant>) -> (r: Option<String>)
    ensures
        match (r, bound_text(b)) {
            (Some(a), Some(x)) => a@ == x,
            (None, None) => true,
            _ => false,
        },
        (b is Some ==> writable(b->0)) ==> r is Some && !r->0@.contains('/') && bound_spec(r->0@)
            == Ok::<Option<UtcInstant>, MetadataViolationModel>(b),
{
    proof {
        reveal_strlit("..");
    }
    match b {
        None => {
            let r = owned("..");
            assert(!r@.contains('/')) by {
                if r@.contains('/') {
                    let k = choose|k: int| 0 <= k < r@.len() && r@[k] == '/';
                    assert(".."@[k] == '.');
                }
            }
            Some(r)
        },
        Some(i) => {
            let r = write_rfc3339(i.secs, i.nanos);
            proof {
                if writable(i) {
                    let w = r->0@;
                    assert(w.len() != 2);
                    assert(w != ".."@);
                    assert(!w.contains(' '));
                }
            }
            r
        },
    }
}

impl Temporal {
    /// The canonical text: the instant, or `start/end` with `..` for an
    /// open bound; `None` when an instant cannot be written.
    pub fn to_text(&self) -> (r: Option<String>)
        ensures
            match (r, temporal_text(*self)) {
                (Some(a), Some(b)) => a@ == b,
                (None, None) => true,
                _ => false,
            },
            temporal_wf(*self) ==> r is Some && temporal_spec(r->0@) == Ok::<
                Temporal,
                MetadataViolationModel,
            >(*self),
    {
        match self {
            Temporal::Instant(i) => {
                let r = write_rfc3339(i.secs, i.nanos);
                proof {
                    if writable(*i) {
                        lemma_instant_text(r->0@);
                    }
                }
                r
            },
            Temporal::Interval { start, end } => {
                let a = write_bound(*start);
                let b = write_bound(*end);
                match (a, b) {
                    (Some(a), Some(b)) => {
                        let ghost a_text = a@;
                        let mut out = a;
                        crate::text::push_str(&mut out, "/");
                        crate::text::push_str(&mut out, b.as_str());
                        proof {
                            reveal_strlit("/");
                            assert("/"@ =~= seq!['/']);
                            assert(out@ =~= a_text + seq!['/'] + b@);
                            if temporal_wf(*self) {
                                lemma_interval_text(a_text, b@);
                                let t = out@;
                                assert(bound_spec(t.take(a_text.len() as int)) == Ok::<
                                    Option<UtcInstant>,
                                    MetadataViolationModel,
                                >(*start));
                                assert(bound_spec(t.skip(a_text.len() + 1int)) == Ok::<
                                    Option<UtcInstant>,
                                    MetadataViolationModel,
                                >(*end));
                            }
                        }
                        Some(out)
                    },
                    _ => None,
                }
            },
        }
    }
}

// ---------------------------------------------------------------------------
// Reading back what was written

/// An instant `chrono` writes and reads back.
pub open spec fn writable(i: UtcInstant) -> bool {
    rfc3339_writable(i.secs, i.nanos)
}

/// A temporal geometry as the reader returns it, with writable instants:
/// an interval has a bound and does not end before it starts.
pub open spec fn temporal_wf(t: Temporal) -> bool {
    match t {
        Temporal::Instant(i) => writable(i),
        Temporal::Interval { start, end } => {
            &&& !(start is None && end is None)
            &&& (start is Some ==> writable(start->0))
            &&& (end is Some ==> writable(end->0))
            &&& (start is Some && end is Some ==> instant_le(start->0, end->0))
        },
    }
}

proof fn lemma_no_sep(s: Seq<char>, start: int, sep: char)
    requires
        0 <= start <= s.len(),
        forall|k: int| start <= k < s.len() ==> s[k] != sep,
    ensures
        piece_end(s, start, sep) == s.len(),
    decreases s.len() - start,
{
    if start < s.len() {
        lemma_no_sep(s, start + 1, sep);
    }
}

proof fn lemma_sep_at(s: Seq<char>, e: int, sep: char)
    requires
        0 <= e < s.len(),
        s[e] == sep,
        forall|k: int| 0 <= k < e ==> s[k] != sep,
    ensures
        piece_end(s, 0, sep) == e,
{
    lemma_piece_end(s, 0, sep);
    let p = piece_end(s, 0, sep);
    if p < e {
        assert(s[p] == sep);
    } else if p > e {
        assert(s[e] != sep);
    }
}

/// A text with no `/` reads as a single datetime.
proof fn lemma_instant_text(w: Seq<char>)
    requires
        !w.contains('/'),
    ensures
        temporal_spec(w) == match datetime_spec(w) {
            Ok(i) => Ok::<Temporal, MetadataViolationModel>(Temporal::Instant(i)),
            Err(v) => Err(v),
        },
{
    assert forall|k: int| 0 <= k < w.len() implies w[k] != '/' by {
        if w[k] == '/' {
            assert(w.contains(w[k]));
        }
    }
    lemma_no_sep(w, 0, '/');
}

/// Two texts with no `/`, joined by one, read as an interval of their
/// bounds.
proof fn lemma_interval_text(a: Seq<char>, b: Seq<char>)
    requires
        !a.contains('/'),
        !b.contains('/'),
    ensures
        ({
            let s = a + seq!['/'] + b;
            &&& piece_end(s, 0, '/') == a.len()
            &&& piece_end(s, a.len() + 1int, '/') == s.len()
            &&& s.take(a.len() as int) == a
            &&& s.skip(a.len() + 1int) == b
        }),
{
    let s = a + seq!['/'] + b;
    assert forall|k: int| 0 <= k < a.len() implies s[k] != '/' by {
        assert(s[k] == a[k]);
        if a[k] == '/' {
            assert(a.contains(a[k]));
        }
    }
    assert(s[a.len() as int] == '/');
    lemma_sep_at(s, a.len() as int, '/');
    assert forall|k: int| a.len() + 1 <= k < s.len() implies s[k] != '/' by {
        assert(s[k] == b[k - a.len() - 1]);
        if b[k - a.len() - 1] == '/' {
            assert(b.contains(b[k - a.len() - 1]));
        }
    }
    lemma_no_sep(s, a.len() + 1int, '/');
    assert(s.take(a.len() as int) =~= a);
    assert(s.skip(a.len() + 1int) =~= b);
}

} // verus!
