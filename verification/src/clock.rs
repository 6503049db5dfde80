//! Time: points on the UTC scale, and the clock that a game's timer runs on.
use vstd::prelude::*;

verus! {

/// How long a question accepts answers, in seconds.
pub const QUESTION_DURATION: u64 = 15;

/// Nanoseconds in one second.
pub const NANOS_PER_SEC: u128 = 1_000_000_000;

/// The first second of the calendar that `chrono` covers (the start of the year -262143),
/// counted from 1970-01-01T00:00:00Z.
pub const MIN_SECS: i64 = -8_334_601_228_800;

/// The last second of that calendar (the end of the year 262142).
pub const MAX_SECS: i64 = 8_210_266_876_799;

/// A point in time on the UTC scale.
#[derive(Clone, Copy, Debug, PartialEq, Eq, Structural)]
pub struct Timestamp {
    /// Seconds since 1970-01-01T00:00:00Z.
    pub secs: i64,
    /// Nanoseconds within the second.
    pub nanos: u32,
}

impl Timestamp {
    /// A point within the calendar, and not inside a leap second.
    pub open spec fn in_calendar(self) -> bool {
        &&& MIN_SECS <= self.secs <= MAX_SECS
        &&& self.nanos < NANOS_PER_SEC
    }

    /// The point `by` seconds later.
    pub open spec fn plus(self, by: nat) -> Timestamp {
        Timestamp { secs: (self.secs + by) as i64, nanos: self.nanos }
    }

    /// Whether `self` is strictly earlier than `other`.
    pub open spec fn earlier(self, other: Timestamp) -> bool {
        self.secs < other.secs || (self.secs == other.secs && self.nanos < other.nanos)
    }

    /// Tells whether `self` is strictly earlier than `other`.
    pub fn is_before(&self, other: &Timestamp) -> (r: bool)
        ensures
            r == self.earlier(*other),
    {
        self.secs < other.secs || (self.secs == other.secs && self.nanos < other.nanos)
    }
}

/// What the two clocks show when an event is handled.
#[derive(Clone, Copy, Debug, PartialEq, Eq, Structural)]
pub struct Reading {
    /// The time of day.
    pub utc: Timestamp,
    /// Nanoseconds that the game's own clock has run.
    pub elapsed: u128,
}

/// The game clock's reading at which a question that starts at `elapsed` runs out.
pub open spec fn deadline_after(elapsed: nat) -> nat {
    elapsed + QUESTION_DURATION as nat * NANOS_PER_SEC as nat
}

impl Reading {
    /// A question that starts now ends at a time that both clocks can show.
    pub open spec fn in_range(self) -> bool {
        &&& self.utc.in_calendar()
        &&& self.utc.secs + QUESTION_DURATION <= MAX_SECS
        &&& deadline_after(self.elapsed as nat) <= u128::MAX
    }

    /// When a question that starts now ends.
    pub open spec fn question_ends_at(self) -> Timestamp {
        self.utc.plus(QUESTION_DURATION as nat)
    }

    /// When a question that starts now ends.
    pub fn ends_at(&self) -> (t: Timestamp)
        requires
            self.in_range(),
        ensures
            t == self.question_ends_at(),
    {
        add_seconds(self.utc, QUESTION_DURATION)
    }

    /// The game clock's reading when a question that starts now ends.
    pub fn deadline(&self) -> (d: u128)
        requires
            self.in_range(),
        ensures
            d as nat == deadline_after(self.elapsed as nat),
    {
        self.elapsed + QUESTION_DURATION as u128 * NANOS_PER_SEC
    }
}

/// Puts the readings of the two clocks together, if a question that starts now would end within
/// the range of both.
pub fn reading_of(utc: Timestamp, elapsed: u128) -> (r: Option<Reading>)
    ensures
        match r {
            Some(now) => now == (Reading { utc, elapsed }) && now.in_range(),
            None => !(Reading { utc, elapsed }).in_range(),
        },
{
    if utc.secs < MIN_SECS || utc.secs > MAX_SECS - QUESTION_DURATION as i64 || utc.nanos as u128 >= NANOS_PER_SEC {
        return None;
    }
    if elapsed > u128::MAX - QUESTION_DURATION as u128 * NANOS_PER_SEC {
        return None;
    }
    Some(Reading { utc, elapsed })
}

/// Of two points in time the earlier one is that which fewer nanoseconds have led up to.
pub proof fn law_earlier(a: Timestamp, b: Timestamp)
    requires
        a.nanos < 1_000_000_000,
        b.nanos < 1_000_000_000,
    ensures
        a.earlier(b) <==> a.secs * 1_000_000_000 + a.nanos < b.secs * 1_000_000_000 + b.nanos,
{
}

/// A question is open for 15 seconds, by both clocks.
pub proof fn law_question_time(now: Reading)
    requires
        now.in_range(),
    ensures
        now.question_ends_at().secs == now.utc.secs + 15,
        now.question_ends_at().nanos == now.utc.nanos,
        deadline_after(now.elapsed as nat) == now.elapsed + 15_000_000_000,
{
}

/// The readings at which a question can start: those from which both clocks can go on for 15
/// seconds more.
pub proof fn law_in_range(now: Reading)
    ensures
        now.in_range() <==> {
            &&& -8_334_601_228_800 <= now.utc.secs
            &&& now.utc.secs + 15 <= 8_210_266_876_799
            &&& now.utc.nanos < 1_000_000_000
            &&& now.elapsed + 15_000_000_000 <= u128::MAX
        },
{
}

/// An instant of tokio's clock. It holds no number that can be read, only the time that has
/// gone by since.
#[verifier::external_type_specification]
#[verifier::external_body]
pub struct ExInstant(tokio::time::Instant);

/// `tokio::time::Instant::now`. Nothing is claimed of the instant.
pub assume_specification[ tokio::time::Instant::now ]() -> tokio::time::Instant;

/// `tokio::time::Instant::elapsed`, in nanoseconds: the time that has gone by since the instant,
/// whatever it is. A `std::time::Duration` holds at most `u64::MAX` whole seconds and less than
/// one second more.
#[verifier::external_body]
fn nanos_since(start: &tokio::time::Instant) -> (n: u128)
    ensures
        n < (u64::MAX + 1) * NANOS_PER_SEC,
{
    start.elapsed().as_nanos()
}

/// `chrono::Utc::now`: the time that the system clock shows, whatever it is. It lies in the
/// calendar and not inside a leap second. A system clock that is set before 1970 or beyond the
/// calendar makes `chrono` panic, which nothing here can rule out.
#[verifier::external_body]
pub(crate) fn utc_now() -> (t: Timestamp)
    ensures
        t.in_calendar(),
{
    let now = chrono::Utc::now();
    Timestamp { secs: now.timestamp(), nanos: now.timestamp_subsec_nanos() }
}

/// `chrono::DateTime<Utc> + chrono::Duration`: outside leap seconds the sum is so many seconds
/// later. It panics where the sum leaves the calendar.
#[verifier::external_body]
fn add_seconds(t: Timestamp, by: u64) -> (r: Timestamp)
    requires
        t.in_calendar(),
        t.secs + by <= MAX_SECS,
    ensures
        r == t.plus(by as nat),
{
    let start = chrono::DateTime::<chrono::Utc>::from_timestamp(t.secs, t.nanos).unwrap();
    let end = start + chrono::Duration::from_std(std::time::Duration::from_secs(by)).unwrap();
    Timestamp { secs: end.timestamp(), nanos: end.timestamp_subsec_nanos() }
}

/// The clock that a game's timer runs on.
pub struct GameClock {
    /// When the clock was started.
    pub start: tokio::time::Instant,
}

impl GameClock {
    /// Starts a clock.
    pub fn start() -> GameClock {
        GameClock { start: tokio::time::Instant::now() }
    }

    /// Reads this clock and the time of day. There is no reading once a question that starts
    /// now would end after the last second of the calendar.
    pub fn read(&self) -> (r: Option<Reading>)
        ensures
            r matches Some(now) ==> now.in_range(),
    {
        reading_of(utc_now(), nanos_since(&self.start))
    }
}

} // verus!
