//! The flake lock model and the staleness check of its `nixpkgs` input.

use chrono::Datelike;
use vstd::prelude::*;

verus! {

/// Seconds in one day.
pub const SECONDS_PER_DAY: i64 = 86400;

/// Day number of 1 January 1970, counted from the Common Era
/// (1 January of year 1 is day 1).
pub const UNIX_EPOCH_DAY: i64 = 719163;

/// First day of the calendar that chrono can represent, counted from the Common Era.
pub const MIN_DAY: i64 = -95746129;

/// Last day of the calendar that chrono can represent, counted from the Common Era.
pub const MAX_DAY: i64 = 95745399;

/// The one input of the lock file whose age is tracked.
pub const TRACKED_INPUT: &'static str = "nixpkgs";

/// The day, counted from the Common Era, that holds the Unix timestamp `ts` (UTC).
pub open spec fn day_of_timestamp(ts: int) -> int {
    ts / (SECONDS_PER_DAY as int) + UNIX_EPOCH_DAY
}

/// Whether `day` lies in the calendar that chrono can represent.
pub open spec fn day_in_range(day: int) -> bool {
    MIN_DAY <= day <= MAX_DAY
}

/// Whether the Unix timestamp `ts` lies in the representable calendar.
pub open spec fn timestamp_in_range(ts: int) -> bool {
    day_in_range(day_of_timestamp(ts))
}

/// Relies on chrono's `DateTime::from_timestamp` (with `date_naive` and
/// `num_days_from_ce` to read the date back): a timestamp is accepted exactly
/// when its day lies in chrono's calendar, and then its date is the day that
/// floor division by a day's seconds gives.
#[verifier::external_body]
fn utc_day_of_timestamp(ts: i64) -> (r: Option<i32>)
    ensures
        r is Some <==> timestamp_in_range(ts as int),
        r matches Some(d) ==> d == day_of_timestamp(ts as int),
{
    chrono::DateTime::from_timestamp(ts, 0).map(|t| t.date_naive().num_days_from_ce())
}

/// Relies on std's `SystemTime::now`, read with `duration_since(UNIX_EPOCH)`:
/// the system clock as whole seconds since the Unix epoch, or `None` when the
/// clock reads before the epoch. Nothing is known of the reading itself.
#[verifier::external_body]
fn system_clock_seconds() -> (r: Option<u64>) {
    std::time::SystemTime::now().duration_since(std::time::UNIX_EPOCH).ok().map(|d| d.as_secs())
}

/// The current time as a Unix timestamp, if the system clock reads a time
/// inside the representable calendar.
fn clock_now() -> (r: Option<i64>)
    ensures
        r matches Some(now) ==> timestamp_in_range(now as int),
{
    match system_clock_seconds() {
        Some(secs) => {
            if secs > i64::MAX as u64 {
                None
            } else {
                let now = secs as i64;
                match utc_day_of_timestamp(now) {
                    Some(_) => Some(now),
                    None => None,
                }
            }
        },
        None => None,
    }
}

/// A calendar date (UTC), as its day number counted from the Common Era.
#[derive(Clone, Copy, Debug, PartialEq, Eq, Structural)]
pub struct Date {
    pub days_from_ce: i32,
}

impl Date {
    /// Whether `self` is a strictly later day than `other`.
    pub fn is_after(&self, other: &Date) -> (r: bool)
        ensures
            r == (self.days_from_ce > other.days_from_ce),
    {
        self.days_from_ce > other.days_from_ce
    }
}

/// Lock data of one input: when the pinned revision was last modified.
#[derive(Clone, Copy, Debug, PartialEq, Eq, Structural)]
pub struct LockInfo {
    /// Unix timestamp (seconds, UTC).
    pub last_modified: i64,
}

/// The timestamp that an input's optional lock data carries.
pub open spec fn stamp_of(locked: Option<LockInfo>) -> Option<i64> {
    match locked {
        Some(l) => Some(l.last_modified),
        None => None,
    }
}

/// The mapping that a list of named nodes describes; a later node replaces an
/// earlier one of the same name.
pub open spec fn nodes_map(s: Seq<(String, Option<LockInfo>)>) -> Map<Seq<char>, Option<i64>>
    decreases s.len(),
{
    if s.len() == 0 {
        Map::empty()
    } else {
        nodes_map(s.drop_last()).insert(s.last().0@, stamp_of(s.last().1))
    }
}

/// A parsed flake lock: a mapping from node name to the node's optional lock
/// timestamp (the root node carries none).
pub struct FlakeLock {
    nodes: Vec<(String, Option<LockInfo>)>,
}

impl View for FlakeLock {
    type V = Map<Seq<char>, Option<i64>>;

    closed spec fn view(&self) -> Map<Seq<char>, Option<i64>> {
        nodes_map(self.nodes@)
    }
}

/// Result of a staleness check.
#[derive(Clone, Copy, Debug, PartialEq, Eq, Structural)]
pub enum FlakeStatus {
    /// The input is younger than the allowed age.
    UpToDate {
        /// Day of the last update.
        last_update: Date,
        /// Seconds elapsed since the last update.
        since: i64,
    },
    /// The input has reached the allowed age.
    Outdated {
        /// Day of the last update.
        last_update: Date,
        /// Seconds elapsed since the last update.
        since: i64,
    },
}

/// Why a loaded lock cannot be checked.
#[derive(Clone, Copy, Debug, PartialEq, Eq, Structural)]
pub enum FlakeCheckError {
    /// The lock has no `nixpkgs` node.
    NixpkgsNotFound,
    /// The `nixpkgs` node has no lock data.
    MalformedEntry,
    /// The `nixpkgs` timestamp lies outside the representable calendar.
    TimestampOutOfRange,
    /// The system clock reads before the Unix epoch or outside the
    /// representable calendar.
    ClockOutOfRange,
}

/// The message that describes a check error.
pub open spec fn check_error_message(e: FlakeCheckError) -> Seq<char> {
    match e {
        FlakeCheckError::NixpkgsNotFound => "Cannot find 'nixpkgs' in flake lock!"@,
        FlakeCheckError::MalformedEntry =>
            "`nixpkgs` input is missing a `locked` section in flake lock!"@,
        FlakeCheckError::TimestampOutOfRange =>
            "Couldn't find or parse last modified time for `nixpkgs` input."@,
        FlakeCheckError::ClockOutOfRange => "The system clock reads an impossible time."@,
    }
}

impl FlakeCheckError {
    /// The message that describes the error.
    pub fn message(&self) -> (r: &'static str)
        ensures
            r@ == check_error_message(*self),
    {
        match self {
            FlakeCheckError::NixpkgsNotFound => "Cannot find 'nixpkgs' in flake lock!",
            FlakeCheckError::MalformedEntry =>
                "`nixpkgs` input is missing a `locked` section in flake lock!",
            FlakeCheckError::TimestampOutOfRange =>
                "Couldn't find or parse last modified time for `nixpkgs` input.",
            FlakeCheckError::ClockOutOfRange => "The system clock reads an impossible time.",
        }
    }
}

/// Whether an input last modified `since` seconds ago has reached an allowed
/// age of `allowed_age` days.
pub open spec fn is_stale(since: int, allowed_age: int) -> bool {
    since >= allowed_age * SECONDS_PER_DAY
}

/// The status of an input last modified at `last_modified`, seen at `now`.
pub open spec fn status_at(last_modified: int, now: int, allowed_age: int) -> FlakeStatus {
    let last_update = Date { days_from_ce: day_of_timestamp(last_modified) as i32 };
    let since = (now - last_modified) as i64;
    if is_stale(now - last_modified, allowed_age) {
        FlakeStatus::Outdated { last_update, since }
    } else {
        FlakeStatus::UpToDate { last_update, since }
    }
}

/// What checking a lock with mapping `m` at time `now` gives.
pub open spec fn check_result(m: Map<Seq<char>, Option<i64>>, allowed_age: int, now: int) -> Result<
    FlakeStatus,
    FlakeCheckError,
> {
    if !m.contains_key(TRACKED_INPUT@) {
        Err(FlakeCheckError::NixpkgsNotFound)
    } else {
        match m[TRACKED_INPUT@] {
            None => Err(FlakeCheckError::MalformedEntry),
            Some(t) => if timestamp_in_range(t as int) {
                Ok(status_at(t as int, now, allowed_age))
            } else {
                Err(FlakeCheckError::TimestampOutOfRange)
            },
        }
    }
}

impl FlakeLock {
    /// A lock with no nodes.
    pub fn new() -> (r: FlakeLock)
        ensures
            r@ == Map::<Seq<char>, Option<i64>>::empty(),
    {
        FlakeLock { nodes: Vec::new() }
    }

    /// Adds the node `name`, replacing any node of that name.
    pub fn insert(&mut self, name: String, locked: Option<LockInfo>)
        ensures
            final(self)@ == old(self)@.insert(name@, stamp_of(locked)),
    {
        let ghost before = self.nodes@;
        self.nodes.push((name, locked));
        proof {
            assert(self.nodes@.drop_last() =~= before);
        }
    }

    /// The lock data of the node `name`, if the lock has such a node.
    pub fn node(&self, name: &String) -> (r: Option<Option<LockInfo>>)
        ensures
            r is Some <==> self@.contains_key(name@),
            r matches Some(l) ==> stamp_of(l) == self@[name@],
    {
        let mut i: usize = self.nodes.len();
        assert(self.nodes@.take(i as int) =~= self.nodes@);
        while i > 0
            invariant
                i <= self.nodes@.len(),
                nodes_map(self.nodes@).contains_key(name@) == nodes_map(
                    self.nodes@.take(i as int),
                ).contains_key(name@),
                nodes_map(self.nodes@).contains_key(name@) ==> nodes_map(self.nodes@)[name@]
                    == nodes_map(self.nodes@.take(i as int))[name@],
            decreases i,
        {
            let ghost prefix = self.nodes@.take(i as int);
            proof {
                assert(prefix.drop_last() =~= self.nodes@.take(i - 1));
                assert(prefix.last() == self.nodes@[i - 1]);
            }
            if self.nodes[i - 1].0 == *name {
                return Some(self.nodes[i - 1].1);
            }
            i = i - 1;
        }
        None
    }

    /// Classifies the `nixpkgs` input against an allowed age of `allowed_age`
    /// days, with the clock reading `now` (a Unix timestamp).
    pub fn check_at(&self, allowed_age: u32, now: i64) -> (r: Result<FlakeStatus, FlakeCheckError>)
        requires
            timestamp_in_range(now as int),
        ensures
            r == check_result(self@, allowed_age as int, now as int),
    {
        let name = String::from_str(TRACKED_INPUT);
        match self.node(&name) {
            None => Err(FlakeCheckError::NixpkgsNotFound),
            Some(None) => Err(FlakeCheckError::MalformedEntry),
            Some(Some(info)) => {
                let last_modified = info.last_modified;
                match utc_day_of_timestamp(last_modified) {
                    None => Err(FlakeCheckError::TimestampOutOfRange),
                    Some(day) => {
                        let last_update = Date { days_from_ce: day };
                        let since = now - last_modified;
                        let threshold = allowed_age as i64 * SECONDS_PER_DAY;
                        if since >= threshold {
                            Ok(FlakeStatus::Outdated { last_update, since })
                        } else {
                            Ok(FlakeStatus::UpToDate { last_update, since })
                        }
                    },
                }
            },
        }
    }

    /// Classifies the `nixpkgs` input against an allowed age of `allowed_age`
    /// days, at the current time. The lock is examined before the clock is
    /// read, so `ClockOutOfRange` only comes for a lock that checks at any
    /// valid time.
    pub fn check(&self, allowed_age: u32) -> (r: Result<FlakeStatus, FlakeCheckError>)
        ensures
            r == Err::<FlakeStatus, FlakeCheckError>(FlakeCheckError::ClockOutOfRange) || exists|
                now: int,
            |
                timestamp_in_range(now) && r == #[trigger] check_result(
                    self@,
                    allowed_age as int,
                    now,
                ),
            r == Err::<FlakeStatus, FlakeCheckError>(FlakeCheckError::ClockOutOfRange) ==> forall|
                now: int,
            | #[trigger] check_result(self@, allowed_age as int, now) is Ok,
    {
        let name = String::from_str(TRACKED_INPUT);
        match self.node(&name) {
            None => {
                let r = Err(FlakeCheckError::NixpkgsNotFound);
                assert(r == check_result(self@, allowed_age as int, 0));
                r
            },
            Some(None) => {
                let r = Err(FlakeCheckError::MalformedEntry);
                assert(r == check_result(self@, allowed_age as int, 0));
                r
            },
            Some(Some(info)) => {
                if utc_day_of_timestamp(info.last_modified).is_none() {
                    let r = Err(FlakeCheckError::TimestampOutOfRange);
                    assert(r == check_result(self@, allowed_age as int, 0));
                    return r;
                }
                match clock_now() {
                    None => Err(FlakeCheckError::ClockOutOfRange),
                    Some(now) => {
                        let r = self.check_at(allowed_age, now);
                        assert(r == check_result(self@, allowed_age as int, now as int));
                        r
                    },
                }
            },
        }
    }
}

impl FlakeStatus {
    /// The day of the last update.
    pub open spec fn spec_last_update(&self) -> Date {
        match *self {
            FlakeStatus::UpToDate { last_update, .. } => last_update,
            FlakeStatus::Outdated { last_update, .. } => last_update,
        }
    }

    /// Seconds elapsed since the last update.
    pub open spec fn spec_since(&self) -> i64 {
        match *self {
            FlakeStatus::UpToDate { since, .. } => since,
            FlakeStatus::Outdated { since, .. } => since,
        }
    }

    /// The day of the last update.
    pub fn last_update(&self) -> (r: Date)
        ensures
            r == self.spec_last_update(),
    {
        match *self {
            FlakeStatus::UpToDate { last_update, .. } => last_update,
            FlakeStatus::Outdated { last_update, .. } => last_update,
        }
    }

    /// Seconds elapsed since the last update.
    pub fn since(&self) -> (r: i64)
        ensures
            r == self.spec_since(),
    {
        match *self {
            FlakeStatus::UpToDate { since, .. } => since,
            FlakeStatus::Outdated { since, .. } => since,
        }
    }

    /// Whether the status is `Outdated`.
    pub fn is_outdated(&self) -> (r: bool)
        ensures
            r == (*self is Outdated),
    {
        match *self {
            FlakeStatus::UpToDate { .. } => false,
            FlakeStatus::Outdated { .. } => true,
        }
    }

    /// Whole days elapsed since the last update, rounded toward zero.
    pub fn since_days(&self) -> (r: i64)
        ensures
            r == whole_days(self.spec_since() as int),
    {
        self.since() / SECONDS_PER_DAY
    }
}

/// Whole days in `seconds`, rounded toward zero.
pub open spec fn whole_days(seconds: int) -> int {
    if seconds >= 0 {
        seconds / (SECONDS_PER_DAY as int)
    } else {
        -((-seconds) / (SECONDS_PER_DAY as int))
    }
}

/// What a comparison of the applied system's lock with the configuration's
/// lock advises.
#[derive(Clone, Copy, Debug, PartialEq, Eq, Structural)]
pub enum Advice {
    /// The configuration is ahead of the applied system: apply it.
    ApplyConfig,
    /// The applied system is outdated, the configuration is not: apply it.
    UpdateSystem,
    /// The configuration's lock is outdated: update it, then apply.
    UpdateLock,
    /// The applied system is up to date and the configuration is not ahead.
    NoAction,
}

/// The advice for a reference (applied system) status, if one is known, and
/// the configuration's status. Without a reference the configuration's status
/// alone decides.
pub open spec fn advice_for(reference: Option<FlakeStatus>, config: FlakeStatus) -> Advice {
    match reference {
        None => match config {
            FlakeStatus::UpToDate { .. } => Advice::UpdateSystem,
            FlakeStatus::Outdated { .. } => Advice::UpdateLock,
        },
        Some(FlakeStatus::UpToDate { last_update, .. }) => {
            if config.spec_last_update().days_from_ce > last_update.days_from_ce {
                Advice::ApplyConfig
            } else {
                Advice::NoAction
            }
        },
        Some(FlakeStatus::Outdated { .. }) => match config {
            FlakeStatus::UpToDate { .. } => Advice::UpdateSystem,
            FlakeStatus::Outdated { .. } => Advice::UpdateLock,
        },
    }
}

/// Compares the applied system's status (if it could be found) with the
/// configuration's status.
pub fn compare_status(reference: Option<FlakeStatus>, config: FlakeStatus) -> (r: Advice)
    ensures
        r == advice_for(reference, config),
{
    match (reference, config) {
        (None, FlakeStatus::UpToDate { .. }) => Advice::UpdateSystem,
        (None, FlakeStatus::Outdated { .. }) => Advice::UpdateLock,
        (Some(FlakeStatus::UpToDate { last_update, .. }), _) => {
            if config.last_update().is_after(&last_update) {
                Advice::ApplyConfig
            } else {
                Advice::NoAction
            }
        },
        (Some(FlakeStatus::Outdated { .. }), FlakeStatus::UpToDate { .. }) => Advice::UpdateSystem,
        (Some(FlakeStatus::Outdated { .. }), FlakeStatus::Outdated { .. }) => Advice::UpdateLock,
    }
}

/// An input checked `elapsed` seconds after its last update (any
/// non-negative time, whole days or not) is outdated exactly when that time
/// reaches the allowed age in days, and up to date otherwise.
pub proof fn lemma_outdated_iff_age_reached(
    lock: FlakeLock,
    allowed_age: u32,
    last_modified: i64,
    elapsed: nat,
    now: i64,
)
    requires
        lock@.contains_key(TRACKED_INPUT@),
        lock@[TRACKED_INPUT@] == Some(last_modified),
        timestamp_in_range(last_modified as int),
        timestamp_in_range(now as int),
        now == last_modified + elapsed,
    ensures
        check_result(lock@, allowed_age as int, now as int) is Ok,
        check_result(lock@, allowed_age as int, now as int)->Ok_0 is Outdated <==> elapsed
            >= allowed_age * SECONDS_PER_DAY,
        check_result(lock@, allowed_age as int, now as int)->Ok_0 is UpToDate <==> elapsed
            < allowed_age * SECONDS_PER_DAY,
{
}

/// An input checked exactly the allowed number of days after its last
/// update is outdated, dated the day that holds its timestamp and aged
/// exactly the allowed number of days.
pub proof fn lemma_threshold_is_inclusive(
    lock: FlakeLock,
    allowed_age: u32,
    last_modified: i64,
    now: i64,
)
    requires
        lock@.contains_key(TRACKED_INPUT@),
        lock@[TRACKED_INPUT@] == Some(last_modified),
        timestamp_in_range(last_modified as int),
        timestamp_in_range(now as int),
        now == last_modified + allowed_age * SECONDS_PER_DAY,
    ensures
        check_result(lock@, allowed_age as int, now as int) == Ok::<FlakeStatus, FlakeCheckError>(
            FlakeStatus::Outdated {
                last_update: Date { days_from_ce: day_of_timestamp(last_modified as int) as i32 },
                since: (allowed_age * SECONDS_PER_DAY) as i64,
            },
        ),
{
}

/// Checking depends on nothing but the lock's contents, the allowed age and
/// the clock: two checks of the same lock at the same time agree.
pub proof fn lemma_check_is_repeatable(a: FlakeLock, b: FlakeLock, allowed_age: u32, now: i64)
    requires
        a@ == b@,
    ensures
        check_result(a@, allowed_age as int, now as int) == check_result(
            b@,
            allowed_age as int,
            now as int,
        ),
{
}

/// Seen at a time no earlier than its last update, an input's age is never
/// negative, and its date is the day that holds its timestamp.
pub proof fn lemma_status_fields(lock: FlakeLock, allowed_age: u32, last_modified: i64, now: i64)
    requires
        lock@.contains_key(TRACKED_INPUT@),
        lock@[TRACKED_INPUT@] == Some(last_modified),
        timestamp_in_range(last_modified as int),
        timestamp_in_range(now as int),
        now >= last_modified,
    ensures
        check_result(lock@, allowed_age as int, now as int) is Ok,
        check_result(lock@, allowed_age as int, now as int)->Ok_0.spec_since() >= 0,
        check_result(lock@, allowed_age as int, now as int)->Ok_0.spec_last_update().days_from_ce
            == day_of_timestamp(last_modified as int),
{
}

/// A lock without a `nixpkgs` node fails the check with `NixpkgsNotFound`,
/// whatever else it holds and whatever the clock reads.
pub proof fn lemma_missing_input_not_found(lock: FlakeLock, allowed_age: u32, now: int)
    requires
        !lock@.contains_key(TRACKED_INPUT@),
    ensures
        check_result(lock@, allowed_age as int, now) == Err::<FlakeStatus, FlakeCheckError>(
            FlakeCheckError::NixpkgsNotFound,
        ),
{
}

} // verus!
