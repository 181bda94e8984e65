use nixos_systool::flake_lock::{
    compare_status, Advice, Date, FlakeCheckError, FlakeLock, FlakeStatus, LockInfo,
    SECONDS_PER_DAY,
};

/// Last second of chrono's calendar, as a Unix timestamp.
const MAX_TIMESTAMP: i64 = 8_210_266_876_799;

const T: i64 = 1_000_000_000;
/// Day of 2001-09-09, the day that holds `T`, counted from the Common Era.
const T_DAY: i32 = 730_737;

fn lock_with_nixpkgs(last_modified: i64) -> FlakeLock {
    let mut lock = FlakeLock::new();
    lock.insert("root".to_string(), None);
    lock.insert("nixpkgs".to_string(), Some(LockInfo { last_modified }));
    lock
}

fn up_to_date(day: i32) -> FlakeStatus {
    FlakeStatus::UpToDate { last_update: Date { days_from_ce: day }, since: 0 }
}

fn outdated(day: i32) -> FlakeStatus {
    FlakeStatus::Outdated { last_update: Date { days_from_ce: day }, since: 0 }
}

#[test]
fn twenty_days_old_is_outdated() {
    let lock = lock_with_nixpkgs(T);
    let status = lock.check_at(14, T + 20 * 86400).unwrap();
    assert_eq!(
        status,
        FlakeStatus::Outdated { last_update: Date { days_from_ce: T_DAY }, since: 20 * 86400 }
    );
    assert_eq!(status.since_days(), 20);
    assert!(status.is_outdated());
}

#[test]
fn five_days_old_is_up_to_date() {
    let lock = lock_with_nixpkgs(T);
    let status = lock.check_at(14, T + 5 * 86400).unwrap();
    assert_eq!(
        status,
        FlakeStatus::UpToDate { last_update: Date { days_from_ce: T_DAY }, since: 5 * 86400 }
    );
    assert_eq!(status.since_days(), 5);
    assert!(!status.is_outdated());
}

#[test]
fn exactly_allowed_age_is_outdated() {
    let lock = lock_with_nixpkgs(T);
    assert!(lock.check_at(14, T + 14 * 86400).unwrap().is_outdated());
    assert!(!lock.check_at(14, T + 14 * 86400 - 1).unwrap().is_outdated());
}

#[test]
fn outdated_iff_age_reached_over_a_range() {
    let lock = lock_with_nixpkgs(T);
    for allowed in 0u32..30 {
        for d in 0i64..30 {
            let status = lock.check_at(allowed, T + d * SECONDS_PER_DAY).unwrap();
            assert_eq!(status.is_outdated(), d >= allowed as i64);
        }
    }
}

#[test]
fn zero_allowed_age_is_always_outdated() {
    let lock = lock_with_nixpkgs(T);
    assert!(lock.check_at(0, T).unwrap().is_outdated());
}

#[test]
fn checking_twice_gives_the_same_result() {
    let lock = lock_with_nixpkgs(T);
    let first = lock.check_at(14, T + 3 * 86400);
    let second = lock.check_at(14, T + 3 * 86400);
    assert_eq!(first, second);
}

#[test]
fn missing_nixpkgs_is_not_found() {
    let mut lock = FlakeLock::new();
    lock.insert("root".to_string(), None);
    lock.insert("home-manager".to_string(), Some(LockInfo { last_modified: T }));
    assert_eq!(lock.check_at(14, T), Err(FlakeCheckError::NixpkgsNotFound));
    assert_eq!(FlakeLock::new().check_at(14, T), Err(FlakeCheckError::NixpkgsNotFound));
    assert_eq!(lock.check(14), Err(FlakeCheckError::NixpkgsNotFound));
}

#[test]
fn nixpkgs_without_lock_data_is_malformed() {
    let mut lock = FlakeLock::new();
    lock.insert("nixpkgs".to_string(), None);
    assert_eq!(lock.check_at(14, T), Err(FlakeCheckError::MalformedEntry));
}

#[test]
fn timestamp_outside_calendar_is_refused() {
    let lock = lock_with_nixpkgs(i64::MAX);
    assert_eq!(lock.check_at(14, T), Err(FlakeCheckError::TimestampOutOfRange));
    let lock = lock_with_nixpkgs(MAX_TIMESTAMP + 1);
    assert_eq!(lock.check_at(14, T), Err(FlakeCheckError::TimestampOutOfRange));
    let lock = lock_with_nixpkgs(-8_334_601_228_800 - 1);
    assert_eq!(lock.check_at(14, T), Err(FlakeCheckError::TimestampOutOfRange));
}

#[test]
fn calendar_edges_are_accepted() {
    let lock = lock_with_nixpkgs(MAX_TIMESTAMP);
    let status = lock.check_at(14, MAX_TIMESTAMP).unwrap();
    assert_eq!(status.last_update(), Date { days_from_ce: 95_745_399 });
    let lock = lock_with_nixpkgs(-8_334_601_228_800);
    let status = lock.check_at(14, T).unwrap();
    assert_eq!(status.last_update(), Date { days_from_ce: -95_746_129 });
}

#[test]
fn date_part_truncates_to_the_day() {
    // 1970-01-01T23:59:59Z and 1969-12-31T23:59:59Z.
    let status = lock_with_nixpkgs(86_399).check_at(14, T).unwrap();
    assert_eq!(status.last_update(), Date { days_from_ce: 719_163 });
    let status = lock_with_nixpkgs(-1).check_at(14, T).unwrap();
    assert_eq!(status.last_update(), Date { days_from_ce: 719_162 });
}

#[test]
fn lock_from_the_future_has_negative_age() {
    let status = lock_with_nixpkgs(T).check_at(14, T - 86_400 - 5).unwrap();
    assert_eq!(status.since(), -86_405);
    assert_eq!(status.since_days(), -1);
    assert!(!status.is_outdated());
}

#[test]
fn check_with_the_clock() {
    let lock = lock_with_nixpkgs(T);
    // Long past: more than 14 days before any clock reading of today.
    assert!(lock.check(14).unwrap().is_outdated());
    assert!(lock.check(14).unwrap().since() > 20 * 86400);
}

#[test]
fn later_node_replaces_earlier() {
    let mut lock = FlakeLock::new();
    lock.insert("nixpkgs".to_string(), Some(LockInfo { last_modified: 0 }));
    lock.insert("nixpkgs".to_string(), Some(LockInfo { last_modified: T }));
    assert_eq!(lock.node(&"nixpkgs".to_string()), Some(Some(LockInfo { last_modified: T })));
    assert_eq!(lock.node(&"other".to_string()), None);
    assert_eq!(lock.check_at(14, T).unwrap().last_update().days_from_ce, T_DAY);
}

#[test]
fn config_ahead_of_applied_system_advises_apply() {
    assert_eq!(compare_status(Some(up_to_date(10)), up_to_date(12)), Advice::ApplyConfig);
}

#[test]
fn comparison_table() {
    assert_eq!(compare_status(Some(up_to_date(12)), up_to_date(12)), Advice::NoAction);
    assert_eq!(compare_status(Some(up_to_date(12)), outdated(10)), Advice::NoAction);
    assert_eq!(compare_status(Some(up_to_date(10)), outdated(12)), Advice::ApplyConfig);
    assert_eq!(compare_status(Some(outdated(10)), up_to_date(12)), Advice::UpdateSystem);
    assert_eq!(compare_status(Some(outdated(10)), outdated(12)), Advice::UpdateLock);
    assert_eq!(compare_status(None, up_to_date(12)), Advice::UpdateSystem);
    assert_eq!(compare_status(None, outdated(12)), Advice::UpdateLock);
}

#[test]
fn date_ordering() {
    let a = Date { days_from_ce: 10 };
    let b = Date { days_from_ce: 12 };
    assert!(b.is_after(&a));
    assert!(!a.is_after(&b));
    assert!(!a.is_after(&a));
}

#[test]
fn check_error_messages() {
    assert_eq!(FlakeCheckError::NixpkgsNotFound.message(), "Cannot find 'nixpkgs' in flake lock!");
    assert_eq!(
        FlakeCheckError::MalformedEntry.message(),
        "`nixpkgs` input is missing a `locked` section in flake lock!"
    );
    assert_eq!(
        FlakeCheckError::TimestampOutOfRange.message(),
        "Couldn't find or parse last modified time for `nixpkgs` input."
    );
}

#[test]
fn clock_error_message() {
    assert_eq!(FlakeCheckError::ClockOutOfRange.message(), "The system clock reads an impossible time.");
}

#[test]
fn checking_with_the_clock_reports_lock_errors_first() {
    let mut lock = FlakeLock::new();
    lock.insert("nixpkgs".to_string(), None);
    assert_eq!(lock.check(14), Err(FlakeCheckError::MalformedEntry));
    assert_eq!(lock_with_nixpkgs(i64::MIN).check(14), Err(FlakeCheckError::TimestampOutOfRange));
}
