use progression::calendar::{is_later_local_day, local_day_number, offset_for_zone, Instant};
use progression::model::{Model, UserResponse};
use progression::UserService;

// 2024-01-01T00:00:00Z
const JAN_1_2024: i64 = 1_704_067_200;

fn at(seconds_after_jan_1: i64) -> Instant {
    Instant::from_unix_seconds(JAN_1_2024 + seconds_after_jan_1).unwrap()
}

fn hm(hours: i64, minutes: i64) -> i64 {
    hours * 3600 + minutes * 60
}

#[test]
fn required_experience_follows_the_formula() {
    assert_eq!(UserService::experience_required_for_level(1), 100);
    assert_eq!(UserService::experience_required_for_level(2), 110);
    assert_eq!(UserService::experience_required_for_level(10), 190);
    for level in 1..500 {
        let a = UserService::experience_required_for_level(level);
        let b = UserService::experience_required_for_level(level + 1);
        assert_eq!(a, 100 + (level - 1) * 10);
        assert!(a < b);
    }
}

#[test]
fn gains_keep_the_pair_valid() {
    for level in 1..30 {
        let req = UserService::experience_required_for_level(level);
        for experience in [0, 1, req / 2, req - 1] {
            for gained in [0, 1, 9, 10, 99, 100, 101, 250, 1000, 12345] {
                let (l, e) = UserService::apply_experience(level, experience, gained);
                assert!(l >= level);
                assert!(0 <= e && e < UserService::experience_required_for_level(l));
            }
        }
    }
}

#[test]
fn zero_gain_changes_nothing() {
    assert_eq!(UserService::apply_experience(1, 0, 0), (1, 0));
    assert_eq!(UserService::apply_experience(1, 99, 0), (1, 99));
    assert_eq!(UserService::apply_experience(7, 123, 0), (7, 123));
}

#[test]
fn large_gain_rolls_over_several_levels() {
    assert_eq!(UserService::apply_experience(1, 0, 250), (3, 40));
}

#[test]
fn small_gain_stays_in_level() {
    assert_eq!(UserService::apply_experience(1, 90, 5), (1, 95));
}

#[test]
fn gain_to_exact_boundary_rolls_over() {
    assert_eq!(UserService::apply_experience(1, 90, 10), (2, 0));
}

#[test]
fn negative_gain_lowers_experience_only() {
    assert_eq!(UserService::apply_experience(3, 40, -50), (3, -10));
}

#[test]
fn first_activity_is_always_a_new_day() {
    assert!(UserService::is_new_day(None, at(0), "UTC"));
    assert!(UserService::is_new_day(None, at(hm(23, 59)), "Asia/Tokyo"));
    assert!(UserService::is_new_day(None, at(-JAN_1_2024), "No/Such_Zone"));
}

#[test]
fn same_utc_day_is_not_a_new_day() {
    assert!(!UserService::is_new_day(Some(at(hm(23, 0))), at(hm(23, 30)), "UTC"));
}

#[test]
fn next_utc_day_is_a_new_day() {
    assert!(UserService::is_new_day(Some(at(hm(23, 59))), at(hm(24, 1)), "UTC"));
}

#[test]
fn crossing_utc_midnight_within_one_local_day() {
    let last = Some(at(hm(23, 59)));
    let now = at(hm(24, 1));
    assert!(!UserService::is_new_day(last, now, "America/New_York"));
    assert!(!UserService::is_new_day(last, now, "Asia/Tokyo"));
}

#[test]
fn later_local_midnight_makes_a_new_day() {
    // 2024-01-02T04:59Z and 05:01Z are either side of midnight in New York.
    let last = Some(at(hm(28, 59)));
    let now = at(hm(29, 1));
    assert!(UserService::is_new_day(last, now, "America/New_York"));
    assert!(!UserService::is_new_day(last, now, "UTC"));
}

#[test]
fn unknown_zone_reads_as_lima() {
    let last = Some(at(hm(23, 59)));
    let now = at(hm(24, 1));
    assert!(!UserService::is_new_day(last, now, "Not/A_Zone"));
    assert!(!UserService::is_new_day(last, now, ""));
    assert!(UserService::is_new_day(Some(at(hm(28, 59))), at(hm(29, 1)), "Not/A_Zone"));
}

#[test]
fn earlier_instant_is_not_a_new_day() {
    assert!(!UserService::is_new_day(Some(at(hm(48, 0))), at(hm(2, 0)), "UTC"));
}

#[test]
fn zone_offsets_come_from_the_zone_database() {
    assert_eq!(offset_for_zone("UTC", at(0)), 0);
    assert_eq!(offset_for_zone("Asia/Tokyo", at(0)), 9 * 3600);
    assert_eq!(offset_for_zone("America/New_York", at(0)), -5 * 3600);
    // 2024-07-01T00:00:00Z is summer time in New York.
    assert_eq!(offset_for_zone("America/New_York", at(182 * 86_400)), -4 * 3600);
    assert_eq!(offset_for_zone("Not/A_Zone", at(0)), -5 * 3600);
}

#[test]
fn local_day_numbers_round_down() {
    assert_eq!(local_day_number(0, 0), 0);
    assert_eq!(local_day_number(86_399, 0), 0);
    assert_eq!(local_day_number(86_400, 0), 1);
    assert_eq!(local_day_number(-1, 0), -1);
    assert_eq!(local_day_number(JAN_1_2024, 0), 19_723);
    assert_eq!(local_day_number(JAN_1_2024, -1), 19_722);
    assert_eq!(local_day_number(JAN_1_2024 - 3600, 3600), 19_723);
}

#[test]
fn later_local_day_compares_offset_days() {
    let last = JAN_1_2024 + hm(23, 59);
    let now = JAN_1_2024 + hm(24, 1);
    assert!(is_later_local_day(None, now, 0));
    assert!(is_later_local_day(Some((last, 0)), now, 0));
    assert!(!is_later_local_day(Some((last, -3600)), now, -3600));
    assert!(!is_later_local_day(Some((now, 0)), last, 0));
}

#[test]
fn instants_out_of_range_are_refused() {
    assert!(Instant::from_unix_seconds(8_000_000_000_000).is_some());
    assert!(Instant::from_unix_seconds(-8_000_000_000_000).is_some());
    assert!(Instant::from_unix_seconds(8_000_000_000_001).is_none());
    assert!(Instant::from_unix_seconds(i64::MIN).is_none());
    assert_eq!(Instant::from_unix_seconds(42).unwrap().unix_seconds, 42);
}

fn fresh() -> Model {
    UserService::new_user_record(
        "u1".to_string(),
        Some("Ada".to_string()),
        Some("ada@example.com".to_string()),
    )
}

#[test]
fn new_record_starts_at_level_one() {
    let m = fresh();
    assert_eq!(m.id, "u1");
    assert_eq!(m.name, "Ada");
    assert_eq!(m.email, "ada@example.com");
    assert_eq!((m.level, m.experience, m.streak), (1, 0, 0));
    assert_eq!(m.last_experience_at, None);
    assert_eq!(m.timezone, "UTC");
    let blank = UserService::new_user_record("u2".to_string(), None, None);
    assert_eq!(blank.name, "");
    assert_eq!(blank.email, "");
}

#[test]
fn advance_from_fresh_record() {
    let t = at(hm(12, 0));
    let r = UserService::advance(&fresh(), 100, t);
    assert_eq!((r.level, r.experience, r.streak), (2, 0, 1));
    assert_eq!(r.last_experience_at, Some(t));
    assert_eq!(r.id, "u1");
    assert_eq!(r.timezone, "UTC");
}

#[test]
fn advance_counts_one_per_local_day() {
    let r1 = UserService::advance(&fresh(), 30, at(hm(9, 0)));
    let r2 = UserService::advance(&r1, 30, at(hm(18, 0)));
    assert_eq!((r2.level, r2.experience, r2.streak), (1, 60, 1));
    assert_eq!(r2.last_experience_at, Some(at(hm(18, 0))));
    let r3 = UserService::advance(&r2, 50, at(hm(24 * 7, 0)));
    assert_eq!((r3.level, r3.experience, r3.streak), (2, 10, 2));
}

#[test]
fn response_copies_every_field() {
    let r = UserService::advance(&fresh(), 250, at(0));
    let v = UserResponse::from_model(&r);
    assert_eq!(v.id, "u1");
    assert_eq!(v.name, "Ada");
    assert_eq!(v.email, "ada@example.com");
    assert_eq!((v.level, v.experience, v.streak), (3, 40, 1));
    assert_eq!(v.last_experience_at, Some(at(0)));
    assert_eq!(v.timezone, "UTC");
}
