use chrono::{Datelike, NaiveDate, NaiveDateTime};
use chrono::DateTime;
use hoards::dates::{
    days_between, days_since_last_use, days_since_use, format_friendly_datetime,
    friendly_datetime, LocalStamp, LocalToday,
};

fn stamp(day_number: i32, year: i32) -> LocalStamp {
    LocalStamp {
        day_number,
        year,
        clock: "3:45 PM".to_string(),
        weekday: "Mon".to_string(),
        month_day: "Jan 15".to_string(),
        full_date: "Jan 15, 2024".to_string(),
    }
}

fn today() -> LocalToday {
    LocalToday { day_number: 739000, year: 2025, yesterday: Some(738999) }
}

#[test]
fn whole_days_truncate_toward_zero() {
    assert_eq!(days_between((86400 * 10, 0), (0, 0)), 10);
    assert_eq!(days_between((86400 * 10 + 86399, 0), (0, 0)), 10);
    assert_eq!(days_between((0, 0), (86400 * 2 + 5, 0)), -2);
    assert_eq!(days_between((100, 0), (99, 500_000_000)), 0);
    assert_eq!(days_between((0, 0), (86400, 500_000_000)), -1);
    assert_eq!(days_between((86399, 999_999_999), (0, 0)), 0);
}

#[test]
fn whole_days_agree_with_chrono() {
    let times: [(i64, u32); 7] = [
        (0, 0),
        (1_735_689_600, 0),
        (1_735_689_600, 999_999_999),
        (1_736_596_800, 1),
        (1_483_228_799, 250_000_000),
        (-86_400 * 400 - 17, 3),
        (1_700_000_000, 500_000_000),
    ];
    for &a in times.iter() {
        for &b in times.iter() {
            let da = DateTime::from_timestamp(a.0, a.1).unwrap();
            let db = DateTime::from_timestamp(b.0, b.1).unwrap();
            assert_eq!(days_between(a, b), (da - db).num_days(), "{:?} {:?}", a, b);
        }
    }
}

#[test]
fn leap_second_counts_toward_its_second() {
    let leap = DateTime::parse_from_rfc3339("2016-12-31T23:59:60Z").unwrap();
    let t = (leap.timestamp(), leap.timestamp_subsec_nanos());
    assert!(t.1 >= 1_000_000_000);
    for now in [(1_483_228_800 + 86_400, 0u32), (1_483_228_799 + 3 * 86_400, 500_000_000)] {
        let dn = DateTime::from_timestamp(now.0, now.1).unwrap();
        assert_eq!(days_between(now, t), (dn - leap.with_timezone(&chrono::Utc)).num_days());
    }
    assert_eq!(days_since_use(Some("2016-12-31T23:59:60Z"), (1_483_228_800 + 86_400, 0)), Some(1));
}

#[test]
fn days_since_use_reads_rfc3339() {
    // 2025-01-01T00:00:00Z is 1735689600; ten and a half days later:
    assert_eq!(days_since_use(Some("2025-01-01T00:00:00Z"), (1_736_596_800, 0)), Some(10));
    // two hours earlier in UTC than it reads
    assert_eq!(
        days_since_use(Some("2025-01-01T00:00:00+02:00"), (1_735_689_600 + 3 * 86_400 + 3_600, 0)),
        Some(3)
    );
    assert_eq!(days_since_use(Some("yesterday"), (1_736_596_800, 0)), None);
    assert_eq!(days_since_use(None, (1_736_596_800, 0)), None);
    // a future time of use gives a negative count
    assert_eq!(days_since_use(Some("2025-01-11T00:00:00Z"), (1_735_689_600, 0)), Some(-10));
}

#[test]
fn days_since_last_use_by_the_clock() {
    assert_eq!(days_since_last_use(None), None);
    assert_eq!(days_since_last_use(Some("not a time")), None);
    let d = days_since_last_use(Some("2020-01-01T00:00:00Z")).unwrap();
    assert!(d > 1800);
}

#[test]
fn friendly_branches() {
    let t = today();
    assert_eq!(friendly_datetime("raw", Some(stamp(739000, 2025)), t), "Today at 3:45 PM");
    assert_eq!(friendly_datetime("raw", Some(stamp(738999, 2025)), t), "Yesterday at 3:45 PM");
    assert_eq!(friendly_datetime("raw", Some(stamp(738994, 2025)), t), "Mon at 3:45 PM");
    assert_eq!(friendly_datetime("raw", Some(stamp(738993, 2025)), t), "Jan 15 at 3:45 PM");
    assert_eq!(friendly_datetime("raw", Some(stamp(738000, 2024)), t), "Jan 15, 2024");
    // a later day within the week still shows its weekday
    assert_eq!(friendly_datetime("raw", Some(stamp(739003, 2025)), t), "Mon at 3:45 PM");
    assert_eq!(friendly_datetime("2025-13-01", None, t), "2025-13-01");
}

#[test]
fn friendly_without_a_day_before() {
    let t = LocalToday { day_number: 5, year: 1, yesterday: None };
    assert_eq!(friendly_datetime("raw", Some(stamp(4, 1)), t), "Mon at 3:45 PM");
    assert_eq!(friendly_datetime("raw", Some(stamp(5, 1)), t), "Today at 3:45 PM");
}

#[test]
fn friendly_falls_back_to_raw_text() {
    assert_eq!(format_friendly_datetime("last week"), "last week");
    assert_eq!(format_friendly_datetime(""), "");
    let shown = format_friendly_datetime("2020-01-15T14:05:00Z");
    assert!(
        ["Jan 14, 2020", "Jan 15, 2020", "Jan 16, 2020"].contains(&shown.as_str()),
        "{}",
        shown
    );
    let early = format_friendly_datetime("0999-06-15T12:00:00Z");
    assert!(early.starts_with("Jun 1") && early.ends_with(", 0999"), "{}", early);
}

#[test]
fn chrono_renders_stamps_as_stated() {
    // day 1 of the Common Era was a Monday
    for n in [1, 2, 7, 8, 719_163, 738_000, 739_000, 739_001, -5, 0] {
        let d = NaiveDate::from_num_days_from_ce_opt(n).unwrap();
        assert_eq!(d.weekday().num_days_from_monday() as i32, (n - 1).rem_euclid(7));
        let names = ["Mon", "Tue", "Wed", "Thu", "Fri", "Sat", "Sun"];
        assert_eq!(d.format("%a").to_string(), names[(n - 1).rem_euclid(7) as usize]);
    }
    let t = |s: &str| NaiveDateTime::parse_from_str(s, "%Y-%m-%d %H:%M").unwrap();
    assert_eq!(t("2025-01-15 00:05").format("%-I:%M %p").to_string(), "12:05 AM");
    assert_eq!(t("2025-01-15 15:45").format("%-I:%M %p").to_string(), "3:45 PM");
    assert_eq!(t("2025-03-05 15:45").format("%b %-d, %Y").to_string(), "Mar 5, 2025");
    assert_eq!(t("0042-03-05 15:45").format("%b %-d, %Y").to_string(), "Mar 5, 0042");
    assert_eq!(NaiveDate::from_ymd_opt(1970, 1, 1).unwrap().num_days_from_ce(), 719_163);
}
