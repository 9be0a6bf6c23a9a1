use edu_points::listing::{rank_students, select_point_records, sort_students};
use edu_points::model::{PointRecord, Student};
use edu_points::order::{text_has_prefix, text_precedes};
use edu_points::commands::settings_or_defaults;
use edu_points::utils::{
    format_date, format_datetime, generate_random_string, validate_password, LocalDateTime,
};

#[test]
fn password_needs_six_bytes() {
    assert!(!validate_password(""));
    assert!(!validate_password("12345"));
    assert!(validate_password("123456"));
    assert!(validate_password("1234567"));
    assert!(validate_password("äöü"));
    assert!(!validate_password("äö"));
    assert!(validate_password("      "));
}

#[test]
fn random_string_has_the_length_asked_for() {
    assert_eq!(generate_random_string(0), "");
    assert_eq!(generate_random_string(1).len(), 1);
    assert_eq!(generate_random_string(32).chars().count(), 32);
    assert_eq!(generate_random_string(1000).len(), 1000);
}

#[test]
fn random_string_is_made_of_letters_and_digits() {
    let token = generate_random_string(4000);
    assert!(token.chars().all(|c| c.is_ascii_alphanumeric()));
    assert!(token.chars().any(|c| c.is_ascii_digit()));
    assert!(token.chars().any(|c| c.is_ascii_lowercase()));
    assert!(token.chars().any(|c| c.is_ascii_uppercase()));
}

#[test]
fn random_strings_differ() {
    assert_ne!(generate_random_string(40), generate_random_string(40));
}

#[test]
fn datetime_is_written_with_padded_fields() {
    let dt = LocalDateTime::new(2024, 2, 29, 7, 5, 9).unwrap();
    assert_eq!(format_datetime(&dt), "2024-02-29 07:05:09");
    let dt = LocalDateTime::new(1999, 12, 31, 23, 59, 59).unwrap();
    assert_eq!(format_datetime(&dt), "1999-12-31 23:59:59");
    let dt = LocalDateTime::new(0, 1, 1, 0, 0, 0).unwrap();
    assert_eq!(format_datetime(&dt), "0000-01-01 00:00:00");
    let dt = LocalDateTime::new(987, 10, 10, 10, 10, 10).unwrap();
    assert_eq!(format_datetime(&dt), "0987-10-10 10:10:10");
    let dt = LocalDateTime::new(9999, 12, 31, 0, 0, 0).unwrap();
    assert_eq!(format_datetime(&dt), "9999-12-31 00:00:00");
}

#[test]
fn dates_that_do_not_exist_are_refused() {
    assert!(LocalDateTime::new(2023, 2, 29, 0, 0, 0).is_none());
    assert!(LocalDateTime::new(1900, 2, 29, 0, 0, 0).is_none());
    assert!(LocalDateTime::new(2000, 2, 29, 0, 0, 0).is_some());
    assert!(LocalDateTime::new(2024, 4, 31, 0, 0, 0).is_none());
    assert!(LocalDateTime::new(2024, 4, 30, 0, 0, 0).is_some());
    assert!(LocalDateTime::new(2024, 0, 1, 0, 0, 0).is_none());
    assert!(LocalDateTime::new(2024, 13, 1, 0, 0, 0).is_none());
    assert!(LocalDateTime::new(2024, 1, 0, 0, 0, 0).is_none());
    assert!(LocalDateTime::new(2024, 1, 32, 0, 0, 0).is_none());
    assert!(LocalDateTime::new(2024, 1, 31, 24, 0, 0).is_none());
    assert!(LocalDateTime::new(2024, 1, 31, 23, 60, 0).is_none());
    assert!(LocalDateTime::new(2024, 1, 31, 23, 59, 60).is_none());
    assert!(LocalDateTime::new(-1, 1, 1, 0, 0, 0).is_none());
    assert!(LocalDateTime::new(10000, 1, 1, 0, 0, 0).is_none());
}

#[test]
fn texts_are_ordered_byte_by_byte() {
    assert!(text_precedes("", ""));
    assert!(text_precedes("", "a"));
    assert!(!text_precedes("a", ""));
    assert!(text_precedes("abc", "abc"));
    assert!(text_precedes("ab", "abc"));
    assert!(!text_precedes("abc", "ab"));
    assert!(text_precedes("Z", "a"));
    assert!(!text_precedes("a", "Z"));
    assert!(text_precedes("z", "é"));
    assert!(text_precedes("é", "张"));
    assert!(text_precedes("2024-05-01 09:59:59", "2024-05-01 10:00:00"));
    assert!(!text_precedes("2024-05-02 00:00:00", "2024-05-01 23:59:59"));
}

#[test]
fn prefix_is_found_at_the_start_only() {
    assert!(text_has_prefix("2024-05-01 10:00:00", "2024-05-01"));
    assert!(text_has_prefix("2024-05-01", "2024-05-01"));
    assert!(text_has_prefix("abc", ""));
    assert!(!text_has_prefix("2024-05-0", "2024-05-01"));
    assert!(!text_has_prefix("x2024-05-01", "2024-05-01"));
    assert!(!text_has_prefix("2024-05-02 10:00:00", "2024-05-01"));
}

fn student(id: i64, name: &str, total: i64) -> Student {
    Student {
        id,
        name: name.to_string(),
        class: "1A".to_string(),
        total_points: total,
        created_at: "t".to_string(),
        updated_at: "t".to_string(),
    }
}

fn record(id: i64, student_id: i64, points: i64, timestamp: &str) -> PointRecord {
    PointRecord {
        id,
        student_id,
        points,
        reason: "r".to_string(),
        timestamp: timestamp.to_string(),
        operator: "o".to_string(),
    }
}

#[test]
fn rows_read_elsewhere_are_sorted_by_name() {
    let rows = vec![student(1, "Cy", 0), student(2, "Al", 0), student(3, "Bo", 0)];
    let sorted = sort_students(&rows);
    let ids: Vec<i64> = sorted.iter().map(|s| s.id).collect();
    assert_eq!(ids, vec![2, 3, 1]);
    assert_eq!(rows.len(), 3);
    assert!(sort_students(&Vec::new()).is_empty());
}

#[test]
fn records_read_elsewhere_are_chosen_and_sorted() {
    let rows = vec![
        record(1, 1, 10, "2024-01-01 00:00:00"),
        record(2, 2, 20, "2024-01-03 00:00:00"),
        record(3, 1, 30, "2024-01-02 00:00:00"),
    ];
    let all: Vec<i64> = select_point_records(&rows, None).iter().map(|r| r.id).collect();
    assert_eq!(all, vec![2, 3, 1]);
    let one: Vec<i64> = select_point_records(&rows, Some(1)).iter().map(|r| r.id).collect();
    assert_eq!(one, vec![3, 1]);
    assert!(select_point_records(&rows, Some(3)).is_empty());
}

#[test]
fn ranking_of_rows_read_elsewhere() {
    let students = vec![student(1, "Al", 3), student(2, "Bo", 8), student(3, "Cy", 8)];
    let records = vec![
        record(1, 1, 3, "2024-01-02 08:00:00"),
        record(2, 2, 8, "2024-01-01 08:00:00"),
        record(3, 3, 8, "2024-01-02 09:00:00"),
    ];
    let ranking = rank_students(&students, &records, "2024-01-02");
    let ranks: Vec<i64> = ranking.iter().map(|l| l.rank).collect();
    assert_eq!(ranks, vec![1, 2, 3]);
    assert_eq!(ranking[0].total_points, 8);
    assert_eq!(ranking[1].total_points, 8);
    assert_eq!(ranking[2].student_id, 1);
    assert_eq!(ranking[2].today_change, 3);
    let mut top: Vec<(i64, i64)> =
        ranking[..2].iter().map(|l| (l.student_id, l.today_change)).collect();
    top.sort();
    assert_eq!(top, vec![(2, 0), (3, 8)]);
}

#[test]
fn day_is_the_start_of_the_datetime() {
    let dt = LocalDateTime::new(2024, 2, 29, 7, 5, 9).unwrap();
    assert_eq!(format_date(&dt), "2024-02-29");
    let dt = LocalDateTime::new(7, 1, 2, 23, 59, 59).unwrap();
    assert_eq!(format_date(&dt), "0007-01-02");
}

#[test]
fn settings_fall_back_to_the_defaults() {
    let s = settings_or_defaults(None, None);
    assert_eq!(s.theme, "light");
    assert_eq!(s.custom_background, "#ffffff");
    let s = settings_or_defaults(Some("dark".to_string()), None);
    assert_eq!(s.theme, "dark");
    assert_eq!(s.custom_background, "#ffffff");
    let s = settings_or_defaults(None, Some("#123456".to_string()));
    assert_eq!(s.theme, "light");
    assert_eq!(s.custom_background, "#123456");
}
