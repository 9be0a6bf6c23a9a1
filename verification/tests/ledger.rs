use edu_points::commands::{
    add_point_record, add_student, backup_data, delete_student, get_point_records, get_ranking,
    get_settings, get_students, restore_data, update_settings, update_student,
};
use edu_points::database::{init_db, migrate_db, Database};
use edu_points::error::ErrorKind;

fn sum_of(db: &Database, student_id: i64) -> i64 {
    get_point_records(db, Some(student_id)).unwrap().iter().map(|r| r.points).sum()
}

#[test]
fn scenario_two_awards_sum_in_the_total() {
    let mut db = Database::new();
    let alice = add_student(&mut db, "Alice", "1A", "2024-05-01 08:00:00").unwrap();
    add_point_record(&mut db, alice.id, 5, "homework", "teacher1", "2024-05-01 09:00:00").unwrap();
    add_point_record(&mut db, alice.id, -2, "late", "teacher1", "2024-05-01 10:00:00").unwrap();
    let students = get_students(&db).unwrap();
    assert_eq!(students.len(), 1);
    assert_eq!(students[0].name, "Alice");
    assert_eq!(students[0].class, "1A");
    assert_eq!(students[0].total_points, 3);
}

#[test]
fn new_student_has_the_next_id_no_points_and_the_time_given() {
    let mut db = Database::new();
    let a = add_student(&mut db, "Ann", "2B", "2024-05-01 08:00:00").unwrap();
    let b = add_student(&mut db, "Ben", "2B", "2024-05-01 08:00:01").unwrap();
    assert_eq!(a.id, 1);
    assert_eq!(b.id, 2);
    assert_eq!(a.total_points, 0);
    assert_eq!(a.created_at, "2024-05-01 08:00:00");
    assert_eq!(a.updated_at, "2024-05-01 08:00:00");
    assert_eq!(b.name, "Ben");
    assert_eq!(b.class, "2B");
}

#[test]
fn ids_are_not_handed_out_again_after_a_deletion() {
    let mut db = Database::new();
    let a = add_student(&mut db, "Ann", "2B", "t").unwrap();
    delete_student(&mut db, a.id).unwrap();
    let b = add_student(&mut db, "Ben", "2B", "t").unwrap();
    assert_eq!(b.id, 2);
}

#[test]
fn empty_name_or_class_is_refused() {
    let mut db = Database::new();
    let e = add_student(&mut db, "", "1A", "t").unwrap_err();
    assert_eq!(e.kind, ErrorKind::Validation);
    assert_eq!(e.message, "name must not be empty");
    let e = add_student(&mut db, "Ann", "", "t").unwrap_err();
    assert_eq!(e.kind, ErrorKind::Validation);
    assert_eq!(e.message, "class must not be empty");
    let e = add_student(&mut db, "", "", "t").unwrap_err();
    assert_eq!(e.message, "name must not be empty");
    assert_eq!(e.to_text(), "name must not be empty");
    assert!(get_students(&db).unwrap().is_empty());
}

#[test]
fn totals_equal_the_sum_of_the_records_at_every_point() {
    let mut db = Database::new();
    let a = add_student(&mut db, "Ann", "1A", "t0").unwrap().id;
    let b = add_student(&mut db, "Ben", "1A", "t0").unwrap().id;
    let awards: [(i64, i64); 7] = [(a, 5), (b, 3), (a, -7), (b, 0), (a, 12), (b, -3), (a, 1)];
    for (n, (who, points)) in awards.iter().enumerate() {
        let stamp = format!("2024-05-01 09:00:0{}", n);
        add_point_record(&mut db, *who, *points, "work", "teacher1", &stamp).unwrap();
        for s in get_students(&db).unwrap() {
            assert_eq!(s.total_points, sum_of(&db, s.id));
        }
    }
    let students = get_students(&db).unwrap();
    assert_eq!(students[0].total_points, 11);
    assert_eq!(students[1].total_points, 0);
}

#[test]
fn a_hundred_awards_of_one_point_raise_the_total_by_a_hundred() {
    let mut db = Database::new();
    let a = add_student(&mut db, "Ann", "1A", "t0").unwrap().id;
    add_point_record(&mut db, a, 40, "start", "teacher1", "t1").unwrap();
    for _ in 0..100 {
        add_point_record(&mut db, a, 1, "tick", "teacher1", "t2").unwrap();
    }
    assert_eq!(get_students(&db).unwrap()[0].total_points, 140);
    assert_eq!(get_point_records(&db, Some(a)).unwrap().len(), 101);
}

#[test]
fn award_to_an_unknown_student_is_refused_and_changes_nothing() {
    let mut db = Database::new();
    let a = add_student(&mut db, "Ann", "1A", "t0").unwrap().id;
    add_point_record(&mut db, a, 4, "work", "teacher1", "t1").unwrap();
    let e = add_point_record(&mut db, a + 1, 9, "work", "teacher1", "t2").unwrap_err();
    assert_eq!(e.kind, ErrorKind::ForeignKeyViolation);
    assert_eq!(e.message, "point record refers to a student that does not exist");
    assert_eq!(get_point_records(&db, None).unwrap().len(), 1);
    assert!(get_point_records(&db, Some(a + 1)).unwrap().is_empty());
    let students = get_students(&db).unwrap();
    assert_eq!(students.len(), 1);
    assert_eq!(students[0].total_points, 4);
    assert_eq!(students[0].updated_at, "t1");
}

#[test]
fn empty_reason_or_operator_is_refused() {
    let mut db = Database::new();
    let a = add_student(&mut db, "Ann", "1A", "t0").unwrap().id;
    let e = add_point_record(&mut db, a, 1, "", "teacher1", "t1").unwrap_err();
    assert_eq!(e.kind, ErrorKind::Validation);
    assert_eq!(e.message, "reason must not be empty");
    let e = add_point_record(&mut db, a, 1, "work", "", "t1").unwrap_err();
    assert_eq!(e.kind, ErrorKind::Validation);
    assert_eq!(e.message, "operator must not be empty");
    let e = add_point_record(&mut db, a + 5, 1, "", "", "t1").unwrap_err();
    assert_eq!(e.kind, ErrorKind::Validation);
    assert!(get_point_records(&db, None).unwrap().is_empty());
    assert_eq!(get_students(&db).unwrap()[0].total_points, 0);
}

#[test]
fn a_total_beyond_the_range_is_refused_and_changes_nothing() {
    let mut db = Database::new();
    let a = add_student(&mut db, "Ann", "1A", "t0").unwrap().id;
    add_point_record(&mut db, a, i64::MAX, "all", "teacher1", "t1").unwrap();
    let e = add_point_record(&mut db, a, 1, "more", "teacher1", "t2").unwrap_err();
    assert_eq!(e.kind, ErrorKind::TransactionFailure);
    assert_eq!(e.message, "total points would leave the range of a 64-bit integer");
    assert_eq!(get_point_records(&db, None).unwrap().len(), 1);
    assert_eq!(get_students(&db).unwrap()[0].total_points, i64::MAX);
    add_point_record(&mut db, a, -1, "less", "teacher1", "t3").unwrap();
    assert_eq!(get_students(&db).unwrap()[0].total_points, i64::MAX - 1);
}

#[test]
fn the_record_handed_out_is_the_record_stored() {
    let mut db = Database::new();
    let a = add_student(&mut db, "Ann", "1A", "t0").unwrap().id;
    let first = add_point_record(&mut db, a, 0, "nothing", "teacher1", "2024-05-01 09:00:00").unwrap();
    let second = add_point_record(&mut db, a, -3, "late", "teacher2", "2024-05-01 09:30:00").unwrap();
    assert_eq!(first.id, 1);
    assert_eq!(first.points, 0);
    assert_eq!(second.id, 2);
    assert_eq!(second.student_id, a);
    assert_eq!(second.points, -3);
    assert_eq!(second.reason, "late");
    assert_eq!(second.operator, "teacher2");
    assert_eq!(second.timestamp, "2024-05-01 09:30:00");
    let listed = get_point_records(&db, Some(a)).unwrap();
    assert_eq!(listed[0], second);
    assert_eq!(listed[1], first);
    let student = &get_students(&db).unwrap()[0];
    assert_eq!(student.updated_at, "2024-05-01 09:30:00");
    assert_eq!(student.created_at, "t0");
}

#[test]
fn update_changes_name_and_class_and_keeps_the_rest() {
    let mut db = Database::new();
    let a = add_student(&mut db, "Ann", "1A", "t0").unwrap().id;
    let b = add_student(&mut db, "Ben", "1A", "t0").unwrap().id;
    add_point_record(&mut db, a, 6, "work", "teacher1", "t1").unwrap();
    let changed = update_student(&mut db, a, "Anna", "2A", "t2").unwrap();
    assert_eq!(changed.id, a);
    assert_eq!(changed.name, "Anna");
    assert_eq!(changed.class, "2A");
    assert_eq!(changed.total_points, 6);
    assert_eq!(changed.created_at, "t0");
    assert_eq!(changed.updated_at, "t2");
    let students = get_students(&db).unwrap();
    assert_eq!(students[0], changed);
    assert_eq!(students[1].id, b);
    assert_eq!(students[1].name, "Ben");
    assert_eq!(students[1].updated_at, "t0");
}

#[test]
fn update_of_an_unknown_student_is_not_found() {
    let mut db = Database::new();
    add_student(&mut db, "Ann", "1A", "t0").unwrap();
    let e = update_student(&mut db, 9, "Zed", "1A", "t1").unwrap_err();
    assert_eq!(e.kind, ErrorKind::NotFound);
    assert_eq!(e.message, "no student has this id");
    let e = update_student(&mut db, 1, "", "1A", "t1").unwrap_err();
    assert_eq!(e.kind, ErrorKind::Validation);
    let e = update_student(&mut db, 9, "Zed", "", "t1").unwrap_err();
    assert_eq!(e.kind, ErrorKind::Validation);
    assert_eq!(get_students(&db).unwrap()[0].name, "Ann");
}

#[test]
fn deleting_a_student_removes_the_student_and_all_its_records() {
    let mut db = Database::new();
    let a = add_student(&mut db, "Ann", "1A", "t0").unwrap().id;
    let b = add_student(&mut db, "Ben", "1A", "t0").unwrap().id;
    add_point_record(&mut db, a, 1, "work", "teacher1", "t1").unwrap();
    add_point_record(&mut db, b, 2, "work", "teacher1", "t2").unwrap();
    add_point_record(&mut db, a, 3, "work", "teacher1", "t3").unwrap();
    delete_student(&mut db, a).unwrap();
    assert!(get_point_records(&db, Some(a)).unwrap().is_empty());
    let students = get_students(&db).unwrap();
    assert_eq!(students.len(), 1);
    assert!(students.iter().all(|s| s.id != a));
    let left = get_point_records(&db, None).unwrap();
    assert_eq!(left.len(), 1);
    assert_eq!(left[0].student_id, b);
    assert_eq!(left[0].points, 2);
    assert_eq!(students[0].total_points, 2);
    let e = add_point_record(&mut db, a, 1, "work", "teacher1", "t4").unwrap_err();
    assert_eq!(e.kind, ErrorKind::ForeignKeyViolation);
}

#[test]
fn deleting_an_unknown_student_changes_nothing() {
    let mut db = Database::new();
    let a = add_student(&mut db, "Ann", "1A", "t0").unwrap().id;
    add_point_record(&mut db, a, 1, "work", "teacher1", "t1").unwrap();
    assert!(delete_student(&mut db, 77).is_ok());
    assert_eq!(get_students(&db).unwrap().len(), 1);
    assert_eq!(get_point_records(&db, None).unwrap().len(), 1);
}

#[test]
fn students_are_listed_by_name() {
    let mut db = Database::new();
    for name in ["bob", "Alice", "Al", "carol", "Zoe", "张三", "Émile", "alice"] {
        add_student(&mut db, name, "1A", "t0").unwrap();
    }
    let names: Vec<String> = get_students(&db).unwrap().into_iter().map(|s| s.name).collect();
    assert_eq!(names, vec!["Al", "Alice", "Zoe", "alice", "bob", "carol", "Émile", "张三"]);
}

#[test]
fn students_of_one_name_are_all_listed() {
    let mut db = Database::new();
    add_student(&mut db, "Ann", "1A", "t0").unwrap();
    add_student(&mut db, "Ann", "1B", "t0").unwrap();
    add_student(&mut db, "Abe", "1C", "t0").unwrap();
    let listed = get_students(&db).unwrap();
    assert_eq!(listed.len(), 3);
    assert_eq!(listed[0].name, "Abe");
    let mut classes: Vec<String> = listed[1..].iter().map(|s| s.class.clone()).collect();
    classes.sort();
    assert_eq!(classes, vec!["1A", "1B"]);
}

#[test]
fn point_records_are_listed_newest_first() {
    let mut db = Database::new();
    let a = add_student(&mut db, "Ann", "1A", "t0").unwrap().id;
    let b = add_student(&mut db, "Ben", "1A", "t0").unwrap().id;
    add_point_record(&mut db, a, 1, "r", "o", "2024-05-02 10:00:00").unwrap();
    add_point_record(&mut db, b, 2, "r", "o", "2024-05-01 23:59:59").unwrap();
    add_point_record(&mut db, a, 3, "r", "o", "2024-05-03 00:00:00").unwrap();
    add_point_record(&mut db, a, 4, "r", "o", "2023-12-31 12:00:00").unwrap();
    let all: Vec<i64> = get_point_records(&db, None).unwrap().iter().map(|r| r.points).collect();
    assert_eq!(all, vec![3, 1, 2, 4]);
    let of_a: Vec<i64> = get_point_records(&db, Some(a)).unwrap().iter().map(|r| r.points).collect();
    assert_eq!(of_a, vec![3, 1, 4]);
    let of_b: Vec<i64> = get_point_records(&db, Some(b)).unwrap().iter().map(|r| r.points).collect();
    assert_eq!(of_b, vec![2]);
    assert!(get_point_records(&db, Some(99)).unwrap().is_empty());
}

#[test]
fn listings_of_an_empty_store_are_empty() {
    let db = Database::new();
    assert!(get_students(&db).unwrap().is_empty());
    assert!(get_point_records(&db, None).unwrap().is_empty());
    assert!(get_ranking(&db, "week", "2024-05-01").unwrap().is_empty());
}

#[test]
fn a_fresh_store_is_seeded_with_the_theme_and_five_students() {
    let db = init_db("2024-05-01 08:00:00").unwrap();
    let students = get_students(&db).unwrap();
    assert_eq!(students.len(), 5);
    let mut pairs: Vec<(i64, String, String)> =
        students.iter().map(|s| (s.id, s.name.clone(), s.class.clone())).collect();
    pairs.sort();
    let expected = vec![
        (1, "张三".to_string(), "一年级1班".to_string()),
        (2, "李四".to_string(), "一年级1班".to_string()),
        (3, "王五".to_string(), "一年级2班".to_string()),
        (4, "赵六".to_string(), "一年级2班".to_string()),
        (5, "孙七".to_string(), "一年级3班".to_string()),
    ];
    assert_eq!(pairs, expected);
    assert!(students.iter().all(|s| s.total_points == 0));
    assert!(students.iter().all(|s| s.created_at == "2024-05-01 08:00:00"));
    assert_eq!(get_settings(&db).unwrap().theme, "light");
    assert!(get_point_records(&db, None).unwrap().is_empty());
}

#[test]
fn seeding_twice_changes_nothing() {
    let mut db = init_db("2024-05-01 08:00:00").unwrap();
    update_settings(&mut db, "dark", "#000000", "2024-05-01 08:30:00").unwrap();
    let before = get_students(&db).unwrap();
    migrate_db(&mut db, "2024-06-01 08:00:00").unwrap();
    migrate_db(&mut db, "2024-07-01 08:00:00").unwrap();
    assert_eq!(get_students(&db).unwrap(), before);
    assert_eq!(get_settings(&db).unwrap().theme, "dark");
    let next = add_student(&mut db, "Ann", "1A", "t").unwrap();
    assert_eq!(next.id, 6);
}

#[test]
fn seeding_adds_no_samples_to_a_roster_that_has_a_student() {
    let mut db = Database::new();
    add_student(&mut db, "Ann", "1A", "t0").unwrap();
    migrate_db(&mut db, "t1").unwrap();
    let students = get_students(&db).unwrap();
    assert_eq!(students.len(), 1);
    assert_eq!(students[0].name, "Ann");
    assert_eq!(get_settings(&db).unwrap().theme, "light");
}

#[test]
fn seeding_fills_a_roster_that_was_emptied() {
    let mut db = init_db("t0").unwrap();
    for id in 1..=5 {
        delete_student(&mut db, id).unwrap();
    }
    assert!(get_students(&db).unwrap().is_empty());
    migrate_db(&mut db, "t1").unwrap();
    let mut ids: Vec<i64> = get_students(&db).unwrap().iter().map(|s| s.id).collect();
    ids.sort();
    assert_eq!(ids, vec![6, 7, 8, 9, 10]);
}

#[test]
fn settings_are_the_defaults_until_they_are_stored() {
    let mut db = Database::new();
    let s = get_settings(&db).unwrap();
    assert_eq!(s.theme, "light");
    assert_eq!(s.custom_background, "#ffffff");
    let stored = update_settings(&mut db, "dark", "#101010", "t1").unwrap();
    assert_eq!(stored.theme, "dark");
    assert_eq!(stored.custom_background, "#101010");
    assert_eq!(get_settings(&db).unwrap(), stored);
    update_settings(&mut db, "sepia", "", "t2").unwrap();
    let s = get_settings(&db).unwrap();
    assert_eq!(s.theme, "sepia");
    assert_eq!(s.custom_background, "");
}

#[test]
fn ranking_lists_by_total_with_places_and_the_change_of_today() {
    let mut db = Database::new();
    let a = add_student(&mut db, "Ann", "1A", "t0").unwrap().id;
    let b = add_student(&mut db, "Ben", "1B", "t0").unwrap().id;
    let c = add_student(&mut db, "Cat", "1C", "t0").unwrap().id;
    add_point_record(&mut db, a, 5, "r", "o", "2024-04-30 10:00:00").unwrap();
    add_point_record(&mut db, b, 9, "r", "o", "2024-04-30 11:00:00").unwrap();
    add_point_record(&mut db, a, 7, "r", "o", "2024-05-01 08:00:00").unwrap();
    add_point_record(&mut db, a, -2, "r", "o", "2024-05-01 09:00:00").unwrap();
    add_point_record(&mut db, c, -4, "r", "o", "2024-05-01 09:30:00").unwrap();
    let ranking = get_ranking(&db, "all", "2024-05-01").unwrap();
    let lines: Vec<(i64, i64, &str, &str, i64, i64)> = ranking
        .iter()
        .map(|l| (l.rank, l.student_id, l.name.as_str(), l.class.as_str(), l.total_points, l.today_change))
        .collect();
    assert_eq!(
        lines,
        vec![(1, a, "Ann", "1A", 10, 5), (2, b, "Ben", "1B", 9, 0), (3, c, "Cat", "1C", -4, -4)]
    );
    let other_day = get_ranking(&db, "all", "2024-04-30").unwrap();
    assert_eq!(other_day[0].today_change, 5);
    assert_eq!(other_day[1].today_change, 9);
    assert_eq!(other_day[2].today_change, 0);
    assert_eq!(get_ranking(&db, "month", "2024-05-01").unwrap(), ranking);
}

#[test]
fn the_change_of_today_is_held_to_the_range() {
    let mut db = Database::new();
    let a = add_student(&mut db, "Ann", "1A", "t0").unwrap().id;
    add_point_record(&mut db, a, i64::MAX, "r", "o", "2024-04-30 10:00:00").unwrap();
    add_point_record(&mut db, a, -i64::MAX, "r", "o", "2024-05-01 10:00:00").unwrap();
    add_point_record(&mut db, a, -i64::MAX, "r", "o", "2024-05-01 11:00:00").unwrap();
    add_point_record(&mut db, a, -1, "r", "o", "2024-05-01 12:00:00").unwrap();
    let ranking = get_ranking(&db, "all", "2024-05-01").unwrap();
    assert_eq!(ranking[0].total_points, i64::MIN);
    assert_eq!(ranking[0].today_change, i64::MIN);
    let day_before = get_ranking(&db, "all", "2024-04-30").unwrap();
    assert_eq!(day_before[0].today_change, i64::MAX);
}

#[test]
fn backup_and_restore_say_that_they_are_not_implemented() {
    let mut db = init_db("t0").unwrap();
    let e = backup_data(&db).unwrap_err();
    assert_eq!(e.kind, ErrorKind::NotImplemented);
    assert_eq!(e.message, "not yet implemented");
    let e = restore_data(&mut db, "backup_path").unwrap_err();
    assert_eq!(e.kind, ErrorKind::NotImplemented);
    assert_eq!(get_students(&db).unwrap().len(), 5);
}
