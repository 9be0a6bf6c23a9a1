//! The commands of the application, each on a store that the caller hands in.

use crate::database::Database;
use crate::defaults::{BACKGROUND_KEY, DEFAULT_BACKGROUND, DEFAULT_THEME, THEME_KEY};
use crate::error::{
    failure, ErrorKind, LedgerError, IDS_EXHAUSTED, NOT_IMPLEMENTED, NO_SUCH_STUDENT,
    TOTAL_OUT_OF_RANGE, UNKNOWN_STUDENT,
};
use crate::ledger::{
    awarded, credited, highest_first, lemma_renamed_wf, lemma_with_award_wf,
    lemma_without_student_wf, records_of, records_without, relabelled, setting_or,
    students_without, unranked, Award, Ledger,
};
use crate::listing::{
    newest_first, rank_students, select_point_records, sort_students, sorted_by_name,
};
use crate::model::{
    ranking_views, record_views, student_views, PointRecord, RankingItem, Settings, SettingsView,
    Student,
};
use crate::validate::{check_award, check_student};
use vstd::prelude::*;
use vstd::string::StringExecFns;

verus! {

/// Adds a student with no points and hands the new row out, with the id and
/// the times that the store gave it. An empty name or class is refused.
pub fn add_student(db: &mut Database, name: &str, class: &str, now: &str) -> (done: Result<
    Student,
    LedgerError,
>)
    requires
        old(db).wf(),
    ensures
        final(db).wf(),
        match done {
            Ok(row) => old(db)@.add_student_refusal(name@, class@) is None
                && final(db)@ == old(db)@.with_student(name@, class@, now@)
                && row@ == old(db)@.new_student(name@, class@, now@),
            Err(e) => old(db)@.add_student_refusal(name@, class@) == Some(e@)
                && final(db)@ == old(db)@,
        },
{
    match check_student(name, class) {
        Err(e) => {
            return Err(e);
        },
        Ok(_) => {},
    }
    if db.next_student_id == i64::MAX {
        return Err(LedgerError::new(ErrorKind::Storage, IDS_EXHAUSTED));
    }
    Ok(db.insert_student(name, class, now))
}

/// Gives the student `id` a new name and class and hands the changed row out.
/// An empty name or class is refused, and so is an id that no student has.
pub fn update_student(db: &mut Database, id: i64, name: &str, class: &str, now: &str) -> (done:
    Result<Student, LedgerError>)
    requires
        old(db).wf(),
    ensures
        final(db).wf(),
        match done {
            Ok(row) => old(db)@.update_student_refusal(id as int, name@, class@) is None
                && final(db)@ == old(db)@.renamed(id as int, name@, class@, now@)
                && row@ == final(db)@.student(id as int),
            Err(e) => old(db)@.update_student_refusal(id as int, name@, class@) == Some(e@)
                && final(db)@ == old(db)@,
        },
{
    match check_student(name, class) {
        Err(e) => {
            return Err(e);
        },
        Ok(_) => {},
    }
    match db.find_student(id) {
        None => Err(LedgerError::new(ErrorKind::NotFound, NO_SUCH_STUDENT)),
        Some(i) => {
            let row = Student {
                id: id,
                name: String::from_str(name),
                class: String::from_str(class),
                total_points: db.students[i].total_points,
                created_at: db.students[i].created_at.clone(),
                updated_at: String::from_str(now),
            };
            db.students.set(i, row.clone());
            proof {
                let before = old(db)@;
                assert forall|j: int| 0 <= j < before.students.len() && j != i implies (
                #[trigger] before.students[j]).id != id by {
                    if j < i {
                        assert(before.students[j].id != before.students[i as int].id);
                    } else {
                        assert(before.students[i as int].id != before.students[j].id);
                    }
                }
                assert(student_views(db.students@) =~= relabelled(
                    before.students,
                    id as int,
                    name@,
                    class@,
                    now@,
                ));
                assert(db@ =~= before.renamed(id as int, name@, class@, now@));
                lemma_renamed_wf(before, id as int, name@, class@, now@);
                lemma_student_at(db@, i as int);
            }
            Ok(row)
        },
    }
}

/// In a consistent store the row of a student is the one row with its id.
pub proof fn lemma_student_at(ledger: Ledger, i: int)
    requires
        ledger.student_ids_distinct(),
        0 <= i < ledger.students.len(),
    ensures
        ledger.student(ledger.students[i].id) == ledger.students[i],
{
    let id = ledger.students[i].id;
    let c = choose|c: int| 0 <= c < ledger.students.len() && (#[trigger] ledger.students[c]).id == id;
    if c < i {
        assert(ledger.students[c].id != ledger.students[i].id);
    } else if i < c {
        assert(ledger.students[i].id != ledger.students[c].id);
    }
}

/// The ledger transaction: records `points` for the student `student_id` and
/// raises that student's total by them, both or neither, and hands the new
/// record out. Refused, with the store unchanged: an empty reason or operator,
/// a student that does not exist, and a record or total that the store cannot
/// hold.
pub fn add_point_record(
    db: &mut Database,
    student_id: i64,
    points: i64,
    reason: &str,
    operator: &str,
    now: &str,
) -> (done: Result<PointRecord, LedgerError>)
    requires
        old(db).wf(),
    ensures
        final(db).wf(),
        match done {
            Ok(record) => old(db)@.award_refusal(student_id as int, points as int, reason@, operator@)
                is None && final(db)@ == old(db)@.with_award(
                student_id as int,
                points as int,
                reason@,
                operator@,
                now@,
            ) && record@ == old(db)@.new_record(
                student_id as int,
                points as int,
                reason@,
                operator@,
                now@,
            ),
            Err(e) => old(db)@.award_refusal(student_id as int, points as int, reason@, operator@)
                == Some(e@) && final(db)@ == old(db)@,
        },
        final(db)@ == old(db)@.award(
            Award {
                student_id: student_id as int,
                points: points as int,
                reason: reason@,
                operator: operator@,
                now: now@,
            },
        ),
{
    match check_award(reason, operator) {
        Err(e) => {
            return Err(e);
        },
        Ok(_) => {},
    }
    let i = match db.find_student(student_id) {
        None => {
            return Err(LedgerError::new(ErrorKind::ForeignKeyViolation, UNKNOWN_STUDENT));
        },
        Some(i) => i,
    };
    if db.next_record_id == i64::MAX {
        return Err(LedgerError::new(ErrorKind::Storage, IDS_EXHAUSTED));
    }
    assert(db@.students[i as int].total_points == awarded(db@.point_records, student_id as int));
    let total = match db.students[i].total_points.checked_add(points) {
        None => {
            return Err(LedgerError::new(ErrorKind::TransactionFailure, TOTAL_OUT_OF_RANGE));
        },
        Some(total) => total,
    };
    let record = PointRecord {
        id: db.next_record_id,
        student_id: student_id,
        points: points,
        reason: String::from_str(reason),
        timestamp: String::from_str(now),
        operator: String::from_str(operator),
    };
    let row = Student {
        id: student_id,
        name: db.students[i].name.clone(),
        class: db.students[i].class.clone(),
        total_points: total,
        created_at: db.students[i].created_at.clone(),
        updated_at: String::from_str(now),
    };
    db.point_records.push(record.clone());
    db.students.set(i, row);
    db.next_record_id = db.next_record_id + 1;
    proof {
        let before = old(db)@;
        assert forall|j: int| 0 <= j < before.students.len() && j != i implies (
        #[trigger] before.students[j]).id != student_id by {
            if j < i {
                assert(before.students[j].id != before.students[i as int].id);
            } else {
                assert(before.students[i as int].id != before.students[j].id);
            }
        }
        assert(student_views(db.students@) =~= credited(
            before.students,
            student_id as int,
            points as int,
            now@,
        ));
        assert(record_views(db.point_records@) =~= before.point_records.push(record@));
        assert(db@ =~= before.with_award(
            student_id as int,
            points as int,
            reason@,
            operator@,
            now@,
        ));
        lemma_with_award_wf(before, student_id as int, points as int, reason@, operator@, now@);
    }
    Ok(record)
}

/// Deletes the student `id` and every point record of that student, so that
/// no record is left without its student. Where no student has the id, nothing
/// changes.
pub fn delete_student(db: &mut Database, id: i64) -> (done: Result<(), LedgerError>)
    requires
        old(db).wf(),
    ensures
        final(db).wf(),
        done is Ok,
        final(db)@ == old(db)@.without_student(id as int),
{
    let ghost before = db@;
    let mut records: Vec<PointRecord> = Vec::new();
    let mut k: usize = 0;
    while k < db.point_records.len()
        invariant
            db@ == before,
            k <= db.point_records@.len(),
            record_views(records@) == records_without(before.point_records.take(k as int), id as int),
        decreases db.point_records@.len() - k,
    {
        assert(before.point_records.take(k + 1).drop_last() =~= before.point_records.take(k as int));
        if db.point_records[k].student_id != id {
            records.push(db.point_records[k].clone());
            assert(record_views(records@) =~= records_without(
                before.point_records.take(k as int),
                id as int,
            ).push(before.point_records[k as int]));
        }
        k = k + 1;
    }
    assert(before.point_records.take(k as int) =~= before.point_records);
    let mut students: Vec<Student> = Vec::new();
    let mut m: usize = 0;
    while m < db.students.len()
        invariant
            db@ == before,
            m <= db.students@.len(),
            student_views(students@) == students_without(before.students.take(m as int), id as int),
        decreases db.students@.len() - m,
    {
        assert(before.students.take(m + 1).drop_last() =~= before.students.take(m as int));
        if db.students[m].id != id {
            students.push(db.students[m].clone());
            assert(student_views(students@) =~= students_without(
                before.students.take(m as int),
                id as int,
            ).push(before.students[m as int]));
        }
        m = m + 1;
    }
    assert(before.students.take(m as int) =~= before.students);
    db.point_records = records;
    db.students = students;
    assert(db@ =~= before.without_student(id as int));
    proof {
        lemma_without_student_wf(before, id as int);
    }
    Ok(())
}

/// Every student of the roster, listed by name in ascending order.
pub fn get_students(db: &Database) -> (done: Result<Vec<Student>, LedgerError>)
    ensures
        done matches Ok(list) && sorted_by_name(student_views(list@)) && student_views(
            list@,
        ).to_multiset() == db@.students.to_multiset(),
{
    Ok(sort_students(&db.students))
}

/// The point records of the student `student_id`, or of all students where
/// none is given, listed by time with the newest first.
pub fn get_point_records(db: &Database, student_id: Option<i64>) -> (done: Result<
    Vec<PointRecord>,
    LedgerError,
>)
    ensures
        done matches Ok(list) && newest_first(record_views(list@)) && record_views(
            list@,
        ).to_multiset() == (match student_id {
            Some(id) => records_of(db@.point_records, id as int),
            None => db@.point_records,
        }).to_multiset(),
{
    Ok(select_point_records(&db.point_records, student_id))
}

/// The ranking: one line for each student, listed by total with the highest
/// first, each with its place counted from 1 and with what the records of the
/// day `today` add to the student's total (held to the range of a 64-bit
/// integer). A record is of that day where its time starts with `today`. The
/// time range has no part in it.
pub fn get_ranking(db: &Database, time_range: &str, today: &str) -> (done: Result<
    Vec<RankingItem>,
    LedgerError,
>)
    requires
        db.wf(),
    ensures
        done matches Ok(list) && highest_first(ranking_views(list@)) && (forall|i: int|
            0 <= i < list@.len() ==> (#[trigger] ranking_views(list@)[i]).rank == i + 1) && unranked(
            ranking_views(list@),
        ).to_multiset() == db@.ranking_entries(today@).to_multiset(),
{
    Ok(rank_students(&db.students, &db.point_records, today))
}

/// The settings in force: the stored theme and background, and `light` and
/// `#ffffff` where none is stored.
pub fn get_settings(db: &Database) -> (done: Result<Settings, LedgerError>)
    requires
        db.wf(),
    ensures
        done matches Ok(settings) && settings@ == db@.current_settings(),
{
    let theme = lookup_setting(db, THEME_KEY, DEFAULT_THEME);
    let custom_background = lookup_setting(db, BACKGROUND_KEY, DEFAULT_BACKGROUND);
    Ok(Settings { theme, custom_background })
}

/// The settings made of what is stored of the theme and the background, with
/// `light` and `#ffffff` where one is not stored.
pub fn settings_or_defaults(theme: Option<String>, custom_background: Option<String>) -> (settings:
    Settings)
    ensures
        settings@ == (SettingsView {
            theme: match theme {
                Some(text) => text@,
                None => DEFAULT_THEME@,
            },
            custom_background: match custom_background {
                Some(text) => text@,
                None => DEFAULT_BACKGROUND@,
            },
        }),
{
    Settings {
        theme: match theme {
            Some(text) => text,
            None => String::from_str(DEFAULT_THEME),
        },
        custom_background: match custom_background {
            Some(text) => text,
            None => String::from_str(DEFAULT_BACKGROUND),
        },
    }
}

/// The value stored under `key`, or `fallback` where nothing is stored.
fn lookup_setting(db: &Database, key: &str, fallback: &str) -> (value: String)
    requires
        db.wf(),
    ensures
        value@ == setting_or(db@.settings, key@, fallback@),
{
    let wanted = String::from_str(key);
    match db.find_setting(&wanted) {
        Some(i) => {
            proof {
                let c = choose|c: int|
                    0 <= c < db@.settings.len() && (#[trigger] db@.settings[c]).key == key@;
                assert(db@.settings[i as int].key == key@);
                if c < i {
                    assert(db@.settings[c].key != db@.settings[i as int].key);
                } else if i < c {
                    assert(db@.settings[i as int].key != db@.settings[c].key);
                }
            }
            db.settings[i].value.clone()
        },
        None => String::from_str(fallback),
    }
}

/// Stores the theme and the background and hands both out as they now are.
pub fn update_settings(db: &mut Database, theme: &str, custom_background: &str, now: &str) -> (done:
    Result<Settings, LedgerError>)
    requires
        old(db).wf(),
    ensures
        final(db).wf(),
        final(db)@ == old(db)@.with_setting(THEME_KEY@, theme@, now@).with_setting(
            BACKGROUND_KEY@,
            custom_background@,
            now@,
        ),
        done matches Ok(settings) && settings@ == (SettingsView {
            theme: theme@,
            custom_background: custom_background@,
        }),
{
    db.store_setting(THEME_KEY, theme, now);
    db.store_setting(BACKGROUND_KEY, custom_background, now);
    Ok(
        Settings {
            theme: String::from_str(theme),
            custom_background: String::from_str(custom_background),
        },
    )
}

/// The error of a command that is declared and not yet implemented.
pub fn not_implemented() -> (e: LedgerError)
    ensures
        e@ == failure(ErrorKind::NotImplemented, NOT_IMPLEMENTED@),
{
    LedgerError::new(ErrorKind::NotImplemented, NOT_IMPLEMENTED)
}

/// Backup is declared and not yet implemented: the answer says so.
pub fn backup_data(db: &Database) -> (done: Result<String, LedgerError>)
    ensures
        done matches Err(e) && e@ == failure(ErrorKind::NotImplemented, NOT_IMPLEMENTED@),
{
    Err(not_implemented())
}

/// Restore is declared and not yet implemented: the answer says so, and the
/// store stays as it is.
pub fn restore_data(db: &mut Database, backup_path: &str) -> (done: Result<(), LedgerError>)
    ensures
        final(db)@ == old(db)@,
        done matches Err(e) && e@ == failure(ErrorKind::NotImplemented, NOT_IMPLEMENTED@),
{
    Err(not_implemented())
}

} // verus!
