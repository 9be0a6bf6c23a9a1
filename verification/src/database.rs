//! The storage engine: the four tables held in memory, and what creates and
//! seeds them.

use crate::defaults::{sample_student, DEFAULT_THEME, SAMPLE_COUNT, THEME_KEY};
use crate::error::{ErrorKind, LedgerError, failure, IDS_EXHAUSTED};
use crate::ledger::{
    has_setting, lemma_with_samples_wf, lemma_with_setting_wf,
    lemma_with_student_wf, stored, BackupView, Ledger, SettingView,
};
use crate::model::{record_views, student_views, PointRecord, Student};
use vstd::prelude::*;
use vstd::string::StringExecFns;

verus! {

/// One row of the settings table.
#[derive(Debug, PartialEq, Eq)]
pub struct Setting {
    pub key: String,
    pub value: String,
    pub updated_at: String,
}

impl View for Setting {
    type V = SettingView;

    open spec fn view(&self) -> SettingView {
        SettingView { key: self.key@, value: self.value@, updated_at: self.updated_at@ }
    }
}

/// One row of the backups table.
#[derive(Debug, PartialEq, Eq)]
pub struct Backup {
    pub id: i64,
    pub filename: String,
    pub size: i64,
    pub created_at: String,
    pub hash: String,
}

impl View for Backup {
    type V = BackupView;

    open spec fn view(&self) -> BackupView {
        BackupView {
            id: self.id as int,
            filename: self.filename@,
            size: self.size as int,
            created_at: self.created_at@,
            hash: self.hash@,
        }
    }
}

/// The views of a run of settings, in the same order.
pub open spec fn setting_views(rows: Seq<Setting>) -> Seq<SettingView> {
    Seq::new(rows.len(), |i: int| rows[i]@)
}

/// The views of a run of backups, in the same order.
pub open spec fn backup_views(rows: Seq<Backup>) -> Seq<BackupView> {
    Seq::new(rows.len(), |i: int| rows[i]@)
}

/// The store: students, point records, settings and backups, each table in
/// the order its rows were inserted.
#[derive(Debug)]
pub struct Database {
    pub(crate) students: Vec<Student>,
    pub(crate) point_records: Vec<PointRecord>,
    pub(crate) settings: Vec<Setting>,
    pub(crate) backups: Vec<Backup>,
    pub(crate) next_student_id: i64,
    pub(crate) next_record_id: i64,
}

impl View for Database {
    type V = Ledger;

    open(crate) spec fn view(&self) -> Ledger {
        Ledger {
            students: student_views(self.students@),
            point_records: record_views(self.point_records@),
            settings: setting_views(self.settings@),
            backups: backup_views(self.backups@),
            next_student_id: self.next_student_id as int,
            next_record_id: self.next_record_id as int,
        }
    }
}

impl Database {
    /// The store is consistent.
    pub open spec fn wf(&self) -> bool {
        self@.wf()
    }

    /// A store with four empty tables.
    pub fn new() -> (db: Database)
        ensures
            db@ == Ledger::empty(),
            db.wf(),
    {
        let db = Database {
            students: Vec::new(),
            point_records: Vec::new(),
            settings: Vec::new(),
            backups: Vec::new(),
            next_student_id: 1,
            next_record_id: 1,
        };
        assert(db@ =~= Ledger::empty());
        db
    }

    /// The place of the student `id` in the table, if there is one.
    pub(crate) fn find_student(&self, id: i64) -> (found: Option<usize>)
        ensures
            found is Some <==> self@.has_student(id as int),
            found matches Some(i) ==> i < self.students@.len() && self.students@[i as int].id == id,
    {
        let mut i: usize = 0;
        while i < self.students.len()
            invariant
                i <= self.students@.len(),
                forall|k: int| 0 <= k < i ==> (#[trigger] self@.students[k]).id != id,
            decreases self.students@.len() - i,
        {
            if self.students[i].id == id {
                assert(self@.students[i as int].id == id);
                return Some(i);
            }
            i = i + 1;
        }
        None
    }

    /// The place of the setting `key` in the table, if there is one.
    pub(crate) fn find_setting(&self, key: &String) -> (found: Option<usize>)
        ensures
            found is Some <==> has_setting(self@.settings, key@),
            found matches Some(i) ==> i < self.settings@.len() && self.settings@[i as int].key@
                == key@,
    {
        let mut i: usize = 0;
        while i < self.settings.len()
            invariant
                i <= self.settings@.len(),
                forall|k: int| 0 <= k < i ==> (#[trigger] self@.settings[k]).key != key@,
            decreases self.settings@.len() - i,
        {
            if self.settings[i].key == *key {
                assert(self@.settings[i as int].key == key@);
                return Some(i);
            }
            i = i + 1;
        }
        None
    }

    /// Stores `value` under the setting `key`.
    pub(crate) fn store_setting(&mut self, key: &str, value: &str, now: &str)
        requires
            old(self).wf(),
        ensures
            final(self)@ == old(self)@.with_setting(key@, value@, now@),
            final(self).wf(),
    {
        let wanted = String::from_str(key);
        let row = Setting {
            key: String::from_str(key),
            value: String::from_str(value),
            updated_at: String::from_str(now),
        };
        let found = self.find_setting(&wanted);
        match found {
            Some(i) => {
                self.settings.set(i, row);
                assert forall|j: int| 0 <= j < old(self)@.settings.len() && j != i implies (
                #[trigger] old(self)@.settings[j]).key != key@ by {
                    assert(old(self)@.settings[i as int].key == key@);
                    if j < i {
                        assert(old(self)@.settings[j].key != old(self)@.settings[i as int].key);
                    } else {
                        assert(old(self)@.settings[i as int].key != old(self)@.settings[j].key);
                    }
                }
                assert(setting_views(self.settings@) =~= stored(
                    old(self)@.settings,
                    key@,
                    value@,
                    now@,
                ));
            },
            None => {
                self.settings.push(row);
                assert(setting_views(self.settings@) =~= stored(
                    old(self)@.settings,
                    key@,
                    value@,
                    now@,
                ));
            },
        }
        assert(self@ =~= old(self)@.with_setting(key@, value@, now@));
        proof {
            lemma_with_setting_wf(old(self)@, key@, value@, now@);
        }
    }

    /// Inserts a student with the next id and no points, and hands the row out.
    pub(crate) fn insert_student(&mut self, name: &str, class: &str, now: &str) -> (row: Student)
        requires
            old(self).wf(),
            name@.len() > 0,
            class@.len() > 0,
            old(self)@.next_student_id < i64::MAX,
        ensures
            final(self)@ == old(self)@.with_student(name@, class@, now@),
            final(self).wf(),
            row@ == old(self)@.new_student(name@, class@, now@),
    {
        let row = Student {
            id: self.next_student_id,
            name: String::from_str(name),
            class: String::from_str(class),
            total_points: 0,
            created_at: String::from_str(now),
            updated_at: String::from_str(now),
        };
        self.students.push(row.clone());
        self.next_student_id = self.next_student_id + 1;
        assert(self@ =~= old(self)@.with_student(name@, class@, now@));
        proof {
            lemma_with_student_wf(old(self)@, name@, class@, now@);
        }
        row
    }
}

/// Seeds the store: the theme `light` unless a theme is stored, and the five
/// sample students unless the roster has a student. A second run changes
/// nothing. Where the ids for the samples are used up, nothing is changed and
/// the error says so.
pub fn migrate_db(db: &mut Database, now: &str) -> (done: Result<(), LedgerError>)
    requires
        old(db).wf(),
    ensures
        final(db).wf(),
        match done {
            Ok(_) => !old(db)@.seed_refused() && final(db)@ == old(db)@.seeded(now@),
            Err(e) => old(db)@.seed_refused() && final(db)@ == old(db)@ && e@ == failure(
                ErrorKind::Storage,
                IDS_EXHAUSTED@,
            ),
        },
        final(db)@ == old(db)@.migrated(now@),
{
    let fresh = db.students.len() == 0;
    if fresh && db.next_student_id > i64::MAX - 5 {
        return Err(LedgerError::new(ErrorKind::Storage, IDS_EXHAUSTED));
    }
    let theme_key = String::from_str(THEME_KEY);
    if db.find_setting(&theme_key).is_none() {
        db.store_setting(THEME_KEY, DEFAULT_THEME, now);
    }
    let ghost themed = db@;
    assert(themed == old(db)@.themed(now@));
    if fresh {
        let mut i: usize = 0;
        while i < SAMPLE_COUNT
            invariant
                i <= SAMPLE_COUNT,
                themed.wf(),
                db.wf(),
                db@ == themed.with_samples(i as int, now@),
                themed.next_student_id + 5 <= i64::MAX,
            decreases SAMPLE_COUNT - i,
        {
            proof {
                lemma_with_samples_wf(themed, i as int, now@);
            }
            let pair = sample_student(i);
            db.insert_student(pair.0, pair.1, now);
            i = i + 1;
        }
    }
    Ok(())
}

/// A fresh store, seeded.
pub fn init_db(now: &str) -> (made: Result<Database, LedgerError>)
    ensures
        made matches Ok(db) && db.wf() && db@ == Ledger::empty().seeded(now@),
{
    let mut db = Database::new();
    match migrate_db(&mut db, now) {
        Ok(_) => Ok(db),
        Err(e) => Err(e),
    }
}

} // verus!
