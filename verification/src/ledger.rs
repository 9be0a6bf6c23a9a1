//! The ledger as mathematics: the four tables as sequences of rows, what
//! makes them consistent, and what each command does to them.

use crate::defaults::{
    sample, BACKGROUND_KEY, DEFAULT_BACKGROUND, DEFAULT_THEME, THEME_KEY,
};
use crate::error::{
    failure, ErrorKind, LedgerErrorView, IDS_EXHAUSTED, NO_SUCH_STUDENT, TOTAL_OUT_OF_RANGE,
    UNKNOWN_STUDENT,
};
use crate::model::{PointRecordView, RankingItemView, SettingsView, StudentView};
use crate::order::text_starts_with;
use crate::validate::{award_fault, student_fault};
use vstd::prelude::*;

verus! {

/// One row of the settings table.
pub struct SettingView {
    pub key: Seq<char>,
    pub value: Seq<char>,
    pub updated_at: Seq<char>,
}

/// One row of the backups table.
pub struct BackupView {
    pub id: int,
    pub filename: Seq<char>,
    pub size: int,
    pub created_at: Seq<char>,
    pub hash: Seq<char>,
}

/// The state of the store: every table in the order its rows were inserted,
/// and the ids that the next student and the next point record will get.
#[verifier::ext_equal]
pub struct Ledger {
    pub students: Seq<StudentView>,
    pub point_records: Seq<PointRecordView>,
    pub settings: Seq<SettingView>,
    pub backups: Seq<BackupView>,
    pub next_student_id: int,
    pub next_record_id: int,
}

/// The sum of the points that `records` award to the student `student_id`.
pub open spec fn awarded(records: Seq<PointRecordView>, student_id: int) -> int
    decreases records.len(),
{
    if records.len() == 0 {
        0
    } else if records.last().student_id == student_id {
        awarded(records.drop_last(), student_id) + records.last().points
    } else {
        awarded(records.drop_last(), student_id)
    }
}

/// The records of `records` that belong to the student `student_id`, in order.
pub open spec fn records_of(records: Seq<PointRecordView>, student_id: int) -> Seq<PointRecordView>
    decreases records.len(),
{
    if records.len() == 0 {
        records
    } else if records.last().student_id == student_id {
        records_of(records.drop_last(), student_id).push(records.last())
    } else {
        records_of(records.drop_last(), student_id)
    }
}

/// The records of `records` that belong to another student than `student_id`,
/// in order.
pub open spec fn records_without(records: Seq<PointRecordView>, student_id: int) -> Seq<
    PointRecordView,
>
    decreases records.len(),
{
    if records.len() == 0 {
        records
    } else if records.last().student_id != student_id {
        records_without(records.drop_last(), student_id).push(records.last())
    } else {
        records_without(records.drop_last(), student_id)
    }
}

/// The students of `students` with another id than `id`, in order.
pub open spec fn students_without(students: Seq<StudentView>, id: int) -> Seq<StudentView>
    decreases students.len(),
{
    if students.len() == 0 {
        students
    } else if students.last().id != id {
        students_without(students.drop_last(), id).push(students.last())
    } else {
        students_without(students.drop_last(), id)
    }
}

/// Whether a row of `students` has the id `id`.
pub open spec fn roster_has(students: Seq<StudentView>, id: int) -> bool {
    exists|i: int| 0 <= i < students.len() && (#[trigger] students[i]).id == id
}

/// `students` with `points` added to the total of the student `id`, whose
/// time of last change becomes `now`.
pub open spec fn credited(students: Seq<StudentView>, id: int, points: int, now: Seq<char>) -> Seq<
    StudentView,
> {
    Seq::new(
        students.len(),
        |i: int|
            if students[i].id == id {
                StudentView {
                    total_points: students[i].total_points + points,
                    updated_at: now,
                    ..students[i]
                }
            } else {
                students[i]
            },
    )
}

/// `students` with the student `id` given a new name and class, whose time of
/// last change becomes `now`.
pub open spec fn relabelled(
    students: Seq<StudentView>,
    id: int,
    name: Seq<char>,
    class: Seq<char>,
    now: Seq<char>,
) -> Seq<StudentView> {
    Seq::new(
        students.len(),
        |i: int|
            if students[i].id == id {
                StudentView { name: name, class: class, updated_at: now, ..students[i] }
            } else {
                students[i]
            },
    )
}

/// The sum of the points that the records of the day `day` award to the
/// student `student_id`: of those whose time starts with `day`.
pub open spec fn awarded_on(records: Seq<PointRecordView>, student_id: int, day: Seq<char>) -> int
    decreases records.len(),
{
    if records.len() == 0 {
        0
    } else if records.last().student_id == student_id && text_starts_with(
        records.last().timestamp,
        day,
    ) {
        awarded_on(records.drop_last(), student_id, day) + records.last().points
    } else {
        awarded_on(records.drop_last(), student_id, day)
    }
}

/// `n`, or the end of the range of a 64-bit integer that `n` lies beyond.
pub open spec fn clamped(n: int) -> int {
    if n < i64::MIN {
        i64::MIN as int
    } else if n > i64::MAX {
        i64::MAX as int
    } else {
        n
    }
}

/// The ranking line of `student`, before its place is known: with rank 0.
pub open spec fn ranking_entry(
    student: StudentView,
    records: Seq<PointRecordView>,
    day: Seq<char>,
) -> RankingItemView {
    RankingItemView {
        rank: 0,
        student_id: student.id,
        name: student.name,
        class: student.class,
        total_points: student.total_points,
        today_change: clamped(awarded_on(records, student.id, day)),
    }
}

/// One ranking line for each of `students`, in their order and before the
/// places are known.
pub open spec fn ranking_entries(
    students: Seq<StudentView>,
    records: Seq<PointRecordView>,
    day: Seq<char>,
) -> Seq<RankingItemView> {
    Seq::new(students.len(), |i: int| ranking_entry(students[i], records, day))
}

/// `lines` with every rank set to 0.
pub open spec fn unranked(lines: Seq<RankingItemView>) -> Seq<RankingItemView> {
    Seq::new(lines.len(), |i: int| RankingItemView { rank: 0, ..lines[i] })
}

/// The lines are listed by total, the highest first.
pub open spec fn highest_first(lines: Seq<RankingItemView>) -> bool {
    forall|i: int, j: int|
        0 <= i < j < lines.len() ==> (#[trigger] lines[i]).total_points >= (
        #[trigger] lines[j]).total_points
}

/// Whether a row of `settings` has the key `key`.
pub open spec fn has_setting(settings: Seq<SettingView>, key: Seq<char>) -> bool {
    exists|i: int| 0 <= i < settings.len() && (#[trigger] settings[i]).key == key
}

/// The value stored under `key`, or `fallback` where no row has the key.
pub open spec fn setting_or(settings: Seq<SettingView>, key: Seq<char>, fallback: Seq<char>) -> Seq<
    char,
> {
    if has_setting(settings, key) {
        let i = choose|i: int| 0 <= i < settings.len() && (#[trigger] settings[i]).key == key;
        settings[i].value
    } else {
        fallback
    }
}

/// `settings` with `value` stored under `key`: in the row that has the key,
/// or in a new last row where none has it.
pub open spec fn stored(
    settings: Seq<SettingView>,
    key: Seq<char>,
    value: Seq<char>,
    now: Seq<char>,
) -> Seq<SettingView> {
    let row = SettingView { key: key, value: value, updated_at: now };
    if has_setting(settings, key) {
        Seq::new(
            settings.len(),
            |i: int|
                if settings[i].key == key {
                    row
                } else {
                    settings[i]
                },
        )
    } else {
        settings.push(row)
    }
}

/// One call of the ledger transaction: the student, the points, and the
/// reason, operator and time that go into the record.
pub struct Award {
    pub student_id: int,
    pub points: int,
    pub reason: Seq<char>,
    pub operator: Seq<char>,
    pub now: Seq<char>,
}

impl Ledger {
    /// The store with four empty tables.
    pub open spec fn empty() -> Ledger {
        Ledger {
            students: Seq::empty(),
            point_records: Seq::empty(),
            settings: Seq::empty(),
            backups: Seq::empty(),
            next_student_id: 1,
            next_record_id: 1,
        }
    }

    /// Whether a student has the id `id`.
    pub open spec fn has_student(self, id: int) -> bool {
        roster_has(self.students, id)
    }

    /// Every student id was handed out by this store.
    pub open spec fn student_ids_in_range(self) -> bool {
        forall|i: int|
            0 <= i < self.students.len() ==> 1 <= (#[trigger] self.students[i]).id
                < self.next_student_id
    }

    /// No two students share an id.
    pub open spec fn student_ids_distinct(self) -> bool {
        forall|i: int, j: int|
            0 <= i < j < self.students.len() ==> (#[trigger] self.students[i]).id != (
            #[trigger] self.students[j]).id
    }

    /// Every record id was handed out by this store.
    pub open spec fn record_ids_in_range(self) -> bool {
        forall|i: int|
            0 <= i < self.point_records.len() ==> 1 <= (#[trigger] self.point_records[i]).id
                < self.next_record_id
    }

    /// No two point records share an id.
    pub open spec fn record_ids_distinct(self) -> bool {
        forall|i: int, j: int|
            0 <= i < j < self.point_records.len() ==> (#[trigger] self.point_records[i]).id != (
            #[trigger] self.point_records[j]).id
    }

    /// Every point record belongs to a student of the roster: no orphans.
    pub open spec fn records_reference_students(self) -> bool {
        forall|i: int|
            0 <= i < self.point_records.len() ==> self.has_student(
                (#[trigger] self.point_records[i]).student_id,
            )
    }

    /// Every student's total is the sum of the points of that student's records.
    pub open spec fn totals_consistent(self) -> bool {
        forall|i: int|
            0 <= i < self.students.len() ==> (#[trigger] self.students[i]).total_points == awarded(
                self.point_records,
                self.students[i].id,
            )
    }

    /// No name, class, reason or operator is empty.
    pub open spec fn texts_present(self) -> bool {
        &&& forall|i: int|
            0 <= i < self.students.len() ==> (#[trigger] self.students[i]).name.len() > 0
                && self.students[i].class.len() > 0
        &&& forall|i: int|
            0 <= i < self.point_records.len() ==> (#[trigger] self.point_records[i]).reason.len()
                > 0 && self.point_records[i].operator.len() > 0
    }

    /// No two settings share a key.
    pub open spec fn setting_keys_distinct(self) -> bool {
        forall|i: int, j: int|
            0 <= i < j < self.settings.len() ==> (#[trigger] self.settings[i]).key != (
            #[trigger] self.settings[j]).key
    }

    /// The store is consistent.
    pub open spec fn wf(self) -> bool {
        &&& self.students.len() < self.next_student_id
        &&& self.point_records.len() < self.next_record_id
        &&& self.student_ids_in_range()
        &&& self.student_ids_distinct()
        &&& self.record_ids_in_range()
        &&& self.record_ids_distinct()
        &&& self.records_reference_students()
        &&& self.totals_consistent()
        &&& self.texts_present()
        &&& self.setting_keys_distinct()
    }

    /// The row that a new student gets.
    pub open spec fn new_student(self, name: Seq<char>, class: Seq<char>, now: Seq<char>) -> StudentView {
        StudentView {
            id: self.next_student_id,
            name: name,
            class: class,
            total_points: 0,
            created_at: now,
            updated_at: now,
        }
    }

    /// The store after a student was added.
    pub open spec fn with_student(self, name: Seq<char>, class: Seq<char>, now: Seq<char>) -> Ledger {
        Ledger {
            students: self.students.push(self.new_student(name, class, now)),
            next_student_id: self.next_student_id + 1,
            ..self
        }
    }

    /// The row that a new point record gets.
    pub open spec fn new_record(
        self,
        student_id: int,
        points: int,
        reason: Seq<char>,
        operator: Seq<char>,
        now: Seq<char>,
    ) -> PointRecordView {
        PointRecordView {
            id: self.next_record_id,
            student_id: student_id,
            points: points,
            reason: reason,
            timestamp: now,
            operator: operator,
        }
    }

    /// The store after the ledger transaction: the record appended and the
    /// student's total raised by its points, both or neither.
    pub open spec fn with_award(
        self,
        student_id: int,
        points: int,
        reason: Seq<char>,
        operator: Seq<char>,
        now: Seq<char>,
    ) -> Ledger {
        Ledger {
            students: credited(self.students, student_id, points, now),
            point_records: self.point_records.push(
                self.new_record(student_id, points, reason, operator, now),
            ),
            next_record_id: self.next_record_id + 1,
            ..self
        }
    }

    /// The store after the student `id` was given a new name and class.
    pub open spec fn renamed(self, id: int, name: Seq<char>, class: Seq<char>, now: Seq<char>) -> Ledger {
        Ledger { students: relabelled(self.students, id, name, class, now), ..self }
    }

    /// The store after the student `id` was deleted together with every point
    /// record of that student.
    pub open spec fn without_student(self, id: int) -> Ledger {
        Ledger {
            students: students_without(self.students, id),
            point_records: records_without(self.point_records, id),
            ..self
        }
    }

    /// The row of the student `id`.
    pub open spec fn student(self, id: int) -> StudentView {
        let i = choose|i: int| 0 <= i < self.students.len() && (#[trigger] self.students[i]).id == id;
        self.students[i]
    }

    /// Why a student with this name and class is not added, if it is not.
    pub open spec fn add_student_refusal(self, name: Seq<char>, class: Seq<char>) -> Option<
        LedgerErrorView,
    > {
        if student_fault(name, class) is Some {
            student_fault(name, class)
        } else if self.next_student_id >= i64::MAX {
            Some(failure(ErrorKind::Storage, IDS_EXHAUSTED@))
        } else {
            None
        }
    }

    /// Why the student `id` is not given this name and class, if it is not.
    pub open spec fn update_student_refusal(self, id: int, name: Seq<char>, class: Seq<char>) -> Option<
        LedgerErrorView,
    > {
        if student_fault(name, class) is Some {
            student_fault(name, class)
        } else if !self.has_student(id) {
            Some(failure(ErrorKind::NotFound, NO_SUCH_STUDENT@))
        } else {
            None
        }
    }

    /// Why the ledger transaction is not made, if it is not: an empty reason
    /// or operator, a student that does not exist, no record id left, or a
    /// total that a 64-bit integer cannot hold.
    pub open spec fn award_refusal(
        self,
        student_id: int,
        points: int,
        reason: Seq<char>,
        operator: Seq<char>,
    ) -> Option<LedgerErrorView> {
        if award_fault(reason, operator) is Some {
            award_fault(reason, operator)
        } else if !self.has_student(student_id) {
            Some(failure(ErrorKind::ForeignKeyViolation, UNKNOWN_STUDENT@))
        } else if self.next_record_id >= i64::MAX {
            Some(failure(ErrorKind::Storage, IDS_EXHAUSTED@))
        } else if !(i64::MIN <= awarded(self.point_records, student_id) + points <= i64::MAX) {
            Some(failure(ErrorKind::TransactionFailure, TOTAL_OUT_OF_RANGE@))
        } else {
            None
        }
    }

    /// One ranking line for each student, in the order of the roster and
    /// before the places are known.
    pub open spec fn ranking_entries(self, day: Seq<char>) -> Seq<RankingItemView> {
        ranking_entries(self.students, self.point_records, day)
    }

    /// The settings in force: what is stored, and the defaults where nothing is.
    pub open spec fn current_settings(self) -> SettingsView {
        SettingsView {
            theme: setting_or(self.settings, THEME_KEY@, DEFAULT_THEME@),
            custom_background: setting_or(self.settings, BACKGROUND_KEY@, DEFAULT_BACKGROUND@),
        }
    }

    /// What one call of the ledger transaction leaves: the store with the
    /// award, or the store as it was where the call is refused.
    pub open spec fn award(self, call: Award) -> Ledger {
        if self.award_refusal(call.student_id, call.points, call.reason, call.operator) is None {
            self.with_award(call.student_id, call.points, call.reason, call.operator, call.now)
        } else {
            self
        }
    }

    /// What a run of calls of the ledger transaction leaves, one after another.
    pub open spec fn after_awards(self, calls: Seq<Award>) -> Ledger
        decreases calls.len(),
    {
        if calls.len() == 0 {
            self
        } else {
            self.after_awards(calls.drop_last()).award(calls.last())
        }
    }

    /// Whether seeding is refused: the roster is empty and fewer than five
    /// student ids are left.
    pub open spec fn seed_refused(self) -> bool {
        self.students.len() == 0 && self.next_student_id + 5 > i64::MAX
    }

    /// What a run of seeding leaves: the seeded store, or the store as it was
    /// where seeding is refused.
    pub open spec fn migrated(self, now: Seq<char>) -> Ledger {
        if self.seed_refused() {
            self
        } else {
            self.seeded(now)
        }
    }

    /// The store after `value` was stored under the setting `key`.
    pub open spec fn with_setting(self, key: Seq<char>, value: Seq<char>, now: Seq<char>) -> Ledger {
        Ledger { settings: stored(self.settings, key, value, now), ..self }
    }

    /// The store after the first `n` sample students were added.
    pub open spec fn with_samples(self, n: int, now: Seq<char>) -> Ledger
        decreases n,
    {
        if n <= 0 {
            self
        } else {
            self.with_samples(n - 1, now).with_student(sample(n - 1).0, sample(n - 1).1, now)
        }
    }

    /// The store after the default theme was stored, unless a theme is there.
    pub open spec fn themed(self, now: Seq<char>) -> Ledger {
        if has_setting(self.settings, THEME_KEY@) {
            self
        } else {
            self.with_setting(THEME_KEY@, DEFAULT_THEME@, now)
        }
    }

    /// The store after seeding: the default theme unless a theme is stored,
    /// and the five sample students unless the roster has a student.
    pub open spec fn seeded(self, now: Seq<char>) -> Ledger {
        if self.students.len() == 0 {
            self.themed(now).with_samples(5, now)
        } else {
            self.themed(now)
        }
    }
}

/// Records of other students add nothing to a student's sum.
pub proof fn lemma_awarded_none(records: Seq<PointRecordView>, student_id: int)
    requires
        forall|i: int| 0 <= i < records.len() ==> (#[trigger] records[i]).student_id != student_id,
    ensures
        awarded(records, student_id) == 0,
    decreases records.len(),
{
    if records.len() > 0 {
        lemma_awarded_none(records.drop_last(), student_id);
    }
}

/// One more record raises the sum of the student it belongs to by its points,
/// and no other sum.
pub proof fn lemma_awarded_push(records: Seq<PointRecordView>, record: PointRecordView, student_id: int)
    ensures
        awarded(records.push(record), student_id) == awarded(records, student_id) + if record.student_id
            == student_id {
            record.points
        } else {
            0
        },
{
    assert(records.push(record).drop_last() =~= records);
}

/// Adding a student keeps the store consistent.
pub proof fn lemma_with_student_wf(ledger: Ledger, name: Seq<char>, class: Seq<char>, now: Seq<char>)
    requires
        ledger.wf(),
        name.len() > 0,
        class.len() > 0,
    ensures
        ledger.with_student(name, class, now).wf(),
{
    let after = ledger.with_student(name, class, now);
    let id = ledger.next_student_id;
    assert forall|i: int| 0 <= i < ledger.point_records.len() implies (
    #[trigger] ledger.point_records[i]).student_id != id by {
        let owner = ledger.point_records[i].student_id;
        assert(ledger.has_student(owner));
        let k = choose|k: int| 0 <= k < ledger.students.len() && (#[trigger] ledger.students[k]).id == owner;
        assert(ledger.students[k].id < id);
    }
    lemma_awarded_none(ledger.point_records, id);
    assert forall|i: int| 0 <= i < after.point_records.len() implies after.has_student(
        (#[trigger] after.point_records[i]).student_id,
    ) by {
        let owner = ledger.point_records[i].student_id;
        assert(ledger.has_student(owner));
        let k = choose|k: int| 0 <= k < ledger.students.len() && (#[trigger] ledger.students[k]).id == owner;
        assert(after.students[k].id == owner);
    }
}

/// The ledger transaction keeps the store consistent.
pub proof fn lemma_with_award_wf(
    ledger: Ledger,
    student_id: int,
    points: int,
    reason: Seq<char>,
    operator: Seq<char>,
    now: Seq<char>,
)
    requires
        ledger.wf(),
        ledger.has_student(student_id),
        reason.len() > 0,
        operator.len() > 0,
    ensures
        ledger.with_award(student_id, points, reason, operator, now).wf(),
{
    let after = ledger.with_award(student_id, points, reason, operator, now);
    let record = ledger.new_record(student_id, points, reason, operator, now);
    assert forall|i: int| 0 <= i < after.students.len() implies (
    #[trigger] after.students[i]).total_points == awarded(
        after.point_records,
        after.students[i].id,
    ) by {
        lemma_awarded_push(ledger.point_records, record, ledger.students[i].id);
    }
    assert forall|i: int| 0 <= i < after.point_records.len() implies after.has_student(
        (#[trigger] after.point_records[i]).student_id,
    ) by {
        let owner = after.point_records[i].student_id;
        if i < ledger.point_records.len() {
            assert(ledger.point_records[i].student_id == owner);
        }
        assert(ledger.has_student(owner));
        let k = choose|k: int| 0 <= k < ledger.students.len() && (#[trigger] ledger.students[k]).id == owner;
        assert(after.students[k].id == owner);
    }
}

/// Renaming a student keeps the store consistent.
pub proof fn lemma_renamed_wf(ledger: Ledger, id: int, name: Seq<char>, class: Seq<char>, now: Seq<char>)
    requires
        ledger.wf(),
        name.len() > 0,
        class.len() > 0,
    ensures
        ledger.renamed(id, name, class, now).wf(),
{
    let after = ledger.renamed(id, name, class, now);
    assert forall|i: int| 0 <= i < after.point_records.len() implies after.has_student(
        (#[trigger] after.point_records[i]).student_id,
    ) by {
        let owner = ledger.point_records[i].student_id;
        assert(ledger.has_student(owner));
        let k = choose|k: int| 0 <= k < ledger.students.len() && (#[trigger] ledger.students[k]).id == owner;
        assert(after.students[k].id == owner);
    }
}

/// What the records kept after a deletion are: records of the store before,
/// none of the deleted student, and all of every other student.
pub proof fn lemma_records_without(records: Seq<PointRecordView>, student_id: int)
    ensures
        forall|k: int|
            0 <= k < records_without(records, student_id).len() ==> (#[trigger] records_without(
                records,
                student_id,
            )[k]).student_id != student_id && records.contains(
                records_without(records, student_id)[k],
            ),
        forall|j: int|
            0 <= j < records.len() && (#[trigger] records[j]).student_id != student_id
                ==> records_without(records, student_id).contains(records[j]),
        records_without(records, student_id).len() <= records.len(),
    decreases records.len(),
{
    let out = records_without(records, student_id);
    if records.len() > 0 {
        let front = records.drop_last();
        let rest = records_without(front, student_id);
        lemma_records_without(front, student_id);
        assert forall|k: int| 0 <= k < out.len() implies (#[trigger] out[k]).student_id
            != student_id && records.contains(out[k]) by {
            if k < rest.len() {
                assert(out[k] == rest[k]);
                assert(front.contains(rest[k]));
                let j = choose|j: int| 0 <= j < front.len() && front[j] == rest[k];
                assert(records[j] == out[k]);
            } else {
                assert(records[records.len() - 1] == out[k]);
            }
        }
        assert forall|j: int|
            0 <= j < records.len() && (#[trigger] records[j]).student_id
                != student_id implies out.contains(records[j]) by {
            if j < front.len() {
                assert(front[j] == records[j]);
                assert(rest.contains(front[j]));
                let k = choose|k: int| 0 <= k < rest.len() && rest[k] == front[j];
                assert(out[k] == records[j]);
            } else {
                assert(out[out.len() - 1] == records[j]);
            }
        }
    }
}

/// A deletion leaves the sums of the other students as they were.
pub proof fn lemma_awarded_without(records: Seq<PointRecordView>, deleted: int, other: int)
    requires
        deleted != other,
    ensures
        awarded(records_without(records, deleted), other) == awarded(records, other),
    decreases records.len(),
{
    if records.len() > 0 {
        lemma_awarded_without(records.drop_last(), deleted, other);
        if records.last().student_id != deleted {
            lemma_awarded_push(
                records_without(records.drop_last(), deleted),
                records.last(),
                other,
            );
        }
    }
}

/// A deletion leaves no two records with one id, where there were none.
pub proof fn lemma_records_without_distinct(records: Seq<PointRecordView>, student_id: int)
    requires
        forall|i: int, j: int|
            0 <= i < j < records.len() ==> (#[trigger] records[i]).id != (#[trigger] records[j]).id,
    ensures
        forall|i: int, j: int|
            0 <= i < j < records_without(records, student_id).len() ==> (#[trigger] records_without(
                records,
                student_id,
            )[i]).id != (#[trigger] records_without(records, student_id)[j]).id,
    decreases records.len(),
{
    let out = records_without(records, student_id);
    if records.len() > 0 {
        let front = records.drop_last();
        let rest = records_without(front, student_id);
        lemma_records_without_distinct(front, student_id);
        lemma_records_without(front, student_id);
        assert forall|i: int, j: int| 0 <= i < j < out.len() implies (#[trigger] out[i]).id != (
        #[trigger] out[j]).id by {
            if j < rest.len() {
                assert(out[i] == rest[i] && out[j] == rest[j]);
            } else {
                assert(out[i] == rest[i]);
                assert(front.contains(rest[i]));
                let k = choose|k: int| 0 <= k < front.len() && front[k] == rest[i];
                assert(records[k] == out[i]);
                assert(records[records.len() - 1] == out[j]);
            }
        }
    }
}

/// What the students kept after a deletion are: students of the store
/// before, none with the deleted id, and all with another id.
pub proof fn lemma_students_without(students: Seq<StudentView>, id: int)
    ensures
        forall|k: int|
            0 <= k < students_without(students, id).len() ==> (#[trigger] students_without(
                students,
                id,
            )[k]).id != id && students.contains(students_without(students, id)[k]),
        forall|j: int|
            0 <= j < students.len() && (#[trigger] students[j]).id != id ==> students_without(
                students,
                id,
            ).contains(students[j]),
        !roster_has(students_without(students, id), id),
        students_without(students, id).len() <= students.len(),
    decreases students.len(),
{
    let out = students_without(students, id);
    if students.len() > 0 {
        let front = students.drop_last();
        let rest = students_without(front, id);
        lemma_students_without(front, id);
        assert forall|k: int| 0 <= k < out.len() implies (#[trigger] out[k]).id != id
            && students.contains(out[k]) by {
            if k < rest.len() {
                assert(out[k] == rest[k]);
                assert(front.contains(rest[k]));
                let j = choose|j: int| 0 <= j < front.len() && front[j] == rest[k];
                assert(students[j] == out[k]);
            } else {
                assert(students[students.len() - 1] == out[k]);
            }
        }
        assert forall|j: int| 0 <= j < students.len() && (#[trigger] students[j]).id
            != id implies out.contains(students[j]) by {
            if j < front.len() {
                assert(front[j] == students[j]);
                assert(rest.contains(front[j]));
                let k = choose|k: int| 0 <= k < rest.len() && rest[k] == front[j];
                assert(out[k] == students[j]);
            } else {
                assert(out[out.len() - 1] == students[j]);
            }
        }
    }
}

/// A deletion leaves no two students with one id, where there were none.
pub proof fn lemma_students_without_distinct(students: Seq<StudentView>, id: int)
    requires
        forall|i: int, j: int|
            0 <= i < j < students.len() ==> (#[trigger] students[i]).id != (#[trigger] students[j]).id,
    ensures
        forall|i: int, j: int|
            0 <= i < j < students_without(students, id).len() ==> (#[trigger] students_without(
                students,
                id,
            )[i]).id != (#[trigger] students_without(students, id)[j]).id,
    decreases students.len(),
{
    let out = students_without(students, id);
    if students.len() > 0 {
        let front = students.drop_last();
        let rest = students_without(front, id);
        lemma_students_without_distinct(front, id);
        lemma_students_without(front, id);
        assert forall|i: int, j: int| 0 <= i < j < out.len() implies (#[trigger] out[i]).id != (
        #[trigger] out[j]).id by {
            if j < rest.len() {
                assert(out[i] == rest[i] && out[j] == rest[j]);
            } else {
                assert(out[i] == rest[i]);
                assert(front.contains(rest[i]));
                let k = choose|k: int| 0 <= k < front.len() && front[k] == rest[i];
                assert(students[k] == out[i]);
                assert(students[students.len() - 1] == out[j]);
            }
        }
    }
}

/// Deleting a student keeps the store consistent.
pub proof fn lemma_without_student_wf(ledger: Ledger, id: int)
    requires
        ledger.wf(),
    ensures
        ledger.without_student(id).wf(),
{
    let after = ledger.without_student(id);
    lemma_students_without(ledger.students, id);
    lemma_students_without_distinct(ledger.students, id);
    lemma_records_without(ledger.point_records, id);
    lemma_records_without_distinct(ledger.point_records, id);
    assert forall|i: int| 0 <= i < after.students.len() implies 1 <= (
    #[trigger] after.students[i]).id < after.next_student_id && after.students[i].name.len() > 0
        && after.students[i].class.len() > 0 && after.students[i].total_points == awarded(
        after.point_records,
        after.students[i].id,
    ) by {
        let s = after.students[i];
        assert(ledger.students.contains(s));
        let j = choose|j: int| 0 <= j < ledger.students.len() && ledger.students[j] == s;
        assert(ledger.students[j].id == s.id);
        lemma_awarded_without(ledger.point_records, id, s.id);
    }
    assert forall|i: int| 0 <= i < after.point_records.len() implies 1 <= (
    #[trigger] after.point_records[i]).id < after.next_record_id
        && after.point_records[i].reason.len() > 0 && after.point_records[i].operator.len() > 0
        && after.has_student(after.point_records[i].student_id) by {
        let r = after.point_records[i];
        assert(ledger.point_records.contains(r));
        let j = choose|j: int| 0 <= j < ledger.point_records.len() && ledger.point_records[j] == r;
        assert(ledger.point_records[j].id == r.id);
        assert(ledger.has_student(r.student_id));
        let k = choose|k: int|
            0 <= k < ledger.students.len() && (#[trigger] ledger.students[k]).id == r.student_id;
        assert(after.students.contains(ledger.students[k]));
        let m = choose|m: int| 0 <= m < after.students.len() && after.students[m] == ledger.students[k];
        assert(after.students[m].id == r.student_id);
    }
}

/// Storing a setting keeps the store consistent.
pub proof fn lemma_with_setting_wf(ledger: Ledger, key: Seq<char>, value: Seq<char>, now: Seq<char>)
    requires
        ledger.wf(),
    ensures
        ledger.with_setting(key, value, now).wf(),
{
    let after = ledger.with_setting(key, value, now);
    assert(after.students == ledger.students);
    assert(after.point_records == ledger.point_records);
}

/// Adding sample students keeps the store consistent.
pub proof fn lemma_with_samples_wf(ledger: Ledger, n: int, now: Seq<char>)
    requires
        ledger.wf(),
        0 <= n <= 5,
    ensures
        ledger.with_samples(n, now).wf(),
        ledger.with_samples(n, now).students.len() == ledger.students.len() + n,
        ledger.with_samples(n, now).next_student_id == ledger.next_student_id + n,
        ledger.with_samples(n, now).point_records == ledger.point_records,
        ledger.with_samples(n, now).settings == ledger.settings,
        ledger.with_samples(n, now).backups == ledger.backups,
        ledger.with_samples(n, now).next_record_id == ledger.next_record_id,
    decreases n,
{
    if n > 0 {
        lemma_with_samples_wf(ledger, n - 1, now);
        reveal_strlit("张三");
        reveal_strlit("李四");
        reveal_strlit("王五");
        reveal_strlit("赵六");
        reveal_strlit("孙七");
        reveal_strlit("一年级1班");
        reveal_strlit("一年级2班");
        reveal_strlit("一年级3班");
        lemma_with_student_wf(
            ledger.with_samples(n - 1, now),
            sample(n - 1).0,
            sample(n - 1).1,
            now,
        );
    }
}

} // verus!
