//! What holds of the ledger whatever is done with it, stated over the
//! mathematical store and proved.

use crate::defaults::{BACKGROUND_KEY, DEFAULT_BACKGROUND, DEFAULT_THEME, THEME_KEY};
use crate::ledger::{
    awarded, has_setting, lemma_awarded_push, lemma_students_without, lemma_with_award_wf,
    lemma_with_samples_wf, lemma_with_setting_wf, lemma_without_student_wf, records_of,
    records_without, setting_or, stored, Award, Ledger, SettingView,
};
use crate::model::{PointRecordView, SettingsView, StudentView};
use vstd::prelude::*;

verus! {

/// Ledger and totals agree: after any run of calls of the ledger transaction
/// on a consistent store, accepted or refused, the store is consistent, and
/// the total of every student is the sum of the points of that student's
/// records. A run stopped at any point is a run, so this holds at every point
/// of observation.
pub proof fn law_totals_follow_records(ledger: Ledger, calls: Seq<Award>)
    requires
        ledger.wf(),
    ensures
        ledger.after_awards(calls).wf(),
        forall|i: int|
            0 <= i < ledger.after_awards(calls).students.len() ==> (#[trigger] ledger.after_awards(
                calls,
            ).students[i]).total_points == awarded(
                ledger.after_awards(calls).point_records,
                ledger.after_awards(calls).students[i].id,
            ),
    decreases calls.len(),
{
    if calls.len() > 0 {
        law_totals_follow_records(ledger, calls.drop_last());
        let before = ledger.after_awards(calls.drop_last());
        let call = calls.last();
        if before.award_refusal(call.student_id, call.points, call.reason, call.operator) is None {
            lemma_with_award_wf(
                before,
                call.student_id,
                call.points,
                call.reason,
                call.operator,
                call.now,
            );
        }
    }
}

/// No update is lost: where every call of a run awards one point to the same
/// student and none is refused, the run raises that student's sum, and so the
/// total, by the number of calls. The commands take the store by exclusive
/// reference, so calls made at the same time take effect one after another,
/// in some order; the run is that order.
pub proof fn law_no_update_is_lost(ledger: Ledger, calls: Seq<Award>, student_id: int)
    requires
        ledger.wf(),
        ledger.has_student(student_id),
        forall|k: int|
            0 <= k < calls.len() ==> (#[trigger] calls[k]).student_id == student_id && calls[k].points
                == 1,
        forall|k: int|
            0 <= k < calls.len() ==> (#[trigger] ledger.after_awards(calls.take(k))).award_refusal(
                calls[k].student_id,
                calls[k].points,
                calls[k].reason,
                calls[k].operator,
            ) is None,
    ensures
        ledger.after_awards(calls).has_student(student_id),
        ledger.after_awards(calls).student(student_id).total_points == ledger.student(
            student_id,
        ).total_points + calls.len(),
        awarded(ledger.after_awards(calls).point_records, student_id) == awarded(
            ledger.point_records,
            student_id,
        ) + calls.len(),
    decreases calls.len(),
{
    if calls.len() == 0 {
    } else {
        let front = calls.drop_last();
        let call = calls.last();
        assert forall|k: int| 0 <= k < front.len() implies (#[trigger] ledger.after_awards(
            front.take(k),
        )).award_refusal(
            front[k].student_id,
            front[k].points,
            front[k].reason,
            front[k].operator,
        ) is None by {
            assert(front.take(k) =~= calls.take(k));
            assert(front[k] == calls[k]);
        }
        assert forall|k: int| 0 <= k < front.len() implies (#[trigger] front[k]).student_id
            == student_id && front[k].points == 1 by {
            assert(front[k] == calls[k]);
        }
        law_no_update_is_lost(ledger, front, student_id);
        let before = ledger.after_awards(front);
        assert(calls.take(calls.len() - 1) =~= front);
        assert(ledger.after_awards(calls.take(calls.len() - 1)).award_refusal(
            call.student_id,
            call.points,
            call.reason,
            call.operator,
        ) is None);
        let after = ledger.after_awards(calls);
        assert(after == before.with_award(
            call.student_id,
            call.points,
            call.reason,
            call.operator,
            call.now,
        ));
        lemma_awarded_push(
            before.point_records,
            before.new_record(call.student_id, call.points, call.reason, call.operator, call.now),
            student_id,
        );
        law_totals_follow_records(ledger, front);
        law_totals_follow_records(ledger, calls);
        lemma_total_is_sum(before, student_id);
        let k = choose|k: int|
            0 <= k < before.students.len() && (#[trigger] before.students[k]).id == student_id;
        assert(after.students[k].id == student_id);
        lemma_total_is_sum(after, student_id);
    }
    lemma_total_is_sum(ledger, student_id);
}

/// In a consistent store the total of a student is the sum of the points of
/// that student's records.
pub proof fn lemma_total_is_sum(ledger: Ledger, student_id: int)
    requires
        ledger.wf(),
        ledger.has_student(student_id),
    ensures
        ledger.student(student_id).total_points == awarded(ledger.point_records, student_id),
{
    let i = choose|i: int|
        0 <= i < ledger.students.len() && (#[trigger] ledger.students[i]).id == student_id;
    assert(ledger.students[i].total_points == awarded(ledger.point_records, ledger.students[i].id));
}

/// No record of a deleted student is left among the records kept.
pub proof fn lemma_none_left(records: Seq<PointRecordView>, student_id: int)
    ensures
        records_of(records_without(records, student_id), student_id) == Seq::<
            PointRecordView,
        >::empty(),
    decreases records.len(),
{
    if records.len() > 0 {
        lemma_none_left(records.drop_last(), student_id);
        if records.last().student_id != student_id {
            let kept = records_without(records.drop_last(), student_id);
            assert(kept.push(records.last()).drop_last() =~= kept);
        }
    }
}

/// A deleted student is gone: after the deletion no student has the id, no
/// point record belongs to it, and the store is consistent, so no record is
/// left without its student.
pub proof fn law_deleted_student_is_gone(ledger: Ledger, id: int)
    requires
        ledger.wf(),
    ensures
        !ledger.without_student(id).has_student(id),
        records_of(ledger.without_student(id).point_records, id) == Seq::<PointRecordView>::empty(),
        ledger.without_student(id).wf(),
{
    lemma_students_without(ledger.students, id);
    lemma_none_left(ledger.point_records, id);
    lemma_without_student_wf(ledger, id);
}

/// Seeding twice is seeding once: a second run of the seeding, at whatever
/// time, leaves the store as the first run left it, with one theme and one
/// set of sample students.
pub proof fn law_seeding_is_idempotent(ledger: Ledger, first: Seq<char>, second: Seq<char>)
    requires
        ledger.wf(),
    ensures
        ledger.migrated(first).migrated(second) == ledger.migrated(first),
{
    let once = ledger.migrated(first);
    if !ledger.seed_refused() {
        let themed = ledger.themed(first);
        lemma_with_setting_wf(ledger, THEME_KEY@, DEFAULT_THEME@, first);
        if !has_setting(ledger.settings, THEME_KEY@) {
            let rows = themed.settings;
            assert(rows[rows.len() - 1].key == THEME_KEY@);
        }
        assert(has_setting(themed.settings, THEME_KEY@));
        if ledger.students.len() == 0 {
            lemma_with_samples_wf(themed, 5, first);
        }
        assert(has_setting(once.settings, THEME_KEY@));
        assert(once.students.len() > 0);
    }
}

/// Settings read back as they were stored: after the theme and the background
/// were stored, they are the settings in force.
pub proof fn law_settings_read_back(
    ledger: Ledger,
    theme: Seq<char>,
    background: Seq<char>,
    now: Seq<char>,
)
    requires
        ledger.wf(),
    ensures
        ledger.with_setting(THEME_KEY@, theme, now).with_setting(
            BACKGROUND_KEY@,
            background,
            now,
        ).current_settings() == (SettingsView { theme: theme, custom_background: background }),
{
    reveal_strlit("theme");
    reveal_strlit("custom_background");
    assert(THEME_KEY@ != BACKGROUND_KEY@) by {
        assert(THEME_KEY@.len() == 5);
        assert(BACKGROUND_KEY@.len() == 17);
    }
    let one = ledger.with_setting(THEME_KEY@, theme, now);
    let two = one.with_setting(BACKGROUND_KEY@, background, now);
    lemma_with_setting_wf(ledger, THEME_KEY@, theme, now);
    lemma_with_setting_wf(one, BACKGROUND_KEY@, background, now);
    lemma_stored_reads(ledger.settings, THEME_KEY@, theme, now, THEME_KEY@, DEFAULT_THEME@);
    lemma_stored_reads(one.settings, BACKGROUND_KEY@, background, now, THEME_KEY@, DEFAULT_THEME@);
    lemma_stored_reads(
        one.settings,
        BACKGROUND_KEY@,
        background,
        now,
        BACKGROUND_KEY@,
        DEFAULT_BACKGROUND@,
    );
}

/// After a value was stored under a key, that key reads as the value, and
/// every other key reads as before.
pub proof fn lemma_stored_reads(
    settings: Seq<SettingView>,
    key: Seq<char>,
    value: Seq<char>,
    now: Seq<char>,
    asked: Seq<char>,
    fallback: Seq<char>,
)
    requires
        forall|i: int, j: int|
            0 <= i < j < settings.len() ==> (#[trigger] settings[i]).key != (#[trigger] settings[j]).key,
    ensures
        setting_or(stored(settings, key, value, now), asked, fallback) == if asked == key {
            value
        } else {
            setting_or(settings, asked, fallback)
        },
{
    let after = stored(settings, key, value, now);
    if asked == key {
        if has_setting(settings, key) {
            let w = choose|w: int| 0 <= w < settings.len() && (#[trigger] settings[w]).key == key;
            assert(after[w].key == key);
        } else {
            assert(after[after.len() - 1].key == key);
        }
        assert(has_setting(after, key));
        let c = choose|c: int| 0 <= c < after.len() && (#[trigger] after[c]).key == key;
        assert(after[c].value == value);
    } else {
        if has_setting(settings, asked) {
            let w = choose|w: int| 0 <= w < settings.len() && (#[trigger] settings[w]).key == asked;
            assert(after[w] == settings[w]);
            assert(has_setting(after, asked));
            let c = choose|c: int| 0 <= c < after.len() && (#[trigger] after[c]).key == asked;
            assert(c < settings.len());
            assert(after[c] == settings[c]);
            if c < w {
                assert(settings[c].key != settings[w].key);
            } else if w < c {
                assert(settings[w].key != settings[c].key);
            }
        } else {
            if has_setting(after, asked) {
                let c = choose|c: int| 0 <= c < after.len() && (#[trigger] after[c]).key == asked;
                if c < settings.len() {
                    assert(settings[c].key == asked);
                }
                assert(false);
            }
        }
    }
}

/// What is listed is what is stored: in a listing of the students of a
/// consistent store, in whatever order, the total of every row is the sum of
/// the points of that student's records.
pub proof fn law_listed_totals_are_sums(ledger: Ledger, listed: Seq<StudentView>)
    requires
        ledger.wf(),
        listed.to_multiset() == ledger.students.to_multiset(),
    ensures
        forall|i: int|
            0 <= i < listed.len() ==> (#[trigger] listed[i]).total_points == awarded(
                ledger.point_records,
                listed[i].id,
            ),
{
    listed.to_multiset_ensures();
    ledger.students.to_multiset_ensures();
    assert forall|i: int| 0 <= i < listed.len() implies (#[trigger] listed[i]).total_points
        == awarded(ledger.point_records, listed[i].id) by {
        assert(listed.contains(listed[i]));
        assert(ledger.students.to_multiset().count(listed[i]) > 0);
        assert(ledger.students.contains(listed[i]));
        let j = choose|j: int| 0 <= j < ledger.students.len() && ledger.students[j] == listed[i];
        assert(ledger.students[j].total_points == awarded(
            ledger.point_records,
            ledger.students[j].id,
        ));
    }
}

/// The listings after a deletion: the students listed do not hold the deleted
/// id, and the listing of the deleted student's point records is empty.
pub proof fn law_listings_after_deletion(
    ledger: Ledger,
    id: int,
    students: Seq<StudentView>,
    records: Seq<PointRecordView>,
)
    requires
        ledger.wf(),
        students.to_multiset() == ledger.without_student(id).students.to_multiset(),
        records.to_multiset() == records_of(
            ledger.without_student(id).point_records,
            id,
        ).to_multiset(),
    ensures
        records.len() == 0,
        forall|i: int| 0 <= i < students.len() ==> (#[trigger] students[i]).id != id,
{
    let kept = ledger.without_student(id).students;
    lemma_none_left(ledger.point_records, id);
    lemma_students_without(ledger.students, id);
    records.to_multiset_ensures();
    Seq::<PointRecordView>::empty().to_multiset_ensures();
    students.to_multiset_ensures();
    kept.to_multiset_ensures();
    assert forall|i: int| 0 <= i < students.len() implies (#[trigger] students[i]).id != id by {
        assert(students.contains(students[i]));
        assert(kept.to_multiset().count(students[i]) > 0);
        assert(kept.contains(students[i]));
        let j = choose|j: int| 0 <= j < kept.len() && kept[j] == students[i];
        assert(kept[j].id != id);
    }
}

} // verus!
