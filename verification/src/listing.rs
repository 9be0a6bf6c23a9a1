//! Listings made of rows: students by name, point records by time, and the
//! ranking by total.

use crate::ledger::{
    awarded_on, clamped, highest_first, ranking_entries, records_of, unranked,
};
use crate::model::{
    ranking_views, record_views, student_views, PointRecord, PointRecordView, RankingItem,
    RankingItemView, Student, StudentView,
};
use crate::order::{
    lemma_insert_ordered, lemma_insert_to_multiset, lemma_text_le_total,
    lemma_text_le_transitive, ordered, text_has_prefix, text_le, text_precedes,
};
use vstd::prelude::*;

verus! {

/// The rows are listed by name, ascending.
pub open spec fn sorted_by_name(rows: Seq<StudentView>) -> bool {
    forall|i: int, j: int|
        0 <= i < j < rows.len() ==> text_le((#[trigger] rows[i]).name, (#[trigger] rows[j]).name)
}

/// The rows are listed by time, the newest first.
pub open spec fn newest_first(rows: Seq<PointRecordView>) -> bool {
    forall|i: int, j: int|
        0 <= i < j < rows.len() ==> text_le(
            (#[trigger] rows[j]).timestamp,
            (#[trigger] rows[i]).timestamp,
        )
}

/// The rows of `table`, listed by name in ascending order.
pub fn sort_students(table: &Vec<Student>) -> (list: Vec<Student>)
    ensures
        sorted_by_name(student_views(list@)),
        student_views(list@).to_multiset() == student_views(table@).to_multiset(),
{
    let ghost all = student_views(table@);
    let ghost le = |a: StudentView, b: StudentView| text_le(a.name, b.name);
    proof {
        assert forall|a: StudentView, b: StudentView| #[trigger] le(a, b) || le(b, a) by {
            lemma_text_le_total(a.name, b.name);
        }
        assert forall|a: StudentView, b: StudentView, c: StudentView| #[trigger]
            le(a, b) && #[trigger] le(b, c) implies le(a, c) by {
            lemma_text_le_transitive(a.name, b.name, c.name);
        }
    }
    let mut list: Vec<Student> = Vec::new();
    let mut k: usize = 0;
    assert(student_views(list@) =~= all.take(0));
    while k < table.len()
        invariant
            k <= table@.len(),
            all == student_views(table@),
            forall|a: StudentView, b: StudentView| #[trigger] le(a, b) || le(b, a),
            forall|a: StudentView, b: StudentView, c: StudentView| #[trigger]
                le(a, b) && #[trigger] le(b, c) ==> le(a, c),
            le == |a: StudentView, b: StudentView| text_le(a.name, b.name),
            ordered(student_views(list@), le),
            student_views(list@).to_multiset() == all.take(k as int).to_multiset(),
        decreases table@.len() - k,
    {
        let row = table[k].clone();
        let ghost rows = student_views(list@);
        let mut p: usize = 0;
        let mut searching = true;
        while searching
            invariant
                p <= list@.len(),
                rows == student_views(list@),
                le == |a: StudentView, b: StudentView| text_le(a.name, b.name),
                forall|q: int| 0 <= q < p ==> le(#[trigger] rows[q], row@),
                !searching ==> (p < rows.len() ==> !le(rows[p as int], row@)),
            decreases list@.len() - p + if searching { 1int } else { 0int },
        {
            if p < list.len() && text_precedes(list[p].name.as_str(), row.name.as_str()) {
                assert(le(rows[p as int], row@));
                p = p + 1;
            } else {
                searching = false;
            }
        }
        proof {
            lemma_insert_ordered(rows, p as int, row@, le);
            lemma_insert_to_multiset(rows, p as int, row@);
            assert(all.take(k + 1) =~= all.take(k as int).push(all[k as int]));
            vstd::seq_lib::to_multiset_build(all.take(k as int), all[k as int]);
        }
        list.insert(p, row);
        assert(student_views(list@) =~= rows.insert(p as int, row@));
        k = k + 1;
    }
    assert(all.take(k as int) =~= all);
    list
}

/// The rows of `table` that belong to the student `student_id`, or all of
/// them where none is given, listed by time with the newest first.
pub fn select_point_records(table: &Vec<PointRecord>, student_id: Option<i64>) -> (list: Vec<
    PointRecord,
>)
    ensures
        newest_first(record_views(list@)),
        record_views(list@).to_multiset() == (match student_id {
            Some(id) => records_of(record_views(table@), id as int),
            None => record_views(table@),
        }).to_multiset(),
{
    let ghost all = record_views(table@);
    let ghost le = |a: PointRecordView, b: PointRecordView| text_le(b.timestamp, a.timestamp);
    let ghost chosen = |records: Seq<PointRecordView>|
        match student_id {
            Some(id) => records_of(records, id as int),
            None => records,
        };
    proof {
        assert forall|a: PointRecordView, b: PointRecordView| #[trigger] le(a, b) || le(b, a) by {
            lemma_text_le_total(a.timestamp, b.timestamp);
        }
        assert forall|a: PointRecordView, b: PointRecordView, c: PointRecordView| #[trigger]
            le(a, b) && #[trigger] le(b, c) implies le(a, c) by {
            lemma_text_le_transitive(c.timestamp, b.timestamp, a.timestamp);
        }
    }
    let mut list: Vec<PointRecord> = Vec::new();
    let mut k: usize = 0;
    assert(record_views(list@) =~= chosen(all.take(0)));
    while k < table.len()
        invariant
            k <= table@.len(),
            all == record_views(table@),
            forall|a: PointRecordView, b: PointRecordView| #[trigger] le(a, b) || le(b, a),
            forall|a: PointRecordView, b: PointRecordView, c: PointRecordView| #[trigger]
                le(a, b) && #[trigger] le(b, c) ==> le(a, c),
            le == |a: PointRecordView, b: PointRecordView| text_le(b.timestamp, a.timestamp),
            chosen == |records: Seq<PointRecordView>|
                match student_id {
                    Some(id) => records_of(records, id as int),
                    None => records,
                },
            ordered(record_views(list@), le),
            record_views(list@).to_multiset() == chosen(
                all.take(k as int),
            ).to_multiset(),
        decreases table@.len() - k,
    {
        let ghost front = all.take(k as int);
        let ghost next = all.take(k + 1);
        assert(next.drop_last() =~= front);
        assert(next =~= front.push(all[k as int]));
        let wanted = match student_id {
            Some(id) => table[k].student_id == id,
            None => true,
        };
        if wanted {
            let row = table[k].clone();
            let ghost rows = record_views(list@);
            let mut p: usize = 0;
            let mut searching = true;
            while searching
                invariant
                    p <= list@.len(),
                    rows == record_views(list@),
                    le == |a: PointRecordView, b: PointRecordView| text_le(b.timestamp, a.timestamp),
                    forall|q: int| 0 <= q < p ==> le(#[trigger] rows[q], row@),
                    !searching ==> (p < rows.len() ==> !le(rows[p as int], row@)),
                decreases list@.len() - p + if searching { 1int } else { 0int },
            {
                if p < list.len() && text_precedes(
                    row.timestamp.as_str(),
                    list[p].timestamp.as_str(),
                ) {
                    assert(le(rows[p as int], row@));
                    p = p + 1;
                } else {
                    searching = false;
                }
            }
            proof {
                lemma_insert_ordered(rows, p as int, row@, le);
                lemma_insert_to_multiset(rows, p as int, row@);
                vstd::seq_lib::to_multiset_build(chosen(front), row@);
                assert(chosen(next) =~= chosen(front).push(row@));
            }
            list.insert(p, row);
            assert(record_views(list@) =~= rows.insert(p as int, row@));
        } else {
            assert(chosen(next) =~= chosen(front));
        }
        k = k + 1;
    }
    assert(all.take(k as int) =~= all);
    list
}

/// What the records of the day `today` add to the total of the student
/// `student_id`, held to the range of a 64-bit integer.
fn change_on(table: &Vec<PointRecord>, student_id: i64, today: &str) -> (change: i64)
    ensures
        change == clamped(awarded_on(record_views(table@), student_id as int, today@)),
{
    let ghost all = record_views(table@);
    let mut sum: i128 = 0;
    let mut k: usize = 0;
    while k < table.len()
        invariant
            k <= table@.len(),
            all == record_views(table@),
            sum == awarded_on(all.take(k as int), student_id as int, today@),
            -(k * 0x8000_0000_0000_0000) <= sum <= k * 0x8000_0000_0000_0000,
        decreases table@.len() - k,
    {
        assert(all.take(k + 1).drop_last() =~= all.take(k as int));
        if table[k].student_id == student_id && text_has_prefix(
            table[k].timestamp.as_str(),
            today,
        ) {
            sum = sum + table[k].points as i128;
        }
        k = k + 1;
    }
    assert(all.take(k as int) =~= all);
    if sum < i64::MIN as i128 {
        i64::MIN
    } else if sum > i64::MAX as i128 {
        i64::MAX
    } else {
        sum as i64
    }
}

/// The ranking of `students` by the records `records`: one line for each
/// student, listed by total with the highest first, each with its place
/// counted from 1 and with what the records of the day `today` add to the
/// student's total (held to the range of a 64-bit integer). A record is of
/// that day where its time starts with `today`.
pub fn rank_students(students: &Vec<Student>, records: &Vec<PointRecord>, today: &str) -> (list:
    Vec<RankingItem>)
    requires
        students@.len() <= i64::MAX,
    ensures
        highest_first(ranking_views(list@)),
        forall|i: int| 0 <= i < list@.len() ==> (#[trigger] ranking_views(list@)[i]).rank == i + 1,
        unranked(ranking_views(list@)).to_multiset() == ranking_entries(
            student_views(students@),
            record_views(records@),
            today@,
        ).to_multiset(),
{
    let ghost le = |a: RankingItemView, b: RankingItemView| a.total_points >= b.total_points;
    let ghost entries = ranking_entries(student_views(students@), record_views(records@), today@);
    let mut lines: Vec<RankingItem> = Vec::new();
    let mut k: usize = 0;
    assert(ranking_views(lines@) =~= entries.take(0));
    while k < students.len()
        invariant
            k <= students@.len(),
            entries == ranking_entries(student_views(students@), record_views(records@), today@),
            le == |a: RankingItemView, b: RankingItemView| a.total_points >= b.total_points,
            lines@.len() == k,
            ordered(ranking_views(lines@), le),
            forall|q: int| 0 <= q < lines@.len() ==> (#[trigger] ranking_views(lines@)[q]).rank == 0,
            ranking_views(lines@).to_multiset() == entries.take(k as int).to_multiset(),
        decreases students@.len() - k,
    {
        let line = RankingItem {
            rank: 0,
            student_id: students[k].id,
            name: students[k].name.clone(),
            class: students[k].class.clone(),
            total_points: students[k].total_points,
            today_change: change_on(records, students[k].id, today),
        };
        assert(line@ == entries[k as int]);
        let ghost rows = ranking_views(lines@);
        let mut p: usize = 0;
        while p < lines.len() && lines[p].total_points >= line.total_points
            invariant
                p <= lines@.len(),
                rows == ranking_views(lines@),
                le == |a: RankingItemView, b: RankingItemView| a.total_points >= b.total_points,
                forall|q: int| 0 <= q < p ==> le(#[trigger] rows[q], line@),
            decreases lines@.len() - p,
        {
            assert(le(rows[p as int], line@));
            p = p + 1;
        }
        proof {
            lemma_insert_ordered(rows, p as int, line@, le);
            lemma_insert_to_multiset(rows, p as int, line@);
            assert(entries.take(k + 1) =~= entries.take(k as int).push(entries[k as int]));
            vstd::seq_lib::to_multiset_build(entries.take(k as int), entries[k as int]);
        }
        lines.insert(p, line);
        assert(ranking_views(lines@) =~= rows.insert(p as int, line@));
        k = k + 1;
    }
    assert(entries.take(k as int) =~= entries);
    let ghost sorted = ranking_views(lines@);
    let mut list: Vec<RankingItem> = Vec::new();
    let mut i: usize = 0;
    while i < lines.len()
        invariant
            i <= lines@.len(),
            lines@.len() == students@.len(),
            students@.len() <= i64::MAX,
            sorted == ranking_views(lines@),
            list@.len() == i,
            forall|q: int|
                0 <= q < i ==> (#[trigger] ranking_views(list@)[q]) == (RankingItemView {
                    rank: q + 1,
                    ..sorted[q]
                }),
        decreases lines@.len() - i,
    {
        let place: i64 = (i + 1) as i64;
        let ghost ranked = ranking_views(list@);
        let ghost earlier = list@;
        list.push(
            RankingItem {
                rank: place,
                student_id: lines[i].student_id,
                name: lines[i].name.clone(),
                class: lines[i].class.clone(),
                total_points: lines[i].total_points,
                today_change: lines[i].today_change,
            },
        );
        assert(ranking_views(list@)[i as int] == (RankingItemView { rank: i + 1, ..sorted[i as int] }));
        assert forall|q: int| 0 <= q < i implies (#[trigger] ranking_views(list@)[q]) == ranked[q] by {
            assert(list@[q] == earlier[q]);
        }
        i = i + 1;
    }
    assert(unranked(ranking_views(list@)) =~= sorted);
    assert forall|a: int, b: int| 0 <= a < b < list@.len() implies (#[trigger] ranking_views(
        list@,
    )[a]).total_points >= (#[trigger] ranking_views(list@)[b]).total_points by {
        assert(le(sorted[a], sorted[b]));
    }
    list
}

} // verus!
