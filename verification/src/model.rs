//! The rows of the ledger and what the commands hand out, each with its
//! mathematical view.

use vstd::prelude::*;

verus! {

/// A student of the roster.
#[derive(Debug, PartialEq, Eq)]
pub struct Student {
    pub id: i64,
    pub name: String,
    pub class: String,
    pub total_points: i64,
    pub created_at: String,
    pub updated_at: String,
}

/// What a `Student` holds, as plain values.
pub struct StudentView {
    pub id: int,
    pub name: Seq<char>,
    pub class: Seq<char>,
    pub total_points: int,
    pub created_at: Seq<char>,
    pub updated_at: Seq<char>,
}

impl View for Student {
    type V = StudentView;

    open spec fn view(&self) -> StudentView {
        StudentView {
            id: self.id as int,
            name: self.name@,
            class: self.class@,
            total_points: self.total_points as int,
            created_at: self.created_at@,
            updated_at: self.updated_at@,
        }
    }
}

impl Clone for Student {
    fn clone(&self) -> (copy: Student)
        ensures
            copy == *self,
    {
        Student {
            id: self.id,
            name: self.name.clone(),
            class: self.class.clone(),
            total_points: self.total_points,
            created_at: self.created_at.clone(),
            updated_at: self.updated_at.clone(),
        }
    }
}

/// One award (or deduction) of points to a student.
#[derive(Debug, PartialEq, Eq)]
pub struct PointRecord {
    pub id: i64,
    pub student_id: i64,
    pub points: i64,
    pub reason: String,
    pub timestamp: String,
    pub operator: String,
}

/// What a `PointRecord` holds, as plain values.
pub struct PointRecordView {
    pub id: int,
    pub student_id: int,
    pub points: int,
    pub reason: Seq<char>,
    pub timestamp: Seq<char>,
    pub operator: Seq<char>,
}

impl View for PointRecord {
    type V = PointRecordView;

    open spec fn view(&self) -> PointRecordView {
        PointRecordView {
            id: self.id as int,
            student_id: self.student_id as int,
            points: self.points as int,
            reason: self.reason@,
            timestamp: self.timestamp@,
            operator: self.operator@,
        }
    }
}

impl Clone for PointRecord {
    fn clone(&self) -> (copy: PointRecord)
        ensures
            copy == *self,
    {
        PointRecord {
            id: self.id,
            student_id: self.student_id,
            points: self.points,
            reason: self.reason.clone(),
            timestamp: self.timestamp.clone(),
            operator: self.operator.clone(),
        }
    }
}

/// One line of the ranking: a student's place, total and change of today.
#[derive(Debug, PartialEq, Eq)]
pub struct RankingItem {
    pub rank: i64,
    pub student_id: i64,
    pub name: String,
    pub class: String,
    pub total_points: i64,
    pub today_change: i64,
}

/// What a `RankingItem` holds, as plain values.
pub struct RankingItemView {
    pub rank: int,
    pub student_id: int,
    pub name: Seq<char>,
    pub class: Seq<char>,
    pub total_points: int,
    pub today_change: int,
}

impl View for RankingItem {
    type V = RankingItemView;

    open spec fn view(&self) -> RankingItemView {
        RankingItemView {
            rank: self.rank as int,
            student_id: self.student_id as int,
            name: self.name@,
            class: self.class@,
            total_points: self.total_points as int,
            today_change: self.today_change as int,
        }
    }
}

impl Clone for RankingItem {
    fn clone(&self) -> (copy: RankingItem)
        ensures
            copy == *self,
    {
        RankingItem {
            rank: self.rank,
            student_id: self.student_id,
            name: self.name.clone(),
            class: self.class.clone(),
            total_points: self.total_points,
            today_change: self.today_change,
        }
    }
}

/// The appearance settings of the application.
#[derive(Debug, PartialEq, Eq)]
pub struct Settings {
    pub theme: String,
    pub custom_background: String,
}

/// What `Settings` holds, as plain values.
pub struct SettingsView {
    pub theme: Seq<char>,
    pub custom_background: Seq<char>,
}

impl View for Settings {
    type V = SettingsView;

    open spec fn view(&self) -> SettingsView {
        SettingsView { theme: self.theme@, custom_background: self.custom_background@ }
    }
}

impl Clone for Settings {
    fn clone(&self) -> (copy: Settings)
        ensures
            copy == *self,
    {
        Settings { theme: self.theme.clone(), custom_background: self.custom_background.clone() }
    }
}

/// The views of a run of students, in the same order.
pub open spec fn student_views(rows: Seq<Student>) -> Seq<StudentView> {
    Seq::new(rows.len(), |i: int| rows[i]@)
}

/// The views of a run of point records, in the same order.
pub open spec fn record_views(rows: Seq<PointRecord>) -> Seq<PointRecordView> {
    Seq::new(rows.len(), |i: int| rows[i]@)
}

/// The views of a run of ranking lines, in the same order.
pub open spec fn ranking_views(rows: Seq<RankingItem>) -> Seq<RankingItemView> {
    Seq::new(rows.len(), |i: int| rows[i]@)
}

} // verus!
