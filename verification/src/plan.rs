//! The commands as plans for a storage engine that speaks SQL and lives
//! outside this library. The library decides what is asked of the engine and
//! in which order; the caller asks it, and reports what the engine answered.

use crate::defaults::{sample, sample_student, BACKGROUND_KEY, DEFAULT_THEME, SAMPLE_COUNT, THEME_KEY};
use crate::error::{failure, ErrorKind, LedgerError, LedgerErrorView};
use crate::validate::{award_fault, check_award, check_student, student_fault};
use vstd::prelude::*;
use vstd::string::StringExecFns;

verus! {

/// Creates the students table unless it is there.
pub const SQL_CREATE_STUDENTS: &'static str =
    "CREATE TABLE IF NOT EXISTS students (id INTEGER PRIMARY KEY AUTOINCREMENT, name TEXT NOT NULL, class TEXT NOT NULL, total_points INTEGER DEFAULT 0, created_at TIMESTAMP DEFAULT CURRENT_TIMESTAMP, updated_at TIMESTAMP DEFAULT CURRENT_TIMESTAMP)";

/// Creates the point records table unless it is there.
pub const SQL_CREATE_POINT_RECORDS: &'static str =
    "CREATE TABLE IF NOT EXISTS point_records (id INTEGER PRIMARY KEY AUTOINCREMENT, student_id INTEGER NOT NULL, points INTEGER NOT NULL, reason TEXT NOT NULL, timestamp TIMESTAMP DEFAULT CURRENT_TIMESTAMP, operator TEXT NOT NULL, FOREIGN KEY (student_id) REFERENCES students(id))";

/// Creates the settings table unless it is there.
pub const SQL_CREATE_SETTINGS: &'static str =
    "CREATE TABLE IF NOT EXISTS settings (key TEXT PRIMARY KEY, value TEXT NOT NULL, updated_at TIMESTAMP DEFAULT CURRENT_TIMESTAMP)";

/// Creates the backups table unless it is there.
pub const SQL_CREATE_BACKUPS: &'static str =
    "CREATE TABLE IF NOT EXISTS backups (id INTEGER PRIMARY KEY AUTOINCREMENT, filename TEXT NOT NULL, size INTEGER NOT NULL, created_at TIMESTAMP DEFAULT CURRENT_TIMESTAMP, hash TEXT NOT NULL)";

/// Counts the settings rows that hold the theme.
pub const SQL_COUNT_THEME: &'static str = "SELECT COUNT(*) FROM settings WHERE key = 'theme'";

/// Inserts a settings row; binds the key and the value.
pub const SQL_INSERT_SETTING: &'static str = "INSERT INTO settings (key, value) VALUES (?, ?)";

/// Counts the students.
pub const SQL_COUNT_STUDENTS: &'static str = "SELECT COUNT(*) FROM students";

/// Inserts a student; binds the name and the class.
pub const SQL_INSERT_SAMPLE: &'static str = "INSERT INTO students (name, class) VALUES (?, ?)";

/// Reads every student, by name.
pub const SQL_SELECT_STUDENTS: &'static str =
    "SELECT id, name, class, total_points, datetime(created_at, 'localtime') as created_at, datetime(updated_at, 'localtime') as updated_at FROM students ORDER BY name ASC";

/// Inserts a student and reads the new row; binds the name and the class.
pub const SQL_INSERT_STUDENT: &'static str =
    "INSERT INTO students (name, class) VALUES (?, ?) RETURNING id, name, class, total_points, datetime(created_at, 'localtime') as created_at, datetime(updated_at, 'localtime') as updated_at";

/// Renames a student and reads the changed row; binds the name, the class
/// and the id.
pub const SQL_UPDATE_STUDENT: &'static str =
    "UPDATE students SET name = ?, class = ?, updated_at = CURRENT_TIMESTAMP WHERE id = ? RETURNING id, name, class, total_points, datetime(created_at, 'localtime') as created_at, datetime(updated_at, 'localtime') as updated_at";

/// Deletes the point records of a student; binds the student's id.
pub const SQL_DELETE_POINT_RECORDS: &'static str = "DELETE FROM point_records WHERE student_id = ?";

/// Deletes a student; binds the id.
pub const SQL_DELETE_STUDENT: &'static str = "DELETE FROM students WHERE id = ?";

/// Inserts a point record and reads the new row; binds the student's id, the
/// points, the reason and the operator.
pub const SQL_INSERT_POINT_RECORD: &'static str =
    "INSERT INTO point_records (student_id, points, reason, operator) VALUES (?, ?, ?, ?) RETURNING id, student_id, points, reason, datetime(timestamp, 'localtime') as timestamp, operator";

/// Raises a student's total in one statement; binds the points and the id.
pub const SQL_ADD_TO_TOTAL: &'static str =
    "UPDATE students SET total_points = total_points + ?, updated_at = CURRENT_TIMESTAMP WHERE id = ?";

/// Reads the point records of a student, newest first; binds the student's id.
pub const SQL_SELECT_POINT_RECORDS_OF: &'static str =
    "SELECT id, student_id, points, reason, datetime(timestamp, 'localtime') as timestamp, operator FROM point_records WHERE student_id = ? ORDER BY timestamp DESC";

/// Reads every point record, newest first.
pub const SQL_SELECT_POINT_RECORDS: &'static str =
    "SELECT id, student_id, points, reason, datetime(timestamp, 'localtime') as timestamp, operator FROM point_records ORDER BY timestamp DESC";

/// Reads the value of a setting, if it is stored; binds the key.
pub const SQL_SELECT_SETTING: &'static str = "SELECT value FROM settings WHERE key = ? LIMIT 1";

/// Stores a setting, in the row that has the key or in a new one; binds the
/// key and the value.
pub const SQL_STORE_SETTING: &'static str =
    "INSERT INTO settings (key, value) VALUES (?, ?) ON CONFLICT(key) DO UPDATE SET value = excluded.value, updated_at = CURRENT_TIMESTAMP";

/// What a command is, without its inputs.
#[derive(Clone, Copy, Debug, PartialEq, Eq, Structural)]
pub enum Operation {
    Migrate,
    GetStudents,
    AddStudent,
    UpdateStudent,
    DeleteStudent,
    AddPointRecord,
    GetPointRecords,
    GetAllPointRecords,
    GetRanking,
    GetSettings,
    UpdateSettings,
}

/// One statement that the engine is asked to run.
#[derive(Clone, Copy, Debug, PartialEq, Eq, Structural)]
pub enum Statement {
    CreateStudents,
    CreatePointRecords,
    CreateSettings,
    CreateBackups,
    CountTheme,
    InsertDefaultTheme,
    CountStudents,
    InsertSample(usize),
    SelectStudents,
    InsertStudent,
    UpdateStudent,
    DeletePointRecordsOf,
    DeleteStudent,
    InsertPointRecord,
    AddToTotal,
    SelectPointRecordsOf,
    SelectPointRecords,
    SelectTheme,
    SelectBackground,
    StoreTheme,
    StoreBackground,
}

/// The SQL text of a statement.
pub open spec fn sql_text(statement: Statement) -> Seq<char> {
    match statement {
        Statement::CreateStudents => SQL_CREATE_STUDENTS@,
        Statement::CreatePointRecords => SQL_CREATE_POINT_RECORDS@,
        Statement::CreateSettings => SQL_CREATE_SETTINGS@,
        Statement::CreateBackups => SQL_CREATE_BACKUPS@,
        Statement::CountTheme => SQL_COUNT_THEME@,
        Statement::InsertDefaultTheme => SQL_INSERT_SETTING@,
        Statement::CountStudents => SQL_COUNT_STUDENTS@,
        Statement::InsertSample(_) => SQL_INSERT_SAMPLE@,
        Statement::SelectStudents => SQL_SELECT_STUDENTS@,
        Statement::InsertStudent => SQL_INSERT_STUDENT@,
        Statement::UpdateStudent => SQL_UPDATE_STUDENT@,
        Statement::DeletePointRecordsOf => SQL_DELETE_POINT_RECORDS@,
        Statement::DeleteStudent => SQL_DELETE_STUDENT@,
        Statement::InsertPointRecord => SQL_INSERT_POINT_RECORD@,
        Statement::AddToTotal => SQL_ADD_TO_TOTAL@,
        Statement::SelectPointRecordsOf => SQL_SELECT_POINT_RECORDS_OF@,
        Statement::SelectPointRecords => SQL_SELECT_POINT_RECORDS@,
        Statement::SelectTheme => SQL_SELECT_SETTING@,
        Statement::SelectBackground => SQL_SELECT_SETTING@,
        Statement::StoreTheme => SQL_STORE_SETTING@,
        Statement::StoreBackground => SQL_STORE_SETTING@,
    }
}

/// The SQL text of a statement.
pub fn sql(statement: Statement) -> (text: &'static str)
    ensures
        text@ == sql_text(statement),
{
    match statement {
        Statement::CreateStudents => SQL_CREATE_STUDENTS,
        Statement::CreatePointRecords => SQL_CREATE_POINT_RECORDS,
        Statement::CreateSettings => SQL_CREATE_SETTINGS,
        Statement::CreateBackups => SQL_CREATE_BACKUPS,
        Statement::CountTheme => SQL_COUNT_THEME,
        Statement::InsertDefaultTheme => SQL_INSERT_SETTING,
        Statement::CountStudents => SQL_COUNT_STUDENTS,
        Statement::InsertSample(_) => SQL_INSERT_SAMPLE,
        Statement::SelectStudents => SQL_SELECT_STUDENTS,
        Statement::InsertStudent => SQL_INSERT_STUDENT,
        Statement::UpdateStudent => SQL_UPDATE_STUDENT,
        Statement::DeletePointRecordsOf => SQL_DELETE_POINT_RECORDS,
        Statement::DeleteStudent => SQL_DELETE_STUDENT,
        Statement::InsertPointRecord => SQL_INSERT_POINT_RECORD,
        Statement::AddToTotal => SQL_ADD_TO_TOTAL,
        Statement::SelectPointRecordsOf => SQL_SELECT_POINT_RECORDS_OF,
        Statement::SelectPointRecords => SQL_SELECT_POINT_RECORDS,
        Statement::SelectTheme => SQL_SELECT_SETTING,
        Statement::SelectBackground => SQL_SELECT_SETTING,
        Statement::StoreTheme => SQL_STORE_SETTING,
        Statement::StoreBackground => SQL_STORE_SETTING,
    }
}

/// What the engine hands back for a statement.
#[derive(Clone, Copy, Debug, PartialEq, Eq, Structural)]
pub enum Shape {
    /// Nothing.
    Nothing,
    /// One count, or none.
    Count,
    /// One text, or none.
    Text,
    /// Rows of students.
    Students,
    /// Rows of point records.
    PointRecords,
}

/// What the engine hands back for a statement.
pub open spec fn shape_of(statement: Statement) -> Shape {
    match statement {
        Statement::CountTheme => Shape::Count,
        Statement::CountStudents => Shape::Count,
        Statement::SelectTheme => Shape::Text,
        Statement::SelectBackground => Shape::Text,
        Statement::SelectStudents => Shape::Students,
        Statement::InsertStudent => Shape::Students,
        Statement::UpdateStudent => Shape::Students,
        Statement::InsertPointRecord => Shape::PointRecords,
        Statement::SelectPointRecordsOf => Shape::PointRecords,
        Statement::SelectPointRecords => Shape::PointRecords,
        _ => Shape::Nothing,
    }
}

/// What the engine hands back for a statement.
pub fn shape(statement: Statement) -> (shape: Shape)
    ensures
        shape == shape_of(statement),
{
    match statement {
        Statement::CountTheme => Shape::Count,
        Statement::CountStudents => Shape::Count,
        Statement::SelectTheme => Shape::Text,
        Statement::SelectBackground => Shape::Text,
        Statement::SelectStudents => Shape::Students,
        Statement::InsertStudent => Shape::Students,
        Statement::UpdateStudent => Shape::Students,
        Statement::InsertPointRecord => Shape::PointRecords,
        Statement::SelectPointRecordsOf => Shape::PointRecords,
        Statement::SelectPointRecords => Shape::PointRecords,
        _ => Shape::Nothing,
    }
}

/// Whether the statement must hand back a row: one that inserts or changes a
/// row and reads it back. Where the engine has no row for it, the answer is
/// `Signal::Missing`.
pub open spec fn needs_row(statement: Statement) -> bool {
    statement == Statement::InsertStudent || statement == Statement::UpdateStudent || statement
        == Statement::InsertPointRecord
}

/// Whether the statement must hand back a row.
pub fn must_return_row(statement: Statement) -> (yes: bool)
    ensures
        yes == needs_row(statement),
{
    match statement {
        Statement::InsertStudent => true,
        Statement::UpdateStudent => true,
        Statement::InsertPointRecord => true,
        _ => false,
    }
}

/// The statements of an operation, in the order in which they are run. Only
/// seeding leaves any out: see `following`.
pub open spec fn script(operation: Operation) -> Seq<Statement> {
    match operation {
        Operation::Migrate => seq![
            Statement::CreateStudents,
            Statement::CreatePointRecords,
            Statement::CreateSettings,
            Statement::CreateBackups,
            Statement::CountTheme,
            Statement::InsertDefaultTheme,
            Statement::CountStudents,
            Statement::InsertSample(0),
            Statement::InsertSample(1),
            Statement::InsertSample(2),
            Statement::InsertSample(3),
            Statement::InsertSample(4),
        ],
        Operation::GetStudents => seq![Statement::SelectStudents],
        Operation::AddStudent => seq![Statement::InsertStudent],
        Operation::UpdateStudent => seq![Statement::UpdateStudent],
        Operation::DeleteStudent => seq![Statement::DeletePointRecordsOf, Statement::DeleteStudent],
        Operation::AddPointRecord => seq![Statement::InsertPointRecord, Statement::AddToTotal],
        Operation::GetPointRecords => seq![Statement::SelectPointRecordsOf],
        Operation::GetAllPointRecords => seq![Statement::SelectPointRecords],
        Operation::GetRanking => seq![Statement::SelectStudents, Statement::SelectPointRecords],
        Operation::GetSettings => seq![Statement::SelectTheme, Statement::SelectBackground],
        Operation::UpdateSettings => seq![Statement::StoreTheme, Statement::StoreBackground],
    }
}

/// Whether the statements of an operation run inside one transaction, so that
/// all of them take effect or none does.
pub open spec fn transactional(operation: Operation) -> bool {
    operation == Operation::AddPointRecord || operation == Operation::DeleteStudent || operation
        == Operation::UpdateSettings
}

/// What the engine answered.
#[derive(Clone, Copy, Debug, PartialEq, Eq, Structural)]
pub enum Signal {
    /// It did what was asked.
    Done,
    /// It counted, and this is the count, if it gave one.
    Count(Option<i64>),
    /// It was asked for a row and found none.
    Missing,
    /// It refused a row that refers to a row that does not exist.
    ForeignKey,
    /// It failed in another way.
    Failed,
}

/// Whether the engine said that it failed.
pub open spec fn is_failure(signal: Signal) -> bool {
    signal == Signal::Missing || signal == Signal::ForeignKey || signal == Signal::Failed
}

/// The count that the engine gave; no count is a count of 0.
pub open spec fn counted(signal: Signal) -> int {
    match signal {
        Signal::Count(Some(n)) => n as int,
        _ => 0,
    }
}

/// Where a plan failed: the words that go before the engine's own.
#[derive(Clone, Copy, Debug, PartialEq, Eq, Structural)]
pub enum Context {
    Begin,
    Run(Statement),
    Commit,
}

/// How far a plan has come.
#[derive(Clone, Copy, Debug, PartialEq, Eq, Structural)]
pub enum Phase {
    /// The engine was asked to begin a transaction.
    Opening,
    /// The engine was asked to run the statement at this place of the script.
    Running(usize),
    /// The engine was asked to commit.
    Closing,
    /// The engine was asked to roll back, after this failure.
    Undoing(ErrorKind, Context),
    /// Nothing is left to ask.
    Finished,
}

/// A plan under way: the operation, and how far it has come.
#[derive(Clone, Copy, Debug, PartialEq, Eq, Structural)]
pub struct Stage {
    pub operation: Operation,
    pub phase: Phase,
}

/// What the caller is to do next.
#[derive(Clone, Copy, Debug, PartialEq, Eq, Structural)]
pub enum Move {
    /// Ask the engine to begin a transaction.
    Begin,
    /// Ask the engine to run this statement.
    Run(Statement),
    /// Ask the engine to commit the transaction.
    Commit,
    /// Ask the engine to roll the transaction back.
    Rollback,
    /// Hand out what the engine returned: the command succeeded.
    Succeed,
    /// Hand out an error of this kind, made with `failure_of`.
    Fail(ErrorKind, Context),
}

/// The place in the script that follows `index`, after the engine answered
/// `signal` there without failing. Seeding leaves out the default theme where
/// a theme was counted, and the sample students where a student was counted.
pub open spec fn following(operation: Operation, index: int, signal: Signal) -> int {
    if operation == Operation::Migrate && index == 4 && counted(signal) != 0 {
        6
    } else if operation == Operation::Migrate && index == 6 && counted(signal) != 0 {
        12
    } else {
        index + 1
    }
}

/// The kind of error that a failure of the statement `statement` makes.
pub open spec fn fault_kind(statement: Statement, signal: Signal) -> ErrorKind {
    if statement == Statement::InsertPointRecord && signal == Signal::ForeignKey {
        ErrorKind::ForeignKeyViolation
    } else if statement == Statement::UpdateStudent && signal == Signal::Missing {
        ErrorKind::NotFound
    } else if statement == Statement::AddToTotal {
        ErrorKind::TransactionFailure
    } else {
        ErrorKind::Storage
    }
}

/// The kind of error that a failed commit makes.
pub open spec fn commit_fault_kind(operation: Operation) -> ErrorKind {
    if operation == Operation::AddPointRecord {
        ErrorKind::TransactionFailure
    } else {
        ErrorKind::Storage
    }
}

impl Stage {
    /// The plan is at a place of its script, or beside it.
    pub open spec fn wf(self) -> bool {
        match self.phase {
            Phase::Opening => transactional(self.operation),
            Phase::Running(index) => index < script(self.operation).len(),
            Phase::Closing => transactional(self.operation),
            Phase::Undoing(_, _) => transactional(self.operation),
            Phase::Finished => true,
        }
    }

    /// Whether nothing is left to ask.
    pub open spec fn finished(self) -> bool {
        self.phase == Phase::Finished
    }

    /// An upper bound on the moves that are left.
    pub open spec fn remaining(self) -> nat {
        match self.phase {
            Phase::Opening => script(self.operation).len() + 3,
            Phase::Running(index) => (script(self.operation).len() - index + 2) as nat,
            Phase::Closing => 2,
            Phase::Undoing(_, _) => 1,
            Phase::Finished => 0,
        }
    }

    /// Whether nothing is left to ask.
    pub fn is_finished(&self) -> (yes: bool)
        ensures
            yes == self.finished(),
    {
        match self.phase {
            Phase::Finished => true,
            _ => false,
        }
    }
}

/// The first stage and move of an operation: a transaction is begun where the
/// operation has one, else the first statement is run.
pub open spec fn first(operation: Operation) -> (Stage, Move) {
    if transactional(operation) {
        (Stage { operation, phase: Phase::Opening }, Move::Begin)
    } else {
        (Stage { operation, phase: Phase::Running(0) }, Move::Run(script(operation)[0]))
    }
}

/// The stage and move that follow the stage `stage` when the engine answers
/// `signal`.
///
/// Outside a transaction a failure ends the plan with the error. Inside one,
/// a failure is followed by a rollback and then by the error, and success is
/// handed out only after the commit succeeded.
pub open spec fn step(stage: Stage, signal: Signal) -> (Stage, Move) {
    let operation = stage.operation;
    let ended = Stage { operation, phase: Phase::Finished };
    match stage.phase {
        Phase::Opening => if is_failure(signal) {
            (ended, Move::Fail(ErrorKind::Storage, Context::Begin))
        } else {
            (Stage { operation, phase: Phase::Running(0) }, Move::Run(script(operation)[0]))
        },
        Phase::Running(index) => {
            let statement = script(operation)[index as int];
            if is_failure(signal) {
                let kind = fault_kind(statement, signal);
                let context = Context::Run(statement);
                if transactional(operation) {
                    (Stage { operation, phase: Phase::Undoing(kind, context) }, Move::Rollback)
                } else {
                    (ended, Move::Fail(kind, context))
                }
            } else {
                let next = following(operation, index as int, signal);
                if next < script(operation).len() {
                    (
                        Stage { operation, phase: Phase::Running(next as usize) },
                        Move::Run(script(operation)[next]),
                    )
                } else if transactional(operation) {
                    (Stage { operation, phase: Phase::Closing }, Move::Commit)
                } else {
                    (ended, Move::Succeed)
                }
            }
        },
        Phase::Closing => if is_failure(signal) {
            (
                Stage {
                    operation,
                    phase: Phase::Undoing(commit_fault_kind(operation), Context::Commit),
                },
                Move::Rollback,
            )
        } else {
            (ended, Move::Succeed)
        },
        Phase::Undoing(kind, context) => (ended, Move::Fail(kind, context)),
        Phase::Finished => (ended, Move::Fail(ErrorKind::Storage, Context::Commit)),
    }
}

/// How many statements the script of an operation has.
pub fn script_len(operation: Operation) -> (len: usize)
    ensures
        len == script(operation).len(),
        len >= 1,
{
    match operation {
        Operation::Migrate => 12,
        Operation::DeleteStudent => 2,
        Operation::AddPointRecord => 2,
        Operation::GetRanking => 2,
        Operation::GetSettings => 2,
        Operation::UpdateSettings => 2,
        _ => 1,
    }
}

/// The statement at the place `index` of the script of an operation.
pub fn statement_at(operation: Operation, index: usize) -> (statement: Statement)
    requires
        index < script(operation).len(),
    ensures
        statement == script(operation)[index as int],
{
    match operation {
        Operation::Migrate => {
            if index == 0 {
                Statement::CreateStudents
            } else if index == 1 {
                Statement::CreatePointRecords
            } else if index == 2 {
                Statement::CreateSettings
            } else if index == 3 {
                Statement::CreateBackups
            } else if index == 4 {
                Statement::CountTheme
            } else if index == 5 {
                Statement::InsertDefaultTheme
            } else if index == 6 {
                Statement::CountStudents
            } else {
                Statement::InsertSample(index - 7)
            }
        },
        Operation::GetStudents => Statement::SelectStudents,
        Operation::AddStudent => Statement::InsertStudent,
        Operation::UpdateStudent => Statement::UpdateStudent,
        Operation::DeleteStudent => {
            if index == 0 {
                Statement::DeletePointRecordsOf
            } else {
                Statement::DeleteStudent
            }
        },
        Operation::AddPointRecord => {
            if index == 0 {
                Statement::InsertPointRecord
            } else {
                Statement::AddToTotal
            }
        },
        Operation::GetPointRecords => Statement::SelectPointRecordsOf,
        Operation::GetAllPointRecords => Statement::SelectPointRecords,
        Operation::GetRanking => {
            if index == 0 {
                Statement::SelectStudents
            } else {
                Statement::SelectPointRecords
            }
        },
        Operation::GetSettings => {
            if index == 0 {
                Statement::SelectTheme
            } else {
                Statement::SelectBackground
            }
        },
        Operation::UpdateSettings => {
            if index == 0 {
                Statement::StoreTheme
            } else {
                Statement::StoreBackground
            }
        },
    }
}

/// Whether the statements of an operation run inside one transaction.
pub fn in_transaction(operation: Operation) -> (yes: bool)
    ensures
        yes == transactional(operation),
{
    match operation {
        Operation::AddPointRecord => true,
        Operation::DeleteStudent => true,
        Operation::UpdateSettings => true,
        _ => false,
    }
}

/// Starts the plan of an operation.
pub fn start(operation: Operation) -> (begun: (Stage, Move))
    ensures
        begun == first(operation),
        begun.0.wf(),
        !begun.0.finished(),
{
    if in_transaction(operation) {
        (Stage { operation, phase: Phase::Opening }, Move::Begin)
    } else {
        (Stage { operation, phase: Phase::Running(0) }, Move::Run(statement_at(operation, 0)))
    }
}

/// Takes a plan one move further, after the engine answered `signal` to the
/// move before. Every move brings the plan nearer to its end.
pub fn advance(stage: Stage, signal: Signal) -> (next: (Stage, Move))
    requires
        stage.wf(),
        !stage.finished(),
    ensures
        next == step(stage, signal),
        next.0.wf(),
        next.0.remaining() < stage.remaining(),
        next.0.finished() <==> (next.1 == Move::Succeed || next.1 is Fail),
{
    let operation = stage.operation;
    let ended = Stage { operation, phase: Phase::Finished };
    let failed = match signal {
        Signal::Missing => true,
        Signal::ForeignKey => true,
        Signal::Failed => true,
        _ => false,
    };
    match stage.phase {
        Phase::Opening => {
            if failed {
                (ended, Move::Fail(ErrorKind::Storage, Context::Begin))
            } else {
                (Stage { operation, phase: Phase::Running(0) }, Move::Run(statement_at(operation, 0)))
            }
        },
        Phase::Running(index) => {
            let statement = statement_at(operation, index);
            if failed {
                let kind = fault_kind_of(statement, signal);
                if in_transaction(operation) {
                    (
                        Stage { operation, phase: Phase::Undoing(kind, Context::Run(statement)) },
                        Move::Rollback,
                    )
                } else {
                    (ended, Move::Fail(kind, Context::Run(statement)))
                }
            } else {
                let count: i64 = match signal {
                    Signal::Count(Some(n)) => n,
                    _ => 0,
                };
                let at_theme = match operation {
                    Operation::Migrate => index == 4,
                    _ => false,
                };
                let at_students = match operation {
                    Operation::Migrate => index == 6,
                    _ => false,
                };
                let next: usize = if at_theme && count != 0 {
                    6
                } else if at_students && count != 0 {
                    12
                } else {
                    index + 1
                };
                if next < script_len(operation) {
                    (
                        Stage { operation, phase: Phase::Running(next) },
                        Move::Run(statement_at(operation, next)),
                    )
                } else if in_transaction(operation) {
                    (Stage { operation, phase: Phase::Closing }, Move::Commit)
                } else {
                    (ended, Move::Succeed)
                }
            }
        },
        Phase::Closing => {
            if failed {
                let kind = match operation {
                    Operation::AddPointRecord => ErrorKind::TransactionFailure,
                    _ => ErrorKind::Storage,
                };
                (Stage { operation, phase: Phase::Undoing(kind, Context::Commit) }, Move::Rollback)
            } else {
                (ended, Move::Succeed)
            }
        },
        Phase::Undoing(kind, context) => (ended, Move::Fail(kind, context)),
        Phase::Finished => (ended, Move::Fail(ErrorKind::Storage, Context::Commit)),
    }
}

/// The kind of error that a failure of the statement `statement` makes.
fn fault_kind_of(statement: Statement, signal: Signal) -> (kind: ErrorKind)
    ensures
        kind == fault_kind(statement, signal),
{
    match (statement, signal) {
        (Statement::InsertPointRecord, Signal::ForeignKey) => ErrorKind::ForeignKeyViolation,
        (Statement::UpdateStudent, Signal::Missing) => ErrorKind::NotFound,
        (Statement::AddToTotal, _) => ErrorKind::TransactionFailure,
        _ => ErrorKind::Storage,
    }
}

/// All or nothing: inside a transaction, a statement that fails is followed
/// by a rollback, and what follows the rollback is the error, whatever the
/// engine says of the rollback. So no statement of a failed transaction takes
/// effect.
pub proof fn law_failure_rolls_back(stage: Stage, signal: Signal, after: Signal)
    requires
        stage.wf(),
        transactional(stage.operation),
        stage.phase is Running || stage.phase is Closing,
        is_failure(signal),
    ensures
        step(stage, signal).1 == Move::Rollback,
        step(step(stage, signal).0, after).1 is Fail,
        step(step(stage, signal).0, after).0.finished(),
{
}

/// Success only after the commit: a plan with a transaction hands out success
/// only when the engine has answered the commit without failing, and it asks
/// for the commit only when the last statement of the script has succeeded.
pub proof fn law_success_follows_commit(stage: Stage, signal: Signal)
    requires
        stage.wf(),
        !stage.finished(),
        transactional(stage.operation),
    ensures
        step(stage, signal).1 == Move::Succeed ==> stage.phase == Phase::Closing && !is_failure(
            signal,
        ),
        step(stage, signal).1 == Move::Commit ==> stage.phase == Phase::Running(
            (script(stage.operation).len() - 1) as usize,
        ) && !is_failure(signal),
{
}

/// One statement for the total: the ledger transaction inserts the record and
/// then raises the total by an increment that the engine applies in a single
/// statement; the plan holds no statement that writes a total it has read.
pub proof fn law_ledger_transaction_order()
    ensures
        first(Operation::AddPointRecord).1 == Move::Begin,
        step(first(Operation::AddPointRecord).0, Signal::Done).1 == Move::Run(
            Statement::InsertPointRecord,
        ),
        step(step(first(Operation::AddPointRecord).0, Signal::Done).0, Signal::Done).1 == Move::Run(
            Statement::AddToTotal,
        ),
        step(
            step(step(first(Operation::AddPointRecord).0, Signal::Done).0, Signal::Done).0,
            Signal::Done,
        ).1 == Move::Commit,
{
}

/// The words that go before the engine's own in an error.
pub open spec fn context_text(context: Context) -> Seq<char> {
    match context {
        Context::Begin => "Failed to begin transaction: "@,
        Context::Commit => "Failed to commit transaction: "@,
        Context::Run(statement) => match statement {
            Statement::SelectStudents => "Failed to get students: "@,
            Statement::InsertStudent => "Failed to add student: "@,
            Statement::UpdateStudent => "Failed to update student: "@,
            Statement::DeletePointRecordsOf => "Failed to delete student records: "@,
            Statement::DeleteStudent => "Failed to delete student: "@,
            Statement::InsertPointRecord => "Failed to add point record: "@,
            Statement::AddToTotal => "Failed to update student points: "@,
            Statement::SelectPointRecordsOf => "Failed to get point records: "@,
            Statement::SelectPointRecords => "Failed to get point records: "@,
            Statement::SelectTheme => "Failed to get settings: "@,
            Statement::SelectBackground => "Failed to get settings: "@,
            Statement::StoreTheme => "Failed to update settings: "@,
            Statement::StoreBackground => "Failed to update settings: "@,
            _ => "Failed to initialize database: "@,
        },
    }
}

/// The error that a failed plan hands out: of the kind that the plan names,
/// with the engine's own words after those of the place where it failed.
pub fn failure_of(kind: ErrorKind, context: Context, cause: &str) -> (e: LedgerError)
    ensures
        e@ == failure(kind, context_text(context) + cause@),
{
    let words = match context {
        Context::Begin => "Failed to begin transaction: ",
        Context::Commit => "Failed to commit transaction: ",
        Context::Run(statement) => match statement {
            Statement::SelectStudents => "Failed to get students: ",
            Statement::InsertStudent => "Failed to add student: ",
            Statement::UpdateStudent => "Failed to update student: ",
            Statement::DeletePointRecordsOf => "Failed to delete student records: ",
            Statement::DeleteStudent => "Failed to delete student: ",
            Statement::InsertPointRecord => "Failed to add point record: ",
            Statement::AddToTotal => "Failed to update student points: ",
            Statement::SelectPointRecordsOf => "Failed to get point records: ",
            Statement::SelectPointRecords => "Failed to get point records: ",
            Statement::SelectTheme => "Failed to get settings: ",
            Statement::SelectBackground => "Failed to get settings: ",
            Statement::StoreTheme => "Failed to update settings: ",
            Statement::StoreBackground => "Failed to update settings: ",
            _ => "Failed to initialize database: ",
        },
    };
    LedgerError::with_cause(kind, words, cause)
}

/// A value bound to a place of a statement.
#[derive(Debug, PartialEq, Eq)]
pub enum Value {
    Int(i64),
    Text(String),
}

/// What a `Value` holds, as a plain value.
pub enum ValueView {
    Int(int),
    Text(Seq<char>),
}

impl View for Value {
    type V = ValueView;

    open spec fn view(&self) -> ValueView {
        match self {
            Value::Int(n) => ValueView::Int(*n as int),
            Value::Text(text) => ValueView::Text(text@),
        }
    }
}

/// The views of a run of values, in the same order.
pub open spec fn value_views(values: Seq<Value>) -> Seq<ValueView> {
    Seq::new(values.len(), |i: int| values[i]@)
}

/// A command with its inputs.
#[derive(Debug, PartialEq, Eq)]
pub enum Command {
    Migrate,
    GetStudents,
    AddStudent { name: String, class: String },
    UpdateStudent { id: i64, name: String, class: String },
    DeleteStudent { id: i64 },
    AddPointRecord { student_id: i64, points: i64, reason: String, operator: String },
    GetPointRecords { owner: Option<i64> },
    GetRanking,
    GetSettings,
    UpdateSettings { theme: String, custom_background: String },
}

/// What a `Command` holds, as plain values.
pub enum CommandView {
    Migrate,
    GetStudents,
    AddStudent { name: Seq<char>, class: Seq<char> },
    UpdateStudent { id: int, name: Seq<char>, class: Seq<char> },
    DeleteStudent { id: int },
    AddPointRecord { student_id: int, points: int, reason: Seq<char>, operator: Seq<char> },
    GetPointRecords { owner: Option<int> },
    GetRanking,
    GetSettings,
    UpdateSettings { theme: Seq<char>, custom_background: Seq<char> },
}

impl View for Command {
    type V = CommandView;

    open spec fn view(&self) -> CommandView {
        match self {
            Command::Migrate => CommandView::Migrate,
            Command::GetStudents => CommandView::GetStudents,
            Command::AddStudent { name, class } => CommandView::AddStudent {
                name: name@,
                class: class@,
            },
            Command::UpdateStudent { id, name, class } => CommandView::UpdateStudent {
                id: *id as int,
                name: name@,
                class: class@,
            },
            Command::DeleteStudent { id } => CommandView::DeleteStudent { id: *id as int },
            Command::AddPointRecord {
                student_id,
                points,
                reason,
                operator,
            } => CommandView::AddPointRecord {
                student_id: *student_id as int,
                points: *points as int,
                reason: reason@,
                operator: operator@,
            },
            Command::GetPointRecords { owner } => CommandView::GetPointRecords {
                owner: match owner {
                    Some(id) => Some(*id as int),
                    None => None,
                },
            },
            Command::GetRanking => CommandView::GetRanking,
            Command::GetSettings => CommandView::GetSettings,
            Command::UpdateSettings { theme, custom_background } => CommandView::UpdateSettings {
                theme: theme@,
                custom_background: custom_background@,
            },
        }
    }
}

/// The operation of a command.
pub open spec fn operation_of(command: CommandView) -> Operation {
    match command {
        CommandView::Migrate => Operation::Migrate,
        CommandView::GetStudents => Operation::GetStudents,
        CommandView::AddStudent { .. } => Operation::AddStudent,
        CommandView::UpdateStudent { .. } => Operation::UpdateStudent,
        CommandView::DeleteStudent { .. } => Operation::DeleteStudent,
        CommandView::AddPointRecord { .. } => Operation::AddPointRecord,
        CommandView::GetPointRecords { owner } => if owner is Some {
            Operation::GetPointRecords
        } else {
            Operation::GetAllPointRecords
        },
        CommandView::GetRanking => Operation::GetRanking,
        CommandView::GetSettings => Operation::GetSettings,
        CommandView::UpdateSettings { .. } => Operation::UpdateSettings,
    }
}

/// What is wrong with the inputs of a command, if anything.
pub open spec fn command_fault(command: CommandView) -> Option<LedgerErrorView> {
    match command {
        CommandView::AddStudent { name, class } => student_fault(name, class),
        CommandView::UpdateStudent { id, name, class } => student_fault(name, class),
        CommandView::AddPointRecord { student_id, points, reason, operator } => award_fault(
            reason,
            operator,
        ),
        _ => None,
    }
}

/// The values that a command binds to the places of a statement, in the
/// order of the places. A statement that takes no part in the command binds
/// nothing.
pub open spec fn bound(command: CommandView, statement: Statement) -> Seq<ValueView> {
    match (command, statement) {
        (CommandView::Migrate, Statement::InsertDefaultTheme) => seq![
            ValueView::Text(THEME_KEY@),
            ValueView::Text(DEFAULT_THEME@),
        ],
        (CommandView::Migrate, Statement::InsertSample(i)) => if i < SAMPLE_COUNT {
            seq![ValueView::Text(sample(i as int).0), ValueView::Text(sample(i as int).1)]
        } else {
            Seq::empty()
        },
        (CommandView::AddStudent { name, class }, Statement::InsertStudent) => seq![
            ValueView::Text(name),
            ValueView::Text(class),
        ],
        (CommandView::UpdateStudent { id, name, class }, Statement::UpdateStudent) => seq![
            ValueView::Text(name),
            ValueView::Text(class),
            ValueView::Int(id),
        ],
        (CommandView::DeleteStudent { id }, Statement::DeletePointRecordsOf) => seq![
            ValueView::Int(id),
        ],
        (CommandView::DeleteStudent { id }, Statement::DeleteStudent) => seq![ValueView::Int(id)],
        (
            CommandView::AddPointRecord { student_id, points, reason, operator },
            Statement::InsertPointRecord,
        ) => seq![
            ValueView::Int(student_id),
            ValueView::Int(points),
            ValueView::Text(reason),
            ValueView::Text(operator),
        ],
        (
            CommandView::AddPointRecord { student_id, points, reason, operator },
            Statement::AddToTotal,
        ) => seq![ValueView::Int(points), ValueView::Int(student_id)],
        (
            CommandView::GetPointRecords { owner: Some(id) },
            Statement::SelectPointRecordsOf,
        ) => seq![ValueView::Int(id)],
        (CommandView::GetSettings, Statement::SelectTheme) => seq![ValueView::Text(THEME_KEY@)],
        (CommandView::GetSettings, Statement::SelectBackground) => seq![
            ValueView::Text(BACKGROUND_KEY@),
        ],
        (CommandView::UpdateSettings { theme, custom_background }, Statement::StoreTheme) => seq![
            ValueView::Text(THEME_KEY@),
            ValueView::Text(theme),
        ],
        (
            CommandView::UpdateSettings { theme, custom_background },
            Statement::StoreBackground,
        ) => seq![ValueView::Text(BACKGROUND_KEY@), ValueView::Text(custom_background)],
        _ => Seq::empty(),
    }
}

impl Command {
    /// The operation of the command.
    pub fn operation(&self) -> (operation: Operation)
        ensures
            operation == operation_of(self@),
    {
        match self {
            Command::Migrate => Operation::Migrate,
            Command::GetStudents => Operation::GetStudents,
            Command::AddStudent { .. } => Operation::AddStudent,
            Command::UpdateStudent { .. } => Operation::UpdateStudent,
            Command::DeleteStudent { .. } => Operation::DeleteStudent,
            Command::AddPointRecord { .. } => Operation::AddPointRecord,
            Command::GetPointRecords { owner } => match owner {
                Some(_) => Operation::GetPointRecords,
                None => Operation::GetAllPointRecords,
            },
            Command::GetRanking => Operation::GetRanking,
            Command::GetSettings => Operation::GetSettings,
            Command::UpdateSettings { .. } => Operation::UpdateSettings,
        }
    }

    /// Checks the inputs and, where nothing is wrong with them, starts the
    /// plan of the command. Nothing is asked of the engine for a command with
    /// an empty name, class, reason or operator.
    pub fn begin(&self) -> (begun: Result<(Stage, Move), LedgerError>)
        ensures
            match begun {
                Ok(pair) => command_fault(self@) is None && pair == first(operation_of(self@))
                    && pair.0.wf() && !pair.0.finished(),
                Err(e) => command_fault(self@) == Some(e@),
            },
    {
        let checked = match self {
            Command::AddStudent { name, class } => check_student(name.as_str(), class.as_str()),
            Command::UpdateStudent { id, name, class } => check_student(
                name.as_str(),
                class.as_str(),
            ),
            Command::AddPointRecord { student_id, points, reason, operator } => check_award(
                reason.as_str(),
                operator.as_str(),
            ),
            _ => Ok(()),
        };
        match checked {
            Err(e) => Err(e),
            Ok(_) => Ok(start(self.operation())),
        }
    }

    /// The values to bind to the places of `statement`, in their order.
    pub fn bindings(&self, statement: Statement) -> (values: Vec<Value>)
        ensures
            value_views(values@) == bound(self@, statement),
    {
        let mut values: Vec<Value> = Vec::new();
        match (self, statement) {
            (Command::Migrate, Statement::InsertDefaultTheme) => {
                values.push(Value::Text(String::from_str(THEME_KEY)));
                values.push(Value::Text(String::from_str(DEFAULT_THEME)));
            },
            (Command::Migrate, Statement::InsertSample(i)) => {
                if i < SAMPLE_COUNT {
                    let pair = sample_student(i);
                    values.push(Value::Text(String::from_str(pair.0)));
                    values.push(Value::Text(String::from_str(pair.1)));
                }
            },
            (Command::AddStudent { name, class }, Statement::InsertStudent) => {
                values.push(Value::Text(name.clone()));
                values.push(Value::Text(class.clone()));
            },
            (Command::UpdateStudent { id, name, class }, Statement::UpdateStudent) => {
                values.push(Value::Text(name.clone()));
                values.push(Value::Text(class.clone()));
                values.push(Value::Int(*id));
            },
            (Command::DeleteStudent { id }, Statement::DeletePointRecordsOf) => {
                values.push(Value::Int(*id));
            },
            (Command::DeleteStudent { id }, Statement::DeleteStudent) => {
                values.push(Value::Int(*id));
            },
            (
                Command::AddPointRecord { student_id, points, reason, operator },
                Statement::InsertPointRecord,
            ) => {
                values.push(Value::Int(*student_id));
                values.push(Value::Int(*points));
                values.push(Value::Text(reason.clone()));
                values.push(Value::Text(operator.clone()));
            },
            (
                Command::AddPointRecord { student_id, points, reason, operator },
                Statement::AddToTotal,
            ) => {
                values.push(Value::Int(*points));
                values.push(Value::Int(*student_id));
            },
            (Command::GetPointRecords { owner: Some(id) }, Statement::SelectPointRecordsOf) => {
                values.push(Value::Int(*id));
            },
            (Command::GetSettings, Statement::SelectTheme) => {
                values.push(Value::Text(String::from_str(THEME_KEY)));
            },
            (Command::GetSettings, Statement::SelectBackground) => {
                values.push(Value::Text(String::from_str(BACKGROUND_KEY)));
            },
            (Command::UpdateSettings { theme, custom_background }, Statement::StoreTheme) => {
                values.push(Value::Text(String::from_str(THEME_KEY)));
                values.push(Value::Text(theme.clone()));
            },
            (Command::UpdateSettings { theme, custom_background }, Statement::StoreBackground) => {
                values.push(Value::Text(String::from_str(BACKGROUND_KEY)));
                values.push(Value::Text(custom_background.clone()));
            },
            _ => {},
        }
        assert(value_views(values@) =~= bound(self@, statement));
        values
    }
}

} // verus!
