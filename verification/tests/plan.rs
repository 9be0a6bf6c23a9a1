use edu_points::error::ErrorKind;
use edu_points::plan::{
    advance, failure_of, in_transaction, must_return_row, script_len, shape, sql, start,
    statement_at, Command, Context, Move, Operation, Phase, Shape, Signal, Stage, Statement, Value,
};

fn text(s: &str) -> Value {
    Value::Text(s.to_string())
}

fn run(operation: Operation, answers: &[Signal]) -> Vec<Move> {
    let (mut stage, first) = start(operation);
    let mut moves = vec![first];
    for answer in answers {
        assert!(!stage.is_finished());
        let (next, made) = advance(stage, *answer);
        stage = next;
        moves.push(made);
    }
    assert!(stage.is_finished());
    moves
}

#[test]
fn ledger_transaction_inserts_then_raises_the_total_then_commits() {
    let moves = run(Operation::AddPointRecord, &[Signal::Done; 4]);
    assert_eq!(
        moves,
        vec![
            Move::Begin,
            Move::Run(Statement::InsertPointRecord),
            Move::Run(Statement::AddToTotal),
            Move::Commit,
            Move::Succeed,
        ]
    );
}

#[test]
fn unknown_student_rolls_the_ledger_transaction_back() {
    let moves = run(Operation::AddPointRecord, &[Signal::Done, Signal::ForeignKey, Signal::Done]);
    assert_eq!(
        moves,
        vec![
            Move::Begin,
            Move::Run(Statement::InsertPointRecord),
            Move::Rollback,
            Move::Fail(ErrorKind::ForeignKeyViolation, Context::Run(Statement::InsertPointRecord)),
        ]
    );
}

#[test]
fn failed_total_update_rolls_the_insert_back() {
    let moves =
        run(Operation::AddPointRecord, &[Signal::Done, Signal::Done, Signal::Failed, Signal::Failed]);
    assert_eq!(
        moves,
        vec![
            Move::Begin,
            Move::Run(Statement::InsertPointRecord),
            Move::Run(Statement::AddToTotal),
            Move::Rollback,
            Move::Fail(ErrorKind::TransactionFailure, Context::Run(Statement::AddToTotal)),
        ]
    );
}

#[test]
fn failed_commit_rolls_back_and_fails() {
    let moves = run(
        Operation::AddPointRecord,
        &[Signal::Done, Signal::Done, Signal::Done, Signal::Failed, Signal::Done],
    );
    assert_eq!(moves[3], Move::Commit);
    assert_eq!(moves[4], Move::Rollback);
    assert_eq!(moves[5], Move::Fail(ErrorKind::TransactionFailure, Context::Commit));
    let moves = run(
        Operation::DeleteStudent,
        &[Signal::Done, Signal::Done, Signal::Done, Signal::Failed, Signal::Done],
    );
    assert_eq!(moves[5], Move::Fail(ErrorKind::Storage, Context::Commit));
}

#[test]
fn failed_begin_asks_nothing_more() {
    let moves = run(Operation::AddPointRecord, &[Signal::Failed]);
    assert_eq!(moves, vec![Move::Begin, Move::Fail(ErrorKind::Storage, Context::Begin)]);
}

#[test]
fn failed_insert_that_is_no_foreign_key_is_a_storage_error() {
    let moves = run(Operation::AddPointRecord, &[Signal::Done, Signal::Failed, Signal::Done]);
    assert_eq!(
        moves[3],
        Move::Fail(ErrorKind::Storage, Context::Run(Statement::InsertPointRecord))
    );
}

#[test]
fn delete_removes_the_records_before_the_student_in_one_transaction() {
    let moves = run(Operation::DeleteStudent, &[Signal::Done; 4]);
    assert_eq!(
        moves,
        vec![
            Move::Begin,
            Move::Run(Statement::DeletePointRecordsOf),
            Move::Run(Statement::DeleteStudent),
            Move::Commit,
            Move::Succeed,
        ]
    );
    let moves =
        run(Operation::DeleteStudent, &[Signal::Done, Signal::Done, Signal::Failed, Signal::Done]);
    assert_eq!(moves[3], Move::Rollback);
    assert_eq!(moves[4], Move::Fail(ErrorKind::Storage, Context::Run(Statement::DeleteStudent)));
}

#[test]
fn update_of_a_missing_row_is_not_found() {
    let moves = run(Operation::UpdateStudent, &[Signal::Missing]);
    assert_eq!(
        moves,
        vec![
            Move::Run(Statement::UpdateStudent),
            Move::Fail(ErrorKind::NotFound, Context::Run(Statement::UpdateStudent)),
        ]
    );
    let moves = run(Operation::UpdateStudent, &[Signal::Failed]);
    assert_eq!(moves[1], Move::Fail(ErrorKind::Storage, Context::Run(Statement::UpdateStudent)));
    let moves = run(Operation::UpdateStudent, &[Signal::Done]);
    assert_eq!(moves[1], Move::Succeed);
}

#[test]
fn single_statement_commands_run_one_statement() {
    assert_eq!(
        run(Operation::GetStudents, &[Signal::Done]),
        vec![Move::Run(Statement::SelectStudents), Move::Succeed]
    );
    assert_eq!(
        run(Operation::AddStudent, &[Signal::Done]),
        vec![Move::Run(Statement::InsertStudent), Move::Succeed]
    );
    assert_eq!(
        run(Operation::GetPointRecords, &[Signal::Done]),
        vec![Move::Run(Statement::SelectPointRecordsOf), Move::Succeed]
    );
    assert_eq!(
        run(Operation::GetAllPointRecords, &[Signal::Done]),
        vec![Move::Run(Statement::SelectPointRecords), Move::Succeed]
    );
    assert_eq!(
        run(Operation::GetSettings, &[Signal::Failed]),
        vec![
            Move::Run(Statement::SelectTheme),
            Move::Fail(ErrorKind::Storage, Context::Run(Statement::SelectTheme)),
        ]
    );
    assert_eq!(
        run(Operation::GetRanking, &[Signal::Done, Signal::Done]),
        vec![
            Move::Run(Statement::SelectStudents),
            Move::Run(Statement::SelectPointRecords),
            Move::Succeed,
        ]
    );
}

#[test]
fn seeding_a_fresh_store_inserts_the_theme_and_five_students() {
    let mut answers = vec![Signal::Done; 4];
    answers.push(Signal::Count(Some(0)));
    answers.push(Signal::Done);
    answers.push(Signal::Count(Some(0)));
    answers.extend([Signal::Done; 5]);
    let moves = run(Operation::Migrate, &answers);
    assert_eq!(
        moves,
        vec![
            Move::Run(Statement::CreateStudents),
            Move::Run(Statement::CreatePointRecords),
            Move::Run(Statement::CreateSettings),
            Move::Run(Statement::CreateBackups),
            Move::Run(Statement::CountTheme),
            Move::Run(Statement::InsertDefaultTheme),
            Move::Run(Statement::CountStudents),
            Move::Run(Statement::InsertSample(0)),
            Move::Run(Statement::InsertSample(1)),
            Move::Run(Statement::InsertSample(2)),
            Move::Run(Statement::InsertSample(3)),
            Move::Run(Statement::InsertSample(4)),
            Move::Succeed,
        ]
    );
}

#[test]
fn seeding_a_seeded_store_inserts_nothing() {
    let mut answers = vec![Signal::Done; 4];
    answers.push(Signal::Count(Some(1)));
    answers.push(Signal::Count(Some(5)));
    let moves = run(Operation::Migrate, &answers);
    assert_eq!(
        moves[4..],
        [Move::Run(Statement::CountTheme), Move::Run(Statement::CountStudents), Move::Succeed]
    );
    assert!(!moves.contains(&Move::Run(Statement::InsertDefaultTheme)));
    assert!(!moves.contains(&Move::Run(Statement::InsertSample(0))));
}

#[test]
fn seeding_takes_no_count_for_a_count_of_nothing() {
    let mut answers = vec![Signal::Done; 4];
    answers.push(Signal::Count(None));
    answers.push(Signal::Done);
    answers.push(Signal::Count(Some(3)));
    let moves = run(Operation::Migrate, &answers);
    assert_eq!(moves[5], Move::Run(Statement::InsertDefaultTheme));
    assert_eq!(moves[6], Move::Run(Statement::CountStudents));
    assert_eq!(moves[7], Move::Succeed);
}

#[test]
fn seeding_stops_at_the_first_failure() {
    let moves = run(Operation::Migrate, &[Signal::Done, Signal::Failed]);
    assert_eq!(
        moves[2],
        Move::Fail(ErrorKind::Storage, Context::Run(Statement::CreatePointRecords))
    );
}

#[test]
fn scripts_have_the_statements_in_order() {
    assert_eq!(script_len(Operation::Migrate), 12);
    assert_eq!(script_len(Operation::AddPointRecord), 2);
    assert_eq!(script_len(Operation::GetStudents), 1);
    assert_eq!(statement_at(Operation::Migrate, 11), Statement::InsertSample(4));
    assert_eq!(statement_at(Operation::UpdateSettings, 0), Statement::StoreTheme);
    assert_eq!(statement_at(Operation::UpdateSettings, 1), Statement::StoreBackground);
    assert!(in_transaction(Operation::AddPointRecord));
    assert!(in_transaction(Operation::DeleteStudent));
    assert!(in_transaction(Operation::UpdateSettings));
    assert!(!in_transaction(Operation::Migrate));
    assert!(!in_transaction(Operation::GetStudents));
    let (stage, _) = start(Operation::GetStudents);
    assert_eq!(stage, Stage { operation: Operation::GetStudents, phase: Phase::Running(0) });
}

#[test]
fn the_total_is_raised_by_one_statement() {
    assert_eq!(
        sql(Statement::AddToTotal),
        "UPDATE students SET total_points = total_points + ?, updated_at = CURRENT_TIMESTAMP WHERE id = ?"
    );
    assert_eq!(sql(Statement::DeleteStudent), "DELETE FROM students WHERE id = ?");
    assert_eq!(sql(Statement::CountStudents), "SELECT COUNT(*) FROM students");
    assert!(sql(Statement::SelectStudents).ends_with("ORDER BY name ASC"));
    assert!(sql(Statement::SelectPointRecords).ends_with("ORDER BY timestamp DESC"));
    assert!(sql(Statement::SelectPointRecordsOf).contains("WHERE student_id = ?"));
    assert!(sql(Statement::CreateStudents).starts_with("CREATE TABLE IF NOT EXISTS students"));
    assert!(sql(Statement::CreateBackups).starts_with("CREATE TABLE IF NOT EXISTS backups"));
    assert_eq!(sql(Statement::InsertSample(3)), sql(Statement::InsertSample(0)));
}

#[test]
fn commands_bind_their_inputs_in_the_order_of_the_places() {
    let award = Command::AddPointRecord {
        student_id: 7,
        points: -2,
        reason: "late".to_string(),
        operator: "teacher1".to_string(),
    };
    assert_eq!(award.operation(), Operation::AddPointRecord);
    assert_eq!(
        award.bindings(Statement::InsertPointRecord),
        vec![Value::Int(7), Value::Int(-2), text("late"), text("teacher1")]
    );
    assert_eq!(award.bindings(Statement::AddToTotal), vec![Value::Int(-2), Value::Int(7)]);
    assert!(award.bindings(Statement::DeleteStudent).is_empty());
    let update = Command::UpdateStudent { id: 3, name: "Ann".to_string(), class: "2A".to_string() };
    assert_eq!(
        update.bindings(Statement::UpdateStudent),
        vec![text("Ann"), text("2A"), Value::Int(3)]
    );
    let delete = Command::DeleteStudent { id: 4 };
    assert_eq!(delete.bindings(Statement::DeletePointRecordsOf), vec![Value::Int(4)]);
    assert_eq!(delete.bindings(Statement::DeleteStudent), vec![Value::Int(4)]);
    let add = Command::AddStudent { name: "Ann".to_string(), class: "2A".to_string() };
    assert_eq!(add.bindings(Statement::InsertStudent), vec![text("Ann"), text("2A")]);
    let of = Command::GetPointRecords { owner: Some(9) };
    assert_eq!(of.operation(), Operation::GetPointRecords);
    assert_eq!(of.bindings(Statement::SelectPointRecordsOf), vec![Value::Int(9)]);
    let all = Command::GetPointRecords { owner: None };
    assert_eq!(all.operation(), Operation::GetAllPointRecords);
    assert!(all.bindings(Statement::SelectPointRecords).is_empty());
    let settings =
        Command::UpdateSettings { theme: "dark".to_string(), custom_background: "#000".to_string() };
    assert_eq!(settings.bindings(Statement::StoreTheme), vec![text("theme"), text("dark")]);
    assert_eq!(
        settings.bindings(Statement::StoreBackground),
        vec![text("custom_background"), text("#000")]
    );
}

#[test]
fn seeding_binds_the_default_theme_and_the_samples() {
    let migrate = Command::Migrate;
    assert_eq!(migrate.bindings(Statement::InsertDefaultTheme), vec![text("theme"), text("light")]);
    assert_eq!(migrate.bindings(Statement::InsertSample(0)), vec![text("张三"), text("一年级1班")]);
    assert_eq!(migrate.bindings(Statement::InsertSample(1)), vec![text("李四"), text("一年级1班")]);
    assert_eq!(migrate.bindings(Statement::InsertSample(2)), vec![text("王五"), text("一年级2班")]);
    assert_eq!(migrate.bindings(Statement::InsertSample(3)), vec![text("赵六"), text("一年级2班")]);
    assert_eq!(migrate.bindings(Statement::InsertSample(4)), vec![text("孙七"), text("一年级3班")]);
    assert!(migrate.bindings(Statement::InsertSample(5)).is_empty());
    assert!(migrate.bindings(Statement::CountTheme).is_empty());
}

#[test]
fn a_command_with_empty_inputs_asks_nothing_of_the_engine() {
    let award = Command::AddPointRecord {
        student_id: 7,
        points: -2,
        reason: String::new(),
        operator: "teacher1".to_string(),
    };
    let e = award.begin().unwrap_err();
    assert_eq!(e.kind, ErrorKind::Validation);
    assert_eq!(e.message, "reason must not be empty");
    let add = Command::AddStudent { name: "Ann".to_string(), class: String::new() };
    assert_eq!(add.begin().unwrap_err().message, "class must not be empty");
    let update = Command::UpdateStudent { id: 1, name: String::new(), class: "1A".to_string() };
    assert_eq!(update.begin().unwrap_err().message, "name must not be empty");
    let good = Command::AddStudent { name: "Ann".to_string(), class: "1A".to_string() };
    let (stage, first) = good.begin().unwrap();
    assert_eq!(first, Move::Run(Statement::InsertStudent));
    assert!(!stage.is_finished());
    let (_, first) = Command::DeleteStudent { id: 1 }.begin().unwrap();
    assert_eq!(first, Move::Begin);
}

#[test]
fn errors_carry_the_place_and_the_cause() {
    let e = failure_of(ErrorKind::Storage, Context::Begin, "disk full");
    assert_eq!(e.kind, ErrorKind::Storage);
    assert_eq!(e.message, "Failed to begin transaction: disk full");
    let e = failure_of(
        ErrorKind::ForeignKeyViolation,
        Context::Run(Statement::InsertPointRecord),
        "FOREIGN KEY constraint failed",
    );
    assert_eq!(e.message, "Failed to add point record: FOREIGN KEY constraint failed");
    let e = failure_of(ErrorKind::TransactionFailure, Context::Commit, "busy");
    assert_eq!(e.message, "Failed to commit transaction: busy");
    let e = failure_of(ErrorKind::TransactionFailure, Context::Run(Statement::AddToTotal), "x");
    assert_eq!(e.message, "Failed to update student points: x");
    let e = failure_of(ErrorKind::Storage, Context::Run(Statement::SelectStudents), "x");
    assert_eq!(e.message, "Failed to get students: x");
    let e = failure_of(ErrorKind::Storage, Context::Run(Statement::InsertStudent), "x");
    assert_eq!(e.message, "Failed to add student: x");
    let e = failure_of(ErrorKind::NotFound, Context::Run(Statement::UpdateStudent), "x");
    assert_eq!(e.message, "Failed to update student: x");
    let e = failure_of(ErrorKind::Storage, Context::Run(Statement::DeletePointRecordsOf), "x");
    assert_eq!(e.message, "Failed to delete student records: x");
    let e = failure_of(ErrorKind::Storage, Context::Run(Statement::DeleteStudent), "x");
    assert_eq!(e.message, "Failed to delete student: x");
    let e = failure_of(ErrorKind::Storage, Context::Run(Statement::SelectPointRecords), "x");
    assert_eq!(e.message, "Failed to get point records: x");
    let e = failure_of(ErrorKind::Storage, Context::Run(Statement::CreateStudents), "x");
    assert_eq!(e.message, "Failed to initialize database: x");
}

#[test]
fn settings_are_read_key_by_key() {
    assert_eq!(
        run(Operation::GetSettings, &[Signal::Done, Signal::Done]),
        vec![
            Move::Run(Statement::SelectTheme),
            Move::Run(Statement::SelectBackground),
            Move::Succeed,
        ]
    );
    let get = Command::GetSettings;
    assert_eq!(get.bindings(Statement::SelectTheme), vec![text("theme")]);
    assert_eq!(get.bindings(Statement::SelectBackground), vec![text("custom_background")]);
    assert_eq!(sql(Statement::SelectTheme), "SELECT value FROM settings WHERE key = ? LIMIT 1");
    assert_eq!(sql(Statement::SelectBackground), sql(Statement::SelectTheme));
    let moves = run(Operation::UpdateSettings, &[Signal::Done; 4]);
    assert_eq!(
        moves,
        vec![
            Move::Begin,
            Move::Run(Statement::StoreTheme),
            Move::Run(Statement::StoreBackground),
            Move::Commit,
            Move::Succeed,
        ]
    );
}

#[test]
fn statements_say_what_they_hand_back() {
    assert_eq!(shape(Statement::CountTheme), Shape::Count);
    assert_eq!(shape(Statement::CountStudents), Shape::Count);
    assert_eq!(shape(Statement::SelectTheme), Shape::Text);
    assert_eq!(shape(Statement::SelectStudents), Shape::Students);
    assert_eq!(shape(Statement::InsertStudent), Shape::Students);
    assert_eq!(shape(Statement::UpdateStudent), Shape::Students);
    assert_eq!(shape(Statement::InsertPointRecord), Shape::PointRecords);
    assert_eq!(shape(Statement::SelectPointRecords), Shape::PointRecords);
    assert_eq!(shape(Statement::AddToTotal), Shape::Nothing);
    assert_eq!(shape(Statement::DeleteStudent), Shape::Nothing);
    assert_eq!(shape(Statement::CreateStudents), Shape::Nothing);
    assert!(must_return_row(Statement::InsertStudent));
    assert!(must_return_row(Statement::UpdateStudent));
    assert!(must_return_row(Statement::InsertPointRecord));
    assert!(!must_return_row(Statement::SelectStudents));
    assert!(!must_return_row(Statement::AddToTotal));
}
