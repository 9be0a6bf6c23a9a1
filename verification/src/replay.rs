//! The plans held against the store: what a plan leaves when the engine that
//! it is run on behaves as the store of this library does. Each plan leaves
//! what the command of the same name leaves.

use crate::defaults::{sample, BACKGROUND_KEY, DEFAULT_THEME, THEME_KEY};
use crate::error::ErrorKind;
use crate::laws::lemma_total_is_sum;
use crate::ledger::{
    awarded, credited, has_setting, lemma_with_samples_wf, lemma_with_setting_wf,
    records_without, students_without, Award, Ledger,
};
use crate::plan::{
    first, operation_of, step, CommandView, Context, Move, Operation, Signal,
    Stage, Statement,
};
use vstd::prelude::*;

verus! {

/// What the store answers to a statement of a command. It refuses a point
/// record of a student that it does not have, finds no row to rename where no
/// student has the id, fails where an id or a total would leave the range of
/// a 64-bit integer, and counts what it holds.
pub open spec fn answer(ledger: Ledger, command: CommandView, statement: Statement) -> Signal {
    match (command, statement) {
        (
            CommandView::AddPointRecord { student_id, points, reason, operator },
            Statement::InsertPointRecord,
        ) => {
            if !ledger.has_student(student_id) {
                Signal::ForeignKey
            } else if ledger.next_record_id >= i64::MAX {
                Signal::Failed
            } else {
                Signal::Done
            }
        },
        (
            CommandView::AddPointRecord { student_id, points, reason, operator },
            Statement::AddToTotal,
        ) => {
            if i64::MIN <= ledger.student(student_id).total_points + points <= i64::MAX {
                Signal::Done
            } else {
                Signal::Failed
            }
        },
        (CommandView::AddStudent { name, class }, Statement::InsertStudent) => {
            if ledger.next_student_id >= i64::MAX {
                Signal::Failed
            } else {
                Signal::Done
            }
        },
        (CommandView::UpdateStudent { id, name, class }, Statement::UpdateStudent) => {
            if ledger.has_student(id) {
                Signal::Done
            } else {
                Signal::Missing
            }
        },
        (CommandView::Migrate, Statement::CountTheme) => {
            if has_setting(ledger.settings, THEME_KEY@) {
                Signal::Count(Some(1))
            } else {
                Signal::Count(Some(0))
            }
        },
        (CommandView::Migrate, Statement::CountStudents) => Signal::Count(
            Some(ledger.students.len() as i64),
        ),
        (CommandView::Migrate, Statement::InsertSample(_)) => {
            if ledger.next_student_id >= i64::MAX {
                Signal::Failed
            } else {
                Signal::Done
            }
        },
        _ => Signal::Done,
    }
}

/// What a statement of a command leaves of the store, where the store does
/// not answer it with a failure.
pub open spec fn effect(
    ledger: Ledger,
    command: CommandView,
    statement: Statement,
    now: Seq<char>,
) -> Ledger {
    match (command, statement) {
        (
            CommandView::AddPointRecord { student_id, points, reason, operator },
            Statement::InsertPointRecord,
        ) => Ledger {
            point_records: ledger.point_records.push(
                ledger.new_record(student_id, points, reason, operator, now),
            ),
            next_record_id: ledger.next_record_id + 1,
            ..ledger
        },
        (
            CommandView::AddPointRecord { student_id, points, reason, operator },
            Statement::AddToTotal,
        ) => Ledger {
            students: credited(ledger.students, student_id, points, now),
            ..ledger
        },
        (CommandView::AddStudent { name, class }, Statement::InsertStudent) => ledger.with_student(
            name,
            class,
            now,
        ),
        (CommandView::UpdateStudent { id, name, class }, Statement::UpdateStudent) => ledger.renamed(
            id,
            name,
            class,
            now,
        ),
        (CommandView::DeleteStudent { id }, Statement::DeletePointRecordsOf) => Ledger {
            point_records: records_without(ledger.point_records, id),
            ..ledger
        },
        (CommandView::DeleteStudent { id }, Statement::DeleteStudent) => Ledger {
            students: students_without(ledger.students, id),
            ..ledger
        },
        (
            CommandView::UpdateSettings { theme, custom_background },
            Statement::StoreTheme,
        ) => ledger.with_setting(THEME_KEY@, theme, now),
        (
            CommandView::UpdateSettings { theme, custom_background },
            Statement::StoreBackground,
        ) => ledger.with_setting(BACKGROUND_KEY@, custom_background, now),
        (CommandView::Migrate, Statement::InsertDefaultTheme) => ledger.with_setting(
            THEME_KEY@,
            DEFAULT_THEME@,
            now,
        ),
        (CommandView::Migrate, Statement::InsertSample(i)) => ledger.with_student(
            sample(i as int).0,
            sample(i as int).1,
            now,
        ),
        _ => ledger,
    }
}

/// Whether the store answers with a failure.
pub open spec fn refuses(signal: Signal) -> bool {
    signal == Signal::Missing || signal == Signal::ForeignKey || signal == Signal::Failed
}

/// A plan under way on the store: the stage, the move that is due, the store
/// as it is, and the store as it was when the transaction began.
pub struct Run {
    pub stage: Stage,
    pub due: Move,
    pub ledger: Ledger,
    pub saved: Ledger,
}

/// The run after the move that is due was made on the store.
pub open spec fn proceed(run: Run, command: CommandView, now: Seq<char>) -> Run {
    match run.due {
        Move::Begin => {
            let next = step(run.stage, Signal::Done);
            Run { stage: next.0, due: next.1, ledger: run.ledger, saved: run.ledger }
        },
        Move::Run(statement) => {
            let signal = answer(run.ledger, command, statement);
            let next = step(run.stage, signal);
            let ledger = if refuses(signal) {
                run.ledger
            } else {
                effect(run.ledger, command, statement, now)
            };
            Run { stage: next.0, due: next.1, ledger: ledger, saved: run.saved }
        },
        Move::Commit => {
            let next = step(run.stage, Signal::Done);
            Run { stage: next.0, due: next.1, ledger: run.ledger, saved: run.ledger }
        },
        Move::Rollback => {
            let next = step(run.stage, Signal::Done);
            Run { stage: next.0, due: next.1, ledger: run.saved, saved: run.saved }
        },
        Move::Succeed => run,
        Move::Fail(_, _) => run,
    }
}

/// The run after `moves` moves.
pub open spec fn proceed_by(run: Run, command: CommandView, now: Seq<char>, moves: nat) -> Run
    decreases moves,
{
    if moves == 0 {
        run
    } else {
        proceed_by(proceed(run, command, now), command, now, (moves - 1) as nat)
    }
}

/// The plan of a command run on the store to its end: no plan has more than
/// sixteen moves.
pub open spec fn replay(ledger: Ledger, command: CommandView, now: Seq<char>) -> Run {
    let begun = first(operation_of(command));
    proceed_by(Run { stage: begun.0, due: begun.1, ledger: ledger, saved: ledger }, command, now, 16)
}

/// One more move: a run of `moves` moves is one move and then the rest.
proof fn lemma_next(run: Run, command: CommandView, now: Seq<char>, moves: nat)
    requires
        moves > 0,
    ensures
        proceed_by(run, command, now, moves) == proceed_by(
            proceed(run, command, now),
            command,
            now,
            (moves - 1) as nat,
        ),
{
}

/// A run that has ended stays as it is.
proof fn lemma_ended(run: Run, command: CommandView, now: Seq<char>, moves: nat)
    requires
        run.due == Move::Succeed || run.due is Fail,
    ensures
        proceed_by(run, command, now, moves) == run,
    decreases moves,
{
    if moves > 0 {
        lemma_ended(run, command, now, (moves - 1) as nat);
    }
}

/// The plan of the ledger transaction leaves what the command leaves: the
/// store with the award and success, or the store as it was and the error of
/// the kind that the command gives.
pub proof fn law_plan_of_award(
    ledger: Ledger,
    student_id: int,
    points: int,
    reason: Seq<char>,
    operator: Seq<char>,
    now: Seq<char>,
)
    requires
        ledger.wf(),
        reason.len() > 0,
        operator.len() > 0,
    ensures
        ({
            let command = CommandView::AddPointRecord { student_id, points, reason, operator };
            let call = Award { student_id, points, reason, operator, now };
            let end = replay(ledger, command, now);
            &&& end.ledger == ledger.award(call)
            &&& match ledger.award_refusal(student_id, points, reason, operator) {
                None => end.due == Move::Succeed,
                Some(e) => end.due matches Move::Fail(kind, _) && kind == e.kind,
            }
        }),
{
    let command = CommandView::AddPointRecord { student_id, points, reason, operator };
    let begun = first(Operation::AddPointRecord);
    let r0 = Run { stage: begun.0, due: begun.1, ledger: ledger, saved: ledger };
    let r1 = proceed(r0, command, now);
    let r2 = proceed(r1, command, now);
    let r3 = proceed(r2, command, now);
    let r4 = proceed(r3, command, now);
    lemma_next(r0, command, now, 16);
    lemma_next(r1, command, now, 15);
    lemma_next(r2, command, now, 14);
    lemma_next(r3, command, now, 13);
    assert(r0.due == Move::Begin);
    assert(r1.due == Move::Run(Statement::InsertPointRecord));
    assert(r1.ledger == ledger && r1.saved == ledger);
    if ledger.has_student(student_id) && ledger.next_record_id < i64::MAX {
        assert(r2.due == Move::Run(Statement::AddToTotal));
        lemma_total_is_sum(ledger, student_id);
        assert(r2.ledger.students == ledger.students);
        assert(r2.ledger.student(student_id) == ledger.student(student_id));
        assert(r2.saved == ledger);
        if i64::MIN <= awarded(ledger.point_records, student_id) + points <= i64::MAX {
            assert(r3.due == Move::Commit);
            assert(r3.ledger == ledger.with_award(student_id, points, reason, operator, now));
            assert(r4.due == Move::Succeed);
            assert(r4.ledger == r3.ledger);
            lemma_ended(r4, command, now, 12);
        } else {
            assert(r3.due == Move::Rollback);
            assert(r3.saved == ledger);
            assert(r4.due == Move::Fail(
                ErrorKind::TransactionFailure,
                Context::Run(Statement::AddToTotal),
            ));
            assert(r4.ledger == ledger);
            lemma_ended(r4, command, now, 12);
        }
    } else {
        assert(r2.due == Move::Rollback);
        assert(r2.saved == ledger);
        assert(r3.ledger == ledger);
        assert(r3.due is Fail);
        lemma_ended(r3, command, now, 13);
        assert(r4 == r3) by {
            lemma_ended(r3, command, now, 1);
            lemma_next(r3, command, now, 1);
        }
        lemma_ended(r4, command, now, 12);
    }
}

/// The plan of a deletion leaves what the command leaves: the store without
/// the student and without the student's records, and success.
pub proof fn law_plan_of_deletion(ledger: Ledger, id: int, now: Seq<char>)
    ensures
        replay(ledger, CommandView::DeleteStudent { id }, now).ledger == ledger.without_student(id),
        replay(ledger, CommandView::DeleteStudent { id }, now).due == Move::Succeed,
{
    let command = CommandView::DeleteStudent { id };
    let begun = first(Operation::DeleteStudent);
    let r0 = Run { stage: begun.0, due: begun.1, ledger: ledger, saved: ledger };
    reveal_with_fuel(proceed_by, 17);
    let r1 = proceed(r0, command, now);
    let r2 = proceed(r1, command, now);
    let r3 = proceed(r2, command, now);
    let r4 = proceed(r3, command, now);
    assert(r1.due == Move::Run(Statement::DeletePointRecordsOf));
    assert(r2.due == Move::Run(Statement::DeleteStudent));
    assert(r3.due == Move::Commit);
    assert(r4.due == Move::Succeed);
    assert(r4.ledger == ledger.without_student(id));
}

/// The plan of a new student leaves what the command leaves.
pub proof fn law_plan_of_new_student(ledger: Ledger, name: Seq<char>, class: Seq<char>, now: Seq<char>)
    requires
        name.len() > 0,
        class.len() > 0,
    ensures
        ({
            let end = replay(ledger, CommandView::AddStudent { name, class }, now);
            match ledger.add_student_refusal(name, class) {
                None => end.due == Move::Succeed && end.ledger == ledger.with_student(
                    name,
                    class,
                    now,
                ),
                Some(e) => end.ledger == ledger && (end.due matches Move::Fail(kind, _) && kind
                    == e.kind),
            }
        }),
{
    let command = CommandView::AddStudent { name, class };
    let begun = first(Operation::AddStudent);
    let r0 = Run { stage: begun.0, due: begun.1, ledger: ledger, saved: ledger };
    reveal_with_fuel(proceed_by, 17);
    let r1 = proceed(r0, command, now);
    assert(r0.due == Move::Run(Statement::InsertStudent));
}

/// The plan of a renaming leaves what the command leaves.
pub proof fn law_plan_of_renaming(
    ledger: Ledger,
    id: int,
    name: Seq<char>,
    class: Seq<char>,
    now: Seq<char>,
)
    requires
        name.len() > 0,
        class.len() > 0,
    ensures
        ({
            let end = replay(ledger, CommandView::UpdateStudent { id, name, class }, now);
            match ledger.update_student_refusal(id, name, class) {
                None => end.due == Move::Succeed && end.ledger == ledger.renamed(
                    id,
                    name,
                    class,
                    now,
                ),
                Some(e) => end.ledger == ledger && (end.due matches Move::Fail(kind, _) && kind
                    == e.kind),
            }
        }),
{
    let command = CommandView::UpdateStudent { id, name, class };
    let begun = first(Operation::UpdateStudent);
    let r0 = Run { stage: begun.0, due: begun.1, ledger: ledger, saved: ledger };
    reveal_with_fuel(proceed_by, 17);
    let r1 = proceed(r0, command, now);
    assert(r0.due == Move::Run(Statement::UpdateStudent));
}

/// The plan of new settings leaves what the command leaves.
pub proof fn law_plan_of_settings(
    ledger: Ledger,
    theme: Seq<char>,
    custom_background: Seq<char>,
    now: Seq<char>,
)
    ensures
        ({
            let end = replay(ledger, CommandView::UpdateSettings { theme, custom_background }, now);
            &&& end.due == Move::Succeed
            &&& end.ledger == ledger.with_setting(THEME_KEY@, theme, now).with_setting(
                BACKGROUND_KEY@,
                custom_background,
                now,
            )
        }),
{
    let command = CommandView::UpdateSettings { theme, custom_background };
    let begun = first(Operation::UpdateSettings);
    let r0 = Run { stage: begun.0, due: begun.1, ledger: ledger, saved: ledger };
    reveal_with_fuel(proceed_by, 17);
    let r1 = proceed(r0, command, now);
    let r2 = proceed(r1, command, now);
    let r3 = proceed(r2, command, now);
    let r4 = proceed(r3, command, now);
    assert(r1.due == Move::Run(Statement::StoreTheme));
    assert(r2.due == Move::Run(Statement::StoreBackground));
    assert(r3.due == Move::Commit);
    assert(r4.due == Move::Succeed);
}

/// The plan of the seeding leaves what the command leaves: the seeded store,
/// and success, where the seeding is not refused.
pub proof fn law_plan_of_seeding(ledger: Ledger, now: Seq<char>)
    requires
        ledger.wf(),
        ledger.next_student_id <= i64::MAX,
        !ledger.seed_refused(),
    ensures
        replay(ledger, CommandView::Migrate, now).due == Move::Succeed,
        replay(ledger, CommandView::Migrate, now).ledger == ledger.seeded(now),
{
    let command = CommandView::Migrate;
    let begun = first(Operation::Migrate);
    let r0 = Run { stage: begun.0, due: begun.1, ledger: ledger, saved: ledger };
    reveal_with_fuel(proceed_by, 17);
    let r1 = proceed(r0, command, now);
    let r2 = proceed(r1, command, now);
    let r3 = proceed(r2, command, now);
    let r4 = proceed(r3, command, now);
    assert(r0.due == Move::Run(Statement::CreateStudents));
    assert(r1.due == Move::Run(Statement::CreatePointRecords));
    assert(r2.due == Move::Run(Statement::CreateSettings));
    assert(r3.due == Move::Run(Statement::CreateBackups));
    assert(r4.due == Move::Run(Statement::CountTheme));
    assert(r4.ledger == ledger);
    let r5 = proceed(r4, command, now);
    let themed = ledger.themed(now);
    lemma_with_setting_wf(ledger, THEME_KEY@, DEFAULT_THEME@, now);
    let counted = if has_setting(ledger.settings, THEME_KEY@) {
        r5
    } else {
        assert(r5.due == Move::Run(Statement::InsertDefaultTheme));
        proceed(r5, command, now)
    };
    assert(counted.due == Move::Run(Statement::CountStudents));
    assert(counted.ledger == themed);
    let r7 = proceed(counted, command, now);
    if ledger.students.len() == 0 {
        assert(r7.due == Move::Run(Statement::InsertSample(0)));
        reveal_with_fuel(Ledger::with_samples, 6);
        lemma_with_samples_wf(themed, 0, now);
        lemma_with_samples_wf(themed, 1, now);
        lemma_with_samples_wf(themed, 2, now);
        lemma_with_samples_wf(themed, 3, now);
        lemma_with_samples_wf(themed, 4, now);
        let s1 = proceed(r7, command, now);
        assert(s1.ledger == themed.with_samples(1, now));
        assert(s1.due == Move::Run(Statement::InsertSample(1)));
        let s2 = proceed(s1, command, now);
        assert(s2.ledger == themed.with_samples(2, now));
        assert(s2.due == Move::Run(Statement::InsertSample(2)));
        let s3 = proceed(s2, command, now);
        assert(s3.ledger == themed.with_samples(3, now));
        assert(s3.due == Move::Run(Statement::InsertSample(3)));
        let s4 = proceed(s3, command, now);
        assert(s4.ledger == themed.with_samples(4, now));
        assert(s4.due == Move::Run(Statement::InsertSample(4)));
        let s5 = proceed(s4, command, now);
        assert(s5.ledger == themed.with_samples(5, now));
        assert(s5.due == Move::Succeed);
    } else {
        assert(ledger.students.len() < ledger.next_student_id);
        assert(r7.due == Move::Succeed);
    }
}

} // verus!
