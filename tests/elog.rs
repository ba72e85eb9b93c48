use pg_elog::bridge::{resumed_by_jump, settle, Diversion, Outcome, PgError, PgReThrow, Unwind};
use pg_elog::guard::{ExceptionStack, StackCorruption};
use pg_elog::report::{elog_internal, ReportError, Reporter};
use pg_elog::severity::{is_diverting, is_visible, DEBUG1, ERROR, FATAL, INFO, LOG, NOTICE, PANIC, WARNING};
use pg_elog::sqlstate::{make_sqlstate, pgsixbit, unpack_sqlstate, ERRCODE_EXTERNAL_ROUTINE_EXCEPTION};

#[test]
fn diverting_threshold() {
    assert!(!is_diverting(WARNING));
    assert!(!is_diverting(LOG));
    assert!(is_diverting(ERROR));
    assert!(is_diverting(FATAL));
    assert!(is_diverting(PANIC));
}

#[test]
fn visibility() {
    assert!(is_visible(WARNING, NOTICE));
    assert!(is_visible(NOTICE, NOTICE));
    assert!(!is_visible(INFO, NOTICE));
    assert!(!is_visible(DEBUG1, LOG));
    assert!(is_visible(ERROR, PANIC));
}

#[test]
fn sixbit_values() {
    assert_eq!(pgsixbit('0'), 0);
    assert_eq!(pgsixbit('9'), 9);
    assert_eq!(pgsixbit('A'), 17);
    assert_eq!(pgsixbit('o'), 63);
    assert_eq!(pgsixbit('p'), 0);
}

#[test]
fn external_routine_code() {
    assert_eq!(make_sqlstate('3', '8', '0', '0', '0'), ERRCODE_EXTERNAL_ROUTINE_EXCEPTION);
    assert_eq!(make_sqlstate('3', '8', '0', '0', '0'), 515);
}

#[test]
fn packing_layout() {
    assert_eq!(make_sqlstate('0', '1', '0', '0', '0'), 64);
    assert_eq!(make_sqlstate('0', '0', '0', '0', '1'), 1 << 24);
    assert_eq!(make_sqlstate('o', 'o', 'o', 'o', 'o'), (1 << 30) - 1);
}

#[test]
fn sqlstate_round_trip() {
    for code in ["38000", "22012", "HV000", "XX000", "42704", "0A000"] {
        let c: Vec<char> = code.chars().collect();
        let packed = make_sqlstate(c[0], c[1], c[2], c[3], c[4]);
        assert_eq!(unpack_sqlstate(packed), (c[0], c[1], c[2], c[3], c[4]));
    }
}

#[test]
fn warning_report_returns_normally() {
    let mut rep = Reporter::new(NOTICE);
    assert!(rep.begin(WARNING, "disk.rs".to_string(), 12));
    assert_eq!(rep.attach_message(format!("disk at {}%", 91)), Ok(()));
    assert_eq!(rep.finish(), Ok(()));
    assert!(!rep.is_open());
    let done = rep.committed();
    assert_eq!(done.len(), 1);
    assert_eq!(done[0].severity, WARNING);
    assert_eq!(done[0].message, Some("disk at 91%".to_string()));
    assert_eq!(done[0].file, "disk.rs");
    assert_eq!(done[0].line, 12);
}

#[test]
fn all_fields_committed_once() {
    let mut rep = Reporter::new(LOG);
    assert!(rep.begin(NOTICE, "a.rs".to_string(), 3));
    assert_eq!(rep.attach_message("m".to_string()), Ok(()));
    assert_eq!(rep.attach_detail("d".to_string()), Ok(()));
    assert_eq!(rep.attach_hint("h".to_string()), Ok(()));
    assert_eq!(rep.attach_code(make_sqlstate('2', '2', '0', '1', '2')), Ok(()));
    assert_eq!(rep.finish(), Ok(()));
    let done = rep.committed();
    assert_eq!(done.len(), 1);
    assert_eq!(done[0].severity, NOTICE);
    assert_eq!(done[0].message, Some("m".to_string()));
    assert_eq!(done[0].detail, Some("d".to_string()));
    assert_eq!(done[0].hint, Some("h".to_string()));
    assert_eq!(done[0].code, Some(make_sqlstate('2', '2', '0', '1', '2')));
    assert_eq!(rep.finish(), Ok(()));
    assert_eq!(rep.committed().len(), 1);
}

#[test]
fn error_report_raises_here() {
    let mut rep = Reporter::new(WARNING);
    assert!(rep.begin(ERROR, "q.rs".to_string(), 7));
    assert_eq!(rep.attach_message(format!("not found: {}", "x")), Ok(()));
    assert_eq!(rep.finish(), Err(Diversion::RaisedHere));
    assert_eq!(rep.committed().len(), 1);
    assert_eq!(rep.committed()[0].message, Some("not found: x".to_string()));
}

#[test]
fn error_report_visible_above_threshold() {
    let mut rep = Reporter::new(PANIC);
    assert!(rep.begin(ERROR, "q.rs".to_string(), 1));
    assert_eq!(rep.finish(), Err(Diversion::RaisedHere));
}

#[test]
fn suppressed_begin_leaves_nothing() {
    let mut rep = Reporter::new(WARNING);
    for _ in 0..5 {
        assert!(!rep.begin(DEBUG1, "d.rs".to_string(), 1));
        assert!(!rep.is_open());
    }
    assert_eq!(rep.attach_message("ignored".to_string()), Err(ReportError::NotOpen));
    assert_eq!(rep.finish(), Ok(()));
    assert_eq!(rep.committed().len(), 0);
}

#[test]
fn attach_errors() {
    let mut rep = Reporter::new(LOG);
    assert_eq!(rep.attach_code(1), Err(ReportError::NotOpen));
    assert!(rep.begin(WARNING, "e.rs".to_string(), 2));
    assert_eq!(rep.attach_hint("a\0b".to_string()), Err(ReportError::Format));
    assert_eq!(rep.attach_hint("ab".to_string()), Ok(()));
    assert_eq!(rep.attach_hint("again".to_string()), Err(ReportError::AlreadyAttached));
    assert_eq!(rep.attach_code(1), Ok(()));
    assert_eq!(rep.attach_code(2), Err(ReportError::AlreadyAttached));
    assert_eq!(rep.finish(), Ok(()));
    assert_eq!(rep.committed()[0].hint, Some("ab".to_string()));
    assert_eq!(rep.committed()[0].code, Some(1));
    assert_eq!(rep.committed()[0].message, None);
}

#[test]
fn elog_internal_paths() {
    let mut rep = Reporter::new(NOTICE);
    assert_eq!(elog_internal(&mut rep, "x.rs".to_string(), 4, INFO, "quiet".to_string()), Ok(Ok(())));
    assert_eq!(rep.committed().len(), 0);
    assert_eq!(elog_internal(&mut rep, "x.rs".to_string(), 5, WARNING, "loud".to_string()), Ok(Ok(())));
    assert_eq!(
        elog_internal(&mut rep, "x.rs".to_string(), 6, ERROR, "fail".to_string()),
        Ok(Err(Diversion::RaisedHere))
    );
    assert!(!rep.is_open());
    assert_eq!(rep.committed().len(), 2);
    assert_eq!(rep.committed()[1].message, Some("fail".to_string()));
    assert_eq!(rep.committed()[1].hint, Some("thehint".to_string()));
    assert_eq!(rep.committed()[1].line, 6);
}

#[test]
fn elog_internal_warning_carries_hint() {
    let mut rep = Reporter::new(NOTICE);
    let r = elog_internal(&mut rep, "a.rs".to_string(), 7, WARNING, format!("disk at {}%", 91));
    assert_eq!(r, Ok(Ok(())));
    let done = rep.committed();
    assert_eq!(done.len(), 1);
    assert_eq!(done[0].severity, WARNING);
    assert_eq!(done[0].file, "a.rs");
    assert_eq!(done[0].line, 7);
    assert_eq!(done[0].message, Some("disk at 91%".to_string()));
    assert_eq!(done[0].hint, Some("thehint".to_string()));
    assert_eq!(done[0].detail, None);
    assert_eq!(done[0].code, None);
}

#[test]
fn elog_internal_refuses_nul() {
    let mut rep = Reporter::new(NOTICE);
    assert_eq!(
        elog_internal(&mut rep, "x.rs".to_string(), 1, WARNING, "a\0b".to_string()),
        Err(ReportError::Format)
    );
    assert_eq!(
        elog_internal(&mut rep, "x\0.rs".to_string(), 1, ERROR, "ab".to_string()),
        Err(ReportError::Format)
    );
    assert!(!rep.is_open());
    assert_eq!(rep.committed().len(), 0);
    assert_eq!(elog_internal(&mut rep, "x.rs".to_string(), 2, WARNING, "fine".to_string()), Ok(Ok(())));
    assert_eq!(rep.committed().len(), 1);
}

#[test]
fn elog_internal_suppressed_ignores_text() {
    let mut rep = Reporter::new(WARNING);
    assert_eq!(
        elog_internal(&mut rep, "x\0.rs".to_string(), 1, DEBUG1, "a\0b".to_string()),
        Ok(Ok(()))
    );
    assert!(!rep.is_open());
    assert_eq!(rep.committed().len(), 0);
}

#[test]
fn balanced_nesting_restores_stack() {
    let mut st = ExceptionStack::new(100, 200);
    let t1 = st.enter(1);
    let t2 = st.enter(2);
    let t3 = st.enter(3);
    assert_eq!(st.top(), 3);
    assert_eq!(st.depth(), 3);
    assert_eq!(st.exit(t3), Ok(()));
    assert_eq!(st.top(), 2);
    assert_eq!(st.exit(t2), Ok(()));
    assert_eq!(st.exit(t1), Ok(()));
    assert_eq!(st.top(), 100);
    assert_eq!(st.context(), 200);
    assert_eq!(st.depth(), 0);
}

#[test]
fn out_of_order_exit_is_refused() {
    let mut st = ExceptionStack::new(100, 200);
    let t1 = st.enter(1);
    let t2 = st.enter(2);
    assert_eq!(st.exit(t1), Err(StackCorruption));
    assert_eq!(st.top(), 2);
    assert_eq!(st.depth(), 2);
    assert_eq!(st.exit(t2), Ok(()));
    assert_eq!(st.top(), 1);
}

#[test]
fn resume_check() {
    assert!(!resumed_by_jump(0));
    assert!(resumed_by_jump(1));
    assert!(resumed_by_jump(-1));
}

#[test]
fn settle_each_exit() {
    let mut st = ExceptionStack::new(100, 200);
    let t = st.enter(1);
    assert_eq!(settle(&mut st, t, Outcome::FellThrough(Ok(5u32))), Ok(5));
    assert_eq!(st.top(), 100);
    let t = st.enter(1);
    assert_eq!(
        settle::<u32>(&mut st, t, Outcome::FellThrough(Err(Diversion::RaisedHere))),
        Err(Unwind::NewError(PgError))
    );
    let t = st.enter(1);
    assert_eq!(
        settle::<u32>(&mut st, t, Outcome::FellThrough(Err(Diversion::Relayed))),
        Err(Unwind::ReThrow(PgReThrow))
    );
    let t = st.enter(1);
    assert_eq!(settle::<u32>(&mut st, t, Outcome::JumpFired), Err(Unwind::ReThrow(PgReThrow)));
    assert_eq!(st.top(), 100);
    assert_eq!(st.depth(), 0);
}

#[test]
fn jump_at_depth_restores_each_frame_in_order() {
    let mut st = ExceptionStack::new(100, 200);
    let t1 = st.enter(1);
    let t2 = st.enter(2);
    let t3 = st.enter(3);
    let t4 = st.enter(4);
    assert_eq!(settle(&mut st, t4, Outcome::FellThrough(Ok(()))), Ok(()));
    assert_eq!(settle::<()>(&mut st, t3, Outcome::JumpFired), Err(Unwind::ReThrow(PgReThrow)));
    assert_eq!(st.top(), 2);
    assert_eq!(settle::<()>(&mut st, t2, Outcome::FellThrough(Err(Diversion::Relayed))), Err(Unwind::ReThrow(PgReThrow)));
    assert_eq!(st.top(), 1);
    assert_eq!(settle::<()>(&mut st, t1, Outcome::FellThrough(Err(Diversion::Relayed))), Err(Unwind::ReThrow(PgReThrow)));
    assert_eq!(st.top(), 100);
    assert_eq!(st.context(), 200);
    assert_eq!(st.depth(), 0);
}

#[test]
fn raised_error_relays_through_two_guards() {
    let mut rep = Reporter::new(WARNING);
    let mut st = ExceptionStack::new(100, 200);
    let outer = st.enter(1);
    let middle = st.enter(2);
    let inner = st.enter(3);
    assert!(rep.begin(ERROR, "q.rs".to_string(), 9));
    assert_eq!(rep.attach_message(format!("not found: {}", "x")), Ok(()));
    let raised = rep.finish();
    assert_eq!(raised, Err(Diversion::RaisedHere));
    let from_inner = settle::<()>(&mut st, inner, Outcome::FellThrough(raised));
    assert_eq!(from_inner, Err(Unwind::NewError(PgError)));
    let seen_middle = from_inner.map_err(|_| Diversion::Relayed);
    assert_eq!(seen_middle, Err(Diversion::Relayed));
    let from_middle = settle(&mut st, middle, Outcome::FellThrough(seen_middle));
    assert_eq!(from_middle, Err(Unwind::ReThrow(PgReThrow)));
    let seen_outer = from_middle.map_err(|_| Diversion::Relayed);
    assert_eq!(seen_outer, Err(Diversion::Relayed));
    let from_outer = settle(&mut st, outer, Outcome::FellThrough(seen_outer));
    assert_eq!(from_outer, Err(Unwind::ReThrow(PgReThrow)));
    assert_eq!(st.top(), 100);
    assert_eq!(st.context(), 200);
    assert_eq!(rep.committed().len(), 1);
    assert_eq!(rep.committed()[0].severity, ERROR);
    assert_eq!(rep.committed()[0].message, Some("not found: x".to_string()));
}

#[test]
fn take_committed_drains() {
    let mut rep = Reporter::new(LOG);
    assert_eq!(elog_internal(&mut rep, "t.rs".to_string(), 1, WARNING, "one".to_string()), Ok(Ok(())));
    assert_eq!(elog_internal(&mut rep, "t.rs".to_string(), 2, NOTICE, "two".to_string()), Ok(Ok(())));
    let taken = rep.take_committed();
    assert_eq!(taken.len(), 2);
    assert_eq!(taken[0].message, Some("one".to_string()));
    assert_eq!(taken[1].message, Some("two".to_string()));
    assert_eq!(rep.committed().len(), 0);
    assert_eq!(rep.min_level(), LOG);
}
