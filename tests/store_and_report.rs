use todo_check::report::{
    all_satisfied, evaluate_all, report_lines, run_check, status_line, TaskStatus,
};
use todo_check::nesting::count_statement_marks;
use todo_check::schedule::{RawValue, ScheduleError, Weekday};
use todo_check::store::{
    done_action, get_config, ConfigError, DoneAction, MAX_STATEMENT_MARKS,
};

#[test]
fn config_values_are_read() {
    let store = get_config("mow = 7\nstandup = \"weekdays\"\nflag = true\nratio = 1.5\n").unwrap();
    assert_eq!(store.len(), 4);
    // Tasks come in the order of their names.
    let names: Vec<&str> = (0..store.len()).map(|i| store.name(i).as_str()).collect();
    assert_eq!(names, vec!["flag", "mow", "ratio", "standup"]);
    assert_eq!(store.value(0), &RawValue::Other);
    assert_eq!(store.value(1), &RawValue::Integer(7));
    assert_eq!(store.value(2), &RawValue::Other);
    assert_eq!(store.value(3), &RawValue::Text("weekdays".to_string()));
}

#[test]
fn nested_table_is_other() {
    let store = get_config("[group]\nx = 1\n").unwrap();
    assert_eq!(store.len(), 1);
    assert_eq!(store.name(0), "group");
    assert_eq!(store.value(0), &RawValue::Other);
}

#[test]
fn empty_config_has_no_tasks() {
    let store = get_config("").unwrap();
    assert_eq!(store.len(), 0);
}

#[test]
fn unparseable_config_is_an_error() {
    assert_eq!(get_config("this is = = not toml").err(), Some(ConfigError::Unparseable));
    assert_eq!(get_config("a = 1\na = 2\n").err(), Some(ConfigError::Unparseable));
}

#[test]
fn config_error_messages() {
    assert_eq!(ConfigError::Missing.message(), "error: config does not exist");
    assert_eq!(ConfigError::Unparseable.message(), "error: could not read config");
    assert_eq!(ConfigError::NotMapping.message(), "didn't understand config");
}

#[test]
fn find_locates_tasks() {
    let store = get_config("a = 1\nb = 2\n").unwrap();
    assert_eq!(store.find("a"), Some(0));
    assert_eq!(store.find("b"), Some(1));
    assert_eq!(store.find("c"), None);
}

#[test]
fn done_on_unknown_item_touches_nothing() {
    let store = get_config("dishes = 1\n").unwrap();
    assert_eq!(
        done_action(&store, "laundry"),
        DoneAction::Unknown("unknown item laundry".to_string())
    );
}

#[test]
fn done_on_known_item_touches_its_marker() {
    let store = get_config("dishes = 1\nstandup = \"weekdays\"\n").unwrap();
    assert_eq!(done_action(&store, "dishes"), DoneAction::Touch("dishes".to_string()));
    assert_eq!(done_action(&store, "standup"), DoneAction::Touch("standup".to_string()));
}

#[test]
fn task_touched_just_now_is_satisfied() {
    let store = get_config("dishes = 1\nstandup = \"weekdays\"\nyearly = 365\n").unwrap();
    let now = 1_700_000_000;
    let observed = vec![Some(now), Some(now), Some(now)];
    for today in [Weekday::Wed, Weekday::Sat] {
        let statuses = evaluate_all(&store, &observed, now, today);
        assert!(statuses.iter().all(|s| *s == TaskStatus::Satisfied));
        assert!(all_satisfied(&statuses));
    }
}

#[test]
fn invalid_task_does_not_stop_the_others() {
    let store = get_config("flag = true\nmow = 7\n").unwrap();
    let now = 1_000_000;
    let observed = vec![Some(now - 10), Some(now - 10)];
    let statuses = evaluate_all(&store, &observed, now, Weekday::Tue);
    assert_eq!(
        statuses,
        vec![TaskStatus::Misconfigured(ScheduleError::UnsupportedValue), TaskStatus::Satisfied]
    );
    let lines = report_lines(&store, &statuses, false);
    assert_eq!(lines, vec!["flag: not_ok (unsupported value)", "mow: ok", "not_ok"]);
}

#[test]
fn status_lines() {
    let name = "gym".to_string();
    assert_eq!(status_line(&name, TaskStatus::Satisfied), "gym: ok");
    assert_eq!(status_line(&name, TaskStatus::Overdue), "gym: not_ok");
    assert_eq!(status_line(&name, TaskStatus::Missing), "gym: missing");
    assert_eq!(
        status_line(&name, TaskStatus::Misconfigured(ScheduleError::UnknownCadence)),
        "gym: not_ok (unknown cadence)"
    );
    assert_eq!(
        status_line(&name, TaskStatus::Misconfigured(ScheduleError::NegativeInterval)),
        "gym: not_ok (negative interval)"
    );
    assert_eq!(
        status_line(&name, TaskStatus::Misconfigured(ScheduleError::IntervalOverflow)),
        "gym: not_ok (interval too long)"
    );
}

#[test]
fn report_lists_every_task_then_the_summary() {
    let store = get_config("a = 1\nb = 1\nc = 1\n").unwrap();
    let statuses = vec![TaskStatus::Satisfied, TaskStatus::Overdue, TaskStatus::Missing];
    let lines = report_lines(&store, &statuses, false);
    assert_eq!(lines, vec!["a: ok", "b: not_ok", "c: missing", "not_ok"]);
    let ok = vec![TaskStatus::Satisfied; 3];
    assert_eq!(report_lines(&store, &ok, false), vec!["a: ok", "b: ok", "c: ok", "ok"]);
}

#[test]
fn quiet_report_is_one_line() {
    let store = get_config("a = 1\nb = 1\n").unwrap();
    let bad = vec![TaskStatus::Satisfied, TaskStatus::Missing];
    assert_eq!(report_lines(&store, &bad, true), vec!["not_ok"]);
    let good = vec![TaskStatus::Satisfied, TaskStatus::Satisfied];
    assert_eq!(report_lines(&store, &good, true), vec!["ok"]);
    let empty = get_config("").unwrap();
    assert_eq!(report_lines(&empty, &Vec::new(), true), vec!["ok"]);
}

#[test]
fn all_satisfied_needs_every_task() {
    assert!(all_satisfied(&Vec::new()));
    assert!(all_satisfied(&vec![TaskStatus::Satisfied]));
    assert!(!all_satisfied(&vec![TaskStatus::Satisfied, TaskStatus::Overdue]));
    assert!(!all_satisfied(&vec![TaskStatus::Misconfigured(ScheduleError::UnknownCadence)]));
}

#[test]
fn run_check_reports_missing_markers() {
    let store = get_config("a = 1\nb = \"weekdays\"\n").unwrap();
    let outcome = run_check(&store, &vec![None, None], false).unwrap();
    assert_eq!(outcome.lines, vec!["a: missing", "b: missing", "not_ok"]);
    assert!(!outcome.all_satisfied);
    let quiet = run_check(&store, &vec![None, None], true).unwrap();
    assert_eq!(quiet.lines, vec!["not_ok"]);
}

#[test]
fn run_check_with_fresh_markers_is_ok() {
    // A marker far in the future counts as touched at the present instant.
    let store = get_config("a = 1\nb = \"weekdays\"\n").unwrap();
    let outcome = run_check(&store, &vec![Some(i64::MAX), Some(i64::MAX)], false).unwrap();
    assert_eq!(outcome.lines, vec!["a: ok", "b: ok", "ok"]);
    assert!(outcome.all_satisfied);
}

#[test]
fn run_check_with_old_markers_is_not_ok() {
    let store = get_config("a = 1\n").unwrap();
    let outcome = run_check(&store, &vec![Some(0)], true).unwrap();
    assert_eq!(outcome.lines, vec!["not_ok"]);
    assert!(!outcome.all_satisfied);
}

#[test]
fn statement_marks_are_counted() {
    assert_eq!(count_statement_marks(b""), 0);
    assert_eq!(count_statement_marks(b"a.b = [1, {c = 2.5}]"), 4);
    assert_eq!(count_statement_marks(b"a.b = 1\nc.d = 1\n"), 1);
    assert_eq!(count_statement_marks(b"a = [\n[1],\n[2]]\n"), 3);
    assert_eq!(count_statement_marks("\u{e9} = \"x\"".as_bytes()), 0);
}

#[test]
fn comments_and_strings_hold_no_marks() {
    assert_eq!(count_statement_marks(b"# . [ { ...\na = 1"), 0);
    assert_eq!(count_statement_marks(b"a = \"x.[{y\""), 0);
    assert_eq!(count_statement_marks(b"a = \"x\\\"[[[\""), 0);
    assert_eq!(count_statement_marks(b"'a.b' = 'c[d'"), 0);
    assert_eq!(count_statement_marks(b"a = \"\"\"x\n[[\"\"\"\nb.c = 1"), 1);
    assert_eq!(count_statement_marks(b"a = '''x''''\nb = [1]"), 1);
    assert_eq!(count_statement_marks(b"a = \"\"\nb = [1]"), 1);
}

#[test]
fn many_dots_in_comments_are_fine() {
    let text = format!("{}a = 1\n", "# .\n".repeat(200));
    let store = get_config(&text).unwrap();
    assert_eq!(store.len(), 1);
    assert_eq!(store.value(0), &RawValue::Integer(1));
    let strings = format!("a = \"{}\"\n", ".".repeat(500));
    assert_eq!(get_config(&strings).unwrap().len(), 1);
}

#[test]
fn nesting_at_the_limit_is_parsed() {
    let n = MAX_STATEMENT_MARKS;
    let arrays = format!("a = {}{}", "[".repeat(n), "]".repeat(n));
    let store = get_config(&arrays).unwrap();
    assert_eq!(store.value(0), &RawValue::Other);
    let tables = format!("a = {}1{}", "{b = ".repeat(n), "}".repeat(n));
    let store = get_config(&tables).unwrap();
    assert_eq!(store.value(0), &RawValue::Other);
    let dotted = format!("a{} = 1", ".a".repeat(n));
    let store = get_config(&dotted).unwrap();
    assert_eq!(store.name(0), "a");
    // A header and a value each at the limit: twice as deep.
    let both = format!("[{}a]\nx = {}{}\n", "a.".repeat(n - 1), "[".repeat(n), "]".repeat(n));
    let store = get_config(&both).unwrap();
    assert_eq!(store.name(0), "a");
    assert_eq!(store.value(0), &RawValue::Other);
}

#[test]
fn nesting_past_the_limit_is_refused() {
    let n = MAX_STATEMENT_MARKS + 1;
    let arrays = format!("a = {}{}", "[".repeat(n), "]".repeat(n));
    assert_eq!(get_config(&arrays).err(), Some(ConfigError::Unparseable));
    let deep = format!("a = {}", "[".repeat(200_000));
    assert_eq!(get_config(&deep).err(), Some(ConfigError::Unparseable));
}
