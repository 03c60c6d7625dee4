use process_supervisor::api::create_process;
use process_supervisor::api::delete_process;
use process_supervisor::api::get_process;
use process_supervisor::api::get_process_live_log;
use process_supervisor::api::get_processes;
use process_supervisor::api::CreateProcess;
use process_supervisor::api::DeleteOutcome;
use process_supervisor::registry::Registry;
use process_supervisor::status::ProcessStatus;

fn create(reg: &mut Registry, cmd: &str) -> String {
    let p = create_process(reg, CreateProcess { cmd: cmd.to_string() });
    assert_eq!(p.cmd, cmd);
    assert_eq!(p.status, "running");
    assert_eq!(p.log, "");
    p.uuid
}

#[test]
fn created_process_is_listed_running() {
    let mut reg = Registry::new();
    let id = create(&mut reg, "echo hello");
    let listing = get_processes(&reg);
    assert_eq!(listing.len(), 1);
    assert_eq!(listing[0].uuid, id);
    assert_eq!(listing[0].cmd, "echo hello");
    assert_eq!(listing[0].status, "running");
    assert_eq!(listing[0].log, "");
}

#[test]
fn echo_hello_runs_to_done_zero() {
    let mut reg = Registry::new();
    let id = create(&mut reg, "echo hello");
    assert!(reg.append_line(&id, "hello".to_string()));
    assert!(reg.resolve(&id, Some(0)));
    let p = get_process(&reg, &id).unwrap();
    assert_eq!(p.uuid, id);
    assert_eq!(p.cmd, "echo hello");
    assert_eq!(p.status, "done 0");
    assert_eq!(p.log, "hello\n");
}

#[test]
fn delete_running_process_removes_it() {
    let mut reg = Registry::new();
    let id = create(&mut reg, "sleep 100");
    assert_eq!(delete_process(&mut reg, &id, true), DeleteOutcome::Deleted);
    assert!(get_process(&reg, &id).is_none());
    assert_eq!(get_processes(&reg).len(), 0);
}

#[test]
fn delete_unknown_id_not_found_and_no_mutation() {
    let mut reg = Registry::new();
    let id = create(&mut reg, "sleep 100");
    let unknown = "not-a-registered-identifier".to_string();
    assert_eq!(delete_process(&mut reg, &unknown, true), DeleteOutcome::NotFound);
    let listing = get_processes(&reg);
    assert_eq!(listing.len(), 1);
    assert_eq!(listing[0].uuid, id);
    assert_eq!(listing[0].status, "running");
}

#[test]
fn delete_exited_process_is_idempotent() {
    let mut reg = Registry::new();
    let id = create(&mut reg, "true");
    assert!(reg.resolve(&id, Some(0)));
    assert_eq!(delete_process(&mut reg, &id, true), DeleteOutcome::Deleted);
    assert_eq!(delete_process(&mut reg, &id, true), DeleteOutcome::NotFound);
    assert!(get_process(&reg, &id).is_none());
}

#[test]
fn failed_kill_keeps_record_for_retry() {
    let mut reg = Registry::new();
    let id = create(&mut reg, "sleep 100");
    assert_eq!(delete_process(&mut reg, &id, false), DeleteOutcome::KillFailed);
    let p = get_process(&reg, &id).unwrap();
    assert_eq!(p.status, "running");
    assert_eq!(delete_process(&mut reg, &id, true), DeleteOutcome::Deleted);
}

#[test]
fn log_grows_by_prefix_extension() {
    let mut reg = Registry::new();
    let id = create(&mut reg, "cat data");
    let log0 = get_process(&reg, &id).unwrap().log;
    assert_eq!(log0, "");
    assert!(reg.append_line(&id, "a".to_string()));
    let log1 = get_process(&reg, &id).unwrap().log;
    assert_eq!(log1, "a\n");
    assert!(reg.append_line(&id, "b".to_string()));
    let log2 = get_process(&reg, &id).unwrap().log;
    assert_eq!(log2, "a\nb\n");
    assert!(log1.starts_with(&log0));
    assert!(log2.starts_with(&log1));
}

#[test]
fn status_strings_are_exact() {
    assert_eq!(ProcessStatus::Running.status_string(), "running");
    assert_eq!(ProcessStatus::Killed.status_string(), "killed");
    assert_eq!(ProcessStatus::Done(0).status_string(), "done 0");
    assert_eq!(ProcessStatus::Done(7).status_string(), "done 7");
    assert_eq!(ProcessStatus::Done(123).status_string(), "done 123");
    assert_eq!(ProcessStatus::Done(-9).status_string(), "done -9");
    assert_eq!(ProcessStatus::Done(i32::MAX).status_string(), "done 2147483647");
    assert_eq!(ProcessStatus::Done(i32::MIN).status_string(), "done -2147483648");
}

#[test]
fn resolve_without_exit_code_reads_killed() {
    let mut reg = Registry::new();
    let id = create(&mut reg, "sleep 100");
    assert!(reg.is_running(&id));
    assert!(reg.resolve(&id, None));
    assert!(!reg.is_running(&id));
    assert_eq!(get_process(&reg, &id).unwrap().status, "killed");
}

#[test]
fn is_running_tracks_lifecycle() {
    let mut reg = Registry::new();
    assert!(!reg.is_running(&"unknown".to_string()));
    let id = create(&mut reg, "true");
    assert!(reg.is_running(&id));
    assert!(reg.resolve(&id, Some(0)));
    assert!(!reg.is_running(&id));
    assert_eq!(delete_process(&mut reg, &id, true), DeleteOutcome::Deleted);
    assert!(!reg.is_running(&id));
}

#[test]
fn resolve_unknown_id_changes_nothing() {
    let mut reg = Registry::new();
    let id = create(&mut reg, "true");
    assert!(!reg.resolve(&"unknown".to_string(), Some(3)));
    assert!(!reg.append_line(&"unknown".to_string(), "x".to_string()));
    assert_eq!(get_process(&reg, &id).unwrap().status, "running");
    assert_eq!(get_process(&reg, &id).unwrap().log, "");
}

#[test]
fn two_processes_are_independent() {
    let mut reg = Registry::new();
    let a = create(&mut reg, "echo one");
    let b = create(&mut reg, "echo two");
    assert_ne!(a, b);
    assert!(reg.append_line(&a, "one".to_string()));
    assert!(reg.resolve(&b, Some(2)));
    let pa = get_process(&reg, &a).unwrap();
    let pb = get_process(&reg, &b).unwrap();
    assert_eq!(pa.log, "one\n");
    assert_eq!(pa.status, "running");
    assert_eq!(pb.log, "");
    assert_eq!(pb.status, "done 2");
    let listing = get_processes(&reg);
    assert_eq!(listing.len(), 2);
    assert_eq!(listing[0].uuid, a);
    assert_eq!(listing[1].uuid, b);
}

#[test]
fn identifiers_look_like_uuids() {
    let mut reg = Registry::new();
    let a = create(&mut reg, "true");
    let b = create(&mut reg, "true");
    assert_eq!(a.len(), 36);
    assert_eq!(b.len(), 36);
    assert_ne!(a, b);
}

#[test]
fn live_log_delivers_appended_lines_in_order() {
    let mut reg = Registry::new();
    let id = create(&mut reg, "cat data");
    assert!(get_process_live_log(&reg, &"unknown".to_string()).is_none());
    let mut rx = get_process_live_log(&reg, &id).unwrap();
    assert!(reg.append_line(&id, "first".to_string()));
    assert!(reg.append_line(&id, "second".to_string()));
    assert_eq!(rx.try_recv().unwrap(), "first\n");
    assert_eq!(rx.try_recv().unwrap(), "second\n");
    assert!(rx.try_recv().is_err());
}

#[test]
fn late_subscriber_sees_no_replay() {
    let mut reg = Registry::new();
    let id = create(&mut reg, "cat data");
    assert!(reg.append_line(&id, "early".to_string()));
    let mut rx = get_process_live_log(&reg, &id).unwrap();
    assert!(rx.try_recv().is_err());
    assert!(reg.append_line(&id, "late".to_string()));
    assert_eq!(rx.try_recv().unwrap(), "late\n");
    assert_eq!(get_process(&reg, &id).unwrap().log, "early\nlate\n");
}
