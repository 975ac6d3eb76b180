use goalnet::config::ConfigProcess;
use goalnet::errors::Error;
use goalnet::locator::{get_process, ProcessEntry};

fn snapshot() -> Vec<ProcessEntry> {
    vec![
        ProcessEntry { pid: 100, name: String::from("init") },
        ProcessEntry { pid: 2203, name: String::from("game.exe") },
        ProcessEntry { pid: 2205, name: String::from("game.exe") },
        ProcessEntry { pid: 3001, name: String::from("editor") },
    ]
}

#[test]
fn pid_query_succeeds_when_live() {
    let q = ConfigProcess { name: None, pid: Some(2205) };
    assert_eq!(get_process(&q, &snapshot()), Ok(2205));
}

#[test]
fn pid_query_fails_when_absent() {
    let q = ConfigProcess { name: None, pid: Some(4444) };
    assert_eq!(get_process(&q, &snapshot()), Err(Error::ProcessNotFound));
}

#[test]
fn name_query_returns_first_match() {
    let q = ConfigProcess { name: Some(String::from("game.exe")), pid: None };
    assert_eq!(get_process(&q, &snapshot()), Ok(2203));
}

#[test]
fn name_query_is_exact() {
    let q = ConfigProcess { name: Some(String::from("game")), pid: None };
    assert_eq!(get_process(&q, &snapshot()), Err(Error::ProcessNotFound));
}

#[test]
fn both_criteria_is_config_error() {
    let q = ConfigProcess { name: Some(String::from("init")), pid: Some(100) };
    assert_eq!(get_process(&q, &snapshot()), Err(Error::ConfigError));
}

#[test]
fn neither_criterion_is_config_error() {
    let q = ConfigProcess { name: None, pid: None };
    assert_eq!(get_process(&q, &snapshot()), Err(Error::ConfigError));
}

#[test]
fn empty_snapshot_finds_nothing() {
    let q = ConfigProcess { name: Some(String::from("init")), pid: None };
    assert_eq!(get_process(&q, &Vec::new()), Err(Error::ProcessNotFound));
}
