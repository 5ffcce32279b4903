use launcher::process::{
    exit_event, kill_command, kill_result, pid_event, spawn_failure, stderr_event, stdout_event,
    wait_failure, KillReport, Platform, ProcessListener,
};
use launcher::supervisor::Message;
use launcher::text::{contains, decimal_string};

fn finished(success: bool, status: &str, stderr: &str) -> KillReport {
    KillReport::Finished { success, status: status.to_string(), stderr: stderr.to_string() }
}

#[test]
fn listener_keeps_what_it_was_made_with() {
    let listener = ProcessListener::new(7, "/bin/bot".to_string(), "key".to_string());
    assert_eq!(listener.id(), 7);
    assert_eq!(listener.path(), "/bin/bot");
    assert_eq!(listener.api_key(), "key");
    assert_eq!(listener.arguments(), vec!["-k".to_string(), "key".to_string()]);
}

#[test]
fn pid_event_carries_the_pid_or_the_failure() {
    assert!(matches!(pid_event(3, Some(42)), Message::ProcessActualPid(3, 42)));
    match pid_event(3, None) {
        Message::ProcessError(3, text) => {
            assert_eq!(text, "Не удалось получить PID запущенного процесса.")
        }
        other => panic!("unexpected message {:?}", other),
    }
}

#[test]
fn spawn_failure_names_path_and_error() {
    match spawn_failure(2, "/bin/none", "No such file or directory (os error 2)") {
        Message::ProcessError(2, text) => assert_eq!(
            text,
            "Ошибка запуска процесса \"/bin/none\": No such file or directory (os error 2)"
        ),
        other => panic!("unexpected message {:?}", other),
    }
}

#[test]
fn stderr_lines_are_marked() {
    match stderr_event(5, "warning: low funds") {
        Message::ProcessOutput(5, text) => assert_eq!(text, "STDERR: warning: low funds"),
        other => panic!("unexpected message {:?}", other),
    }
    match stdout_event(5, "plain".to_string()) {
        Message::ProcessOutput(5, text) => assert_eq!(text, "plain"),
        other => panic!("unexpected message {:?}", other),
    }
}

#[test]
fn exit_without_code_counts_as_minus_one() {
    assert!(matches!(exit_event(1, Some(137)), Message::ProcessTerminated(1, 137)));
    assert!(matches!(exit_event(1, Some(0)), Message::ProcessTerminated(1, 0)));
    assert!(matches!(exit_event(1, None), Message::ProcessTerminated(1, -1)));
}

#[test]
fn wait_failure_names_the_pid() {
    match wait_failure(9, 1234, "interrupted") {
        Message::ProcessError(9, text) => {
            assert_eq!(text, "Ошибка ожидания процесса PID 1234: interrupted")
        }
        other => panic!("unexpected message {:?}", other),
    }
}

#[test]
fn kill_command_per_platform() {
    assert_eq!(
        kill_command(4242, Platform::Unix),
        Some(vec!["kill".to_string(), "4242".to_string()])
    );
    assert_eq!(
        kill_command(900, Platform::Windows),
        Some(vec![
            "taskkill".to_string(),
            "/F".to_string(),
            "/PID".to_string(),
            "900".to_string()
        ])
    );
    assert_eq!(kill_command(1, Platform::Other), None);
}

#[test]
fn successful_kill_is_ok() {
    assert_eq!(kill_result(1, Platform::Unix, finished(true, "exit status: 0", "")), Ok(()));
    assert_eq!(
        kill_result(1, Platform::Windows, finished(true, "exit code: 0", "")),
        Ok(())
    );
}

#[test]
fn kill_of_a_process_that_is_gone_is_ok() {
    assert_eq!(
        kill_result(
            77,
            Platform::Unix,
            finished(false, "exit status: 1", "kill: (77): No such process\n")
        ),
        Ok(())
    );
    assert_eq!(
        kill_result(
            77,
            Platform::Windows,
            finished(false, "exit code: 128", "ERROR: The process \"77\" not found.\r\n")
        ),
        Ok(())
    );
}

#[test]
fn rejected_kill_is_an_error_with_status_and_stderr() {
    assert_eq!(
        kill_result(
            1,
            Platform::Unix,
            finished(false, "exit status: 1", "kill: (1): Operation not permitted")
        ),
        Err("Команда kill для PID 1 завершилась с кодом: exit status: 1. Stderr: kill: (1): Operation not permitted".to_string())
    );
    assert_eq!(
        kill_result(
            8,
            Platform::Windows,
            finished(false, "exit code: 1", "ERROR: Access is denied.")
        ),
        Err("Команда taskkill для PID 8 завершилась с кодом: exit code: 1. Stderr: ERROR: Access is denied.".to_string())
    );
    assert!(kill_result(
        8,
        Platform::Windows,
        finished(false, "exit code: 1", "No such process")
    )
    .is_err());
}

#[test]
fn kill_that_could_not_be_issued_is_an_error() {
    assert_eq!(
        kill_result(5, Platform::Unix, KillReport::NotIssued("not found".to_string())),
        Err("Ошибка выполнения команды kill для PID 5: not found".to_string())
    );
    assert_eq!(
        kill_result(5, Platform::Windows, KillReport::NotIssued("denied".to_string())),
        Err("Ошибка выполнения команды taskkill для PID 5: denied".to_string())
    );
}

#[test]
fn kill_on_an_unsupported_system_is_an_error() {
    let expected = Err("Остановка процесса не поддерживается на этой ОС.".to_string());
    assert_eq!(kill_result(5, Platform::Other, finished(true, "", "")), expected);
    assert_eq!(
        kill_result(5, Platform::Other, KillReport::NotIssued("x".to_string())),
        expected
    );
}

#[test]
fn decimal_digits() {
    assert_eq!(decimal_string(0), "0");
    assert_eq!(decimal_string(7), "7");
    assert_eq!(decimal_string(10), "10");
    assert_eq!(decimal_string(4242), "4242");
    assert_eq!(decimal_string(1234567890), "1234567890");
    assert_eq!(decimal_string(u64::MAX), "18446744073709551615");
}

#[test]
fn substring_search() {
    assert!(contains("kill: No such process", "No such process"));
    assert!(contains("abc", ""));
    assert!(contains("", ""));
    assert!(contains("abc", "abc"));
    assert!(contains("aab", "ab"));
    assert!(contains("процесс не найден", "не"));
    assert!(!contains("abc", "abcd"));
    assert!(!contains("", "a"));
    assert!(!contains("No such proces", "No such process"));
    assert!(!contains("abcabc", "cb"));
}
