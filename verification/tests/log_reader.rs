use ipc::connection::Platform;
use ipc::log_reader::{
    get_log_file_path, log_file_not_found, read_all_lines, read_daemon_logs, read_last_n_lines,
};

fn lines(n: usize) -> Vec<Option<String>> {
    (1..=n).map(|i| Some(format!("Line {}", i))).collect()
}

#[test]
fn test_read_last_n_lines() {
    let file = lines(100);

    // Read last 10 lines
    let lines = read_last_n_lines(&file, 10);
    assert_eq!(lines.len(), 10);
    assert_eq!(lines[0], "Line 91");
    assert_eq!(lines[9], "Line 100");
}

#[test]
fn test_read_all_lines() {
    let file = lines(50);

    let lines = read_all_lines(&file);
    assert_eq!(lines.len(), 50);
    assert_eq!(lines[0], "Line 1");
    assert_eq!(lines[49], "Line 50");
}

#[test]
fn fewer_lines_than_asked_for_are_all_shown() {
    assert_eq!(read_last_n_lines(&lines(3), 10), vec!["Line 1", "Line 2", "Line 3"]);
    assert_eq!(read_last_n_lines(&lines(3), 3), vec!["Line 1", "Line 2", "Line 3"]);
    assert_eq!(read_last_n_lines(&lines(3), 0), Vec::<String>::new());
    assert_eq!(read_last_n_lines(&lines(0), 5), Vec::<String>::new());
}

#[test]
fn lines_that_could_not_be_read_are_left_out() {
    let file = vec![
        Some("a".to_string()),
        None,
        Some("b".to_string()),
        None,
        Some("c".to_string()),
    ];
    assert_eq!(read_all_lines(&file), vec!["a", "b", "c"]);
    assert_eq!(read_last_n_lines(&file, 2), vec!["b", "c"]);
}

#[test]
fn the_part_of_the_log_that_is_shown() {
    let file = lines(250);
    let all = read_daemon_logs(10, true, "/tmp/daemon.log".to_string(), &file);
    assert_eq!(all.total_lines, 250);
    assert_eq!(all.logs.len(), 250);
    assert_eq!(all.log_file, "/tmp/daemon.log");
    let some = read_daemon_logs(10, false, "f".to_string(), &file);
    assert_eq!(some.total_lines, 10);
    assert_eq!(some.logs[0], "Line 241");
    let default = read_daemon_logs(0, false, "f".to_string(), &file);
    assert_eq!(default.total_lines, 100);
    assert_eq!(default.logs[0], "Line 151");
    assert_eq!(default.logs[99], "Line 250");
}

#[test]
fn where_the_log_lies() {
    assert_eq!(
        get_log_file_path(Platform::Unix, Some("/Users/me".to_string())),
        Ok(vec![
            "/Users/me".to_string(),
            "Library".to_string(),
            "Caches".to_string(),
            "Perpetua".to_string(),
            "daemon.log".to_string()
        ])
    );
    assert_eq!(
        get_log_file_path(Platform::Windows, Some("C:\\Users\\me".to_string())),
        Ok(vec![
            "C:\\Users\\me".to_string(),
            "AppData".to_string(),
            "Local".to_string(),
            "Perpetua".to_string(),
            "daemon.log".to_string()
        ])
    );
    assert_eq!(
        get_log_file_path(Platform::Unix, None),
        Err("Could not determine home directory".to_string())
    );
    assert_eq!(log_file_not_found("/x/daemon.log"), "Log file not found: /x/daemon.log");
}
