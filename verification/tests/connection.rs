use ipc::connection::{
    begin, default_path, Backoff, ConnectionError, DefaultPath, Platform, SocketPathError,
    DEFAULT_APP_DIR, DEFAULT_DAEMON_PORT, DEFAULT_DAEMON_SOCKET,
};
use ipc::error::IoError;

fn delays(initial: u128, max: u128) -> Vec<u128> {
    let mut backoff = Backoff::new(initial, max);
    let mut out = Vec::new();
    while let Some(sleep) = backoff.next_delay() {
        out.push(sleep);
        assert!(out.len() < 1000);
    }
    out
}

#[test]
fn delays_double_up_to_the_cap() {
    // 100 ms at first, 5 s at most.
    let ms = 1_000_000u128;
    assert_eq!(
        delays(100 * ms, 5000 * ms),
        vec![100 * ms, 200 * ms, 400 * ms, 800 * ms, 1600 * ms, 3200 * ms]
    );
}

#[test]
fn delays_never_shrink_and_stay_within_the_cap() {
    for (initial, max) in [(1u128, 1000u128), (3, 7), (5, 5), (1, u128::MAX), (7, 8)] {
        let mut backoff = Backoff::new(initial, max);
        let mut last = backoff.timeout();
        while backoff.next_delay().is_some() {
            assert!(backoff.timeout() >= last);
            assert!(backoff.timeout() <= max);
            last = backoff.timeout();
        }
        assert_eq!(backoff.timeout(), max);
        assert_eq!(backoff.max_timeout(), max);
    }
}

#[test]
fn a_delay_at_the_cap_gives_up_at_once() {
    let mut backoff = Backoff::new(5, 5);
    assert_eq!(backoff.next_delay(), None);
    assert_eq!(backoff.timeout(), 5);
}

#[test]
fn a_first_delay_over_the_cap_is_slept_once() {
    assert_eq!(delays(10, 5), vec![10]);
}

#[test]
fn a_first_delay_of_zero_is_slept_once() {
    assert_eq!(delays(0, 5_000_000_000), vec![0]);
    let mut backoff = Backoff::new(0, 7);
    assert_eq!(backoff.next_delay(), Some(0));
    assert_eq!(backoff.timeout(), 7);
    assert_eq!(backoff.next_delay(), None);
    assert_eq!(delays(0, 0), Vec::<u128>::new());
}

#[test]
fn exhaustion_is_a_timeout() {
    let mut backoff = Backoff::new(2, 4);
    assert_eq!(backoff.after_failure().unwrap(), 2);
    assert_eq!(backoff.timeout(), 4);
    match backoff.after_failure() {
        Err(ConnectionError::Timeout) => {}
        other => panic!("{:?}", other.map_err(|e| e.to_string())),
    }
    assert_eq!(backoff.timeout(), 4);
}

#[test]
fn connecting_begins_with_the_endpoint_and_the_schedule() {
    match begin(Platform::Unix, Ok("/Users/me".to_string()), 100, 800) {
        Ok((DefaultPath::Unix(segments), backoff)) => {
            assert_eq!(segments[0], "/Users/me");
            assert_eq!(segments[4], "perpetua_daemon.sock");
            assert_eq!(backoff.timeout(), 100);
            assert_eq!(backoff.max_timeout(), 800);
        }
        _ => panic!("no endpoint"),
    }
    match begin(Platform::Windows, Err("none".to_string()), 1, 2) {
        Ok((DefaultPath::Tcp(host, port), backoff)) => {
            assert_eq!(host, "127.0.0.1");
            assert_eq!(port, 55652);
            assert_eq!(backoff.timeout(), 1);
        }
        _ => panic!("no endpoint"),
    }
}

#[test]
fn connecting_ends_before_it_begins_without_a_home_directory() {
    match begin(Platform::Unix, Err("environment variable not found".to_string()), 100, 800) {
        Err(ConnectionError::SocketPath(SocketPathError::HomeDirNotFound(reason))) => {
            assert_eq!(reason, "environment variable not found")
        }
        _ => panic!("an endpoint without a home directory"),
    }
}

#[test]
fn doubling_does_not_overflow() {
    let mut backoff = Backoff::new(u128::MAX - 1, u128::MAX);
    assert_eq!(backoff.next_delay(), Some(u128::MAX - 1));
    assert_eq!(backoff.timeout(), u128::MAX);
    assert_eq!(backoff.next_delay(), None);
}

#[test]
fn the_socket_lies_under_the_home_directory() {
    match default_path(Platform::Unix, Ok("/Users/me".to_string())) {
        Ok(DefaultPath::Unix(segments)) => assert_eq!(
            segments,
            vec!["/Users/me", "Library", "Caches", "Perpetua", "perpetua_daemon.sock"]
        ),
        other => panic!("{:?}", other),
    }
    assert_eq!(DEFAULT_APP_DIR, "Perpetua");
    assert_eq!(DEFAULT_DAEMON_SOCKET, "perpetua_daemon.sock");
}

#[test]
fn without_a_home_directory_there_is_no_socket() {
    match default_path(Platform::Unix, Err("environment variable not found".to_string())) {
        Err(SocketPathError::HomeDirNotFound(reason)) => {
            assert_eq!(reason, "environment variable not found")
        }
        other => panic!("{:?}", other),
    }
}

#[test]
fn the_port_is_fixed_where_sockets_are_tcp() {
    for home in [Ok("C:\\Users\\me".to_string()), Err("none".to_string())] {
        match default_path(Platform::Windows, home) {
            Ok(DefaultPath::Tcp(host, port)) => {
                assert_eq!(host, "127.0.0.1");
                assert_eq!(port, 55652);
                assert_eq!(port, DEFAULT_DAEMON_PORT);
            }
            other => panic!("{:?}", other),
        }
    }
}

#[test]
fn errors_in_words() {
    assert_eq!(ConnectionError::Timeout.to_string(), "connection timed out");
    let path = SocketPathError::HomeDirNotFound("environment variable not found".to_string());
    assert_eq!(
        path.to_string(),
        "could not determine $HOME: `environment variable not found`"
    );
    assert_eq!(
        ConnectionError::SocketPath(path).to_string(),
        "could not determine $HOME: `environment variable not found`"
    );
    assert_eq!(
        ConnectionError::Io(IoError::new("broken pipe".to_string())).to_string(),
        "broken pipe"
    );
}
