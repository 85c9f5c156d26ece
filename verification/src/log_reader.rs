//! The service's log file: where it lies, and which of its lines are shown.
//!
//! Reading the file is the caller's part. This module names the file and
//! picks the lines.

use crate::connection::{Platform, DEFAULT_APP_DIR};
use vstd::prelude::*;

verus! {

/// The file name of the service's log.
pub const LOG_FILE_NAME: &'static str = "daemon.log";

/// The number of lines shown where the caller names none.
pub const DEFAULT_LINES: usize = 100;

/// A part of the log, ready to be shown.
#[derive(Debug, Clone)]
pub struct LogResponse {
    /// The lines.
    pub logs: Vec<String>,
    /// The number of lines in `logs`.
    pub total_lines: usize,
    /// The path of the file that the lines are from.
    pub log_file: String,
}

/// The segments of the log file's path under `home` on `platform`.
pub open spec fn log_file_segments(platform: Platform, home: Seq<char>) -> Seq<Seq<char>> {
    match platform {
        Platform::Unix => seq![home, "Library"@, "Caches"@, DEFAULT_APP_DIR@, LOG_FILE_NAME@],
        Platform::Windows => seq![home, "AppData"@, "Local"@, DEFAULT_APP_DIR@, LOG_FILE_NAME@],
    }
}

/// The lines that could be read, in their order: `None` stands for a line
/// that could not.
pub open spec fn readable(lines: Seq<Option<Seq<char>>>) -> Seq<Seq<char>>
    decreases lines.len(),
{
    if lines.len() == 0 {
        Seq::empty()
    } else {
        match lines.last() {
            Some(line) => readable(lines.drop_last()).push(line),
            None => readable(lines.drop_last()),
        }
    }
}

/// The last `n` of `lines`, or all of them where there are no more than `n`.
pub open spec fn last_n(lines: Seq<Seq<char>>, n: nat) -> Seq<Seq<char>> {
    if lines.len() <= n {
        lines
    } else {
        lines.skip(lines.len() - n)
    }
}

/// The number of lines to show when the caller asked for `num_lines`: that
/// many, or `DEFAULT_LINES` where the caller asked for none.
pub open spec fn lines_wanted(num_lines: usize) -> usize {
    if num_lines == 0 {
        DEFAULT_LINES
    } else {
        num_lines
    }
}

/// The path of the service's log file, as its segments: the home directory
/// first, the file name last. Without a home directory there is no path.
pub fn get_log_file_path(platform: Platform, home: Option<String>) -> (res: Result<
    Vec<String>,
    String,
>)
    ensures
        match home {
            Some(dir) => res matches Ok(segments) && segments.deep_view() == log_file_segments(
                platform,
                dir@,
            ),
            None => res matches Err(reason) && reason@ == "Could not determine home directory"@,
        },
{
    match home {
        None => Err("Could not determine home directory".to_owned()),
        Some(dir) => {
            let mut segments: Vec<String> = Vec::new();
            segments.push(dir);
            match platform {
                Platform::Unix => {
                    segments.push("Library".to_owned());
                    segments.push("Caches".to_owned());
                },
                Platform::Windows => {
                    segments.push("AppData".to_owned());
                    segments.push("Local".to_owned());
                },
            }
            segments.push(DEFAULT_APP_DIR.to_owned());
            segments.push(LOG_FILE_NAME.to_owned());
            Ok(segments)
        },
    }
}

/// What is reported when there is no file at `path`.
pub fn log_file_not_found(path: &str) -> (reason: String)
    ensures
        reason@ == "Log file not found: "@ + path@,
{
    let mut reason = "Log file not found: ".to_owned();
    reason.append(path);
    reason
}

/// The lines of a file that could be read, in their order.
pub fn read_all_lines(lines: &Vec<Option<String>>) -> (out: Vec<String>)
    ensures
        out.deep_view() == readable(lines.deep_view()),
{
    let mut out: Vec<String> = Vec::new();
    let mut i: usize = 0;
    while i < lines.len()
        invariant
            i <= lines.len(),
            out.deep_view() == readable(lines.deep_view().take(i as int)),
        decreases lines.len() - i,
    {
        assert(lines.deep_view().take(i + 1).drop_last() =~= lines.deep_view().take(i as int));
        match &lines[i] {
            Some(line) => {
                out.push(line.clone());
            },
            None => {},
        }
        i += 1;
    }
    assert(lines.deep_view().take(lines.len() as int) =~= lines.deep_view());
    out
}

/// The last `n` lines of a file that could be read, or all of them where
/// there are no more than `n`.
pub fn read_last_n_lines(lines: &Vec<Option<String>>, n: usize) -> (out: Vec<String>)
    ensures
        out.deep_view() == last_n(readable(lines.deep_view()), n as nat),
{
    let all = read_all_lines(lines);
    if all.len() <= n {
        return all;
    }
    let start = all.len() - n;
    let mut out: Vec<String> = Vec::new();
    let mut i: usize = start;
    while i < all.len()
        invariant
            start <= i <= all.len(),
            out.deep_view() == all.deep_view().subrange(start as int, i as int),
        decreases all.len() - i,
    {
        let ghost old_out = out.deep_view();
        out.push(all[i].clone());
        assert(out.deep_view() =~= old_out.push(all[i as int]@));
        i += 1;
    }
    out
}

/// The part of the log to show: every line that could be read if `all` is
/// set, else the last `num_lines` of them, or the last `DEFAULT_LINES` where
/// `num_lines` is zero.
pub fn read_daemon_logs(num_lines: usize, all: bool, log_file: String, lines: &Vec<Option<String>>)
    -> (response: LogResponse)
    ensures
        response.logs.deep_view() == if all {
            readable(lines.deep_view())
        } else {
            last_n(readable(lines.deep_view()), lines_wanted(num_lines) as nat)
        },
        response.total_lines == response.logs.len(),
        response.log_file@ == log_file@,
{
    let logs = if all {
        read_all_lines(lines)
    } else {
        let lines_to_read = if num_lines == 0 {
            DEFAULT_LINES
        } else {
            num_lines
        };
        read_last_n_lines(lines, lines_to_read)
    };
    LogResponse { total_lines: logs.len(), log_file, logs }
}

} // verus!
