use serq::bridge::{debug_bridge_clear, debug_bridge_log, resume, Report, Request, Step};
use serq::failure::{Failure, FailureKind};

const MIB: usize = 1024 * 1024;

fn home() -> Result<String, String> {
    Ok("/home/ada".to_string())
}

fn payload(message: &str) -> String {
    format!(
        "{{\"level\":\"info\",\"message\":\"{}\",\"timestamp\":\"t\"}}",
        message
    )
}

/// A host that keeps the log file in memory and never fails. It carries out
/// the requests of one operation and counts them.
fn run(file: &mut Vec<u8>, first: Step) -> (Result<(), Failure>, usize) {
    let mut step = first;
    let mut requests = 0;
    loop {
        let request = match step {
            Step::Done => return (Ok(()), requests),
            Step::Fail(failure) => return (Err(failure), requests),
            Step::Ask(request) => request,
        };
        requests += 1;
        let report = match request {
            Request::Append { path, entry } => {
                assert_eq!(path, "/home/ada/.serq-debug.log");
                file.extend_from_slice(entry.as_bytes());
                Report::Appended { path }
            }
            Request::Measure { path } => Report::Measured {
                path,
                size: file.len() as u64,
            },
            Request::Load { path } => Report::Loaded {
                path,
                content: file.clone(),
            },
            Request::Overwrite { path, content } => {
                assert_eq!(path, "/home/ada/.serq-debug.log");
                *file = content;
                Report::Overwritten
            }
        };
        step = resume(report);
    }
}

fn append(file: &mut Vec<u8>, payload: &str) -> Result<(), Failure> {
    run(file, debug_bridge_log(home(), payload.to_string())).0
}

#[test]
fn an_append_asks_for_the_entry_at_the_log_path() {
    let step = debug_bridge_log(
        Ok("/Users/grace".to_string()),
        "{\"level\":\"warn\",\"message\":\"careful\",\"timestamp\":\"09:00\",\"source\":\"x.ts:3\"}"
            .to_string(),
    );
    assert_eq!(
        step,
        Step::Ask(Request::Append {
            path: "/Users/grace/.serq-debug.log".to_string(),
            entry: "[09:00] WARN: careful\n  at x.ts:3\n".to_string(),
        })
    );
}

#[test]
fn the_log_path_is_the_home_directory_and_the_file_name() {
    for (dir, path) in [
        ("/home/ada", "/home/ada/.serq-debug.log"),
        ("", "/.serq-debug.log"),
        ("/", "//.serq-debug.log"),
        ("C:\\Users\\ada", "C:\\Users\\ada/.serq-debug.log"),
    ] {
        match debug_bridge_clear(Ok(dir.to_string())) {
            Step::Ask(Request::Overwrite { path: asked, .. }) => assert_eq!(asked, path),
            other => panic!("unexpected step {:?}", other),
        }
    }
}

#[test]
fn after_the_append_the_file_is_measured() {
    let step = resume(Report::Appended {
        path: "p".to_string(),
    });
    assert_eq!(
        step,
        Step::Ask(Request::Measure {
            path: "p".to_string()
        })
    );
}

#[test]
fn a_file_within_the_ceiling_ends_the_append() {
    for size in [0, 1, 5 * 1024 * 1024] {
        let step = resume(Report::Measured {
            path: "p".to_string(),
            size,
        });
        assert_eq!(step, Step::Done);
    }
}

#[test]
fn a_file_above_the_ceiling_is_loaded() {
    for size in [5 * 1024 * 1024 + 1, u64::MAX] {
        let step = resume(Report::Measured {
            path: "p".to_string(),
            size,
        });
        assert_eq!(
            step,
            Step::Ask(Request::Load {
                path: "p".to_string()
            })
        );
    }
}

#[test]
fn a_loaded_file_is_overwritten_with_its_newest_lines() {
    let step = resume(Report::Loaded {
        path: "p".to_string(),
        content: b"old line\nnew line\n".to_vec(),
    });
    assert_eq!(
        step,
        Step::Ask(Request::Overwrite {
            path: "p".to_string(),
            content: b"new line\n".to_vec(),
        })
    );
}

#[test]
fn an_overwrite_ends_the_operation() {
    assert_eq!(resume(Report::Overwritten), Step::Done);
}

#[test]
fn a_file_that_cannot_be_opened_is_an_io_failure() {
    let step = resume(Report::OpenFailed {
        cause: "Permission denied (os error 13)".to_string(),
    });
    assert_eq!(
        step,
        Step::Fail(Failure {
            kind: FailureKind::Io,
            reason: "Failed to open log file: Permission denied (os error 13)".to_string(),
        })
    );
}

#[test]
fn an_entry_that_cannot_be_written_is_an_io_failure() {
    let step = resume(Report::WriteFailed {
        cause: "No space left on device (os error 28)".to_string(),
    });
    assert_eq!(
        step,
        Step::Fail(Failure {
            kind: FailureKind::Io,
            reason: "Failed to write to log file: No space left on device (os error 28)"
                .to_string(),
        })
    );
}

#[test]
fn any_other_failure_of_the_host_is_an_io_failure_with_its_cause() {
    let step = resume(Report::Failed {
        cause: "stream did not contain valid UTF-8".to_string(),
    });
    assert_eq!(
        step,
        Step::Fail(Failure {
            kind: FailureKind::Io,
            reason: "stream did not contain valid UTF-8".to_string(),
        })
    );
}

#[test]
fn without_a_home_directory_the_append_fails_at_once() {
    let step = debug_bridge_log(
        Err("environment variable not found".to_string()),
        payload("x"),
    );
    assert_eq!(
        step,
        Step::Fail(Failure {
            kind: FailureKind::Environment,
            reason: "environment variable not found".to_string(),
        })
    );
}

#[test]
fn a_missing_home_directory_is_told_before_a_malformed_payload() {
    let step = debug_bridge_log(Err("no home".to_string()), "not json".to_string());
    assert_eq!(
        step,
        Step::Fail(Failure {
            kind: FailureKind::Environment,
            reason: "no home".to_string(),
        })
    );
}

#[test]
fn without_a_home_directory_the_clearing_fails_at_once() {
    let step = debug_bridge_clear(Err("environment variable not found".to_string()));
    assert_eq!(
        step,
        Step::Fail(Failure {
            kind: FailureKind::Environment,
            reason: "environment variable not found".to_string(),
        })
    );
}

#[test]
fn the_first_append_makes_the_file() {
    let mut file = Vec::new();
    let (outcome, requests) = run(&mut file, debug_bridge_log(home(), payload("first")));
    assert_eq!(outcome, Ok(()));
    assert_eq!(requests, 2);
    assert_eq!(file, b"[t] INFO: first\n".to_vec());
}

#[test]
fn each_append_ends_the_file_with_its_entry() {
    let mut file = Vec::new();
    let mut whole = String::new();
    for (payload, entry) in [
        ("{}", "[] LOG: \n"),
        ("{\"level\":\"error\",\"message\":\"a\"}", "[] ERROR: a\n"),
        (
            "{\"message\":\"b\",\"stack\":\"x\\ny\",\"source\":\"s\"}",
            "[] LOG: b\n  at s\n  x\n  y\n",
        ),
        ("{\"timestamp\":\"ü\",\"message\":\"é\"}", "[ü] LOG: é\n"),
    ] {
        assert_eq!(append(&mut file, payload), Ok(()));
        assert!(file.ends_with(entry.as_bytes()));
        whole.push_str(entry);
        assert_eq!(file, whole.as_bytes().to_vec());
    }
}

#[test]
fn a_malformed_payload_leaves_the_file_as_it_was() {
    let mut file = b"[t] INFO: kept\n".to_vec();
    let before = file.clone();
    let (outcome, requests) = run(&mut file, debug_bridge_log(home(), "{oops".to_string()));
    let failure = outcome.unwrap_err();
    assert_eq!(failure.kind, FailureKind::Parse);
    assert_eq!(failure.reason, "key must be a string at line 1 column 2");
    assert_eq!(requests, 0);
    assert_eq!(file, before);
}

#[test]
fn an_append_that_reaches_the_ceiling_does_not_rotate() {
    let entry = "[t] INFO: x\n";
    let mut file = vec![b'a'; 5 * MIB - entry.len() - 1];
    file.push(b'\n');
    let (outcome, requests) = run(&mut file, debug_bridge_log(home(), payload("x")));
    assert_eq!(outcome, Ok(()));
    assert_eq!(requests, 2);
    assert_eq!(file.len(), 5 * MIB);
    assert!(file.ends_with(entry.as_bytes()));
}

#[test]
fn an_append_that_passes_the_ceiling_rotates() {
    let entry = "[t] INFO: x\n";
    let mut file = Vec::new();
    while file.len() + 50 <= 5 * MIB {
        file.extend_from_slice(&[b'a'; 49]);
        file.push(b'\n');
    }
    file.resize(5 * MIB - 1, b'b');
    file.push(b'\n');
    assert_eq!(file.len(), 5 * MIB);
    let mut whole = file.clone();
    whole.extend_from_slice(entry.as_bytes());

    let (outcome, requests) = run(&mut file, debug_bridge_log(home(), payload("x")));
    assert_eq!(outcome, Ok(()));
    assert_eq!(requests, 4);
    assert!(file.len() <= 5 * MIB);
    assert!(file.len() < MIB);
    assert!(file.len() > MIB - 50);
    assert!(!file.is_empty());
    assert!(whole.ends_with(&file));
    assert_eq!(whole[whole.len() - file.len() - 1], b'\n');
    assert!(file.ends_with(entry.as_bytes()));
    assert_eq!(file[..50], whole[..50]);
}

#[test]
fn many_appends_never_leave_the_file_above_the_ceiling() {
    let mut file = Vec::new();
    let message = "m".repeat(300_000);
    let mut rotations = 0;
    for _ in 0..40 {
        let before = file.len();
        assert_eq!(append(&mut file, &payload(&message)), Ok(()));
        assert!(file.len() <= 5 * MIB);
        assert!(file.starts_with(b"[t] INFO: mmm"));
        assert!(file.ends_with(b"mmm\n"));
        if file.len() < before {
            rotations += 1;
            assert!(file.len() < MIB);
        }
    }
    assert_eq!(rotations, 2);
}

#[test]
fn an_entry_of_a_mebibyte_is_lost_when_it_triggers_the_rotation() {
    // The entry fills the kept region alone: its only line feed is its last
    // byte, so nothing after it is left to keep.
    let head = "[t] INFO: ".len();
    let message = "m".repeat(MIB - head - 1);
    let mut file = vec![b'a'; 5 * MIB - 1];
    file.push(b'\n');
    let (outcome, requests) = run(&mut file, debug_bridge_log(home(), payload(&message)));
    assert_eq!(outcome, Ok(()));
    assert_eq!(requests, 4);
    assert_eq!(file, Vec::<u8>::new());
}

#[test]
fn an_entry_just_under_a_mebibyte_survives_the_rotation() {
    let head = "[t] INFO: ".len();
    let message = "m".repeat(MIB - head - 2);
    let mut file = vec![b'a'; 5 * MIB - 1];
    file.push(b'\n');
    assert_eq!(append(&mut file, &payload(&message)), Ok(()));
    assert_eq!(file.len(), MIB - 1);
    assert!(file.starts_with(b"[t] INFO: mm"));
    assert!(file.ends_with(b"mm\n"));
}

#[test]
fn clearing_asks_to_overwrite_the_file_with_nothing() {
    assert_eq!(
        debug_bridge_clear(home()),
        Step::Ask(Request::Overwrite {
            path: "/home/ada/.serq-debug.log".to_string(),
            content: Vec::new(),
        })
    );
}

#[test]
fn clearing_twice_leaves_the_file_empty_both_times() {
    let mut file = b"[t] INFO: old\n".to_vec();
    let (outcome, requests) = run(&mut file, debug_bridge_clear(home()));
    assert_eq!(outcome, Ok(()));
    assert_eq!(requests, 1);
    assert_eq!(file.len(), 0);
    let (outcome, requests) = run(&mut file, debug_bridge_clear(home()));
    assert_eq!(outcome, Ok(()));
    assert_eq!(requests, 1);
    assert_eq!(file.len(), 0);
}

#[test]
fn an_append_after_clearing_starts_the_file_anew() {
    let mut file = b"[t] INFO: old\n".to_vec();
    assert_eq!(run(&mut file, debug_bridge_clear(home())).0, Ok(()));
    assert_eq!(append(&mut file, &payload("new")), Ok(()));
    assert_eq!(file, b"[t] INFO: new\n".to_vec());
}
