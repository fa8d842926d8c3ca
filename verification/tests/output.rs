use std::time::Duration;

use kindlebridge::cli::output::{
    format_app, format_exec, format_transfer_summary, format_tree_summary, process_exit_code,
    Elapsed,
};
use kindlebridge::model::{AppState, AppSummary, ExecResult};

fn elapsed(duration: Duration, bytes: u64) -> Elapsed {
    let seconds = duration.as_secs_f64();
    Elapsed {
        is_zero: duration.is_zero(),
        seconds: format!("{seconds:.2}"),
        mib_per_second: format!("{:.2}", bytes as f64 / (1024.0 * 1024.0) / seconds),
    }
}

#[test]
fn sync_human_summary_reports_elapsed_time_and_throughput() {
    assert_eq!(
        format_transfer_summary(
            "pushed",
            32 * 1024 * 1024,
            "to",
            "apps/payload.bin",
            "push-test",
            &elapsed(Duration::from_secs(2), 32 * 1024 * 1024),
            false,
        ),
        "pushed 33554432 bytes to apps/payload.bin in 2.00 s (16.00 MiB/s) (push-test)"
    );
}

#[test]
fn human_summary_reports_elapsed_time_and_throughput() {
    assert_eq!(
        format_transfer_summary(
            "pushed",
            32 * 1024 * 1024,
            "to",
            "apps/payload.bin",
            "push-test",
            &elapsed(Duration::from_secs(2), 32 * 1024 * 1024),
            false,
        ),
        "pushed 33554432 bytes to apps/payload.bin in 2.00 s (16.00 MiB/s) (push-test)"
    );
}

#[test]
fn a_resumed_or_instant_transfer_has_no_rate() {
    assert_eq!(
        format_transfer_summary(
            "pulled",
            10,
            "to",
            "/tmp/x",
            "pull-1",
            &elapsed(Duration::from_secs(2), 10),
            true
        ),
        "pulled 10 bytes to /tmp/x in 2.00 s (pull-1)"
    );
    assert_eq!(
        format_transfer_summary(
            "pulled",
            10,
            "to",
            "/tmp/x",
            "pull-1",
            &elapsed(Duration::ZERO, 10),
            false
        ),
        "pulled 10 bytes to /tmp/x in 0.00 s (pull-1)"
    );
}

#[test]
fn tree_summary_counts_files_directories_and_bytes() {
    assert_eq!(
        format_tree_summary("push", 2, 3, 4096, "0.10"),
        "pushed 2 files in 3 directories (4096 bytes) in 0.10 s"
    );
}

fn app(state: AppState, pid: Option<u32>) -> AppSummary {
    AppSummary {
        app_id: "org.example.reader".to_owned(),
        version: "1.2.3".to_owned(),
        state,
        rollback_available: true,
        pid,
    }
}

#[test]
fn human_summary_formats_each_runtime_state() {
    assert_eq!(
        format_app(&app(AppState::Stopped, None)),
        "org.example.reader\t1.2.3\tstopped"
    );
    assert_eq!(
        format_app(&app(AppState::Running, Some(2048))),
        "org.example.reader\t1.2.3\trunning pid=2048"
    );
    assert_eq!(
        format_app(&app(AppState::Failed, None)),
        "org.example.reader\t1.2.3\tfailed"
    );
}

#[test]
fn exec_output_names_a_failing_exit_code() {
    let result = ExecResult {
        exit_code: -1,
        stdout: "out\n".to_owned(),
        stderr: "err\n".to_owned(),
        duration_ms: 1,
    };
    assert_eq!(format_exec(&result), "out\nerr\n[exit -1]");
}

#[test]
fn exit_codes_outside_a_byte_become_one() {
    assert_eq!(process_exit_code(0), 0);
    assert_eq!(process_exit_code(255), 255);
    assert_eq!(process_exit_code(256), 1);
    assert_eq!(process_exit_code(-1), 1);
}
