use download_manager::job::{DownloadJob, DownloadStrategy, Status};
use download_manager::text::{format_decimal, format_pad2};

fn job_with(status: Status, strategy: DownloadStrategy) -> DownloadJob {
    let mut job = DownloadJob::with_id(7, "https://example.com/a.zip", "a.zip");
    job.status = status;
    job.strategy = strategy;
    job.progress = 512;
    job.size = 1024;
    job.speed = 100;
    job.eta = 5;
    job
}

#[test]
fn decimal_rendering() {
    assert_eq!(format_decimal(0), "0");
    assert_eq!(format_decimal(7), "7");
    assert_eq!(format_decimal(1234), "1234");
    assert_eq!(format_decimal(u64::MAX), "18446744073709551615");
}

#[test]
fn two_digit_padding() {
    assert_eq!(format_pad2(0), "00");
    assert_eq!(format_pad2(5), "05");
    assert_eq!(format_pad2(42), "42");
    assert_eq!(format_pad2(123), "123");
}

#[test]
fn eta_not_available_at_zero() {
    let mut job = DownloadJob::with_id(1, "", "f");
    job.eta = 0;
    assert_eq!(job.eta(), "N/A");
}

#[test]
fn eta_seconds_only() {
    let mut job = DownloadJob::with_id(1, "", "f");
    job.eta = 5;
    assert_eq!(job.eta(), "05s");
    job.eta = 59;
    assert_eq!(job.eta(), "59s");
}

#[test]
fn eta_minutes_and_seconds() {
    let mut job = DownloadJob::with_id(1, "", "f");
    job.eta = 65;
    assert_eq!(job.eta(), "1m 05s");
    job.eta = 3599;
    assert_eq!(job.eta(), "59m 59s");
}

#[test]
fn eta_hours_minutes_seconds() {
    let mut job = DownloadJob::with_id(1, "", "f");
    job.eta = 3725;
    assert_eq!(job.eta(), "1h 2m 05s");
    job.eta = 3600;
    assert_eq!(job.eta(), "1h 0m 00s");
}

#[test]
fn status_and_strategy_labels() {
    assert_eq!(Status::Pending.text(), "Pending");
    assert_eq!(Status::InProgress.text(), "In Progress");
    assert_eq!(Status::Completed.text(), "Completed");
    assert_eq!(Status::Failed.text(), "Failed");
    assert_eq!(DownloadStrategy::Unknown.text(), "Unknown");
    assert_eq!(DownloadStrategy::Sequential.text(), "Sequential");
    assert_eq!(DownloadStrategy::Parallel.text(), "Parallel");
}

#[test]
fn fresh_job_fields() {
    let job = DownloadJob::with_id(42, "https://x.org/f.iso", "f.iso");
    assert_eq!(job.id, 42);
    assert_eq!(job.url, "https://x.org/f.iso");
    assert_eq!(job.filename, "f.iso");
    assert_eq!(job.status, Status::Pending);
    assert_eq!(job.strategy, DownloadStrategy::Unknown);
    assert_eq!(job.progress, 0);
    assert_eq!(job.size, 1);
    assert_eq!(job.speed, 0);
    assert_eq!(job.eta, 0);
}

#[test]
fn new_job_gets_random_v4_id() {
    let a = DownloadJob::new("https://x.org/f.iso", "f.iso");
    let b = DownloadJob::new("https://x.org/f.iso", "f.iso");
    assert_eq!((a.id >> 76) & 0xf, 4);
    assert_eq!((a.id >> 62) & 0x3, 2);
    assert_ne!(a.id, b.id);
    assert_eq!(a.status, Status::Pending);
}

#[test]
fn duplicate_is_equal() {
    let job = job_with(Status::InProgress, DownloadStrategy::Parallel);
    let copy = job.duplicate();
    assert_eq!(copy.id, job.id);
    assert_eq!(copy.filename, job.filename);
    assert_eq!(copy.url, job.url);
    assert_eq!(copy.progress, job.progress);
}

#[test]
fn percent_base_avoids_zero() {
    let mut job = DownloadJob::with_id(1, "", "f");
    job.size = 0;
    assert_eq!(job.percent_base(), 1);
    job.size = 300;
    assert_eq!(job.percent_base(), 300);
}

#[test]
fn progress_cell_parallel_in_progress() {
    let job = job_with(Status::InProgress, DownloadStrategy::Parallel);
    assert_eq!(job.progress_cell(" 50.0"), "[ 50.0% 512 B/1.0 KiB - 100 B/s - ETA: 05s]");
}

#[test]
fn progress_cell_sequential_in_progress() {
    let job = job_with(Status::InProgress, DownloadStrategy::Sequential);
    assert_eq!(job.progress_cell(" 50.0"), "[512 B - 100 B/s]");
}

#[test]
fn progress_cell_not_running() {
    let job = job_with(Status::Completed, DownloadStrategy::Sequential);
    assert_eq!(job.progress_cell(" 50.0"), "[512 B ]");
    let job = job_with(Status::Pending, DownloadStrategy::Parallel);
    assert_eq!(job.progress_cell("  0.0"), "[  0.0% 512 B/1.0 KiB ]");
    let job = job_with(Status::InProgress, DownloadStrategy::Unknown);
    assert_eq!(job.progress_cell(" 50.0"), "");
}

#[test]
fn row_cells_order() {
    let job = job_with(Status::Failed, DownloadStrategy::Sequential);
    let cells = job.row_cells("  0.0");
    assert_eq!(
        cells,
        vec![
            "a.zip".to_string(),
            "Failed".to_string(),
            "[512 B ]".to_string(),
            "Sequential".to_string(),
            "https://example.com/a.zip".to_string(),
        ]
    );
}
