use download_manager::app_event::AppEvent;
use download_manager::download::{
    choose_strategy, parse_header, parse_u64, part_ranges, range_header, remaining_bytes,
    transfer_finished, MetadataProbe, ProbeStep, MAX_ATTEMPTS, NUM_PARTS,
};
use download_manager::job::{DownloadJob, DownloadStrategy};
use download_manager::text::format_decimal;

#[test]
fn retry_schedule_doubles() {
    let mut p = MetadataProbe::new();
    let mut pauses = vec![];
    while p.should_request() {
        match p.after_request(false) {
            ProbeStep::RetryAfter(s) => pauses.push(s),
            ProbeStep::ReadHeaders => unreachable!(),
        }
    }
    assert_eq!(pauses, vec![5, 10, 20, 40, 80]);
    assert_eq!(p.attempts, MAX_ATTEMPTS);
}

#[test]
fn success_reads_headers() {
    let mut p = MetadataProbe::new();
    assert_eq!(p.after_request(false), ProbeStep::RetryAfter(5));
    assert_eq!(p.after_request(true), ProbeStep::ReadHeaders);
    assert_eq!(p.attempts, 1);
    assert_eq!(p.delay_secs, 10);
}

#[test]
fn parsing_content_length() {
    assert_eq!(parse_u64("123"), Some(123));
    assert_eq!(parse_u64("+7"), Some(7));
    assert_eq!(parse_u64("0"), Some(0));
    assert_eq!(parse_u64("007"), Some(7));
    assert_eq!(parse_u64(""), None);
    assert_eq!(parse_u64("+"), None);
    assert_eq!(parse_u64("-1"), None);
    assert_eq!(parse_u64("12a"), None);
    assert_eq!(parse_u64(" 1"), None);
    assert_eq!(parse_u64("18446744073709551615"), Some(u64::MAX));
    assert_eq!(parse_u64("18446744073709551616"), None);
    assert_eq!(parse_u64("99999999999999999999x"), None);
}

#[test]
fn parse_agrees_with_std() {
    for s in ["42", "+42", "", "+", "-0", "0042", "4 2", "184467440737095516150"] {
        assert_eq!(parse_u64(s), s.parse::<u64>().ok(), "{s}");
    }
}

#[test]
fn parsing_reads_back_rendering() {
    for n in [0u64, 9, 10, 99, 12345, u64::MAX] {
        assert_eq!(parse_u64(&format_decimal(n)), Some(n));
    }
}

#[test]
fn strategy_from_accept_ranges() {
    assert_eq!(choose_strategy(Some(b"bytes")), DownloadStrategy::Parallel);
    assert_eq!(choose_strategy(Some(b"none")), DownloadStrategy::Sequential);
    assert_eq!(choose_strategy(Some(b"Bytes")), DownloadStrategy::Sequential);
    assert_eq!(choose_strategy(None), DownloadStrategy::Sequential);
}

#[test]
fn header_updates_job() {
    let mut job = DownloadJob::with_id(9, "u", "f");
    let events = parse_header(&mut job, Some("2048"), Some(b"bytes"));
    assert_eq!(job.size, 2048);
    assert_eq!(job.strategy, DownloadStrategy::Parallel);
    assert_eq!(events.len(), 2);
    assert!(matches!(events[0], AppEvent::JobSize(9, 2048)));
    assert!(matches!(events[1], AppEvent::JobStrategy(9, DownloadStrategy::Parallel)));
}

#[test]
fn header_without_length() {
    let mut job = DownloadJob::with_id(9, "u", "f");
    let events = parse_header(&mut job, Some("abc"), None);
    assert_eq!(job.size, 1);
    assert_eq!(job.strategy, DownloadStrategy::Sequential);
    assert_eq!(events.len(), 1);
    assert!(matches!(events[0], AppEvent::JobStrategy(9, DownloadStrategy::Sequential)));
    let mut other = DownloadJob::with_id(3, "u", "f");
    let events = parse_header(&mut other, None, Some(b"none"));
    assert_eq!(events.len(), 1);
    assert_eq!(other.size, 1);
}

#[test]
fn ranges_partition_file() {
    assert_eq!(part_ranges(10), vec![(0, 1), (2, 3), (4, 5), (6, 9)]);
    assert_eq!(part_ranges(4), vec![(0, 0), (1, 1), (2, 2), (3, 3)]);
    for size in [4u64, 5, 7, 100, 1_000_003] {
        let r = part_ranges(size);
        assert_eq!(r.len() as u64, NUM_PARTS);
        assert_eq!(r[0].0, 0);
        assert_eq!(r[3].1, size - 1);
        for i in 0..3 {
            assert_eq!(r[i + 1].0, r[i].1 + 1);
            assert!(r[i].0 <= r[i].1);
        }
    }
}

#[test]
fn range_header_text() {
    assert_eq!(range_header(0, 99), "bytes=0-99");
    assert_eq!(range_header(100, 18446744073709551614), "bytes=100-18446744073709551614");
}

#[test]
fn monitor_helpers() {
    assert!(transfer_finished(10, 10));
    assert!(transfer_finished(11, 10));
    assert!(!transfer_finished(9, 10));
    assert_eq!(remaining_bytes(10, 4), 6);
}
