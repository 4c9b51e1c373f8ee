use archive_purge::{
    Action, ArchiveRecord, CalendarDate, Direction, FatalReason, FilterError, Phase, Pipeline,
    PostFields, RateLimitSignal, Reaction, RetryPolicy, RunResult, Step, TerminalOutcome,
    WorkItem, classify_response, date_is_in_scope, filter_records, parse_cutoff,
    parse_post_date, parse_u64,
};

fn date(year: i32, month: u32, day: u32) -> CalendarDate {
    CalendarDate { year, month, day }
}

fn post(id: &str, created_at: &str, raw: u32) -> ArchiveRecord<u32> {
    ArchiveRecord {
        post: Some(PostFields { id: id.to_string(), created_at: created_at.to_string() }),
        raw,
    }
}

fn placeholder(raw: u32) -> ArchiveRecord<u32> {
    ArchiveRecord { post: None, raw }
}

fn items(ids: &[u64]) -> Vec<WorkItem<u64>> {
    ids.iter().map(|&id| WorkItem { id, raw: id * 10 }).collect()
}

fn ids(p: &Pipeline<u64>) -> Vec<u64> {
    p.remaining().iter().map(|w| w.id).collect()
}

#[test]
fn parse_u64_accepts_digits() {
    assert_eq!(parse_u64("0"), Some(0));
    assert_eq!(parse_u64("1050118621198921728"), Some(1050118621198921728));
    assert_eq!(parse_u64("18446744073709551615"), Some(u64::MAX));
}

#[test]
fn parse_u64_rejects_other_text() {
    assert_eq!(parse_u64(""), None);
    assert_eq!(parse_u64("12a"), None);
    assert_eq!(parse_u64("-1"), None);
    assert_eq!(parse_u64(" 1"), None);
    assert_eq!(parse_u64("18446744073709551616"), None);
}

#[test]
fn post_date_reads_archive_timestamp() {
    assert_eq!(parse_post_date("Wed Oct 10 20:19:24 +0000 2018"), Some(date(2018, 10, 10)));
    assert_eq!(parse_post_date("Sat Jan 01 00:00:01 +0900 2022"), Some(date(2022, 1, 1)));
    assert_eq!(parse_post_date("2018-10-10"), None);
    assert_eq!(parse_post_date(""), None);
}

#[test]
fn cutoff_reads_iso_date() {
    assert_eq!(parse_cutoff("2020-03-15"), Some(date(2020, 3, 15)));
    assert_eq!(parse_cutoff("2020/03/15"), None);
    assert_eq!(parse_cutoff("2020-13-01"), None);
}

#[test]
fn date_scope_compares_days() {
    let cutoff = date(2020, 6, 15);
    assert!(date_is_in_scope(&date(2020, 6, 14), &cutoff, Direction::Before));
    assert!(date_is_in_scope(&date(2019, 12, 31), &cutoff, Direction::Before));
    assert!(!date_is_in_scope(&date(2020, 6, 15), &cutoff, Direction::Before));
    assert!(!date_is_in_scope(&date(2020, 6, 15), &cutoff, Direction::After));
    assert!(date_is_in_scope(&date(2020, 7, 1), &cutoff, Direction::After));
    assert!(!date_is_in_scope(&date(2020, 7, 1), &cutoff, Direction::Before));
}

#[test]
fn filter_skips_placeholders_and_keeps_order() {
    let records = vec![
        post("11", "Mon Jan 06 10:00:00 +0000 2020", 1),
        placeholder(2),
        post("33", "Tue Feb 04 10:00:00 +0000 2020", 3),
    ];
    let out = filter_records(records, date(2021, 1, 1), Direction::Before).unwrap();
    assert_eq!(out, vec![WorkItem { id: 11, raw: 1 }, WorkItem { id: 33, raw: 3 }]);
}

#[test]
fn filter_before_and_after_partition() {
    let make = || {
        vec![
            post("1", "Mon Jan 06 10:00:00 +0000 2020", 1),
            post("2", "Sat Jun 13 23:59:59 +0000 2020", 2),
            post("3", "Mon Jun 15 00:00:00 +0000 2020", 3),
            placeholder(4),
            post("5", "Wed Dec 30 08:00:00 +0000 2020", 5),
        ]
    };
    let cutoff = date(2020, 6, 14);
    let before = filter_records(make(), cutoff, Direction::Before).unwrap();
    let after = filter_records(make(), cutoff, Direction::After).unwrap();
    let b: Vec<u64> = before.iter().map(|w| w.id).collect();
    let a: Vec<u64> = after.iter().map(|w| w.id).collect();
    assert_eq!(b, vec![1, 2]);
    assert_eq!(a, vec![3, 5]);
}

#[test]
fn filter_excludes_cutoff_day_both_ways() {
    let make = || vec![post("7", "Sun Jun 14 12:00:00 +0000 2020", 7)];
    let cutoff = date(2020, 6, 14);
    assert_eq!(filter_records(make(), cutoff, Direction::Before).unwrap(), vec![]);
    assert_eq!(filter_records(make(), cutoff, Direction::After).unwrap(), vec![]);
}

#[test]
fn filter_reports_first_malformed_record() {
    let records = vec![
        post("1", "Mon Jan 06 10:00:00 +0000 2020", 1),
        post("2", "yesterday", 2),
        post("x", "Mon Jan 06 10:00:00 +0000 2020", 3),
    ];
    assert_eq!(
        filter_records(records, date(2021, 1, 1), Direction::Before),
        Err(FilterError::MalformedRecord { index: 1 })
    );
    let bad_id = vec![placeholder(0), post("12z", "Mon Jan 06 10:00:00 +0000 2020", 1)];
    assert_eq!(
        filter_records(bad_id, date(2021, 1, 1), Direction::Before),
        Err(FilterError::MalformedRecord { index: 1 })
    );
}

#[test]
fn filter_of_empty_archive_is_empty() {
    let out = filter_records(Vec::<ArchiveRecord<u32>>::new(), date(2021, 1, 1), Direction::After);
    assert_eq!(out, Ok(vec![]));
}

#[test]
fn policy_maps_each_signal() {
    let p = RetryPolicy::new(60);
    assert_eq!(p.next_action(&RateLimitSignal::Success, 1, 0), Action::Proceed(TerminalOutcome::Deleted));
    assert_eq!(
        p.next_action(&RateLimitSignal::NotFound, 1, 0),
        Action::Proceed(TerminalOutcome::SkippedNotFound)
    );
    assert_eq!(
        p.next_action(&RateLimitSignal::Failure { status: 401, body: "no".to_string() }, 1, 0),
        Action::Fatal(FatalReason::UnexpectedStatus { status: 401 })
    );
    assert_eq!(
        p.next_action(&RateLimitSignal::TransportError, 1, 0),
        Action::Fatal(FatalReason::TransportFailure)
    );
}

#[test]
fn policy_throttle_waits() {
    let p = RetryPolicy::new(60);
    let hinted = RateLimitSignal::TooManyRequests { retry_after: Some(30), reset_at: Some(5000) };
    assert_eq!(p.next_action(&hinted, 7, 1000), Action::WaitThen(30));
    let reset = RateLimitSignal::TooManyRequests { retry_after: None, reset_at: Some(1900) };
    assert_eq!(p.next_action(&reset, 1, 1000), Action::WaitThen(900));
    assert_eq!(p.next_action(&reset, 1, 2500), Action::WaitThen(0));
    let bare = RateLimitSignal::TooManyRequests { retry_after: None, reset_at: None };
    assert_eq!(p.next_action(&bare, 1, 1000), Action::WaitThen(60));
}

#[test]
fn policy_attempt_ceiling() {
    let p = RetryPolicy::new(60).with_max_attempts(3);
    let bare = RateLimitSignal::TooManyRequests { retry_after: Some(1), reset_at: None };
    assert_eq!(p.next_action(&bare, 2, 0), Action::WaitThen(1));
    assert_eq!(p.next_action(&bare, 3, 0), Action::Fatal(FatalReason::RetriesExhausted));
    assert_eq!(p.next_action(&RateLimitSignal::Success, 9, 0), Action::Proceed(TerminalOutcome::Deleted));
}

#[test]
fn classify_statuses_and_headers() {
    assert_eq!(classify_response(200, None, None, String::new()), RateLimitSignal::Success);
    assert_eq!(classify_response(204, Some("5"), None, String::new()), RateLimitSignal::Success);
    assert_eq!(classify_response(404, None, None, String::new()), RateLimitSignal::NotFound);
    assert_eq!(
        classify_response(429, Some("30"), Some("1700000000"), String::new()),
        RateLimitSignal::TooManyRequests { retry_after: Some(30), reset_at: Some(1700000000) }
    );
    assert_eq!(
        classify_response(429, Some("soon"), None, String::new()),
        RateLimitSignal::TooManyRequests { retry_after: None, reset_at: None }
    );
    assert_eq!(
        classify_response(500, None, None, "boom".to_string()),
        RateLimitSignal::Failure { status: 500, body: "boom".to_string() }
    );
}

#[test]
fn archive_scenario_deletes_all_with_one_wait() {
    let records = vec![
        post("101", "Mon Jan 06 10:00:00 +0000 2020", 1),
        placeholder(2),
        post("102", "Tue Feb 04 10:00:00 +0000 2020", 3),
    ];
    let queue = filter_records(records, date(2021, 1, 1), Direction::Before).unwrap();
    assert_eq!(queue.len(), 2);
    let mut p = Pipeline::new(queue, RetryPolicy::new(60), 3);
    let mut log: Vec<String> = Vec::new();
    let mut calls = 0;
    loop {
        match p.poll(false) {
            Step::Attempt { id, .. } => {
                calls += 1;
                let signal = if calls == 2 {
                    classify_response(429, Some("5"), None, String::new())
                } else {
                    classify_response(200, None, None, String::new())
                };
                match p.on_signal(&signal, 0) {
                    Reaction::Resolved { id, outcome, .. } => {
                        assert_eq!(outcome, TerminalOutcome::Deleted);
                        log.push(format!("deleted. id={}", id));
                    }
                    Reaction::Wait { secs, .. } => log.push(format!("wait {}", secs)),
                    Reaction::Abort { .. } => panic!("unexpected abort for {}", id),
                }
            }
            Step::Finish { result } => {
                assert_eq!(result, RunResult::Completed);
                break;
            }
        }
    }
    assert_eq!(log, vec!["deleted. id=101", "wait 5", "deleted. id=102"]);
    assert!(p.remaining().is_empty());
}

#[test]
fn throttled_item_waits_and_stays_queued() {
    let mut p = Pipeline::new(items(&[1, 2]), RetryPolicy::new(60), 3);
    assert_eq!(p.poll(false), Step::Attempt { id: 1, attempt: 1 });
    let signal = classify_response(429, Some("30"), None, String::new());
    assert_eq!(p.on_signal(&signal, 0), Reaction::Wait { id: 1, secs: 30 });
    assert_eq!(ids(&p), vec![1, 2]);
    assert_eq!(p.phase(), Phase::Waiting { attempt: 1 });
    assert_eq!(p.poll(true), Step::Attempt { id: 1, attempt: 2 });
    assert!(p.is_awaiting_outcome());
}

#[test]
fn not_found_resolves_item() {
    let mut p = Pipeline::new(items(&[4, 5]), RetryPolicy::new(60), 3);
    assert_eq!(p.poll(false), Step::Attempt { id: 4, attempt: 1 });
    assert_eq!(
        p.on_signal(&RateLimitSignal::NotFound, 0),
        Reaction::Resolved { id: 4, outcome: TerminalOutcome::SkippedNotFound, pacing_secs: 3 }
    );
    assert_eq!(ids(&p), vec![5]);
    assert_eq!(p.phase(), Phase::Between);
}

#[test]
fn checkpoint_matches_queue_after_each_resolution() {
    let mut p = Pipeline::new(items(&[1, 2, 3]), RetryPolicy::new(60), 3);
    let mut seen: Vec<Vec<u64>> = Vec::new();
    while let Step::Attempt { .. } = p.poll(false) {
        if let Reaction::Resolved { .. } = p.on_signal(&RateLimitSignal::Success, 0) {
            seen.push(ids(&p));
        }
    }
    assert_eq!(seen, vec![vec![2, 3], vec![3], vec![]]);
    let raws: Vec<u64> = p.remaining().iter().map(|w| w.raw).collect();
    assert!(raws.is_empty());
}

#[test]
fn cancellation_between_items_stops_before_next() {
    let mut p = Pipeline::new(items(&[1, 2, 3]), RetryPolicy::new(60), 3);
    assert_eq!(p.poll(false), Step::Attempt { id: 1, attempt: 1 });
    assert!(matches!(p.on_signal(&RateLimitSignal::Success, 0), Reaction::Resolved { .. }));
    assert_eq!(p.poll(true), Step::Finish { result: RunResult::Cancelled });
    assert_eq!(ids(&p), vec![2, 3]);
    assert_eq!(p.poll(false), Step::Finish { result: RunResult::Cancelled });
}

#[test]
fn cancellation_during_retries_finishes_item_first() {
    let mut p = Pipeline::new(items(&[1, 2, 3]), RetryPolicy::new(60), 3);
    p.poll(false);
    let throttled = RateLimitSignal::TooManyRequests { retry_after: Some(1), reset_at: None };
    assert_eq!(p.on_signal(&throttled, 0), Reaction::Wait { id: 1, secs: 1 });
    assert_eq!(p.poll(true), Step::Attempt { id: 1, attempt: 2 });
    assert!(matches!(p.on_signal(&RateLimitSignal::Success, 0), Reaction::Resolved { id: 1, .. }));
    assert_eq!(p.poll(true), Step::Finish { result: RunResult::Cancelled });
    assert_eq!(ids(&p), vec![2, 3]);
}

#[test]
fn fatal_outcome_keeps_item_pending() {
    let mut p = Pipeline::new(items(&[1, 2]), RetryPolicy::new(60), 3);
    p.poll(false);
    let failure = classify_response(401, None, None, "unauthorized".to_string());
    let reason = FatalReason::UnexpectedStatus { status: 401 };
    assert_eq!(p.on_signal(&failure, 0), Reaction::Abort { id: 1, reason });
    assert_eq!(p.poll(false), Step::Finish { result: RunResult::Aborted { id: 1, reason } });
    assert_eq!(ids(&p), vec![1, 2]);
    let mut q = Pipeline::new(items(&[9]), RetryPolicy::new(60), 3);
    q.poll(false);
    assert_eq!(
        q.on_signal(&RateLimitSignal::TransportError, 0),
        Reaction::Abort { id: 9, reason: FatalReason::TransportFailure }
    );
}

#[test]
fn resumed_run_ends_like_uninterrupted_run() {
    let mut first = Pipeline::new(items(&[1, 2, 3, 4]), RetryPolicy::new(60), 3);
    for _ in 0..2 {
        first.poll(false);
        first.on_signal(&RateLimitSignal::Success, 0);
    }
    assert_eq!(first.poll(true), Step::Finish { result: RunResult::Cancelled });
    let checkpoint: Vec<WorkItem<u64>> = first.remaining().clone();
    assert_eq!(checkpoint, items(&[3, 4]));
    let mut resumed = Pipeline::new(checkpoint, RetryPolicy::new(60), 3);
    let mut deleted: Vec<u64> = Vec::new();
    loop {
        match resumed.poll(false) {
            Step::Attempt { .. } => {
                if let Reaction::Resolved { id, .. } = resumed.on_signal(&RateLimitSignal::Success, 0) {
                    deleted.push(id);
                }
            }
            Step::Finish { result } => {
                assert_eq!(result, RunResult::Completed);
                break;
            }
        }
    }
    assert_eq!(deleted, vec![3, 4]);
    assert!(resumed.remaining().is_empty());
}

#[test]
fn empty_queue_completes_at_once() {
    let mut p = Pipeline::new(Vec::<WorkItem<u64>>::new(), RetryPolicy::new(60), 3);
    assert_eq!(p.poll(true), Step::Finish { result: RunResult::Completed });
}

#[test]
fn reset_header_wait_through_pipeline() {
    let mut p = Pipeline::new(items(&[8]), RetryPolicy::new(60), 3);
    p.poll(false);
    let signal = classify_response(429, None, Some("1000100"), String::new());
    assert_eq!(p.on_signal(&signal, 1000000), Reaction::Wait { id: 8, secs: 100 });
    p.poll(false);
    let bare = classify_response(429, None, None, String::new());
    assert_eq!(p.on_signal(&bare, 1000000), Reaction::Wait { id: 8, secs: 60 });
}
