use sus_check::battlemetrics::{
    assess_player_records, battlemetrics_config, complete_lookup, unavailable_lookup, LookupFailure,
    PlayerRecord, PlayerRecordsOutcome,
};
use sus_check::session_history::{
    history_not_requested, history_parse_failed, history_request_failed, HistoryAction,
    SessionHistoryScan, SessionRecord,
};
use sus_check::timestamp::parse_battlemetrics_timestamp;

fn s(x: &str) -> String {
    x.to_string()
}

#[test]
fn config_needs_a_token_and_a_server_id() {
    let cfg = battlemetrics_config(Some(s("  tok\n")), Some(s(" 123 , ,456,, 789 "))).unwrap();
    assert_eq!(cfg.token, "tok");
    assert_eq!(cfg.server_ids, vec![s("123"), s("456"), s("789")]);
    assert!(battlemetrics_config(Some(s("   ")), Some(s("1"))).is_none());
    assert!(battlemetrics_config(None, Some(s("1"))).is_none());
    assert!(battlemetrics_config(Some(s("t")), None).is_none());
    assert!(battlemetrics_config(Some(s("t")), Some(s(" , ,"))).is_none());
}

#[test]
fn failed_player_lookups_record_why() {
    let l = unavailable_lookup(LookupFailure::MissingConfig);
    assert_eq!(l.status, "missing config");
    assert_eq!(l.session_history_status, "missing config");
    assert_eq!(l.session_hours_tenths, None);
    let l = unavailable_lookup(LookupFailure::RequestFailed(s("timeout")));
    assert_eq!(l.status, "request failed: timeout");
    assert_eq!(l.session_history_status, "player lookup unavailable");
    let l = unavailable_lookup(LookupFailure::ParseFailed(s("bad json")));
    assert_eq!(l.status, "parse failed: bad json");
}

#[test]
fn player_records_decide_whether_history_is_needed() {
    match assess_player_records(&vec![]) {
        PlayerRecordsOutcome::Finished(l) => {
            assert_eq!(l.status, "no matching player records");
            assert_eq!(l.session_history_status, "no matching player records");
        }
        _ => panic!("expected a finished lookup"),
    }
    let none = vec![
        PlayerRecord { id: s("1"), time_played_seconds: None },
        PlayerRecord { id: s("2"), time_played_seconds: Some(0) },
    ];
    match assess_player_records(&none) {
        PlayerRecordsOutcome::Finished(l) => {
            assert_eq!(l.status, "matched 2 records without timePlayed");
            assert_eq!(l.session_history_status, "aggregate playtime unavailable");
        }
        _ => panic!("expected a finished lookup"),
    }
    let some = vec![
        PlayerRecord { id: s("1"), time_played_seconds: Some(7_000) },
        PlayerRecord { id: s("2"), time_played_seconds: None },
        PlayerRecord { id: s("3"), time_played_seconds: Some(200) },
    ];
    match assess_player_records(&some) {
        PlayerRecordsOutcome::NeedsHistory { player_ids, total_seconds, record_count } => {
            assert_eq!(player_ids, vec![s("1"), s("2"), s("3")]);
            assert_eq!(total_seconds, 7_200);
            assert_eq!(record_count, 3);
            let l = complete_lookup(total_seconds, record_count, history_not_requested());
            assert_eq!(l.session_hours_tenths, Some(20));
            assert_eq!(l.status, "matched 3 records");
            assert_eq!(l.session_history_status, "not requested: no Steam ban history");
            assert_eq!(l.recent_session_count, None);
        }
        _ => panic!("expected history to be needed"),
    }
}

#[test]
fn session_hours_round_half_up_to_tenths() {
    let l = complete_lookup(180, 1, history_not_requested());
    assert_eq!(l.session_hours_tenths, Some(1));
    let l = complete_lookup(179, 1, history_not_requested());
    assert_eq!(l.session_hours_tenths, Some(0));
}

#[test]
fn failed_history_requests_record_the_error() {
    assert_eq!(history_request_failed("503").status, "session-history request failed: 503");
    assert_eq!(history_parse_failed("eof").status, "session-history parse failed: eof");
    assert_eq!(history_parse_failed("eof").post_ban_hours_tenths, None);
}

#[test]
fn timestamps_parse_to_epoch_nanoseconds() {
    assert_eq!(
        parse_battlemetrics_timestamp("2024-01-01T00:00:00Z"),
        Some(1_704_067_200_000_000_000)
    );
    assert_eq!(
        parse_battlemetrics_timestamp("2024-01-01T01:00:00.5+01:00"),
        Some(1_704_067_200_500_000_000)
    );
    assert_eq!(parse_battlemetrics_timestamp("yesterday"), None);
}

fn session(id: &str, server: Option<&str>, first: Option<&str>, last: Option<&str>, played: Option<i64>) -> SessionRecord {
    SessionRecord {
        id: s(id),
        server_id: server.map(s),
        first_time: first.map(s),
        last_time: last.map(s),
        time_played_seconds: played,
    }
}

const NOW_SECS: i64 = 1_704_931_200; // 2024-01-11T00:00:00Z

fn fetch(scan: &mut SessionHistoryScan) -> String {
    match scan.next_action() {
        HistoryAction::Fetch(url) => url,
        HistoryAction::Finish(h) => panic!("unexpected finish: {}", h.status),
    }
}

#[test]
fn scan_counts_each_configured_session_once_after_the_cutoff() {
    let mut scan = SessionHistoryScan::new(NOW_SECS, 0, 10, vec![s("p1")], vec![s("srv")]);
    assert_eq!(fetch(&mut scan), "https://api.battlemetrics.com/players/p1/relationships/sessions");
    let page = vec![
        // half of its 10 recorded hours fall after the cutoff
        session("a", Some("srv"), Some("2023-12-31T00:00:00Z"), Some("2024-01-02T00:00:00Z"), Some(36_000)),
        // still running: elapsed time counts, all after the cutoff
        session("b", Some("srv"), Some("2024-01-05T00:00:00Z"), None, None),
        // another server
        session("c", Some("other"), Some("2024-01-05T00:00:00Z"), None, Some(100)),
        // ended before the cutoff
        session("d", Some("srv"), Some("2023-12-01T00:00:00Z"), Some("2023-12-02T00:00:00Z"), Some(100)),
        // no readable start
        session("e", Some("srv"), Some("soon"), None, Some(100)),
        // no server
        session("f", None, Some("2024-01-05T00:00:00Z"), None, Some(100)),
    ];
    scan.on_page(page.clone(), Some(s("/players/p1/relationships/sessions?page[key]=2")));
    assert_eq!(scan.session_count(), 2);
    assert_eq!(
        fetch(&mut scan),
        "https://api.battlemetrics.com/players/p1/relationships/sessions?page[key]=2"
    );
    scan.on_page(page, None);
    assert_eq!(scan.session_count(), 2);
    match scan.next_action() {
        HistoryAction::Finish(h) => {
            // 5 h + 144 h
            assert_eq!(h.post_ban_hours_tenths, Some(1_490));
            assert_eq!(h.status, "2 dated sessions after the latest Steam ban");
            assert_eq!(h.session_count, Some(2));
        }
        HistoryAction::Fetch(url) => panic!("unexpected fetch {url}"),
    }
}

#[test]
fn scan_moves_on_to_the_next_player_and_keeps_absolute_links() {
    let mut scan = SessionHistoryScan::new(NOW_SECS, 0, 1, vec![s("p1"), s("p2")], vec![s("srv")]);
    assert!(fetch(&mut scan).contains("/players/p1/"));
    scan.on_page(vec![], Some(s("https://api.battlemetrics.com/next")));
    assert_eq!(fetch(&mut scan), "https://api.battlemetrics.com/next");
    scan.on_page(vec![], None);
    assert!(fetch(&mut scan).contains("/players/p2/"));
    scan.on_page(vec![], None);
    match scan.next_action() {
        HistoryAction::Finish(h) => {
            assert_eq!(h.status, "no dated sessions were returned after the latest Steam ban");
            assert_eq!(h.session_count, Some(0));
            assert_eq!(h.post_ban_hours_tenths, None);
        }
        HistoryAction::Fetch(url) => panic!("unexpected fetch {url}"),
    }
}

#[test]
fn scan_stops_after_twenty_pages_of_one_player() {
    let mut scan = SessionHistoryScan::new(NOW_SECS, 0, 1, vec![s("p1")], vec![s("srv")]);
    for _ in 0..20 {
        fetch(&mut scan);
        scan.on_page(vec![], Some(s("/more")));
    }
    match scan.next_action() {
        HistoryAction::Finish(h) => {
            assert_eq!(h.status, "partial: session history exceeded 20 pages per matched player");
            assert_eq!(h.post_ban_hours_tenths, None);
            assert_eq!(h.session_count, None);
        }
        HistoryAction::Fetch(url) => panic!("unexpected fetch {url}"),
    }
}

const NS: i128 = 1_000_000_000;

#[test]
fn post_ban_share_is_proportional_and_within_recorded_time() {
    let cutoff = 1_000 * NS;
    let now = 10_000 * NS;
    // 400 s elapsed, 100 s of it after the cutoff, 80 s recorded: a quarter of 80 s, 80 * 100 / 400
    assert_eq!(
        sus_check::session_history::post_ban_share(Some(700 * NS), Some(1_100 * NS), Some(80), now, cutoff),
        Some((8_000, 400))
    );
    // no recorded time: the elapsed time counts
    assert_eq!(
        sus_check::session_history::post_ban_share(Some(2_000 * NS), Some(2_010 * NS), None, now, cutoff),
        Some((100, 10))
    );
    // still running: ends now
    assert_eq!(
        sus_check::session_history::post_ban_share(Some(9_990 * NS), None, Some(5), now, cutoff),
        Some((50, 10))
    );
    // ends at the cutoff
    assert_eq!(
        sus_check::session_history::post_ban_share(Some(0), Some(cutoff), Some(5), now, cutoff),
        None
    );
    // under a second elapsed
    assert_eq!(
        sus_check::session_history::post_ban_share(Some(2_000 * NS), Some(2_000 * NS + 5), Some(5), now, cutoff),
        None
    );
    assert_eq!(sus_check::session_history::post_ban_share(None, Some(2_000 * NS), Some(5), now, cutoff), None);
    assert_eq!(
        sus_check::session_history::post_ban_share(Some(1_500 * NS), Some(1_600 * NS), Some(0), now, cutoff),
        None
    );
}

fn finished_tenths(scan: &mut SessionHistoryScan) -> Option<u128> {
    match scan.next_action() {
        HistoryAction::Finish(h) => h.post_ban_hours_tenths,
        HistoryAction::Fetch(url) => panic!("unexpected fetch {url}"),
    }
}

#[test]
fn scan_sums_fractional_shares_exactly_before_rounding() {
    // cutoff: 2024-01-01T00:00:00Z
    let mut scan = SessionHistoryScan::new(NOW_SECS, 0, 10, vec![s("p1")], vec![s("srv")]);
    fetch(&mut scan);
    let page = vec![
        // 179 s, all after the cutoff
        session("a", Some("srv"), Some("2024-01-05T00:00:00Z"), Some("2024-01-05T00:02:59Z"), Some(179)),
        // 1 s recorded over 1000 s, 715 s after the cutoff: 0.715 s
        session("b", Some("srv"), Some("2023-12-31T23:55:15Z"), Some("2024-01-01T00:11:55Z"), Some(1)),
        // 1 s recorded over 7 s, 1 s after the cutoff: 1/7 s, twice
        session("c", Some("srv"), Some("2023-12-31T23:59:54Z"), Some("2024-01-01T00:00:01Z"), Some(1)),
        session("d", Some("srv"), Some("2023-12-31T23:59:54Z"), Some("2024-01-01T00:00:01Z"), Some(1)),
    ];
    scan.on_page(page, None);
    assert_eq!(scan.session_count(), 4);
    // 180.0007 s is just over half of a tenth of an hour
    assert_eq!(finished_tenths(&mut scan), Some(1));
}

#[test]
fn scan_thirds_add_up_to_a_whole_second() {
    let mut scan = SessionHistoryScan::new(NOW_SECS, 0, 10, vec![s("p1")], vec![s("srv")]);
    fetch(&mut scan);
    let page = vec![
        session("a", Some("srv"), Some("2024-01-05T00:00:00Z"), Some("2024-01-05T00:02:59Z"), Some(179)),
        // 1/3 s and 2/3 s: one second in all, 180 s exactly
        session("b", Some("srv"), Some("2023-12-31T23:59:58Z"), Some("2024-01-01T00:00:01Z"), Some(1)),
        session("c", Some("srv"), Some("2023-12-31T23:59:58Z"), Some("2024-01-01T00:00:01Z"), Some(2)),
    ];
    scan.on_page(page, None);
    assert_eq!(finished_tenths(&mut scan), Some(1));
}

#[test]
fn scan_just_under_half_a_tenth_rounds_down() {
    let mut scan = SessionHistoryScan::new(NOW_SECS, 0, 10, vec![s("p1")], vec![s("srv")]);
    fetch(&mut scan);
    let page = vec![
        session("a", Some("srv"), Some("2024-01-05T00:00:00Z"), Some("2024-01-05T00:02:59Z"), Some(179)),
        // 2/3 s: 179.67 s in all
        session("b", Some("srv"), Some("2023-12-31T23:59:58Z"), Some("2024-01-01T00:00:01Z"), Some(2)),
    ];
    scan.on_page(page, None);
    assert_eq!(finished_tenths(&mut scan), Some(0));
}
