//! The dated session-history scan: for every matched player, pages of
//! sessions on the configured servers are fetched (at most twenty per
//! player), each session is counted once, and the tracked time after the
//! latest Steam ban is added up. The scan decides; its caller fetches.

use vstd::prelude::*;
use vstd::string::*;
use crate::text::{decimal, opt_string_view, push_decimal, strings_view};
use crate::wide::{wide_add, wide_from_u64, wide_mul_small, wide_sub, wide_value};
use crate::timestamp::{instant_nanos, max_chrono_seconds, parse_battlemetrics_timestamp, timestamp_spec};

verus! {

/// The most pages of sessions fetched per matched player.
pub const MAX_BATTLEMETRICS_SESSION_HISTORY_PAGES: usize = 20;

/// What the session history contributed.
#[derive(Clone, Debug)]
pub struct BattleMetricsSessionHistory {
    pub post_ban_hours_tenths: Option<u128>,
    pub status: String,
    pub session_count: Option<u32>,
}

/// The mathematical value of a [`BattleMetricsSessionHistory`].
pub struct HistoryView {
    pub post_ban_hours_tenths: Option<u128>,
    pub status: Seq<char>,
    pub session_count: Option<u32>,
}

impl View for BattleMetricsSessionHistory {
    type V = HistoryView;

    open spec fn view(&self) -> HistoryView {
        HistoryView {
            post_ban_hours_tenths: self.post_ban_hours_tenths,
            status: self.status@,
            session_count: self.session_count,
        }
    }
}

/// A history with no hours and no count.
pub open spec fn status_only(status: Seq<char>) -> HistoryView {
    HistoryView { post_ban_hours_tenths: None, status, session_count: None }
}

fn history_with_status(status: String) -> (h: BattleMetricsSessionHistory)
    ensures
        h@ == status_only(status@),
{
    BattleMetricsSessionHistory { post_ban_hours_tenths: None, status, session_count: None }
}

/// The history of an account without a Steam ban.
pub fn history_not_requested() -> (h: BattleMetricsSessionHistory)
    ensures
        h@ == status_only("not requested: no Steam ban history"@),
{
    history_with_status(String::from_str("not requested: no Steam ban history"))
}

/// The history when a session-history request failed.
pub fn history_request_failed(error: &str) -> (h: BattleMetricsSessionHistory)
    ensures
        h@ == status_only("session-history request failed: "@ + error@),
{
    let mut status = String::from_str("session-history request failed: ");
    status.append(error);
    history_with_status(status)
}

/// The history when a session-history response could not be parsed.
pub fn history_parse_failed(error: &str) -> (h: BattleMetricsSessionHistory)
    ensures
        h@ == status_only("session-history parse failed: "@ + error@),
{
    let mut status = String::from_str("session-history parse failed: ");
    status.append(error);
    history_with_status(status)
}

// ---------------------------------------------------------------------
// Sessions

/// One session of a page: its id, the server it belongs to, its first and
/// last timestamps as given, and its recorded time played in whole seconds.
#[derive(Clone, Debug)]
pub struct SessionRecord {
    pub id: String,
    pub server_id: Option<String>,
    pub first_time: Option<String>,
    pub last_time: Option<String>,
    pub time_played_seconds: Option<i64>,
}

/// What the scan has added up so far: the ids of the sessions seen on the
/// configured servers, the post-ban time in seconds as the exact fraction
/// `post_ban_num / post_ban_den`, the number of dated sessions counted, and
/// whether any was.
pub struct ScanTotals {
    pub seen: Set<Seq<char>>,
    pub post_ban_num: int,
    pub post_ban_den: int,
    pub sessions: int,
    pub saw_timestamped_session: bool,
}

/// The instant of an optional timestamp text.
pub open spec fn instant_of(text: Option<String>) -> Option<int> {
    match text {
        Some(t) => timestamp_spec(t@),
        None => None,
    }
}

/// Whole seconds from `from` to `to` (nanoseconds), 0 where not after.
pub open spec fn whole_seconds_between(from: int, to: int) -> int {
    if to - from > 0 {
        (to - from) / 1_000_000_000
    } else {
        0
    }
}

/// The seconds of a session's recorded time that fall after the cutoff, in
/// proportion to its elapsed time, as the exact fraction
/// `recorded * post / elapsed` (numerator and denominator), from its start
/// and end instants (the end defaulting to now) and its recorded seconds
/// (defaulting to the elapsed ones); none where the session has no start,
/// ends by the cutoff, or has no recorded or elapsed time.
pub open spec fn share_from_instants(
    start: Option<int>,
    end: Option<int>,
    time_played: Option<i64>,
    now: int,
    cutoff: int,
) -> Option<(int, int)> {
    match start {
        None => None,
        Some(start) => {
            let end = match end {
                Some(e) => e,
                None => now,
            };
            if end <= cutoff {
                None
            } else {
                let elapsed = whole_seconds_between(start, end);
                let recorded = match time_played {
                    Some(t) => t as int,
                    None => elapsed,
                };
                if recorded <= 0 || elapsed <= 0 {
                    None
                } else {
                    let post_start = if start > cutoff { start } else { cutoff };
                    let post = whole_seconds_between(post_start, end);
                    Some((recorded * post, elapsed))
                }
            }
        },
    }
}

/// A session's post-ban share, from its timestamps as parsed.
pub open spec fn post_ban_share_of(s: SessionRecord, now: int, cutoff: int) -> Option<(int, int)> {
    share_from_instants(
        instant_of(s.first_time),
        instant_of(s.last_time),
        s.time_played_seconds,
        now,
        cutoff,
    )
}

/// An instant within the range of a `chrono` date-time, in nanoseconds.
pub open spec fn in_chrono_range(t: int) -> bool {
    -max_chrono_seconds() * 1_000_000_000 <= t <= max_chrono_seconds() * 1_000_000_000
        + 2_000_000_000
}

/// The session belongs to one of the configured servers.
pub open spec fn on_configured_server(s: SessionRecord, servers: Seq<Seq<char>>) -> bool {
    match s.server_id {
        Some(id) => servers.contains(id@),
        None => false,
    }
}

/// The totals after one more session.
pub open spec fn scan_session(
    t: ScanTotals,
    s: SessionRecord,
    servers: Seq<Seq<char>>,
    now: int,
    cutoff: int,
) -> ScanTotals {
    if !on_configured_server(s, servers) || t.seen.contains(s.id@) {
        t
    } else {
        match post_ban_share_of(s, now, cutoff) {
            Some((num, den)) => ScanTotals {
                seen: t.seen.insert(s.id@),
                post_ban_num: t.post_ban_num * den + num * t.post_ban_den,
                post_ban_den: t.post_ban_den * den,
                sessions: t.sessions + 1,
                saw_timestamped_session: true,
            },
            None => ScanTotals {
                seen: t.seen.insert(s.id@),
                post_ban_num: t.post_ban_num,
                post_ban_den: t.post_ban_den,
                sessions: t.sessions,
                saw_timestamped_session: t.saw_timestamped_session,
            },
        }
    }
}

/// The totals after a page of sessions, taken in order.
pub open spec fn scan_sessions(
    t: ScanTotals,
    page: Seq<SessionRecord>,
    servers: Seq<Seq<char>>,
    now: int,
    cutoff: int,
) -> ScanTotals
    decreases page.len(),
{
    if page.len() == 0 {
        t
    } else {
        scan_session(
            scan_sessions(t, page.drop_last(), servers, now, cutoff),
            page.last(),
            servers,
            now,
            cutoff,
        )
    }
}

// ---------------------------------------------------------------------
// The scan

/// The URL of a player's first page of sessions.
pub open spec fn first_page_url(player_id: Seq<char>) -> Seq<char> {
    "https://api.battlemetrics.com/players/"@ + player_id + "/relationships/sessions"@
}

/// `s` starts with "http".
pub open spec fn starts_with_http(s: Seq<char>) -> bool {
    s.len() >= 4 && s[0] == 'h' && s[1] == 't' && s[2] == 't' && s[3] == 'p'
}

/// A next-page link as given, made absolute where it is not.
pub open spec fn absolute_link(link: Seq<char>) -> Seq<char> {
    if starts_with_http(link) {
        link
    } else {
        "https://api.battlemetrics.com"@ + link
    }
}

/// The history when a player has more pages than are fetched.
pub open spec fn partial_history() -> HistoryView {
    status_only(
        "partial: session history exceeded "@ + decimal(
            MAX_BATTLEMETRICS_SESSION_HISTORY_PAGES as nat,
        ) + " pages per matched player"@,
    )
}

/// Post-ban seconds `num / den` as whole tenths of an hour, halves
/// rounded up.
pub open spec fn tenths_of_seconds(num: int, den: int) -> int {
    (num + 180 * den) / (360 * den)
}

/// The history once every page of every player was scanned.
pub open spec fn finished_history(t: ScanTotals) -> HistoryView {
    if !t.saw_timestamped_session {
        HistoryView {
            post_ban_hours_tenths: None,
            status: "no dated sessions were returned after the latest Steam ban"@,
            session_count: Some(0),
        }
    } else {
        HistoryView {
            post_ban_hours_tenths: Some(tenths_of_seconds(t.post_ban_num, t.post_ban_den) as u128),
            status: decimal(t.sessions as nat) + " dated sessions after the latest Steam ban"@,
            session_count: Some(t.sessions as u32),
        }
    }
}

/// The state of a session-history scan.
pub struct SessionHistoryScan {
    server_ids: Vec<String>,
    player_ids: Vec<String>,
    now: i128,
    cutoff: i128,
    next_player: usize,
    pending_url: Option<String>,
    page_number: usize,
    seen_session_ids: Vec<String>,
    post_ban_whole_seconds: u128,
    post_ban_remainder: Vec<u64>,
    post_ban_denominator: Vec<u64>,
    post_ban_sessions: u32,
    saw_timestamped_session: bool,
}

/// The mathematical value of a [`SessionHistoryScan`]: the configured
/// servers, the matched players, the instants now and of the cutoff (in
/// nanoseconds), the next player to start, the page still to fetch for the
/// current player, how many of its pages were fetched, and the totals.
pub struct ScanView {
    pub server_ids: Seq<Seq<char>>,
    pub player_ids: Seq<Seq<char>>,
    pub now: int,
    pub cutoff: int,
    pub next_player: int,
    pub pending_url: Option<Seq<char>>,
    pub page_number: int,
    pub totals: ScanTotals,
}

impl View for SessionHistoryScan {
    type V = ScanView;

    closed spec fn view(&self) -> ScanView {
        ScanView {
            server_ids: strings_view(self.server_ids@),
            player_ids: strings_view(self.player_ids@),
            now: self.now as int,
            cutoff: self.cutoff as int,
            next_player: self.next_player as int,
            pending_url: match self.pending_url {
                Some(u) => Some(u@),
                None => None,
            },
            page_number: self.page_number as int,
            totals: ScanTotals {
                seen: strings_view(self.seen_session_ids@).to_set(),
                post_ban_num: self.post_ban_whole_seconds * wide_value(self.post_ban_denominator@)
                    + wide_value(self.post_ban_remainder@),
                post_ban_den: wide_value(self.post_ban_denominator@),
                sessions: self.post_ban_sessions as int,
                saw_timestamped_session: self.saw_timestamped_session,
            },
        }
    }
}

/// The bound on one session's share: its recorded seconds, at most
/// `i64::MAX`.
pub open spec fn share_bound() -> int {
    0x8000_0000_0000_0000int
}

impl SessionHistoryScan {
    /// The scan's internal consistency.
    pub closed spec fn wf(&self) -> bool {
        &&& -max_chrono_seconds() * 1_000_000_000 <= self.now <= max_chrono_seconds()
            * 1_000_000_000 + 2_000_000_000
        &&& self.cutoff <= self.now
        &&& self.post_ban_whole_seconds <= self.post_ban_sessions * share_bound()
        &&& 0 <= wide_value(self.post_ban_remainder@) < wide_value(self.post_ban_denominator@)
        &&& self.saw_timestamped_session == (self.post_ban_sessions > 0)
        &&& self.page_number <= MAX_BATTLEMETRICS_SESSION_HISTORY_PAGES
        &&& self.next_player <= self.player_ids@.len()
    }

    /// A scan of the given players' sessions on the given servers, with the
    /// cutoff `days_since_last_ban` days before now.
    pub fn new(
        now_secs: i64,
        now_subsec_nanos: u32,
        days_since_last_ban: u32,
        player_ids: Vec<String>,
        server_ids: Vec<String>,
    ) -> (scan: Self)
        requires
            -max_chrono_seconds() <= now_secs <= max_chrono_seconds(),
            now_subsec_nanos < 2_000_000_000,
        ensures
            scan.wf(),
            scan@.server_ids == strings_view(server_ids@),
            scan@.player_ids == strings_view(player_ids@),
            scan@.now == instant_nanos(now_secs as int, now_subsec_nanos as int),
            scan@.cutoff == scan@.now - days_since_last_ban * 86_400_000_000_000,
            scan@.next_player == 0,
            scan@.pending_url is None,
            scan@.page_number == 0,
            scan@.totals.seen == Set::<Seq<char>>::empty(),
            scan@.totals.post_ban_num == 0,
            scan@.totals.post_ban_den == 1,
            scan@.totals.sessions == 0,
            !scan@.totals.saw_timestamped_session,
    {
        let now: i128 = now_secs as i128 * 1_000_000_000 + now_subsec_nanos as i128;
        let cutoff: i128 = now - days_since_last_ban as i128 * 86_400_000_000_000;
        let scan = SessionHistoryScan {
            server_ids,
            player_ids,
            now,
            cutoff,
            next_player: 0,
            pending_url: None,
            page_number: 0,
            seen_session_ids: Vec::new(),
            post_ban_whole_seconds: 0,
            post_ban_remainder: wide_from_u64(0),
            post_ban_denominator: wide_from_u64(1),
            post_ban_sessions: 0,
            saw_timestamped_session: false,
        };
        assert(strings_view(scan.seen_session_ids@).to_set() =~= Set::<Seq<char>>::empty());
        scan
    }

    /// Takes one session into the totals.
    fn scan_one(&mut self, s: &SessionRecord)
        requires
            old(self).wf(),
            old(self).post_ban_sessions < u32::MAX,
        ensures
            final(self).wf(),
            final(self)@ == with_totals(
                old(self)@,
                scan_session(
                    old(self)@.totals,
                    *s,
                    old(self)@.server_ids,
                    old(self)@.now,
                    old(self)@.cutoff,
                ),
            ),
    {
        let on_server = match &s.server_id {
            Some(id) => contains_string(&self.server_ids, id),
            None => false,
        };
        if !on_server {
            return ;
        }
        if contains_string(&self.seen_session_ids, &s.id) {
            return ;
        }
        let ghost old_seen = strings_view(self.seen_session_ids@);
        let id = s.id.clone();
        self.seen_session_ids.push(id);
        assert(strings_view(self.seen_session_ids@) =~= old_seen.push(s.id@));
        proof {
            old_seen.lemma_push_to_set_commute(s.id@);
        }
        let start = match &s.first_time {
            Some(t) => parse_battlemetrics_timestamp(t.as_str()),
            None => None,
        };
        let end = match &s.last_time {
            Some(t) => parse_battlemetrics_timestamp(t.as_str()),
            None => None,
        };
        match post_ban_share(start, end, s.time_played_seconds, self.now, self.cutoff) {
            Some((num, den)) => self.add_share(num, den),
            None => {},
        }
    }

    /// Adds a share of `num / den` seconds to the post-ban time, exactly:
    /// whole seconds apart, and the fraction below one second as a
    /// remainder over a common denominator.
    fn add_share(&mut self, num: u128, den: u128)
        requires
            old(self).wf(),
            old(self).post_ban_sessions < u32::MAX,
            0 < den <= 0xffff_ffff_ffff_ffff,
            num < share_bound() * den,
        ensures
            final(self).wf(),
            final(self)@ == with_totals(old(self)@, added_share(old(self)@.totals, num as int, den as int)),
    {
        let q: u128 = num / den;
        let rem: u64 = (num % den) as u64;
        let e: u64 = den as u64;
        let scaled_rem = wide_mul_small(&self.post_ban_remainder, e);
        let spread = wide_mul_small(&self.post_ban_denominator, rem);
        let rn = wide_add(&scaled_rem, &spread);
        let dn = wide_mul_small(&self.post_ban_denominator, e);
        let (diff, below) = wide_sub(&rn, &dn);
        let ghost w = self.post_ban_whole_seconds as int;
        let ghost r = wide_value(self.post_ban_remainder@);
        let ghost d = wide_value(self.post_ban_denominator@);
        proof {
            vstd::arithmetic::div_mod::lemma_fundamental_div_mod(num as int, den as int);
            vstd::arithmetic::div_mod::lemma_mod_pos_bound(num as int, den as int);
            lemma_share_split(num as int, den as int, q as int, rem as int);
            lemma_fraction_step(w, r, d, q as int, rem as int, e as int);
            lemma_whole_seconds_bound(self.post_ban_sessions as int);
            assert(wide_value(dn@) == d * e);
            assert(wide_value(rn@) == r * e + d * rem);
            assert(d * rem == rem * d) by (nonlinear_arith);
            assert(wide_value(rn@) < 2 * wide_value(dn@));
        }
        if below {
            self.post_ban_remainder = rn;
            self.post_ban_whole_seconds = self.post_ban_whole_seconds + q;
            assert(self.post_ban_whole_seconds == w + q);
        } else {
            self.post_ban_remainder = diff;
            self.post_ban_whole_seconds = self.post_ban_whole_seconds + q + 1;
            assert(self.post_ban_whole_seconds == w + q + 1);
            assert(wide_value(diff@) == r * e + rem * d - d * e);
            assert((w + q + 1) * (d * e) + (r * e + rem * d - d * e) == (w + q) * (d * e) + (r * e
                + rem * d)) by (nonlinear_arith);
        }
        self.post_ban_denominator = dn;
        self.post_ban_sessions = self.post_ban_sessions + 1;
        self.saw_timestamped_session = true;
    }

    /// Takes a fetched page: its sessions into the totals, in order, and its
    /// next-page link, made absolute, as the page still to fetch.
    pub fn on_page(&mut self, sessions: Vec<SessionRecord>, next_link: Option<String>)
        requires
            old(self).wf(),
            old(self)@.totals.sessions + sessions@.len() <= u32::MAX,
        ensures
            final(self).wf(),
            final(self)@ == after_page(old(self)@, sessions@, opt_string_view(next_link)),
    {
        let ghost v0 = self@;
        let n = sessions.len();
        let mut i: usize = 0;
        assert(sessions@.take(0) =~= Seq::<SessionRecord>::empty());
        while i < n
            invariant
                n == sessions@.len(),
                i <= n,
                self.wf(),
                v0.totals.sessions + n <= u32::MAX,
                self@ == with_totals(
                    v0,
                    scan_sessions(
                        v0.totals,
                        sessions@.take(i as int),
                        v0.server_ids,
                        v0.now,
                        v0.cutoff,
                    ),
                ),
                self@.totals.sessions <= v0.totals.sessions + i,
            decreases n - i,
        {
            assert(sessions@.take(i + 1).drop_last() =~= sessions@.take(i as int));
            self.scan_one(&sessions[i]);
            i = i + 1;
        }
        assert(sessions@.take(n as int) =~= sessions@);
        self.pending_url = match next_link {
            Some(link) => Some(make_absolute(link)),
            None => None,
        };
    }

    /// What to do next: fetch the pending page, or the first page of the
    /// next player, or finish; a player with more pages than are fetched
    /// ends the scan as partial.
    pub fn next_action(&mut self) -> (a: HistoryAction)
        requires
            old(self).wf(),
        ensures
            final(self).wf(),
            old(self)@.pending_url is Some && old(self)@.page_number
                >= MAX_BATTLEMETRICS_SESSION_HISTORY_PAGES ==> (a matches HistoryAction::Finish(h)
                && h@ == partial_history()) && final(self)@ == old(self)@,
            old(self)@.pending_url is Some && old(self)@.page_number
                < MAX_BATTLEMETRICS_SESSION_HISTORY_PAGES ==> (a matches HistoryAction::Fetch(url)
                && url@ == old(self)@.pending_url->0) && final(self)@ == fetched_pending(old(self)@),
            old(self)@.pending_url is None && old(self)@.next_player < old(self)@.player_ids.len()
                ==> (a matches HistoryAction::Fetch(url) && url@ == first_page_url(
                old(self)@.player_ids[old(self)@.next_player],
            )) && final(self)@ == started_next_player(old(self)@),
            old(self)@.pending_url is None && old(self)@.next_player >= old(self)@.player_ids.len()
                ==> (a matches HistoryAction::Finish(h) && h@ == finished_history(
                old(self)@.totals,
            )) && final(self)@ == old(self)@,
    {
        if self.pending_url.is_some() {
            if self.page_number >= MAX_BATTLEMETRICS_SESSION_HISTORY_PAGES {
                let mut status = String::from_str("partial: session history exceeded ");
                push_decimal(&mut status, MAX_BATTLEMETRICS_SESSION_HISTORY_PAGES as u128);
                status.append(" pages per matched player");
                return HistoryAction::Finish(history_with_status(status));
            }
            let url = self.pending_url.take().unwrap();
            self.page_number = self.page_number + 1;
            return HistoryAction::Fetch(url);
        }
        if self.next_player < self.player_ids.len() {
            let mut url = String::from_str("https://api.battlemetrics.com/players/");
            url.append(self.player_ids[self.next_player].as_str());
            url.append("/relationships/sessions");
            self.next_player = self.next_player + 1;
            self.page_number = 1;
            return HistoryAction::Fetch(url);
        }
        HistoryAction::Finish(
            finish_history(
                self.post_ban_whole_seconds,
                self.post_ban_sessions,
                self.saw_timestamped_session,
                Ghost(wide_value(self.post_ban_remainder@)),
                Ghost(wide_value(self.post_ban_denominator@)),
            ),
        )
    }

    /// The number of dated sessions counted so far.
    pub fn session_count(&self) -> (n: u32)
        ensures
            n == self@.totals.sessions,
    {
        self.post_ban_sessions
    }
}

proof fn lemma_scan_seen_grows(
    t: ScanTotals,
    page: Seq<SessionRecord>,
    servers: Seq<Seq<char>>,
    now: int,
    cutoff: int,
)
    ensures
        t.seen.subset_of(scan_sessions(t, page, servers, now, cutoff).seen),
    decreases page.len(),
{
    if page.len() > 0 {
        lemma_scan_seen_grows(t, page.drop_last(), servers, now, cutoff);
    }
}

proof fn lemma_scan_marks_seen(
    t: ScanTotals,
    page: Seq<SessionRecord>,
    servers: Seq<Seq<char>>,
    now: int,
    cutoff: int,
)
    ensures
        forall|i: int|
            0 <= i < page.len() && on_configured_server(#[trigger] page[i], servers) ==> scan_sessions(
                t,
                page,
                servers,
                now,
                cutoff,
            ).seen.contains(page[i].id@),
    decreases page.len(),
{
    if page.len() > 0 {
        let front = page.drop_last();
        lemma_scan_marks_seen(t, front, servers, now, cutoff);
        let mid = scan_sessions(t, front, servers, now, cutoff);
        let last = scan_session(mid, page.last(), servers, now, cutoff);
        assert(mid.seen.subset_of(last.seen));
        assert forall|i: int|
            0 <= i < page.len() && on_configured_server(#[trigger] page[i], servers) implies last.seen.contains(
            page[i].id@,
        ) by {
            if i < front.len() {
                assert(front[i] == page[i]);
            }
        }
    }
}

proof fn lemma_scan_all_seen_unchanged(
    t: ScanTotals,
    page: Seq<SessionRecord>,
    servers: Seq<Seq<char>>,
    now: int,
    cutoff: int,
)
    requires
        forall|i: int|
            0 <= i < page.len() && on_configured_server(#[trigger] page[i], servers) ==> t.seen.contains(
                page[i].id@,
            ),
    ensures
        scan_sessions(t, page, servers, now, cutoff) == t,
    decreases page.len(),
{
    if page.len() > 0 {
        let front = page.drop_last();
        assert forall|i: int|
            0 <= i < front.len() && on_configured_server(#[trigger] front[i], servers) implies t.seen.contains(
            front[i].id@,
        ) by {
            assert(front[i] == page[i]);
        }
        lemma_scan_all_seen_unchanged(t, front, servers, now, cutoff);
        assert(page.last() == page[page.len() - 1]);
    }
}

/// Scanning the same page again changes nothing: every session on a
/// configured server is counted at most once.
pub proof fn law_rescanning_a_page_changes_nothing(
    t: ScanTotals,
    page: Seq<SessionRecord>,
    servers: Seq<Seq<char>>,
    now: int,
    cutoff: int,
)
    ensures
        scan_sessions(scan_sessions(t, page, servers, now, cutoff), page, servers, now, cutoff)
            == scan_sessions(t, page, servers, now, cutoff),
{
    lemma_scan_marks_seen(t, page, servers, now, cutoff);
    lemma_scan_all_seen_unchanged(
        scan_sessions(t, page, servers, now, cutoff),
        page,
        servers,
        now,
        cutoff,
    );
}

/// A session's post-ban share never exceeds its recorded time, nor is it
/// negative: the fraction `num / den` has a positive denominator and lies
/// between 0 and the recorded seconds.
pub proof fn law_post_ban_share_within_recorded(s: SessionRecord, now: int, cutoff: int)
    ensures
        post_ban_share_of(s, now, cutoff) matches Some((num, den)) ==> den > 0 && 0 <= num <= (
        match s.time_played_seconds {
            Some(t) => t as int,
            None => whole_seconds_between(instant_of(s.first_time)->0, match instant_of(s.last_time) {
                Some(e) => e,
                None => now,
            }),
        }) * den,
{
    match instant_of(s.first_time) {
        None => {},
        Some(start) => {
            let end = match instant_of(s.last_time) {
                Some(e) => e,
                None => now,
            };
            if end > cutoff {
                let elapsed = whole_seconds_between(start, end);
                let recorded = match s.time_played_seconds {
                    Some(t) => t as int,
                    None => elapsed,
                };
                if recorded > 0 && elapsed > 0 {
                    let post_start = if start > cutoff { start } else { cutoff };
                    let post = whole_seconds_between(post_start, end);
                    vstd::arithmetic::div_mod::lemma_div_is_ordered(
                        end - post_start,
                        end - start,
                        1_000_000_000,
                    );
                    assert(0 <= recorded * post <= recorded * elapsed) by (nonlinear_arith)
                        requires
                            0 <= post <= elapsed,
                            recorded > 0,
                    ;
                }
            }
        },
    }
}

/// No player's pages are fetched beyond the limit: fetching the pending
/// page of a player with fewer than twenty fetched pages leaves at most
/// twenty, and a player's first page counts as one.
pub proof fn law_page_limit_per_player(v: ScanView)
    requires
        0 <= v.page_number < MAX_BATTLEMETRICS_SESSION_HISTORY_PAGES,
    ensures
        fetched_pending(v).page_number <= MAX_BATTLEMETRICS_SESSION_HISTORY_PAGES,
        started_next_player(v).page_number == 1,
{
}

/// What the scan asks of its caller.
#[derive(Clone, Debug)]
pub enum HistoryAction {
    /// Fetch this URL and report the page or the failure.
    Fetch(String),
    /// The scan is over with this history.
    Finish(BattleMetricsSessionHistory),
}

/// A scan view with other totals.
pub open spec fn with_totals(v: ScanView, t: ScanTotals) -> ScanView {
    ScanView {
        server_ids: v.server_ids,
        player_ids: v.player_ids,
        now: v.now,
        cutoff: v.cutoff,
        next_player: v.next_player,
        pending_url: v.pending_url,
        page_number: v.page_number,
        totals: t,
    }
}

/// The scan after a page: its sessions in the totals and its next link pending.
pub open spec fn after_page(v: ScanView, page: Seq<SessionRecord>, next_link: Option<Seq<char>>) -> ScanView {
    ScanView {
        server_ids: v.server_ids,
        player_ids: v.player_ids,
        now: v.now,
        cutoff: v.cutoff,
        next_player: v.next_player,
        pending_url: match next_link {
            Some(l) => Some(absolute_link(l)),
            None => None,
        },
        page_number: v.page_number,
        totals: scan_sessions(v.totals, page, v.server_ids, v.now, v.cutoff),
    }
}

/// The scan once its pending page is being fetched.
pub open spec fn fetched_pending(v: ScanView) -> ScanView {
    ScanView {
        server_ids: v.server_ids,
        player_ids: v.player_ids,
        now: v.now,
        cutoff: v.cutoff,
        next_player: v.next_player,
        pending_url: None,
        page_number: v.page_number + 1,
        totals: v.totals,
    }
}

/// The scan once the next player's first page is being fetched.
pub open spec fn started_next_player(v: ScanView) -> ScanView {
    ScanView {
        server_ids: v.server_ids,
        player_ids: v.player_ids,
        now: v.now,
        cutoff: v.cutoff,
        next_player: v.next_player + 1,
        pending_url: None,
        page_number: 1,
        totals: v.totals,
    }
}

/// The totals after a share of `num / den` seconds.
pub open spec fn added_share(t: ScanTotals, num: int, den: int) -> ScanTotals {
    ScanTotals {
        seen: t.seen,
        post_ban_num: t.post_ban_num * den + num * t.post_ban_den,
        post_ban_den: t.post_ban_den * den,
        sessions: t.sessions + 1,
        saw_timestamped_session: true,
    }
}

proof fn lemma_share_split(num: int, den: int, q: int, rem: int)
    requires
        0 < den,
        0 <= rem < den,
        num == den * q + rem,
        0 <= num < share_bound() * den,
    ensures
        0 <= q < share_bound(),
{
    assert(0 <= q < share_bound()) by (nonlinear_arith)
        requires
            0 < den,
            0 <= rem < den,
            num == den * q + rem,
            0 <= num < share_bound() * den,
    ;
}

/// Adding `(q * e + rem) / e` to `w + r / d` gives `w + q` and
/// `(r * e + rem * d) / (d * e)`, where that fraction is below two.
proof fn lemma_fraction_step(w: int, r: int, d: int, q: int, rem: int, e: int)
    requires
        0 <= r < d,
        0 <= rem < e,
    ensures
        (w * d + r) * e + (e * q + rem) * d == (w + q) * (d * e) + (r * e + rem * d),
        0 <= r * e + rem * d < 2 * (d * e),
        d * e > 0,
{
    assert((w * d + r) * e + (e * q + rem) * d == (w + q) * (d * e) + (r * e + rem * d))
        by (nonlinear_arith);
    assert(0 <= r * e + rem * d < 2 * (d * e)) by (nonlinear_arith)
        requires
            0 <= r < d,
            0 <= rem < e,
    ;
    assert(d * e > 0) by (nonlinear_arith)
        requires
            0 <= r < d,
            0 <= rem < e,
    ;
}

proof fn lemma_whole_seconds_bound(sessions: int)
    requires
        0 <= sessions <= 0xffff_ffff,
    ensures
        sessions * share_bound() <= 0xffff_ffff * share_bound(),
        (sessions + 1) * share_bound() == sessions * share_bound() + share_bound(),
{
    assert(sessions * share_bound() <= 0xffff_ffff * share_bound()) by (nonlinear_arith)
        requires
            0 <= sessions <= 0xffff_ffff,
            share_bound() > 0,
    ;
    assert((sessions + 1) * share_bound() == sessions * share_bound() + share_bound()) by (nonlinear_arith);
}

/// Whether `x` is among `list`.
fn contains_string(list: &Vec<String>, x: &String) -> (b: bool)
    ensures
        b == strings_view(list@).contains(x@),
{
    let n = list.len();
    let mut i: usize = 0;
    while i < n
        invariant
            n == list@.len(),
            i <= n,
            forall|j: int| 0 <= j < i ==> #[trigger] strings_view(list@)[j] != x@,
        decreases n - i,
    {
        if list[i] == *x {
            assert(strings_view(list@)[i as int] == x@);
            return true;
        }
        i = i + 1;
    }
    false
}

/// Whole seconds between two instants (nanoseconds), 0 where not after.
fn seconds_between(from: i128, to: i128) -> (s: i128)
    requires
        -max_chrono_seconds() * 1_000_000_000 <= from <= max_chrono_seconds() * 1_000_000_000
            + 2_000_000_000,
        -max_chrono_seconds() * 1_000_000_000 <= to <= max_chrono_seconds() * 1_000_000_000
            + 2_000_000_000,
    ensures
        s == whole_seconds_between(from as int, to as int),
        0 <= s <= 2 * max_chrono_seconds() + 2,
{
    if to - from > 0 {
        (to - from) / 1_000_000_000
    } else {
        0
    }
}

/// The seconds of a session's recorded time after the cutoff, as a
/// numerator and a denominator, from its start and end instants
/// (nanoseconds), its recorded seconds, now and the cutoff.
pub fn post_ban_share(
    start: Option<i128>,
    end: Option<i128>,
    time_played: Option<i64>,
    now: i128,
    cutoff: i128,
) -> (r: Option<(u128, u128)>)
    requires
        start matches Some(t) ==> in_chrono_range(t as int),
        end matches Some(t) ==> in_chrono_range(t as int),
        in_chrono_range(now as int),
        cutoff <= now,
    ensures
        opt_pair(r) == share_from_instants(
            opt_int(start),
            opt_int(end),
            time_played,
            now as int,
            cutoff as int,
        ),
        r matches Some((num, den)) ==> 0 < den <= 0xffff_ffff_ffff_ffff && num < share_bound()
            * den,
{
    let start: i128 = match start {
        Some(x) => x,
        None => {
            return None;
        },
    };
    let end: i128 = match end {
        Some(e) => e,
        None => now,
    };
    if end <= cutoff {
        return None;
    }
    let elapsed = seconds_between(start, end);
    let recorded: i128 = match time_played {
        Some(t) => t as i128,
        None => elapsed,
    };
    if recorded <= 0 || elapsed <= 0 {
        return None;
    }
    let post_start: i128 = if start > cutoff {
        start
    } else {
        cutoff
    };
    let post = seconds_between(post_start, end);
    proof {
        vstd::arithmetic::div_mod::lemma_div_is_ordered(
            end - post_start,
            end - start,
            1_000_000_000,
        );
    }
    assert(recorded * post <= 0x8000_0000_0000_0000 * 17_000_000_000_000) by (nonlinear_arith)
        requires
            0 < recorded < 0x8000_0000_0000_0000,
            0 <= post <= 17_000_000_000_000,
    ;
    assert(recorded * post < share_bound() * elapsed) by (nonlinear_arith)
        requires
            0 < recorded < share_bound(),
            0 <= post <= elapsed,
            0 < elapsed,
    ;
    let num: u128 = (recorded as u128) * (post as u128);
    Some((num, elapsed as u128))
}

/// An optional instant as an integer.
pub open spec fn opt_int(t: Option<i128>) -> Option<int> {
    match t {
        Some(x) => Some(x as int),
        None => None,
    }
}

/// An optional fraction as a pair of integers.
pub open spec fn opt_pair(f: Option<(u128, u128)>) -> Option<(int, int)> {
    match f {
        Some((num, den)) => Some((num as int, den as int)),
        None => None,
    }
}

/// `link` made absolute where it does not start with "http".
fn make_absolute(link: String) -> (r: String)
    ensures
        r@ == absolute_link(link@),
{
    let n = link.as_str().unicode_len();
    if n >= 4 && link.as_str().get_char(0) == 'h' && link.as_str().get_char(1) == 't'
        && link.as_str().get_char(2) == 't' && link.as_str().get_char(3) == 'p' {
        link
    } else {
        let mut r = String::from_str("https://api.battlemetrics.com");
        r.append(link.as_str());
        r
    }
}

/// Rounding `w + r / d` seconds to tenths of an hour depends on the whole
/// seconds `w` alone, as the fraction `r / d` stays below one.
proof fn lemma_rounding_ignores_fraction(w: int, r: int, d: int)
    requires
        w >= 0,
        0 <= r < d,
    ensures
        tenths_of_seconds(w * d + r, d) == (w + 180) / 360,
{
    let j = w + 180;
    let q = j / 360;
    let s = j % 360;
    vstd::arithmetic::div_mod::lemma_fundamental_div_mod(j, 360);
    assert(w * d + r + 180 * d == q * (360 * d) + (s * d + r) && 0 <= s * d + r < 360 * d)
        by (nonlinear_arith)
        requires
            j == w + 180,
            j == 360 * q + s,
            0 <= s < 360,
            0 <= r < d,
    ;
    vstd::arithmetic::div_mod::lemma_fundamental_div_mod_converse(
        w * d + r + 180 * d,
        360 * d,
        q,
        s * d + r,
    );
}

/// The history of a completed scan, from its whole post-ban seconds; the
/// fraction of a second `rem / den` beyond them does not change it.
fn finish_history(
    whole: u128,
    sessions: u32,
    saw: bool,
    Ghost(rem): Ghost<int>,
    Ghost(den): Ghost<int>,
) -> (h: BattleMetricsSessionHistory)
    requires
        whole <= sessions * share_bound(),
        0 <= rem < den,
    ensures
        h@ == finished_history(
            (ScanTotals {
                seen: Set::empty(),
                post_ban_num: whole * den + rem,
                post_ban_den: den,
                sessions: sessions as int,
                saw_timestamped_session: saw,
            }),
        ),
{
    if !saw {
        return BattleMetricsSessionHistory {
            post_ban_hours_tenths: None,
            status: String::from_str("no dated sessions were returned after the latest Steam ban"),
            session_count: Some(0),
        };
    }
    proof {
        lemma_whole_seconds_bound(sessions as int);
        lemma_rounding_ignores_fraction(whole as int, rem, den);
    }
    let mut status = String::new();
    push_decimal(&mut status, sessions as u128);
    status.append(" dated sessions after the latest Steam ban");
    assert(status@ =~= decimal(sessions as nat) + " dated sessions after the latest Steam ban"@);
    BattleMetricsSessionHistory {
        post_ban_hours_tenths: Some((whole + 180) / 360),
        status,
        session_count: Some(sessions),
    }
}

/// A scan has seen a dated session exactly when it counted one: a session
/// that yields no post-ban share (no readable start, ended by the cutoff,
/// no recorded or elapsed time) neither counts nor marks the scan as dated,
/// and the count never falls.
pub proof fn law_dated_exactly_when_counted(
    t: ScanTotals,
    page: Seq<SessionRecord>,
    servers: Seq<Seq<char>>,
    now: int,
    cutoff: int,
)
    requires
        t.sessions >= 0,
        t.saw_timestamped_session == (t.sessions > 0),
    ensures
        scan_sessions(t, page, servers, now, cutoff).saw_timestamped_session == (scan_sessions(
            t,
            page,
            servers,
            now,
            cutoff,
        ).sessions > 0),
        scan_sessions(t, page, servers, now, cutoff).sessions >= t.sessions,
    decreases page.len(),
{
    if page.len() > 0 {
        law_dated_exactly_when_counted(t, page.drop_last(), servers, now, cutoff);
    }
}

/// A finished scan that counted no session reports no post-ban hours, a
/// count of zero, and that no dated sessions were returned.
pub proof fn law_no_counted_session_no_hours(
    t: ScanTotals,
    page: Seq<SessionRecord>,
    servers: Seq<Seq<char>>,
    now: int,
    cutoff: int,
)
    requires
        t.sessions == 0,
        !t.saw_timestamped_session,
        scan_sessions(t, page, servers, now, cutoff).sessions == 0,
    ensures
        finished_history(scan_sessions(t, page, servers, now, cutoff)).post_ban_hours_tenths is None,
        finished_history(scan_sessions(t, page, servers, now, cutoff)).session_count == Some(0u32),
        finished_history(scan_sessions(t, page, servers, now, cutoff)).status
            == "no dated sessions were returned after the latest Steam ban"@,
{
    law_dated_exactly_when_counted(t, page, servers, now, cutoff);
}

/// Every scan in a consistent state has seen a dated session exactly when
/// it counted one.
pub proof fn law_scan_dated_exactly_when_counted(scan: &SessionHistoryScan)
    requires
        scan.wf(),
    ensures
        scan@.totals.saw_timestamped_session == (scan@.totals.sessions > 0),
{
}

/// A session that ends by the cutoff (its end, or now where it has none, at
/// or before it) or that has no readable start yields no post-ban share.
pub proof fn law_no_share_before_cutoff(s: SessionRecord, now: int, cutoff: int)
    ensures
        instant_of(s.first_time) is None ==> post_ban_share_of(s, now, cutoff) is None,
        (match instant_of(s.last_time) {
            Some(e) => e,
            None => now,
        }) <= cutoff ==> post_ban_share_of(s, now, cutoff) is None,
{
}

} // verus!
