//! BattleMetrics configuration and the aggregate player lookup.

use vstd::prelude::*;
use vstd::string::*;
use crate::session_history::BattleMetricsSessionHistory;
use crate::text::{decimal, law_trim_idempotent, opt_string_view, push_decimal, split_on, split_seq, strings_view, trim, trim_seq};

verus! {

/// What the BattleMetrics lookup contributed: aggregate session hours (in
/// tenths), dated post-ban hours (in tenths), and the status of each step.
#[derive(Clone, Debug)]
pub struct BattleMetricsLookup {
    pub session_hours_tenths: Option<u128>,
    pub status: String,
    pub post_ban_hours_tenths: Option<u128>,
    pub session_history_status: String,
    pub recent_session_count: Option<u32>,
}

/// The mathematical value of a [`BattleMetricsLookup`].
pub struct BattleMetricsLookupView {
    pub session_hours_tenths: Option<u128>,
    pub status: Seq<char>,
    pub post_ban_hours_tenths: Option<u128>,
    pub session_history_status: Seq<char>,
    pub recent_session_count: Option<u32>,
}

impl View for BattleMetricsLookup {
    type V = BattleMetricsLookupView;

    open spec fn view(&self) -> BattleMetricsLookupView {
        BattleMetricsLookupView {
            session_hours_tenths: self.session_hours_tenths,
            status: self.status@,
            post_ban_hours_tenths: self.post_ban_hours_tenths,
            session_history_status: self.session_history_status@,
            recent_session_count: self.recent_session_count,
        }
    }
}

// ---------------------------------------------------------------------
// Configuration

/// The API token and the server ids whose sessions count.
#[derive(Clone, Debug)]
pub struct BattleMetricsConfig {
    pub token: String,
    pub server_ids: Vec<String>,
}

/// The trimmed pieces that are not empty, in order.
pub open spec fn nonempty_trimmed(pieces: Seq<Seq<char>>) -> Seq<Seq<char>>
    decreases pieces.len(),
{
    if pieces.len() == 0 {
        Seq::empty()
    } else {
        let rest = nonempty_trimmed(pieces.drop_last());
        let t = trim_seq(pieces.last());
        if t.len() > 0 {
            rest.push(t)
        } else {
            rest
        }
    }
}

/// The configuration read from a token and a comma-separated list of
/// server ids: both trimmed, empty ids dropped; none unless both a token
/// and at least one server id remain.
pub open spec fn config_spec(token: Option<Seq<char>>, server_ids: Option<Seq<char>>) -> Option<
    (Seq<char>, Seq<Seq<char>>),
> {
    match (token, server_ids) {
        (Some(t), Some(ids)) => {
            let tt = trim_seq(t);
            let list = nonempty_trimmed(split_seq(ids, ','));
            if tt.len() > 0 && list.len() > 0 {
                Some((tt, list))
            } else {
                None
            }
        },
        _ => None,
    }
}

/// Every configured server id is non-empty and already trimmed.
pub proof fn law_config_ids_trimmed_nonempty(pieces: Seq<Seq<char>>)
    ensures
        forall|i: int|
            0 <= i < nonempty_trimmed(pieces).len() ==> {
                let id = #[trigger] nonempty_trimmed(pieces)[i];
                id.len() > 0 && trim_seq(id) == id
            },
    decreases pieces.len(),
{
    if pieces.len() > 0 {
        law_config_ids_trimmed_nonempty(pieces.drop_last());
        law_trim_idempotent(pieces.last());
        let rest = nonempty_trimmed(pieces.drop_last());
        let all = nonempty_trimmed(pieces);
        assert forall|i: int| 0 <= i < all.len() implies {
            let id = #[trigger] all[i];
            id.len() > 0 && trim_seq(id) == id
        } by {
            if i < rest.len() {
                assert(all[i] == rest[i]);
            }
        }
    }
}

/// The BattleMetrics configuration from the raw token and server-id list.
pub fn battlemetrics_config(token: Option<String>, server_ids: Option<String>) -> (c: Option<
    BattleMetricsConfig,
>)
    ensures
        c matches Some(cfg) ==> config_spec(opt_string_view(token), opt_string_view(server_ids)) == Some(
            (cfg.token@, strings_view(cfg.server_ids@)),
        ),
        c is None ==> config_spec(opt_string_view(token), opt_string_view(server_ids)) is None,
{
    let token = match token {
        Some(t) => t,
        None => return None,
    };
    let raw_ids = match server_ids {
        Some(s) => s,
        None => return None,
    };
    let trimmed_token = trim(token.as_str());
    if trimmed_token.unicode_len() == 0 {
        return None;
    }
    let pieces = split_on(raw_ids.as_str(), ',');
    let ghost piece_views = strings_view(pieces@);
    let mut ids: Vec<String> = Vec::new();
    let n = pieces.len();
    let mut i: usize = 0;
    assert(piece_views.take(0) =~= Seq::<Seq<char>>::empty());
    assert(strings_view(ids@) =~= Seq::<Seq<char>>::empty());
    while i < n
        invariant
            n == pieces@.len(),
            piece_views == strings_view(pieces@),
            i <= n,
            strings_view(ids@) == nonempty_trimmed(piece_views.take(i as int)),
        decreases n - i,
    {
        let t = trim(pieces[i].as_str());
        assert(piece_views.take(i + 1).drop_last() =~= piece_views.take(i as int));
        assert(piece_views.take(i + 1).last() == pieces@[i as int]@);
        if t.unicode_len() > 0 {
            let ghost before = strings_view(ids@);
            ids.push(String::from_str(t));
            assert(strings_view(ids@) =~= before.push(t@));
        }
        i = i + 1;
    }
    assert(piece_views.take(n as int) =~= piece_views);
    if ids.len() == 0 {
        return None;
    }
    Some(BattleMetricsConfig { token: String::from_str(trimmed_token), server_ids: ids })
}

// ---------------------------------------------------------------------
// Player lookup

/// A matched player record: its id and, where reported, its time played
/// on the configured servers in whole seconds.
#[derive(Clone, Debug)]
pub struct PlayerRecord {
    pub id: String,
    pub time_played_seconds: Option<i64>,
}

/// Why the player lookup produced no records.
#[derive(Clone, Debug)]
pub enum LookupFailure {
    MissingConfig,
    RequestFailed(String),
    ParseFailed(String),
}

/// The statuses recorded for a failed player lookup.
pub open spec fn failure_statuses(reason: LookupFailure) -> (Seq<char>, Seq<char>) {
    match reason {
        LookupFailure::MissingConfig => ("missing config"@, "missing config"@),
        LookupFailure::RequestFailed(e) => (
            "request failed: "@ + e@,
            "player lookup unavailable"@,
        ),
        LookupFailure::ParseFailed(e) => ("parse failed: "@ + e@, "player lookup unavailable"@),
    }
}

/// A lookup with no hours, recording why.
pub open spec fn empty_lookup(status: Seq<char>, history_status: Seq<char>) -> BattleMetricsLookupView {
    BattleMetricsLookupView {
        session_hours_tenths: None,
        status,
        post_ban_hours_tenths: None,
        session_history_status: history_status,
        recent_session_count: None,
    }
}

/// The lookup result when no player records could be obtained.
pub fn unavailable_lookup(reason: LookupFailure) -> (r: BattleMetricsLookup)
    ensures
        r@ == empty_lookup(failure_statuses(reason).0, failure_statuses(reason).1),
{
    match reason {
        LookupFailure::MissingConfig => BattleMetricsLookup {
            session_hours_tenths: None,
            status: String::from_str("missing config"),
            post_ban_hours_tenths: None,
            session_history_status: String::from_str("missing config"),
            recent_session_count: None,
        },
        LookupFailure::RequestFailed(e) => {
            let mut status = String::from_str("request failed: ");
            status.append(e.as_str());
            BattleMetricsLookup {
                session_hours_tenths: None,
                status,
                post_ban_hours_tenths: None,
                session_history_status: String::from_str("player lookup unavailable"),
                recent_session_count: None,
            }
        },
        LookupFailure::ParseFailed(e) => {
            let mut status = String::from_str("parse failed: ");
            status.append(e.as_str());
            BattleMetricsLookup {
                session_hours_tenths: None,
                status,
                post_ban_hours_tenths: None,
                session_history_status: String::from_str("player lookup unavailable"),
                recent_session_count: None,
            }
        },
    }
}

/// The reported time played of the records, in seconds.
pub open spec fn total_time_played(records: Seq<PlayerRecord>) -> int
    decreases records.len(),
{
    if records.len() == 0 {
        0
    } else {
        total_time_played(records.drop_last()) + match records.last().time_played_seconds {
            Some(t) => t as int,
            None => 0,
        }
    }
}

/// What the matched player records lead to.
#[derive(Clone, Debug)]
pub enum PlayerRecordsOutcome {
    /// The lookup is complete without session history.
    Finished(BattleMetricsLookup),
    /// Time was played: session history of these players is needed.
    NeedsHistory { player_ids: Vec<String>, total_seconds: i128, record_count: usize },
}

/// "matched {count} records{suffix}"
pub open spec fn matched_text(count: nat, suffix: Seq<char>) -> Seq<char> {
    "matched "@ + decimal(count) + " records"@ + suffix
}

/// The ids of the records, in order.
pub open spec fn record_ids(records: Seq<PlayerRecord>) -> Seq<Seq<char>> {
    records.map_values(|r: PlayerRecord| r.id@)
}

proof fn lemma_time_played_bounds(records: Seq<PlayerRecord>)
    ensures
        -records.len() * 0x8000_0000_0000_0000 <= total_time_played(records) <= records.len()
            * 0x8000_0000_0000_0000,
    decreases records.len(),
{
    if records.len() > 0 {
        lemma_time_played_bounds(records.drop_last());
    }
}

/// Decides on the matched player records: no records, no time played, or
/// the total time played and the players whose history is needed.
pub fn assess_player_records(records: &Vec<PlayerRecord>) -> (r: PlayerRecordsOutcome)
    ensures
        records@.len() == 0 ==> (r matches PlayerRecordsOutcome::Finished(l) && l@ == empty_lookup(
            "no matching player records"@,
            "no matching player records"@,
        )),
        records@.len() > 0 && total_time_played(records@) <= 0 ==> (r matches PlayerRecordsOutcome::Finished(l)
            && l@ == empty_lookup(
            matched_text(records@.len(), " without timePlayed"@),
            "aggregate playtime unavailable"@,
        )),
        records@.len() > 0 && total_time_played(records@) > 0 ==> (r matches PlayerRecordsOutcome::NeedsHistory {
            player_ids,
            total_seconds,
            record_count,
        } && strings_view(player_ids@) == record_ids(records@) && total_seconds
            == total_time_played(records@) && record_count == records@.len()),
{
    let n = records.len();
    if n == 0 {
        return PlayerRecordsOutcome::Finished(
            BattleMetricsLookup {
                session_hours_tenths: None,
                status: String::from_str("no matching player records"),
                post_ban_hours_tenths: None,
                session_history_status: String::from_str("no matching player records"),
                recent_session_count: None,
            },
        );
    }
    let mut ids: Vec<String> = Vec::new();
    let mut total: i128 = 0;
    let mut i: usize = 0;
    assert(records@.take(0) =~= Seq::<PlayerRecord>::empty());
    assert(strings_view(ids@) =~= record_ids(records@.take(0)));
    while i < n
        invariant
            n == records@.len(),
            i <= n,
            total == total_time_played(records@.take(i as int)),
            strings_view(ids@) == record_ids(records@.take(i as int)),
        decreases n - i,
    {
        let ghost prefix = records@.take(i + 1);
        assert(prefix.drop_last() =~= records@.take(i as int));
        proof {
            lemma_time_played_bounds(prefix);
        }
        let record = &records[i];
        match record.time_played_seconds {
            Some(t) => {
                total = total + t as i128;
            },
            None => {},
        }
        let ghost before = strings_view(ids@);
        let id = record.id.clone();
        ids.push(id);
        assert(record_ids(prefix) =~= record_ids(records@.take(i as int)).push(records@[i as int].id@));
        assert(strings_view(ids@) =~= before.push(id@));
        i = i + 1;
    }
    assert(records@.take(n as int) =~= records@);
    if total <= 0 {
        let mut status = String::from_str("matched ");
        push_decimal(&mut status, n as u128);
        status.append(" records");
        status.append(" without timePlayed");
        return PlayerRecordsOutcome::Finished(
            BattleMetricsLookup {
                session_hours_tenths: None,
                status,
                post_ban_hours_tenths: None,
                session_history_status: String::from_str("aggregate playtime unavailable"),
                recent_session_count: None,
            },
        );
    }
    PlayerRecordsOutcome::NeedsHistory { player_ids: ids, total_seconds: total, record_count: n }
}

/// Seconds as whole tenths of an hour, halves rounded up.
pub open spec fn tenths_of_seconds(seconds: int) -> int {
    (seconds + 180) / 360
}

/// The lookup once the session history is known: the aggregate session
/// hours (rounded to tenths), "matched {n} records", and the history's
/// post-ban hours, status and session count.
pub fn complete_lookup(
    total_seconds: i128,
    record_count: usize,
    history: BattleMetricsSessionHistory,
) -> (r: BattleMetricsLookup)
    requires
        total_seconds > 0,
    ensures
        r.session_hours_tenths == Some(tenths_of_seconds(total_seconds as int) as u128),
        r.status@ == matched_text(record_count as nat, Seq::empty()),
        r.post_ban_hours_tenths == history.post_ban_hours_tenths,
        r.session_history_status@ == history.status@,
        r.recent_session_count == history.session_count,
{
    let tenths: u128 = ((total_seconds as u128) + 180) / 360;
    let mut status = String::from_str("matched ");
    push_decimal(&mut status, record_count as u128);
    status.append(" records");
    assert(status@ =~= matched_text(record_count as nat, Seq::empty()));
    BattleMetricsLookup {
        session_hours_tenths: Some(tenths),
        status,
        post_ban_hours_tenths: history.post_ban_hours_tenths,
        session_history_status: history.status,
        recent_session_count: history.session_count,
    }
}

} // verus!
