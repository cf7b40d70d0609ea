use sus_check::battlemetrics::BattleMetricsLookup;
use sus_check::context::Ratio;
use sus_check::lookup::{build_lookup_result, minutes_to_tenth_hours, top_other_games, CROSSHAIR_X_APP_ID, RUST_APP_ID};
use sus_check::steam::{
    post_ban_history_days, select_ban_record, select_player, OwnedGame, OwnedGamesBody,
    PlayerBanRecord, SteamPlayer,
};

fn game(appid: u32, name: &str, minutes: u32) -> OwnedGame {
    OwnedGame { appid, name: name.to_string(), playtime_forever: minutes }
}

fn player() -> SteamPlayer {
    SteamPlayer {
        steamid: "76561198000000001".to_string(),
        personaname: "someone".to_string(),
        profileurl: "https://steamcommunity.com/id/someone".to_string(),
        avatarfull: "https://example.invalid/a.png".to_string(),
        communityvisibilitystate: 3,
    }
}

fn ban_record(vac_banned: bool, vac: u32, game: u32, days: u32) -> PlayerBanRecord {
    PlayerBanRecord {
        community_banned: false,
        vac_banned,
        number_of_vac_bans: vac,
        days_since_last_ban: days,
        number_of_game_bans: game,
        economy_ban: "none".to_string(),
    }
}

fn bm(session: Option<u128>, status: &str) -> BattleMetricsLookup {
    BattleMetricsLookup {
        session_hours_tenths: session,
        status: status.to_string(),
        post_ban_hours_tenths: None,
        session_history_status: "not requested: no Steam ban history".to_string(),
        recent_session_count: None,
    }
}

#[test]
fn minutes_round_to_tenths_of_hours() {
    assert_eq!(minutes_to_tenth_hours(0), 0);
    assert_eq!(minutes_to_tenth_hours(2), 0);
    assert_eq!(minutes_to_tenth_hours(3), 1);
    assert_eq!(minutes_to_tenth_hours(90), 15);
    assert_eq!(minutes_to_tenth_hours(61), 10);
    assert_eq!(minutes_to_tenth_hours(u32::MAX), 715_827_883);
}

#[test]
fn other_games_sorted_by_hours_with_ties_in_library_order() {
    let games = vec![
        game(10, "A", 60),
        game(RUST_APP_ID, "Rust", 6000),
        game(20, "", 600),
        game(30, "C", 0),
        game(40, "D", 61),
        game(50, "E", 600),
    ];
    let top = top_other_games(&games);
    let ids: Vec<u32> = top.iter().map(|g| g.app_id).collect();
    assert_eq!(ids, vec![20, 50, 10, 40]);
    assert_eq!(top[0].name, "App 20");
    assert_eq!(top[0].hours_tenths, 100);
    assert_eq!(top[2].hours_tenths, 10);
    assert_eq!(top[3].hours_tenths, 10);
}

#[test]
fn lookup_summarises_library_and_battlemetrics() {
    let owned = OwnedGamesBody {
        game_count: 3,
        games: vec![
            game(RUST_APP_ID, "Rust", 600_000),
            game(CROSSHAIR_X_APP_ID, "Crosshair X", 6_000),
            game(730, "Counter-Strike 2", 54_000),
        ],
    };
    let r = build_lookup_result(bm(Some(20_000), "matched 1 records"), player(), ban_record(false, 0, 0, 0), owned);
    let p = &r.profile.playtime_context;
    assert!(p.owned_games_visible);
    assert_eq!(p.total_games, Some(3));
    assert_eq!(p.rust_hours_tenths, Some(100_000));
    assert_eq!(p.crosshair_x_hours_tenths, Some(1_000));
    assert_eq!(p.total_hours_tenths, Some(110_000));
    assert_eq!(p.non_rust_hours_tenths, Some(10_000));
    assert_eq!(p.concentration_ratio, Some(Ratio { part: 600_000, whole: 660_000 }));
    assert_eq!(p.steam_minus_session_hours_tenths, Some(80_000));
    assert_eq!(p.session_to_steam_ratio, Some(Ratio { part: 20_000, whole: 100_000 }));
    assert!(p.notes.is_empty());
    assert_eq!(p.top_other_games.len(), 2);
    assert_eq!(p.top_other_games[0].app_id, 730);
    assert_eq!(r.profile.steam_id, "76561198000000001");
    assert_eq!(r.profile.ban_context.days_since_last_ban, None);
    assert_eq!(r.decision.review_priority, 20);
    assert_eq!(r.decision.outcome, "review server coverage");
}

#[test]
fn lookup_without_visible_library_notes_why() {
    let owned = OwnedGamesBody { game_count: 0, games: vec![] };
    let r = build_lookup_result(bm(None, "missing config"), player(), ban_record(true, 0, 0, 400), owned);
    let p = &r.profile.playtime_context;
    assert!(!p.owned_games_visible);
    assert_eq!(p.total_games, None);
    assert_eq!(p.total_hours_tenths, None);
    assert_eq!(p.notes.len(), 2);
    assert!(p.notes[0].starts_with("Owned games are not visible"));
    assert_eq!(r.profile.ban_context.vac_bans, 1);
    assert_eq!(r.profile.ban_context.days_since_last_ban, Some(400));
    // one VAC ban 400 days ago: 65 / 3 = 21
    assert_eq!(r.decision.branches[0].weight, 21);
    assert_eq!(r.decision.review_priority, 21);
}

#[test]
fn lookup_without_session_hours_quotes_the_status() {
    let owned = OwnedGamesBody { game_count: 1, games: vec![game(RUST_APP_ID, "Rust", 60)] };
    let r = build_lookup_result(bm(None, "no matching player records"), player(), ban_record(false, 0, 0, 0), owned);
    let p = &r.profile.playtime_context;
    assert_eq!(
        p.notes,
        vec!["No tracked BattleMetrics session hours were returned for this lookup (no matching player records).".to_string()]
    );
    assert_eq!(p.steam_minus_session_hours_tenths, None);
    assert_eq!(p.session_to_steam_ratio, None);
}

#[test]
fn session_hours_above_steam_hours_clamp_the_ratio() {
    let owned = OwnedGamesBody { game_count: 1, games: vec![game(RUST_APP_ID, "Rust", 600)] };
    let r = build_lookup_result(bm(Some(500), "matched 1 records"), player(), ban_record(false, 0, 0, 0), owned);
    let p = &r.profile.playtime_context;
    assert_eq!(p.steam_minus_session_hours_tenths, Some(0));
    assert_eq!(p.session_to_steam_ratio, Some(Ratio { part: 100, whole: 100 }));
}

#[test]
fn selecting_the_first_player_and_ban_record() {
    assert_eq!(select_player(vec![player()]).unwrap().personaname, "someone");
    assert_eq!(
        select_player(vec![]).unwrap_err(),
        "Steam did not return a player for that SteamID64."
    );
    assert_eq!(select_ban_record(vec![ban_record(false, 2, 0, 9)]).unwrap().number_of_vac_bans, 2);
    assert_eq!(
        select_ban_record(vec![]).unwrap_err(),
        "Steam did not return ban data for that SteamID64."
    );
}

#[test]
fn post_ban_history_only_with_a_ban() {
    assert_eq!(post_ban_history_days(&ban_record(false, 0, 0, 77)), None);
    assert_eq!(post_ban_history_days(&ban_record(true, 0, 0, 77)), Some(77));
    assert_eq!(post_ban_history_days(&ban_record(false, 0, 1, 5)), Some(5));
}
