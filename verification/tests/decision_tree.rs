use sus_check::context::{BanContext, GameHours, PlaytimeContext, ProfileSnapshot, Ratio};
use sus_check::decision::{
    build_decision_tree, decayed_ban_weight, evidence_coverage, GAME_BAN_REVIEW_WEIGHT,
    VAC_BAN_REVIEW_WEIGHT,
};

#[test]
fn old_bans_receive_a_small_fraction_of_the_recent_weight() {
    assert_eq!(decayed_ban_weight(VAC_BAN_REVIEW_WEIGHT, 1, 30), 65);
    assert_eq!(decayed_ban_weight(VAC_BAN_REVIEW_WEIGHT, 1, 1095), 8);
    assert_eq!(decayed_ban_weight(GAME_BAN_REVIEW_WEIGHT, 1, 1095), 3);
}

#[test]
fn ban_weight_decays_at_each_age_boundary() {
    assert_eq!(decayed_ban_weight(VAC_BAN_REVIEW_WEIGHT, 1, 180), 65);
    assert_eq!(decayed_ban_weight(VAC_BAN_REVIEW_WEIGHT, 1, 181), 43);
    assert_eq!(decayed_ban_weight(VAC_BAN_REVIEW_WEIGHT, 1, 365), 43);
    assert_eq!(decayed_ban_weight(VAC_BAN_REVIEW_WEIGHT, 1, 366), 21);
    assert_eq!(decayed_ban_weight(VAC_BAN_REVIEW_WEIGHT, 1, 1094), 21);
    assert_eq!(decayed_ban_weight(VAC_BAN_REVIEW_WEIGHT, 1, 1095), 8);
}

#[test]
fn repeated_bans_raise_the_weight_up_to_85() {
    assert_eq!(decayed_ban_weight(VAC_BAN_REVIEW_WEIGHT, 3, 0), 75);
    assert_eq!(decayed_ban_weight(VAC_BAN_REVIEW_WEIGHT, 10, 0), 85);
    assert_eq!(decayed_ban_weight(GAME_BAN_REVIEW_WEIGHT, 5, 0), 45);
    assert_eq!(decayed_ban_weight(GAME_BAN_REVIEW_WEIGHT, 0, 0), 25);
}

#[test]
fn recent_game_bans_stay_within_25_to_45() {
    assert_eq!(decayed_ban_weight(GAME_BAN_REVIEW_WEIGHT, 6, 30), 45);
    assert_eq!(decayed_ban_weight(GAME_BAN_REVIEW_WEIGHT, u32::MAX, 0), 45);
    assert_eq!(decayed_ban_weight(VAC_BAN_REVIEW_WEIGHT, 5, 0), 85);
    assert_eq!(decayed_ban_weight(VAC_BAN_REVIEW_WEIGHT, 6, 0), 85);
    assert_eq!(decayed_ban_weight(VAC_BAN_REVIEW_WEIGHT, u32::MAX, 0), 85);
}

fn playtime(
    visible: bool,
    rust: Option<u32>,
    session: Option<u128>,
    gap: Option<u32>,
    ratio: Option<Ratio>,
) -> PlaytimeContext {
    PlaytimeContext {
        owned_games_visible: visible,
        total_games: None,
        rust_hours_tenths: rust,
        crosshair_x_hours_tenths: None,
        total_hours_tenths: None,
        non_rust_hours_tenths: None,
        concentration_ratio: None,
        battlemetrics_session_hours_tenths: session,
        battlemetrics_status: String::new(),
        battlemetrics_post_ban_hours_tenths: None,
        battlemetrics_session_history_status: String::new(),
        battlemetrics_recent_session_count: None,
        steam_minus_session_hours_tenths: gap,
        session_to_steam_ratio: ratio,
        notes: Vec::new(),
        top_other_games: Vec::<GameHours>::new(),
    }
}

fn bans(vac: u32, game: u32, days: Option<u32>) -> BanContext {
    BanContext {
        vac_bans: vac,
        game_bans: game,
        days_since_last_ban: days,
        economy_ban: "none".to_string(),
        community_banned: false,
    }
}

fn profile(b: BanContext, p: PlaytimeContext) -> ProfileSnapshot {
    ProfileSnapshot {
        steam_id: "76561198000000000".to_string(),
        persona_name: "player".to_string(),
        profile_url: String::new(),
        avatar_url: String::new(),
        community_visibility_state: 3,
        ban_context: b,
        playtime_context: p,
    }
}

#[test]
fn evidence_coverage_counts_returned_inputs() {
    let mut p = playtime(true, Some(100), Some(50), None, None);
    assert_eq!(evidence_coverage(&p, false), 100);
    assert_eq!(evidence_coverage(&p, true), 80);
    p.battlemetrics_recent_session_count = Some(2);
    assert_eq!(evidence_coverage(&p, true), 100);
    let q = playtime(false, None, None, None, None);
    assert_eq!(evidence_coverage(&q, false), 37);
    assert_eq!(evidence_coverage(&q, true), 30);
}

#[test]
fn missing_library_gives_zero_weight_and_insufficient_evidence() {
    let tree = build_decision_tree(&profile(bans(0, 0, None), playtime(false, None, None, None, None)));
    assert_eq!(tree.review_priority, 0);
    assert_eq!(tree.outcome, "insufficient playtime evidence");
    assert_eq!(tree.evidence_level, "Steam profile record");
    assert_eq!(tree.branches.len(), 1);
    assert_eq!(tree.branches[0].key, "steam_library");
    assert_eq!(tree.branches[0].weight, 0);
    assert_eq!(tree.summary, "Steam did not return a visible owned-games library.");
    assert_eq!(
        tree.next_step,
        "Do not infer real playtime or experience until tracked-server session data is available."
    );
}

#[test]
fn coverage_gap_is_flagged_with_weight_20() {
    let p = playtime(
        true,
        Some(12_000),
        Some(3_000),
        Some(9_000),
        Some(Ratio { part: 3_000, whole: 12_000 }),
    );
    let tree = build_decision_tree(&profile(bans(0, 0, None), p));
    assert_eq!(tree.review_priority, 20);
    assert_eq!(tree.outcome, "review server coverage");
    assert_eq!(tree.branches[0].label, "playtime coverage gap");
    assert_eq!(
        tree.branches[0].summary,
        "Steam reports 1200.0 Rust hours; configured BattleMetrics servers report 300.0 session hours."
    );
    assert_eq!(tree.evidence_level, "Steam record + tracked-server lower bound");
    assert_eq!(
        tree.next_step,
        "Check whether the configured servers cover the player’s normal activity. A gap does not prove idle or fabricated Steam hours."
    );
}

#[test]
fn ratio_just_above_045_is_not_a_gap() {
    let p = playtime(
        true,
        Some(10_000),
        Some(4_600),
        Some(5_400),
        Some(Ratio { part: 4_600, whole: 10_000 }),
    );
    let tree = build_decision_tree(&profile(bans(0, 0, None), p));
    assert_eq!(tree.review_priority, 0);
    assert_eq!(tree.branches[0].label, "tracked-server history");
    assert_eq!(tree.outcome, "context available");
}

#[test]
fn recent_vac_and_game_bans_reach_manual_review() {
    let p = playtime(true, Some(1_234), None, None, None);
    let tree = build_decision_tree(&profile(bans(2, 1, Some(10)), p));
    // VAC 70, game 25, repeated pattern 65, unverified hours 0.
    assert_eq!(tree.branches.len(), 4);
    assert_eq!(tree.branches[0].weight, 70);
    assert_eq!(
        tree.branches[0].summary,
        "Steam reports 2 VAC ban(s); the latest reported ban was 10 days ago."
    );
    assert_eq!(tree.branches[1].weight, 25);
    assert_eq!(tree.branches[2].key, "repeated_ban_pattern");
    assert_eq!(tree.branches[2].weight, 65);
    assert_eq!(
        tree.branches[3].summary,
        "Steam reports 123.4 Rust hours, but no session hours were returned from the configured BattleMetrics servers."
    );
    assert_eq!(tree.review_priority, 100);
    assert_eq!(tree.outcome, "manual account review");
    assert!(tree.next_step.starts_with("Multiple Steam bans remain"));
    assert!(tree.summary.starts_with("Steam reports 2 VAC ban(s);"));
    assert!(tree.summary.contains(" Steam reports 1 game ban(s);"));
}

#[test]
fn post_ban_history_lowers_the_priority() {
    let mut p = playtime(
        true,
        Some(50_000),
        Some(40_000),
        Some(10_000),
        Some(Ratio { part: 40_000, whole: 50_000 }),
    );
    p.battlemetrics_post_ban_hours_tenths = Some(35_000);
    p.battlemetrics_recent_session_count = Some(40);
    let tree = build_decision_tree(&profile(bans(1, 0, Some(2_000)), p));
    // VAC 65 / 8 = 8, tracked history 0, established credit -20.
    assert_eq!(tree.branches.len(), 3);
    assert_eq!(tree.branches[0].weight, 8);
    assert_eq!(tree.branches[2].weight, -20);
    assert_eq!(tree.branches[2].label, "established post-ban tracked history");
    assert_eq!(
        tree.branches[2].summary,
        "Dated BattleMetrics sessions report 3500.0 tracked hours after the latest Steam ban, which reduces the priority of historical ban context."
    );
    assert_eq!(tree.review_priority, 0);
    assert_eq!(tree.evidence_coverage, 100);
    assert!(tree.next_step.starts_with("Dated BattleMetrics sessions provide"));
}

#[test]
fn substantial_post_ban_history_and_old_ban_next_step() {
    let mut p = playtime(true, Some(50_000), Some(40_000), Some(10_000), None);
    p.battlemetrics_post_ban_hours_tenths = Some(10_000);
    let tree = build_decision_tree(&profile(bans(0, 1, Some(1_500)), p));
    assert_eq!(tree.branches[2].weight, -10);
    assert_eq!(tree.branches[2].label, "substantial post-ban tracked history");

    let q = playtime(true, Some(50_000), Some(40_000), Some(10_000), None);
    let tree = build_decision_tree(&profile(bans(0, 1, Some(1_500)), q));
    assert!(tree.next_step.starts_with("Keep the historical ban visible"));
}

#[test]
fn crosshair_inconsistency_needs_all_thresholds() {
    let mut p = playtime(
        true,
        Some(120_000),
        Some(20_000),
        Some(100_000),
        Some(Ratio { part: 20_000, whole: 120_000 }),
    );
    p.crosshair_x_hours_tenths = Some(12_345);
    let tree = build_decision_tree(&profile(bans(0, 0, None), p.clone()));
    assert_eq!(tree.branches.len(), 2);
    assert_eq!(tree.branches[1].key, "crosshair_x_context");
    assert_eq!(tree.branches[1].weight, 15);
    assert!(tree.branches[1].summary.starts_with("Steam records 1234.5 hours in Crosshair X"));
    assert_eq!(tree.review_priority, 35);
    assert_eq!(tree.outcome, "review supporting evidence");

    p.crosshair_x_hours_tenths = Some(9_999);
    let tree = build_decision_tree(&profile(bans(0, 0, None), p));
    assert_eq!(tree.branches.len(), 1);
    assert_eq!(tree.review_priority, 20);
}

#[test]
fn visible_library_without_rust() {
    let tree = build_decision_tree(&profile(bans(0, 0, None), playtime(true, None, None, None, None)));
    assert_eq!(tree.branches[0].key, "steam_rust_hours");
    assert_eq!(tree.branches[0].status, "missing evidence");
}

#[test]
fn shown_tracked_history_without_bans_is_context_only() {
    let p = playtime(true, Some(100), Some(100), Some(0), Some(Ratio { part: 100, whole: 100 }));
    let tree = build_decision_tree(&profile(bans(0, 0, None), p));
    assert_eq!(tree.outcome, "context available");
    assert_eq!(
        tree.next_step,
        "Use tracked-session hours as confirmed activity on the configured servers only; they are not a global total."
    );
}
