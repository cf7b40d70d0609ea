//! The assembled view of a looked-up account: ban record, playtime and
//! session-hour context. Hours are carried as whole tenths of an hour,
//! the one-decimal precision at which they are computed and shown;
//! ratios are carried as a part and a whole.

use vstd::prelude::*;

verus! {

/// A ratio `part / whole`.
#[derive(Clone, Copy, Debug, PartialEq, Eq, Structural)]
pub struct Ratio {
    pub part: u32,
    pub whole: u32,
}

/// Hours that one visible game other than Rust was played.
#[derive(Clone, Debug)]
pub struct GameHours {
    pub app_id: u32,
    pub name: String,
    pub hours_tenths: u32,
}

/// The mathematical value of a [`GameHours`].
pub struct GameHoursView {
    pub app_id: u32,
    pub name: Seq<char>,
    pub hours_tenths: u32,
}

impl View for GameHours {
    type V = GameHoursView;

    open spec fn view(&self) -> GameHoursView {
        GameHoursView { app_id: self.app_id, name: self.name@, hours_tenths: self.hours_tenths }
    }
}

/// The views of a sequence of games.
pub open spec fn games_view(games: Seq<GameHours>) -> Seq<GameHoursView> {
    games.map_values(|g: GameHours| g@)
}

/// The Steam ban record as shown for review.
#[derive(Clone, Debug)]
pub struct BanContext {
    pub vac_bans: u32,
    pub game_bans: u32,
    pub days_since_last_ban: Option<u32>,
    pub economy_ban: String,
    pub community_banned: bool,
}

/// Visible Steam playtime and BattleMetrics session context.
#[derive(Clone, Debug)]
pub struct PlaytimeContext {
    pub owned_games_visible: bool,
    pub total_games: Option<u32>,
    pub rust_hours_tenths: Option<u32>,
    pub crosshair_x_hours_tenths: Option<u32>,
    pub total_hours_tenths: Option<u32>,
    pub non_rust_hours_tenths: Option<u32>,
    pub concentration_ratio: Option<Ratio>,
    pub battlemetrics_session_hours_tenths: Option<u128>,
    pub battlemetrics_status: String,
    pub battlemetrics_post_ban_hours_tenths: Option<u128>,
    pub battlemetrics_session_history_status: String,
    pub battlemetrics_recent_session_count: Option<u32>,
    pub steam_minus_session_hours_tenths: Option<u32>,
    pub session_to_steam_ratio: Option<Ratio>,
    pub notes: Vec<String>,
    pub top_other_games: Vec<GameHours>,
}

/// Identity, ban record and playtime context of one account.
#[derive(Clone, Debug)]
pub struct ProfileSnapshot {
    pub steam_id: String,
    pub persona_name: String,
    pub profile_url: String,
    pub avatar_url: String,
    pub community_visibility_state: u8,
    pub ban_context: BanContext,
    pub playtime_context: PlaytimeContext,
}

} // verus!
