//! Records returned by the Steam Web API, and the choices made on them
//! while a lookup runs.

use vstd::prelude::*;
use vstd::string::*;

verus! {

/// One player of a `GetPlayerSummaries` response.
#[derive(Clone, Debug)]
pub struct SteamPlayer {
    pub steamid: String,
    pub personaname: String,
    pub profileurl: String,
    pub avatarfull: String,
    pub communityvisibilitystate: u8,
}

/// One player of a `GetPlayerBans` response.
#[derive(Clone, Debug)]
pub struct PlayerBanRecord {
    pub community_banned: bool,
    pub vac_banned: bool,
    pub number_of_vac_bans: u32,
    pub days_since_last_ban: u32,
    pub number_of_game_bans: u32,
    pub economy_ban: String,
}

/// One game of a `GetOwnedGames` response; playtime in minutes.
#[derive(Clone, Debug)]
pub struct OwnedGame {
    pub appid: u32,
    pub name: String,
    pub playtime_forever: u32,
}

/// The body of a `GetOwnedGames` response.
#[derive(Clone, Debug)]
pub struct OwnedGamesBody {
    pub game_count: u32,
    pub games: Vec<OwnedGame>,
}

/// The message when the summaries response names no player.
pub open spec fn no_player_message() -> Seq<char> {
    "Steam did not return a player for that SteamID64."@
}

/// The message when the bans response names no player.
pub open spec fn no_ban_data_message() -> Seq<char> {
    "Steam did not return ban data for that SteamID64."@
}

/// The first player of a summaries response.
pub fn select_player(players: Vec<SteamPlayer>) -> (r: Result<SteamPlayer, String>)
    ensures
        players@.len() > 0 ==> r == Ok::<SteamPlayer, String>(players@[0]),
        players@.len() == 0 ==> (r matches Err(msg) && msg@ == no_player_message()),
{
    let mut players = players;
    if players.len() == 0 {
        return Err(String::from_str("Steam did not return a player for that SteamID64."));
    }
    Ok(players.remove(0))
}

/// The first record of a bans response.
pub fn select_ban_record(players: Vec<PlayerBanRecord>) -> (r: Result<PlayerBanRecord, String>)
    ensures
        players@.len() > 0 ==> r == Ok::<PlayerBanRecord, String>(players@[0]),
        players@.len() == 0 ==> (r matches Err(msg) && msg@ == no_ban_data_message()),
{
    let mut players = players;
    if players.len() == 0 {
        return Err(String::from_str("Steam did not return ban data for that SteamID64."));
    }
    Ok(players.remove(0))
}

/// Whether the record shows any VAC or game ban.
pub open spec fn has_ban_history(record: PlayerBanRecord) -> bool {
    record.vac_banned || record.number_of_vac_bans > 0 || record.number_of_game_bans > 0
}

/// The days since the latest ban when the record shows a ban, which is
/// when dated session history is worth requesting.
pub fn post_ban_history_days(record: &PlayerBanRecord) -> (r: Option<u32>)
    ensures
        r == (if has_ban_history(*record) {
            Some(record.days_since_last_ban)
        } else {
            None
        }),
{
    if record.vac_banned || record.number_of_vac_bans > 0 || record.number_of_game_bans > 0 {
        Some(record.days_since_last_ban)
    } else {
        None
    }
}

} // verus!
