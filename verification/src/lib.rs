//! Review-context scoring for a public Steam profile and optional
//! BattleMetrics session data: SteamID normalisation, the weighted
//! evidence-gated decision tree, the playtime/ban summary of a lookup,
//! the session-history scan, and the overlay's presence state.

pub mod text;
pub mod steam_id;
pub mod context;
pub mod decision;
pub mod steam;
pub mod battlemetrics;
pub mod lookup;
pub mod timestamp;
pub mod wide;
pub mod session_history;
pub mod overlay;
pub mod clock;
