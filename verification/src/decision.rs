//! The weighted, evidence-gated decision tree: every branch carries its
//! label, evidence status, explanation and signed contribution to a
//! 0..=100 review priority.

use vstd::prelude::*;
use vstd::string::*;
use crate::context::{BanContext, PlaytimeContext, ProfileSnapshot, Ratio};
use crate::text::{decimal, digit_char, push_decimal};

verus! {

/// Base weight of a VAC ban record.
pub const VAC_BAN_REVIEW_WEIGHT: u32 = 65;

/// Base weight of a game ban record.
pub const GAME_BAN_REVIEW_WEIGHT: u32 = 25;

/// Base weight of two or more bans in total.
pub const REPEATED_BAN_PATTERN_WEIGHT: i32 = 60;

/// Weight of a substantial gap between Steam and tracked-server hours.
pub const PLAYTIME_COVERAGE_REVIEW_WEIGHT: i32 = 20;

/// Weight of the crosshair-overlay inconsistency.
pub const CROSSHAIR_X_CONTEXT_WEIGHT: i32 = 15;

/// Credit for at least 3000 tracked hours after the latest ban.
pub const ESTABLISHED_TRACKED_HISTORY_CREDIT: i32 = 20;

/// Credit for at least 1000 tracked hours after the latest ban.
pub const SUBSTANTIAL_TRACKED_HISTORY_CREDIT: i32 = 10;

/// One branch of the decision tree.
#[derive(Clone, Debug)]
pub struct DecisionBranch {
    pub key: String,
    pub label: String,
    pub weight: i32,
    pub status: String,
    pub summary: String,
}

/// The mathematical value of a [`DecisionBranch`].
pub struct BranchView {
    pub key: Seq<char>,
    pub label: Seq<char>,
    pub weight: int,
    pub status: Seq<char>,
    pub summary: Seq<char>,
}

impl View for DecisionBranch {
    type V = BranchView;

    open spec fn view(&self) -> BranchView {
        BranchView {
            key: self.key@,
            label: self.label@,
            weight: self.weight as int,
            status: self.status@,
            summary: self.summary@,
        }
    }
}

/// The views of a sequence of branches.
pub open spec fn branches_view(branches: Seq<DecisionBranch>) -> Seq<BranchView> {
    branches.map_values(|b: DecisionBranch| b@)
}

/// The outcome of the decision tree.
#[derive(Clone, Debug)]
pub struct DecisionTree {
    pub outcome: String,
    pub review_priority: u32,
    pub evidence_coverage: u32,
    pub evidence_level: String,
    pub summary: String,
    pub next_step: String,
    pub branches: Vec<DecisionBranch>,
}

/// The mathematical value of a [`DecisionTree`].
pub struct DecisionTreeView {
    pub outcome: Seq<char>,
    pub review_priority: int,
    pub evidence_coverage: int,
    pub evidence_level: Seq<char>,
    pub summary: Seq<char>,
    pub next_step: Seq<char>,
    pub branches: Seq<BranchView>,
}

impl View for DecisionTree {
    type V = DecisionTreeView;

    open spec fn view(&self) -> DecisionTreeView {
        DecisionTreeView {
            outcome: self.outcome@,
            review_priority: self.review_priority as int,
            evidence_coverage: self.evidence_coverage as int,
            evidence_level: self.evidence_level@,
            summary: self.summary@,
            next_step: self.next_step@,
            branches: branches_view(self.branches@),
        }
    }
}

// ---------------------------------------------------------------------
// Ban weights

/// The most bans after the first that raise a ban weight.
pub const MAX_EXTRA_WEIGHTED_BANS: u32 = 4;

/// The bans after the first that raise the weight: at most four.
pub open spec fn extra_weighted_bans(count: int) -> int {
    if count <= 1 {
        0
    } else if count - 1 < MAX_EXTRA_WEIGHTED_BANS {
        count - 1
    } else {
        MAX_EXTRA_WEIGHTED_BANS as int
    }
}

/// The base weight raised by 5 for each of up to four bans after the
/// first, at most 85.
pub open spec fn repeated_ban_weight(base: int, count: int) -> int {
    let raised = base + extra_weighted_bans(count) * 5;
    if raised < 85 { raised } else { 85 }
}

/// The weight kept after `days` since the latest ban: all of it up to
/// 180 days, two thirds up to a year, a third up to 1094 days, and an
/// eighth from then on.
pub open spec fn decay_by_age(weight: int, days: int) -> int {
    if days <= 180 {
        weight
    } else if days <= 365 {
        weight * 2 / 3
    } else if days <= 1094 {
        weight / 3
    } else {
        weight / 8
    }
}

/// The weight of a ban record of `count` bans, the latest `days` ago.
pub open spec fn decayed_weight(base: int, count: int, days: int) -> int {
    decay_by_age(repeated_ban_weight(base, count), days)
}

/// Whether the raised weight of `count` bans on `base` fits in a `u32`.
pub open spec fn ban_weight_fits(base: u32, count: u32) -> bool {
    base + extra_weighted_bans(count as int) * 5 <= u32::MAX
}

/// The review weight of a ban record, decayed by the age of the latest ban.
pub fn decayed_ban_weight(base_weight: u32, ban_count: u32, days_since_last_ban: u32) -> (w: u32)
    requires
        ban_weight_fits(base_weight, ban_count),
    ensures
        w == decayed_weight(base_weight as int, ban_count as int, days_since_last_ban as int),
{
    let extra: u32 = if ban_count <= 1 {
        0
    } else if ban_count - 1 < MAX_EXTRA_WEIGHTED_BANS {
        ban_count - 1
    } else {
        MAX_EXTRA_WEIGHTED_BANS
    };
    let raised: u32 = base_weight + extra * 5;
    let repeated: u32 = if raised < 85 { raised } else { 85 };
    if days_since_last_ban <= 180 {
        repeated
    } else if days_since_last_ban <= 365 {
        repeated * 2 / 3
    } else if days_since_last_ban <= 1094 {
        repeated / 3
    } else {
        repeated / 8
    }
}

// ---------------------------------------------------------------------
// Evidence coverage

/// The share, in percent, of the possible evidence inputs that returned:
/// the Steam account and ban record (30 points), the visible library (20),
/// the BattleMetrics aggregate (30) and, where a ban exists, the dated
/// session history (20), out of 80 points without a ban and 100 with one.
pub open spec fn evidence_coverage_spec(p: PlaytimeContext, has_ban_history: bool) -> int {
    let possible = if has_ban_history { 100int } else { 80int };
    let observed = 30 + (if p.owned_games_visible { 20int } else { 0int }) + (if p.battlemetrics_session_hours_tenths is Some { 30int } else { 0int }) + (if has_ban_history && p.battlemetrics_recent_session_count is Some { 20int } else { 0int });
    observed * 100 / possible
}

/// The evidence coverage of a lookup, in percent.
pub fn evidence_coverage(playtime: &PlaytimeContext, has_ban_history: bool) -> (c: u32)
    ensures
        c == evidence_coverage_spec(*playtime, has_ban_history),
        c <= 100,
{
    let possible_points: u32 = if has_ban_history { 100 } else { 80 };
    let mut observed_points: u32 = 30;
    if playtime.owned_games_visible {
        observed_points = observed_points + 20;
    }
    if playtime.battlemetrics_session_hours_tenths.is_some() {
        observed_points = observed_points + 30;
    }
    if has_ban_history && playtime.battlemetrics_recent_session_count.is_some() {
        observed_points = observed_points + 20;
    }
    observed_points * 100 / possible_points
}

// ---------------------------------------------------------------------
// Text

/// Hours given in tenths, rendered with one decimal.
pub open spec fn hours_text(tenths: nat) -> Seq<char> {
    decimal(tenths / 10) + "."@ + seq![digit_char(tenths % 10)]
}

/// Appends hours given in tenths, rendered with one decimal.
pub fn push_hours(out: &mut String, tenths: u128)
    ensures
        final(out)@ == old(out)@ + hours_text(tenths as nat),
{
    push_decimal(out, tenths / 10);
    out.append(".");
    push_decimal(out, tenths % 10);
    assert(decimal((tenths % 10) as nat) == seq![digit_char((tenths % 10) as nat)]);
    assert(final(out)@ =~= old(out)@ + hours_text(tenths as nat));
}

/// `list` joined with `sep` between consecutive items.
pub open spec fn join(list: Seq<Seq<char>>, sep: Seq<char>) -> Seq<char>
    decreases list.len(),
{
    if list.len() == 0 {
        Seq::empty()
    } else if list.len() == 1 {
        list[0]
    } else {
        join(list.drop_last(), sep) + sep + list.last()
    }
}

// ---------------------------------------------------------------------
// Branches

/// A branch view from its parts.
pub open spec fn branch(
    key: Seq<char>,
    label: Seq<char>,
    weight: int,
    status: Seq<char>,
    summary: Seq<char>,
) -> BranchView {
    BranchView { key, label, weight, status, summary }
}

/// Days since the latest ban, 0 where none is recorded.
pub open spec fn days_of(b: BanContext) -> u32 {
    match b.days_since_last_ban {
        Some(d) => d,
        None => 0,
    }
}

/// The number of VAC and game bans together.
pub open spec fn total_bans(b: BanContext) -> int {
    b.vac_bans + b.game_bans
}

/// What a ban context must satisfy for its weights to be computed.
pub open spec fn ban_context_in_range(b: BanContext) -> bool {
    b.vac_bans + b.game_bans <= u32::MAX
}

/// The status of a branch that records a Steam fact.
pub open spec fn factual_status() -> Seq<char> {
    "factual Steam record"@
}

/// The status of a branch whose evidence is missing.
pub open spec fn missing_status() -> Seq<char> {
    "missing evidence"@
}

/// The VAC ban branch, present when VAC bans are recorded.
pub open spec fn vac_part(b: BanContext) -> Seq<BranchView> {
    if b.vac_bans > 0 {
        seq![
            branch(
                "vac_bans"@,
                "VAC ban history"@,
                decayed_weight(VAC_BAN_REVIEW_WEIGHT as int, b.vac_bans as int, days_of(b) as int),
                factual_status(),
                "Steam reports "@ + decimal(b.vac_bans as nat)
                    + " VAC ban(s); the latest reported ban was "@ + decimal(days_of(b) as nat)
                    + " days ago."@,
            ),
        ]
    } else {
        Seq::empty()
    }
}

/// The game ban branch, present when game bans are recorded.
pub open spec fn game_part(b: BanContext) -> Seq<BranchView> {
    if b.game_bans > 0 {
        seq![
            branch(
                "game_bans"@,
                "game ban history"@,
                decayed_weight(GAME_BAN_REVIEW_WEIGHT as int, b.game_bans as int, days_of(b) as int),
                factual_status(),
                "Steam reports "@ + decimal(b.game_bans as nat)
                    + " game ban(s); the latest reported ban was "@ + decimal(days_of(b) as nat)
                    + " days ago."@,
            ),
        ]
    } else {
        Seq::empty()
    }
}

/// The weight of a repeated ban pattern: 60, plus 5 per ban beyond two,
/// at most 80.
pub open spec fn repeated_pattern_weight(total: int) -> int {
    let extra = if total - 2 < 4 { total - 2 } else { 4 };
    let w = REPEATED_BAN_PATTERN_WEIGHT + extra * 5;
    if w < 80 { w } else { 80 }
}

/// The repeated ban pattern branch, present from two bans in total.
pub open spec fn repeated_part(b: BanContext) -> Seq<BranchView> {
    if total_bans(b) >= 2 {
        seq![
            branch(
                "repeated_ban_pattern"@,
                "repeated ban pattern"@,
                repeated_pattern_weight(total_bans(b)),
                factual_status(),
                "Steam reports "@ + decimal(total_bans(b) as nat)
                    + " total bans. Multiple bans are treated as a persistent review pattern, even when the latest ban is old."@,
            ),
        ]
    } else {
        Seq::empty()
    }
}

/// `r <= pct / 100`, as an `f32` comparison of `part / whole` would decide it.
pub open spec fn ratio_at_most(r: Ratio, pct: int) -> bool {
    r.whole > 0 && r.part * 100 <= pct * r.whole
}

/// The session-to-Steam ratio is at most `pct` percent (an absent ratio counts as 0).
pub open spec fn session_ratio_at_most(p: PlaytimeContext, pct: int) -> bool {
    match p.session_to_steam_ratio {
        Some(r) => ratio_at_most(r, pct),
        None => true,
    }
}

/// The Steam-minus-session gap, in tenths (0 where absent).
pub open spec fn gap_tenths(p: PlaytimeContext) -> int {
    match p.steam_minus_session_hours_tenths {
        Some(g) => g as int,
        None => 0,
    }
}

/// Crosshair X hours, in tenths (0 where absent).
pub open spec fn crosshair_tenths(p: PlaytimeContext) -> int {
    match p.crosshair_x_hours_tenths {
        Some(c) => c as int,
        None => 0,
    }
}

/// High Steam hours substantially exceed the tracked-server total: at
/// least 500 Steam hours, a ratio of at most 0.45 and a gap of at least 250 hours.
pub open spec fn needs_coverage_review(p: PlaytimeContext, steam_tenths: int) -> bool {
    steam_tenths >= 5000 && session_ratio_at_most(p, 45) && gap_tenths(p) >= 2500
}

/// The tracked-server branch when both Steam and session hours are known.
pub open spec fn tracked_branch(p: PlaytimeContext, steam: nat, session: nat) -> BranchView {
    let review = needs_coverage_review(p, steam as int);
    branch(
        "tracked_server_hours"@,
        if review { "playtime coverage gap"@ } else { "tracked-server history"@ },
        if review { PLAYTIME_COVERAGE_REVIEW_WEIGHT as int } else { 0 },
        "tracked-server lower bound"@,
        "Steam reports "@ + hours_text(steam) + " Rust hours; configured BattleMetrics servers report "@
            + hours_text(session) + " session hours."@,
    )
}

/// Whether the crosshair-overlay inconsistency applies: at least 10,000
/// Rust hours, a 5,000-hour gap, a ratio of at most 0.25 and 1,000
/// Crosshair X hours.
pub open spec fn crosshair_applies(p: PlaytimeContext, steam_tenths: int) -> bool {
    &&& steam_tenths >= 100000
    &&& gap_tenths(p) >= 50000
    &&& session_ratio_at_most(p, 25)
    &&& crosshair_tenths(p) >= 10000
}

/// The crosshair-overlay branch, where it applies.
pub open spec fn crosshair_part(p: PlaytimeContext, steam_tenths: int) -> Seq<BranchView> {
    if crosshair_applies(p, steam_tenths) {
        seq![
            branch(
                "crosshair_x_context"@,
                "crosshair-overlay inconsistency"@,
                CROSSHAIR_X_CONTEXT_WEIGHT as int,
                "supplemental contextual evidence"@,
                "Steam records "@ + hours_text(crosshair_tenths(p) as nat)
                    + " hours in Crosshair X alongside very high Rust hours and sparse tracked-server time. Crosshair overlays have legitimate uses; this supplements the inconsistency review and does not prove cheating or account purchase."@,
            ),
        ]
    } else {
        Seq::empty()
    }
}

/// The post-ban counter-evidence branch: -20 from 3000 tracked hours
/// after the latest ban, -10 from 1000.
pub open spec fn post_ban_part(p: PlaytimeContext) -> Seq<BranchView> {
    match p.battlemetrics_post_ban_hours_tenths {
        Some(h) => if h >= 30000 {
            seq![
                branch(
                    "post_ban_tracked_history"@,
                    "established post-ban tracked history"@,
                    -ESTABLISHED_TRACKED_HISTORY_CREDIT,
                    "counter-evidence"@,
                    "Dated BattleMetrics sessions report "@ + hours_text(h as nat)
                        + " tracked hours after the latest Steam ban, which reduces the priority of historical ban context."@,
                ),
            ]
        } else if h >= 10000 {
            seq![
                branch(
                    "post_ban_tracked_history"@,
                    "substantial post-ban tracked history"@,
                    -SUBSTANTIAL_TRACKED_HISTORY_CREDIT,
                    "counter-evidence"@,
                    "Dated BattleMetrics sessions report "@ + hours_text(h as nat)
                        + " tracked hours after the latest Steam ban, which moderately reduces the priority of historical ban context."@,
                ),
            ]
        } else {
            Seq::empty()
        },
        None => Seq::empty(),
    }
}

/// The branch for an account without a visible library.
pub open spec fn library_unavailable_branch() -> BranchView {
    branch(
        "steam_library"@,
        "Steam library unavailable"@,
        0,
        missing_status(),
        "Steam did not return a visible owned-games library."@,
    )
}

/// The branch for Steam hours without tracked session hours.
pub open spec fn unverified_branch(steam: nat) -> BranchView {
    branch(
        "tracked_server_hours"@,
        "unverified Steam hours"@,
        0,
        missing_status(),
        "Steam reports "@ + hours_text(steam)
            + " Rust hours, but no session hours were returned from the configured BattleMetrics servers."@,
    )
}

/// The branch for a visible library without Rust in it.
pub open spec fn no_rust_hours_branch() -> BranchView {
    branch(
        "steam_rust_hours"@,
        "no visible Rust hours"@,
        0,
        missing_status(),
        "Rust was not present in the visible Steam owned-games response."@,
    )
}

/// The playtime branches.
pub open spec fn playtime_part(p: PlaytimeContext) -> Seq<BranchView> {
    if !p.owned_games_visible {
        seq![library_unavailable_branch()]
    } else {
        match p.rust_hours_tenths {
            Some(steam) => match p.battlemetrics_session_hours_tenths {
                Some(session) => seq![tracked_branch(p, steam as nat, session as nat)]
                    + crosshair_part(p, steam as int) + post_ban_part(p),
                None => seq![unverified_branch(steam as nat)],
            },
            None => seq![no_rust_hours_branch()],
        }
    }
}

/// Whether Steam and tracked-server hours are both known.
pub open spec fn has_tracked_server_history(p: PlaytimeContext) -> bool {
    p.owned_games_visible && p.rust_hours_tenths is Some
        && p.battlemetrics_session_hours_tenths is Some
}

/// Whether playtime evidence is missing.
pub open spec fn playtime_unavailable(p: PlaytimeContext) -> bool {
    !has_tracked_server_history(p)
}

/// All branches, in order.
pub open spec fn decision_branches(b: BanContext, p: PlaytimeContext) -> Seq<BranchView> {
    vac_part(b) + game_part(b) + repeated_part(b) + playtime_part(p)
}

/// The sum of the branch weights.
pub open spec fn total_weight(branches: Seq<BranchView>) -> int
    decreases branches.len(),
{
    if branches.len() == 0 {
        0
    } else {
        total_weight(branches.drop_last()) + branches.last().weight
    }
}

/// `x` clamped to `0..=100`.
pub open spec fn clamp_percent(x: int) -> int {
    if x < 0 {
        0
    } else if x > 100 {
        100
    } else {
        x
    }
}

/// A tracked-server branch carries a positive weight.
pub open spec fn has_coverage_gap(branches: Seq<BranchView>) -> bool {
    exists|i: int|
        0 <= i < branches.len() && #[trigger] branches[i].key == "tracked_server_hours"@
            && branches[i].weight > 0
}

/// The outcome label.
pub open spec fn outcome_text(priority: int, coverage_gap: bool, unavailable: bool) -> Seq<char> {
    if priority >= 75 {
        "manual account review"@
    } else if priority >= 35 {
        "review supporting evidence"@
    } else if coverage_gap {
        "review server coverage"@
    } else if unavailable {
        "insufficient playtime evidence"@
    } else {
        "context available"@
    }
}

/// The evidence level label.
pub open spec fn evidence_level_text(p: PlaytimeContext) -> Seq<char> {
    if has_tracked_server_history(p) {
        "Steam record + tracked-server lower bound"@
    } else {
        "Steam profile record"@
    }
}

/// The recommended next step.
pub open spec fn next_step_text(b: BanContext, p: PlaytimeContext, coverage_gap: bool) -> Seq<char> {
    if total_bans(b) >= 2 {
        "Multiple Steam bans remain a persistent review pattern. Use dated server sessions and current behaviour for context, but do not treat the history alone as proof of current cheating."@
    } else if p.battlemetrics_post_ban_hours_tenths is Some {
        "Dated BattleMetrics sessions provide tracked activity after the latest Steam ban. Treat that as meaningful counter-evidence while keeping the historical ban visible."@
    } else if has_tracked_server_history(p) && days_of(b) >= 1095 && (b.vac_bans > 0 || b.game_bans > 0) {
        "Keep the historical ban visible, but do not infer current behaviour from it alone. No dated post-ban BattleMetrics sessions were available for this lookup."@
    } else if b.vac_bans > 0 || b.game_bans > 0 {
        "Review the account history manually. Ban records are factual, but they do not establish current or Rust-specific behaviour."@
    } else if coverage_gap {
        "Check whether the configured servers cover the player’s normal activity. A gap does not prove idle or fabricated Steam hours."@
    } else if playtime_unavailable(p) {
        "Do not infer real playtime or experience until tracked-server session data is available."@
    } else {
        "Use tracked-session hours as confirmed activity on the configured servers only; they are not a global total."@
    }
}

/// The summaries of the branches.
pub open spec fn branch_summaries(branches: Seq<BranchView>) -> Seq<Seq<char>> {
    branches.map_values(|br: BranchView| br.summary)
}

/// The decision tree of a ban record and playtime context.
pub open spec fn decision_tree_spec(b: BanContext, p: PlaytimeContext) -> DecisionTreeView {
    let branches = decision_branches(b, p);
    let priority = clamp_percent(total_weight(branches));
    let gap = has_coverage_gap(branches);
    DecisionTreeView {
        outcome: outcome_text(priority, gap, playtime_unavailable(p)),
        review_priority: priority,
        evidence_coverage: evidence_coverage_spec(p, total_bans(b) > 0),
        evidence_level: evidence_level_text(p),
        summary: join(branch_summaries(branches), " "@),
        next_step: next_step_text(b, p, gap),
        branches,
    }
}

// ---------------------------------------------------------------------
// Building the tree

fn make_branch(key: &str, label: &str, weight: i32, status: &str, summary: String) -> (r:
    DecisionBranch)
    ensures
        r@ == branch(key@, label@, weight as int, status@, summary@),
{
    DecisionBranch {
        key: String::from_str(key),
        label: String::from_str(label),
        weight,
        status: String::from_str(status),
        summary,
    }
}

fn push_branch(branches: &mut Vec<DecisionBranch>, b: DecisionBranch)
    ensures
        branches_view(final(branches)@) == branches_view(old(branches)@).push(b@),
{
    branches.push(b);
    assert(branches_view(final(branches)@) =~= branches_view(old(branches)@).push(b@));
}

/// "Steam reports {count}{middle}{days} days ago."
fn ban_summary(count: u32, middle: &str, days: u32) -> (s: String)
    ensures
        s@ == "Steam reports "@ + decimal(count as nat) + middle@ + decimal(days as nat)
            + " days ago."@,
{
    let mut s = String::from_str("Steam reports ");
    push_decimal(&mut s, count as u128);
    s.append(middle);
    push_decimal(&mut s, days as u128);
    s.append(" days ago.");
    s
}

/// "{prefix}{hours}{suffix}"
fn hours_summary(prefix: &str, tenths: u128, suffix: &str) -> (s: String)
    ensures
        s@ == prefix@ + hours_text(tenths as nat) + suffix@,
{
    let mut s = String::from_str(prefix);
    push_hours(&mut s, tenths);
    s.append(suffix);
    s
}

/// Whether a ratio is at most `pct` percent.
fn ratio_within(r: Option<Ratio>, pct: u64) -> (b: bool)
    requires
        pct <= 100,
    ensures
        b == match r {
            Some(q) => ratio_at_most(q, pct as int),
            None => true,
        },
{
    match r {
        Some(q) => {
            assert(pct * (q.whole as u64) <= 100 * 0xffff_ffffu64) by (nonlinear_arith)
                requires
                    pct <= 100,
                    q.whole <= 0xffff_ffffu32,
            ;
            q.whole > 0 && (q.part as u64) * 100 <= pct * (q.whole as u64)
        },
        None => true,
    }
}

/// Every branch weighs between -20 and 85, and there are at most seven.
proof fn lemma_branch_weights(b: BanContext, p: PlaytimeContext)
    ensures
        decision_branches(b, p).len() <= 7,
        forall|i: int|
            0 <= i < decision_branches(b, p).len() ==> -20 <= #[trigger] decision_branches(
                b,
                p,
            )[i].weight <= 85,
{
    let br = decision_branches(b, p);
    assert(vac_part(b).len() <= 1);
    assert(game_part(b).len() <= 1);
    assert(repeated_part(b).len() <= 1);
    assert(playtime_part(p).len() <= 3);
    assert forall|i: int| 0 <= i < br.len() implies -20 <= #[trigger] br[i].weight <= 85 by {
        let a = vac_part(b);
        let g = game_part(b);
        let r = repeated_part(b);
        let t = playtime_part(p);
        if i < a.len() {
            assert(br[i] == a[i]);
        } else if i < a.len() + g.len() {
            assert(br[i] == g[i - a.len()]);
        } else if i < a.len() + g.len() + r.len() {
            assert(br[i] == r[i - a.len() - g.len()]);
        } else {
            assert(br[i] == t[i - a.len() - g.len() - r.len()]);
            match p.rust_hours_tenths {
                Some(steam) => match p.battlemetrics_session_hours_tenths {
                    Some(session) => {
                        let c = crosshair_part(p, steam as int);
                        let q = post_ban_part(p);
                        let k = i - a.len() - g.len() - r.len();
                        if p.owned_games_visible && k >= 1 {
                            if k < 1 + c.len() {
                                assert(t[k] == c[k - 1]);
                            } else {
                                assert(t[k] == q[k - 1 - c.len()]);
                            }
                        }
                    },
                    None => {},
                },
                None => {},
            }
        }
    }
}

/// The ban branches: VAC, game and repeated pattern.
fn ban_branches(bans: &BanContext) -> (branches: Vec<DecisionBranch>)
    requires
        ban_context_in_range(*bans),
    ensures
        branches_view(branches@) == vac_part(*bans) + game_part(*bans) + repeated_part(*bans),
{
    let ghost b = *bans;
    let mut branches: Vec<DecisionBranch> = Vec::new();
    let days: u32 = match bans.days_since_last_ban {
        Some(d) => d,
        None => 0,
    };
    assert(branches_view(branches@) =~= Seq::<BranchView>::empty());
    if bans.vac_bans > 0 {
        let weight = decayed_ban_weight(VAC_BAN_REVIEW_WEIGHT, bans.vac_bans, days);
        let summary = ban_summary(bans.vac_bans, " VAC ban(s); the latest reported ban was ", days);
        push_branch(
            &mut branches,
            make_branch("vac_bans", "VAC ban history", weight as i32, "factual Steam record", summary),
        );
    }
    assert(branches_view(branches@) =~= vac_part(b));
    if bans.game_bans > 0 {
        let weight = decayed_ban_weight(GAME_BAN_REVIEW_WEIGHT, bans.game_bans, days);
        let summary = ban_summary(bans.game_bans, " game ban(s); the latest reported ban was ", days);
        push_branch(
            &mut branches,
            make_branch("game_bans", "game ban history", weight as i32, "factual Steam record", summary),
        );
    }
    assert(branches_view(branches@) =~= vac_part(b) + game_part(b));
    let total_bans: u32 = bans.vac_bans + bans.game_bans;
    if total_bans >= 2 {
        let extra: u32 = if total_bans - 2 < 4 { total_bans - 2 } else { 4 };
        let raised: i32 = REPEATED_BAN_PATTERN_WEIGHT + extra as i32 * 5;
        let weight: i32 = if raised < 80 { raised } else { 80 };
        let mut summary = String::from_str("Steam reports ");
        push_decimal(&mut summary, total_bans as u128);
        summary.append(" total bans. Multiple bans are treated as a persistent review pattern, even when the latest ban is old.");
        push_branch(
            &mut branches,
            make_branch("repeated_ban_pattern", "repeated ban pattern", weight, "factual Steam record", summary),
        );
    }
    assert(branches_view(branches@) =~= vac_part(b) + game_part(b) + repeated_part(b));
    branches
}

/// Appends the branches that follow a tracked-server comparison.
fn push_tracked_branches(
    branches: &mut Vec<DecisionBranch>,
    playtime: &PlaytimeContext,
    steam_hours: u32,
    session_hours: u128,
)
    requires
        playtime.owned_games_visible,
        playtime.rust_hours_tenths == Some(steam_hours),
        playtime.battlemetrics_session_hours_tenths == Some(session_hours),
    ensures
        branches_view(final(branches)@) == branches_view(old(branches)@) + playtime_part(*playtime),
{
    let ghost p = *playtime;
    let gap: u32 = match playtime.steam_minus_session_hours_tenths {
        Some(g) => g,
        None => 0,
    };
    let review = steam_hours >= 5000 && ratio_within(playtime.session_to_steam_ratio, 45) && gap
        >= 2500;
    let mut summary = String::from_str("Steam reports ");
    push_hours(&mut summary, steam_hours as u128);
    summary.append(" Rust hours; configured BattleMetrics servers report ");
    push_hours(&mut summary, session_hours);
    summary.append(" session hours.");
    push_branch(
        branches,
        make_branch(
            "tracked_server_hours",
            if review {
                "playtime coverage gap"
            } else {
                "tracked-server history"
            },
            if review {
                PLAYTIME_COVERAGE_REVIEW_WEIGHT
            } else {
                0
            },
            "tracked-server lower bound",
            summary,
        ),
    );
    let ghost after_tracked = branches_view(branches@);
    let crosshair: u32 = match playtime.crosshair_x_hours_tenths {
        Some(c) => c,
        None => 0,
    };
    if steam_hours >= 100000 && gap >= 50000 && ratio_within(playtime.session_to_steam_ratio, 25)
        && crosshair >= 10000 {
        let summary = hours_summary(
            "Steam records ",
            crosshair as u128,
            " hours in Crosshair X alongside very high Rust hours and sparse tracked-server time. Crosshair overlays have legitimate uses; this supplements the inconsistency review and does not prove cheating or account purchase.",
        );
        push_branch(
            branches,
            make_branch(
                "crosshair_x_context",
                "crosshair-overlay inconsistency",
                CROSSHAIR_X_CONTEXT_WEIGHT,
                "supplemental contextual evidence",
                summary,
            ),
        );
    }
    assert(branches_view(branches@) =~= after_tracked + crosshair_part(p, steam_hours as int));
    let ghost after_crosshair = branches_view(branches@);
    match playtime.battlemetrics_post_ban_hours_tenths {
        Some(post_ban_hours) => {
            if post_ban_hours >= 30000 {
                let summary = hours_summary(
                    "Dated BattleMetrics sessions report ",
                    post_ban_hours,
                    " tracked hours after the latest Steam ban, which reduces the priority of historical ban context.",
                );
                push_branch(
                    branches,
                    make_branch(
                        "post_ban_tracked_history",
                        "established post-ban tracked history",
                        -ESTABLISHED_TRACKED_HISTORY_CREDIT,
                        "counter-evidence",
                        summary,
                    ),
                );
            } else if post_ban_hours >= 10000 {
                let summary = hours_summary(
                    "Dated BattleMetrics sessions report ",
                    post_ban_hours,
                    " tracked hours after the latest Steam ban, which moderately reduces the priority of historical ban context.",
                );
                push_branch(
                    branches,
                    make_branch(
                        "post_ban_tracked_history",
                        "substantial post-ban tracked history",
                        -SUBSTANTIAL_TRACKED_HISTORY_CREDIT,
                        "counter-evidence",
                        summary,
                    ),
                );
            }
        },
        None => {},
    }
    assert(branches_view(branches@) =~= after_crosshair + post_ban_part(p));
    assert(playtime_part(p) =~= seq![tracked_branch(p, steam_hours as nat, session_hours as nat)]
        + crosshair_part(p, steam_hours as int) + post_ban_part(p));
    assert(branches_view(branches@) =~= branches_view(old(branches)@) + playtime_part(p));
}

/// Appends the playtime branches; tells whether tracked-server history is known.
fn push_playtime_branches(branches: &mut Vec<DecisionBranch>, playtime: &PlaytimeContext) -> (has_tracked:
    bool)
    ensures
        branches_view(final(branches)@) == branches_view(old(branches)@) + playtime_part(*playtime),
        has_tracked == has_tracked_server_history(*playtime),
{
    if !playtime.owned_games_visible {
        push_branch(
            branches,
            make_branch(
                "steam_library",
                "Steam library unavailable",
                0,
                "missing evidence",
                String::from_str("Steam did not return a visible owned-games library."),
            ),
        );
        return false;
    }
    match playtime.rust_hours_tenths {
        Some(steam_hours) => match playtime.battlemetrics_session_hours_tenths {
            Some(session_hours) => {
                push_tracked_branches(branches, playtime, steam_hours, session_hours);
                true
            },
            None => {
                let summary = hours_summary(
                    "Steam reports ",
                    steam_hours as u128,
                    " Rust hours, but no session hours were returned from the configured BattleMetrics servers.",
                );
                push_branch(
                    branches,
                    make_branch(
                        "tracked_server_hours",
                        "unverified Steam hours",
                        0,
                        "missing evidence",
                        summary,
                    ),
                );
                false
            },
        },
        None => {
            push_branch(
                branches,
                make_branch(
                    "steam_rust_hours",
                    "no visible Rust hours",
                    0,
                    "missing evidence",
                    String::from_str("Rust was not present in the visible Steam owned-games response."),
                ),
            );
            false
        },
    }
}

/// The sum of the branch weights.
fn weight_sum(branches: &Vec<DecisionBranch>) -> (sum: i32)
    requires
        branches@.len() <= 7,
        forall|j: int|
            0 <= j < branches@.len() ==> -20 <= #[trigger] branches_view(branches@)[j].weight <= 85,
    ensures
        sum == total_weight(branches_view(branches@)),
{
    let ghost view = branches_view(branches@);
    let n = branches.len();
    let mut sum: i32 = 0;
    let mut i: usize = 0;
    while i < n
        invariant
            n == branches@.len(),
            view == branches_view(branches@),
            n <= 7,
            forall|j: int| 0 <= j < n ==> -20 <= #[trigger] view[j].weight <= 85,
            i <= n,
            sum == total_weight(view.take(i as int)),
            -20 * i <= sum <= 85 * i,
        decreases n - i,
    {
        assert(view.take(i + 1).drop_last() =~= view.take(i as int));
        assert(view[i as int].weight == branches@[i as int].weight);
        sum = sum + branches[i].weight;
        i = i + 1;
    }
    assert(view.take(n as int) =~= view);
    sum
}

/// Whether a tracked-server branch carries a positive weight.
fn find_coverage_gap(branches: &Vec<DecisionBranch>) -> (found: bool)
    ensures
        found == has_coverage_gap(branches_view(branches@)),
{
    let ghost view = branches_view(branches@);
    let n = branches.len();
    let tracked_key = String::from_str("tracked_server_hours");
    let mut found = false;
    let mut k: usize = 0;
    while k < n
        invariant
            n == branches@.len(),
            view == branches_view(branches@),
            tracked_key@ == "tracked_server_hours"@,
            k <= n,
            found == exists|j: int|
                0 <= j < k && #[trigger] view[j].key == "tracked_server_hours"@ && view[j].weight
                    > 0,
        decreases n - k,
    {
        if branches[k].key == tracked_key && branches[k].weight > 0 {
            assert(view[k as int].key == "tracked_server_hours"@);
            found = true;
        }
        k = k + 1;
    }
    found
}

/// The branch summaries joined by single spaces.
fn join_summaries(branches: &Vec<DecisionBranch>) -> (summary: String)
    ensures
        summary@ == join(branch_summaries(branches_view(branches@)), " "@),
{
    let ghost summaries = branch_summaries(branches_view(branches@));
    let n = branches.len();
    let mut summary = String::new();
    let mut m: usize = 0;
    while m < n
        invariant
            n == branches@.len(),
            summaries == branch_summaries(branches_view(branches@)),
            summaries.len() == n,
            m <= n,
            summary@ == join(summaries.take(m as int), " "@),
        decreases n - m,
    {
        assert(summaries[m as int] == branches@[m as int].summary@);
        if m != 0 {
            summary.append(" ");
        }
        summary.append(branches[m].summary.as_str());
        assert(summaries.take(m + 1).drop_last() =~= summaries.take(m as int));
        m = m + 1;
    }
    assert(summaries.take(n as int) =~= summaries);
    summary
}

/// The decision tree of a profile: its branches, the clamped sum of their
/// weights as review priority, the outcome and next step that follow, the
/// evidence coverage, and the branch summaries joined by spaces.
pub fn build_decision_tree(profile: &ProfileSnapshot) -> (tree: DecisionTree)
    requires
        ban_context_in_range(profile.ban_context),
    ensures
        tree@ == decision_tree_spec(profile.ban_context, profile.playtime_context),
{
    let bans = &profile.ban_context;
    let playtime = &profile.playtime_context;
    let ghost b = profile.ban_context;
    let ghost p = profile.playtime_context;
    let mut branches = ban_branches(bans);
    let has_tracked_server_history = push_playtime_branches(&mut branches, playtime);
    let playtime_unavailable = !has_tracked_server_history;
    let ghost view = branches_view(branches@);
    assert(view == decision_branches(b, p));
    proof {
        lemma_branch_weights(b, p);
    }
    let sum = weight_sum(&branches);
    let review_priority: u32 = if sum < 0 {
        0
    } else if sum > 100 {
        100
    } else {
        sum as u32
    };
    let has_coverage_gap_found = find_coverage_gap(&branches);
    let days: u32 = match bans.days_since_last_ban {
        Some(d) => d,
        None => 0,
    };
    let total_bans: u32 = bans.vac_bans + bans.game_bans;
    let outcome = String::from_str(
        if review_priority >= 75 {
            "manual account review"
        } else if review_priority >= 35 {
            "review supporting evidence"
        } else if has_coverage_gap_found {
            "review server coverage"
        } else if playtime_unavailable {
            "insufficient playtime evidence"
        } else {
            "context available"
        },
    );
    let evidence_level = String::from_str(
        if has_tracked_server_history {
            "Steam record + tracked-server lower bound"
        } else {
            "Steam profile record"
        },
    );
    let coverage = evidence_coverage(playtime, total_bans > 0);
    let summary = join_summaries(&branches);
    let next_step = String::from_str(
        if total_bans >= 2 {
            "Multiple Steam bans remain a persistent review pattern. Use dated server sessions and current behaviour for context, but do not treat the history alone as proof of current cheating."
        } else if playtime.battlemetrics_post_ban_hours_tenths.is_some() {
            "Dated BattleMetrics sessions provide tracked activity after the latest Steam ban. Treat that as meaningful counter-evidence while keeping the historical ban visible."
        } else if has_tracked_server_history && days >= 1095 && (bans.vac_bans > 0
            || bans.game_bans > 0) {
            "Keep the historical ban visible, but do not infer current behaviour from it alone. No dated post-ban BattleMetrics sessions were available for this lookup."
        } else if bans.vac_bans > 0 || bans.game_bans > 0 {
            "Review the account history manually. Ban records are factual, but they do not establish current or Rust-specific behaviour."
        } else if has_coverage_gap_found {
            "Check whether the configured servers cover the player’s normal activity. A gap does not prove idle or fabricated Steam hours."
        } else if playtime_unavailable {
            "Do not infer real playtime or experience until tracked-server session data is available."
        } else {
            "Use tracked-session hours as confirmed activity on the configured servers only; they are not a global total."
        },
    );
    DecisionTree {
        outcome,
        review_priority,
        evidence_coverage: coverage,
        evidence_level,
        summary,
        next_step,
        branches,
    }
}

// ---------------------------------------------------------------------
// Laws

/// A ban weight never exceeds 85 nor falls below 0, and the decay by age
/// never increases it: an older latest ban weighs at most as much.
pub proof fn law_ban_weight_decays_with_age(base: u32, count: u32, days1: u32, days2: u32)
    requires
        base <= 85,
        days1 <= days2,
    ensures
        0 <= decayed_weight(base as int, count as int, days2 as int) <= decayed_weight(
            base as int,
            count as int,
            days1 as int,
        ) <= 85,
{
}

/// A recent ban (at most 180 days old) keeps its full weight: the base
/// raised by 5 for each of up to four further bans, capped at 85; once the latest ban is at
/// least three years (1095 days) old, an eighth of that remains.
pub proof fn law_recent_full_old_eighth(base: u32, count: u32, days: u32)
    ensures
        days <= 180 ==> decayed_weight(base as int, count as int, days as int)
            == repeated_ban_weight(base as int, count as int),
        days >= 1095 ==> decayed_weight(base as int, count as int, days as int)
            == repeated_ban_weight(base as int, count as int) / 8,
{
}

/// A recent VAC ban weighs 65 to 85 and a recent game ban 25 to 45,
/// however many bans are recorded.
pub proof fn law_recent_ban_weight_ranges(count: u32, days: u32)
    requires
        count >= 1,
        days <= 180,
    ensures
        65 <= decayed_weight(VAC_BAN_REVIEW_WEIGHT as int, count as int, days as int) <= 85,
        25 <= decayed_weight(GAME_BAN_REVIEW_WEIGHT as int, count as int, days as int) <= 45,
{
}

/// Two or more bans in total weigh 60 to 80 as a repeated pattern.
pub proof fn law_repeated_pattern_range(b: BanContext)
    requires
        total_bans(b) >= 2,
    ensures
        repeated_part(b).len() == 1,
        60 <= repeated_part(b)[0].weight <= 80,
{
}

/// The review priority lies in 0..=100 and the evidence coverage in
/// 0..=100; from a priority of 75 the outcome is "manual account review".
pub proof fn law_priority_and_coverage_are_percentages(b: BanContext, p: PlaytimeContext)
    ensures
        0 <= decision_tree_spec(b, p).review_priority <= 100,
        0 <= decision_tree_spec(b, p).evidence_coverage <= 100,
        (decision_tree_spec(b, p).outcome == "manual account review"@) <== (decision_tree_spec(
            b,
            p,
        ).review_priority >= 75),
{
}

/// Missing evidence adds no weight, counter-evidence only lowers the
/// priority, and every branch weighs between -20 and 85.
pub proof fn law_branch_weights_by_status(b: BanContext, p: PlaytimeContext)
    ensures
        forall|i: int|
            0 <= i < decision_branches(b, p).len() ==> {
                let br = #[trigger] decision_branches(b, p)[i];
                &&& -20 <= br.weight <= 85
                &&& br.status == missing_status() ==> br.weight == 0
                &&& br.status == "counter-evidence"@ ==> br.weight < 0
            },
{
    lemma_branch_weights(b, p);
    let br = decision_branches(b, p);
    let a = vac_part(b);
    let g = game_part(b);
    let r = repeated_part(b);
    let t = playtime_part(p);
    assert forall|i: int| 0 <= i < br.len() implies {
        let x = #[trigger] br[i];
        &&& -20 <= x.weight <= 85
        &&& x.status == missing_status() ==> x.weight == 0
        &&& x.status == "counter-evidence"@ ==> x.weight < 0
    } by {
        if i < a.len() {
            assert(br[i] == a[i]);
            assert(factual_status() != missing_status()) by {
                reveal_strlit("factual Steam record");
                reveal_strlit("missing evidence");
                assert(factual_status()[0] != missing_status()[0]);
            }
            assert(factual_status() != "counter-evidence"@) by {
                reveal_strlit("factual Steam record");
                reveal_strlit("counter-evidence");
                assert(factual_status()[0] != "counter-evidence"@[0]);
            }
        } else if i < a.len() + g.len() {
            assert(br[i] == g[i - a.len()]);
            assert(factual_status() != missing_status()) by {
                reveal_strlit("factual Steam record");
                reveal_strlit("missing evidence");
                assert(factual_status()[0] != missing_status()[0]);
            }
            assert(factual_status() != "counter-evidence"@) by {
                reveal_strlit("factual Steam record");
                reveal_strlit("counter-evidence");
                assert(factual_status()[0] != "counter-evidence"@[0]);
            }
        } else if i < a.len() + g.len() + r.len() {
            assert(br[i] == r[i - a.len() - g.len()]);
            assert(factual_status() != missing_status()) by {
                reveal_strlit("factual Steam record");
                reveal_strlit("missing evidence");
                assert(factual_status()[0] != missing_status()[0]);
            }
            assert(factual_status() != "counter-evidence"@) by {
                reveal_strlit("factual Steam record");
                reveal_strlit("counter-evidence");
                assert(factual_status()[0] != "counter-evidence"@[0]);
            }
        } else {
            let k = i - a.len() - g.len() - r.len();
            assert(br[i] == t[k]);
            assert(missing_status() != "counter-evidence"@) by {
                reveal_strlit("missing evidence");
                reveal_strlit("counter-evidence");
                assert(missing_status()[0] != "counter-evidence"@[0]);
            }
            if p.owned_games_visible {
                match p.rust_hours_tenths {
                    Some(steam) => match p.battlemetrics_session_hours_tenths {
                        Some(session) => {
                            let c = crosshair_part(p, steam as int);
                            let q = post_ban_part(p);
                            assert("tracked-server lower bound"@ != missing_status()) by {
                                reveal_strlit("tracked-server lower bound");
                                reveal_strlit("missing evidence");
                                assert("tracked-server lower bound"@[0] != missing_status()[0]);
                            }
                            assert("tracked-server lower bound"@ != "counter-evidence"@) by {
                                reveal_strlit("tracked-server lower bound");
                                reveal_strlit("counter-evidence");
                                assert("tracked-server lower bound"@[1] != "counter-evidence"@[1]);
                            }
                            assert("supplemental contextual evidence"@ != missing_status()) by {
                                reveal_strlit("supplemental contextual evidence");
                                reveal_strlit("missing evidence");
                                assert("supplemental contextual evidence"@[0] != missing_status()[0]);
                            }
                            assert("supplemental contextual evidence"@ != "counter-evidence"@) by {
                                reveal_strlit("supplemental contextual evidence");
                                reveal_strlit("counter-evidence");
                                assert("supplemental contextual evidence"@[0] != "counter-evidence"@[0]);
                            }
                            assert("counter-evidence"@ != missing_status()) by {
                                reveal_strlit("missing evidence");
                                reveal_strlit("counter-evidence");
                                assert(missing_status()[0] != "counter-evidence"@[0]);
                            }
                            if k >= 1 {
                                if k < 1 + c.len() {
                                    assert(t[k] == c[k - 1]);
                                } else {
                                    assert(t[k] == q[k - 1 - c.len()]);
                                }
                            }
                        },
                        None => {},
                    },
                    None => {},
                }
            }
        }
    }
}

/// Without a ban record and without playtime evidence, nothing adds review
/// weight: the priority is 0.
pub proof fn law_absent_evidence_adds_no_weight(b: BanContext, p: PlaytimeContext)
    requires
        b.vac_bans == 0,
        b.game_bans == 0,
        playtime_unavailable(p),
    ensures
        decision_tree_spec(b, p).review_priority == 0,
{
    let br = decision_branches(b, p);
    assert(br =~= playtime_part(p));
    assert(br.len() == 1);
    assert(br.drop_last() =~= Seq::<BranchView>::empty());
    assert(total_weight(br) == total_weight(br.drop_last()) + br.last().weight);
}

/// Post-ban counter-evidence appears only where dated post-ban hours are
/// known and reach 1000 hours; the crosshair-overlay branch only where all
/// four of its thresholds are met.
pub proof fn law_gated_branches(b: BanContext, p: PlaytimeContext, steam_tenths: int)
    ensures
        post_ban_part(p).len() > 0 ==> (p.battlemetrics_post_ban_hours_tenths matches Some(h)
            && h >= 10000),
        crosshair_part(p, steam_tenths).len() > 0 ==> crosshair_applies(p, steam_tenths),
{
}

/// Full evidence gives full coverage: 100 with a ban record, the library,
/// the aggregate and the dated history; 100 without a ban record where the
/// library and the aggregate returned.
pub proof fn law_full_evidence_full_coverage(p: PlaytimeContext, has_ban_history: bool)
    requires
        p.owned_games_visible,
        p.battlemetrics_session_hours_tenths is Some,
        has_ban_history ==> p.battlemetrics_recent_session_count is Some,
    ensures
        evidence_coverage_spec(p, has_ban_history) == 100,
{
}

/// The evidence coverage counts each input on its own: the account and ban
/// record always (30 of 80 points without a ban, 30 of 100 with one), the
/// visible library 20, the BattleMetrics aggregate 30 whenever session
/// hours returned, visible library or not, and, with a ban, the dated
/// history 20.
pub proof fn law_coverage_counts_each_input(p: PlaytimeContext, has_ban_history: bool)
    ensures
        !has_ban_history ==> evidence_coverage_spec(p, has_ban_history) == match (
            p.owned_games_visible,
            p.battlemetrics_session_hours_tenths is Some,
        ) {
            (false, false) => 37int,
            (true, false) => 62int,
            (false, true) => 75int,
            (true, true) => 100int,
        },
        has_ban_history ==> evidence_coverage_spec(p, has_ban_history) == 30 + (if p.owned_games_visible {
            20int
        } else {
            0int
        }) + (if p.battlemetrics_session_hours_tenths is Some {
            30int
        } else {
            0int
        }) + (if p.battlemetrics_recent_session_count is Some {
            20int
        } else {
            0int
        }),
{
}

/// Tracked-server history needs BattleMetrics session hours: without them
/// the evidence level is the Steam profile record alone; with no ban the
/// priority is 0 and the outcome "insufficient playtime evidence", and with
/// no post-ban hours either the next step waits for tracked-server data.
pub proof fn law_no_session_hours_no_tracked_history(b: BanContext, p: PlaytimeContext)
    requires
        p.battlemetrics_session_hours_tenths is None,
    ensures
        decision_tree_spec(b, p).evidence_level == "Steam profile record"@,
        b.vac_bans == 0 && b.game_bans == 0 ==> decision_tree_spec(b, p).review_priority == 0
            && decision_tree_spec(b, p).outcome == "insufficient playtime evidence"@,
        b.vac_bans == 0 && b.game_bans == 0 && p.battlemetrics_post_ban_hours_tenths is None
            ==> decision_tree_spec(b, p).next_step
            == "Do not infer real playtime or experience until tracked-server session data is available."@,
{
    if b.vac_bans == 0 && b.game_bans == 0 {
        let br = decision_branches(b, p);
        assert(br =~= playtime_part(p));
        assert(br.len() == 1);
        assert(br.drop_last() =~= Seq::<BranchView>::empty());
        assert(total_weight(br) == total_weight(br.drop_last()) + br.last().weight);
        assert(br[0].weight == 0);
        assert(!has_coverage_gap(br));
    }
}

/// The evidence level names tracked-server history exactly when the library
/// is visible and both its Rust hours and BattleMetrics session hours are
/// known.
pub proof fn law_evidence_level_needs_both_hours(b: BanContext, p: PlaytimeContext)
    ensures
        (decision_tree_spec(b, p).evidence_level == "Steam record + tracked-server lower bound"@)
            == (p.owned_games_visible && p.rust_hours_tenths is Some
            && p.battlemetrics_session_hours_tenths is Some),
        (decision_tree_spec(b, p).evidence_level == "Steam profile record"@) == !(p.owned_games_visible
            && p.rust_hours_tenths is Some && p.battlemetrics_session_hours_tenths is Some),
{
    reveal_strlit("Steam record + tracked-server lower bound");
    reveal_strlit("Steam profile record");
    assert("Steam record + tracked-server lower bound"@.len() != "Steam profile record"@.len());
}

} // verus!
