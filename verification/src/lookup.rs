//! Assembly of a lookup: the playtime summary of the visible library, the
//! ban context, the BattleMetrics comparison, and the decision tree.

use vstd::prelude::*;
use vstd::string::*;
use crate::battlemetrics::BattleMetricsLookup;
use crate::context::{
    BanContext, GameHours, GameHoursView, PlaytimeContext, ProfileSnapshot, Ratio, games_view,
};
use crate::decision::{
    DecisionTree, build_decision_tree,
    decision_tree_spec, GAME_BAN_REVIEW_WEIGHT, VAC_BAN_REVIEW_WEIGHT,
};
use crate::steam::{OwnedGame, OwnedGamesBody, PlayerBanRecord, SteamPlayer};
use crate::text::{decimal, push_decimal, strings_view};

verus! {

/// Steam's application id of Rust.
pub const RUST_APP_ID: u32 = 252490;

/// Steam's application id of Crosshair X.
pub const CROSSHAIR_X_APP_ID: u32 = 1_366_800;

// ---------------------------------------------------------------------
// Minutes and hours

/// Minutes as whole tenths of an hour, halves rounded up.
pub open spec fn tenths_of_minutes(minutes: int) -> int {
    (minutes + 3) / 6
}

/// Minutes as tenths of an hour (hours rounded to one decimal).
pub fn minutes_to_tenth_hours(minutes: u32) -> (t: u32)
    ensures
        t == tenths_of_minutes(minutes as int),
{
    ((minutes as u64 + 3) / 6) as u32
}

/// The playtime of all games, in minutes.
pub open spec fn total_minutes(games: Seq<OwnedGame>) -> int
    decreases games.len(),
{
    if games.len() == 0 {
        0
    } else {
        total_minutes(games.drop_last()) + games.last().playtime_forever
    }
}

/// The playtime of the first game with id `app`, if any.
pub open spec fn app_minutes(games: Seq<OwnedGame>, app: u32) -> Option<u32>
    decreases games.len(),
{
    if games.len() == 0 {
        None
    } else if games[0].appid == app {
        Some(games[0].playtime_forever)
    } else {
        app_minutes(games.drop_first(), app)
    }
}

// ---------------------------------------------------------------------
// Other games

/// A played game other than Rust.
pub open spec fn is_other_game(g: OwnedGame) -> bool {
    g.appid != RUST_APP_ID && g.playtime_forever > 0
}

/// The name shown for a game: its own, or "App {id}" where it has none.
pub open spec fn game_label(g: OwnedGame) -> Seq<char> {
    if g.name@.len() == 0 {
        "App "@ + decimal(g.appid as nat)
    } else {
        g.name@
    }
}

/// The hours entry of a game.
pub open spec fn other_game_view(g: OwnedGame) -> GameHoursView {
    GameHoursView {
        app_id: g.appid,
        name: game_label(g),
        hours_tenths: tenths_of_minutes(g.playtime_forever as int) as u32,
    }
}

/// The hours entries of the played games other than Rust, in library order.
pub open spec fn other_games_in_order(games: Seq<OwnedGame>) -> Seq<GameHoursView>
    decreases games.len(),
{
    if games.len() == 0 {
        Seq::empty()
    } else {
        let rest = other_games_in_order(games.drop_last());
        if is_other_game(games.last()) {
            rest.push(other_game_view(games.last()))
        } else {
            rest
        }
    }
}

/// The entries of `s` with exactly `k` tenths of an hour, in order.
pub open spec fn with_hours(s: Seq<GameHoursView>, k: u32) -> Seq<GameHoursView>
    decreases s.len(),
{
    if s.len() == 0 {
        Seq::empty()
    } else if s.last().hours_tenths == k {
        with_hours(s.drop_last(), k).push(s.last())
    } else {
        with_hours(s.drop_last(), k)
    }
}

/// Hours never increase along `s`.
pub open spec fn sorted_by_hours_desc(s: Seq<GameHoursView>) -> bool {
    forall|i: int, j: int|
        0 <= i < j < s.len() ==> #[trigger] s[i].hours_tenths >= #[trigger] s[j].hours_tenths
}

/// `out` is `input` sorted by hours, most first, with entries of equal
/// hours in their order in `input`.
pub open spec fn is_stable_hours_sort(out: Seq<GameHoursView>, input: Seq<GameHoursView>) -> bool {
    &&& sorted_by_hours_desc(out)
    &&& forall|k: u32| #[trigger] with_hours(out, k) == with_hours(input, k)
}

proof fn lemma_with_hours_add(a: Seq<GameHoursView>, b: Seq<GameHoursView>, k: u32)
    ensures
        with_hours(a + b, k) == with_hours(a, k) + with_hours(b, k),
    decreases b.len(),
{
    if b.len() == 0 {
        assert(a + b =~= a);
        assert(with_hours(a, k) + with_hours(b, k) =~= with_hours(a, k));
    } else {
        lemma_with_hours_add(a, b.drop_last(), k);
        assert((a + b).drop_last() =~= a + b.drop_last());
        assert((a + b).last() == b.last());
        if b.last().hours_tenths == k {
            assert(with_hours(a, k) + with_hours(b, k) =~= (with_hours(a, k) + with_hours(
                b.drop_last(),
                k,
            )).push(b.last()));
        }
    }
}

proof fn lemma_with_hours_none(s: Seq<GameHoursView>, k: u32)
    requires
        forall|i: int| 0 <= i < s.len() ==> #[trigger] s[i].hours_tenths < k,
    ensures
        with_hours(s, k) == Seq::<GameHoursView>::empty(),
    decreases s.len(),
{
    if s.len() > 0 {
        lemma_with_hours_none(s.drop_last(), k);
        assert(s.last().hours_tenths < k);
    }
}

proof fn lemma_with_hours_single(x: GameHoursView, k: u32)
    ensures
        with_hours(seq![x], k) == (if x.hours_tenths == k {
            seq![x]
        } else {
            Seq::<GameHoursView>::empty()
        }),
{
    let e = Seq::<GameHoursView>::empty();
    assert(seq![x].drop_last() =~= e);
    assert(seq![x].last() == x);
    assert(with_hours(e, k) == e);
    assert(e.push(x) =~= seq![x]);
}

/// Inserting after every entry of at least as many hours keeps the sort
/// stable.
proof fn lemma_insert_keeps_stable_sort(
    out: Seq<GameHoursView>,
    input: Seq<GameHoursView>,
    x: GameHoursView,
    p: int,
)
    requires
        is_stable_hours_sort(out, input),
        0 <= p <= out.len(),
        forall|j: int| 0 <= j < p ==> #[trigger] out[j].hours_tenths >= x.hours_tenths,
        forall|j: int| p <= j < out.len() ==> #[trigger] out[j].hours_tenths < x.hours_tenths,
    ensures
        is_stable_hours_sort(out.insert(p, x), input.push(x)),
{
    let o2 = out.insert(p, x);
    let front = out.subrange(0, p);
    let back = out.subrange(p, out.len() as int);
    assert(o2 =~= front + seq![x] + back);
    assert(out =~= front + back);
    assert forall|i: int, j: int| 0 <= i < j < o2.len() implies #[trigger] o2[i].hours_tenths
        >= #[trigger] o2[j].hours_tenths by {
        if j < p {
            assert(o2[i] == out[i] && o2[j] == out[j]);
        } else if j == p {
            assert(o2[i] == out[i]);
        } else if i < p {
            assert(o2[i] == out[i] && o2[j] == out[j - 1]);
        } else if i == p {
            assert(o2[j] == out[j - 1]);
        } else {
            assert(o2[i] == out[i - 1] && o2[j] == out[j - 1]);
        }
    }
    assert forall|k: u32| #[trigger] with_hours(o2, k) == with_hours(input.push(x), k) by {
        lemma_with_hours_add(front + seq![x], back, k);
        lemma_with_hours_add(front, seq![x], k);
        lemma_with_hours_add(front, back, k);
        lemma_with_hours_single(x, k);
        assert(input.push(x).drop_last() =~= input);
        assert(with_hours(out, k) == with_hours(input, k));
        if x.hours_tenths == k {
            assert forall|i: int| 0 <= i < back.len() implies #[trigger] back[i].hours_tenths
                < k by {
                assert(back[i] == out[p + i]);
            }
            lemma_with_hours_none(back, k);
            assert(with_hours(front, k) + seq![x] + Seq::<GameHoursView>::empty()
                =~= with_hours(front, k).push(x));
            assert(with_hours(front, k) + Seq::<GameHoursView>::empty() =~= with_hours(front, k));
        } else {
            assert(with_hours(front, k) + Seq::<GameHoursView>::empty() =~= with_hours(front, k));
        }
    }
}

proof fn lemma_with_hours_member(s: Seq<GameHoursView>, k: u32)
    requires
        with_hours(s, k).len() > 0,
    ensures
        exists|j: int| 0 <= j < s.len() && #[trigger] s[j].hours_tenths == k,
    decreases s.len(),
{
    if s.last().hours_tenths == k {
        assert(s[s.len() - 1].hours_tenths == k);
    } else {
        lemma_with_hours_member(s.drop_last(), k);
        let j = choose|j: int| 0 <= j < s.drop_last().len() && #[trigger] s.drop_last()[j].hours_tenths == k;
        assert(s[j].hours_tenths == k);
    }
}

proof fn lemma_sorted_same_groups_equal(a: Seq<GameHoursView>, b: Seq<GameHoursView>)
    requires
        sorted_by_hours_desc(a),
        sorted_by_hours_desc(b),
        forall|k: u32| #[trigger] with_hours(a, k) == with_hours(b, k),
    ensures
        a == b,
    decreases a.len() + b.len(),
{
    if a.len() == 0 && b.len() == 0 {
        assert(a =~= b);
    } else if a.len() == 0 {
        let y = b.last();
        assert(with_hours(b, y.hours_tenths).len() > 0);
        assert(with_hours(a, y.hours_tenths) == Seq::<GameHoursView>::empty());
    } else if b.len() == 0 {
        let x = a.last();
        assert(with_hours(a, x.hours_tenths).len() > 0);
        assert(with_hours(b, x.hours_tenths) == Seq::<GameHoursView>::empty());
    } else {
        let x = a.last();
        let y = b.last();
        assert(with_hours(a, x.hours_tenths).len() > 0);
        assert(with_hours(b, y.hours_tenths).len() > 0);
        lemma_with_hours_member(b, x.hours_tenths);
        lemma_with_hours_member(a, y.hours_tenths);
        let jb = choose|j: int| 0 <= j < b.len() && #[trigger] b[j].hours_tenths == x.hours_tenths;
        let ja = choose|j: int| 0 <= j < a.len() && #[trigger] a[j].hours_tenths == y.hours_tenths;
        if jb < b.len() - 1 {
            assert(b[jb].hours_tenths >= b[b.len() - 1].hours_tenths);
        }
        if ja < a.len() - 1 {
            assert(a[ja].hours_tenths >= a[a.len() - 1].hours_tenths);
        }
        assert(x.hours_tenths == y.hours_tenths);
        let m = x.hours_tenths;
        assert(with_hours(a, m) == with_hours(a.drop_last(), m).push(x));
        assert(with_hours(b, m) == with_hours(b.drop_last(), m).push(y));
        assert(x == with_hours(a, m).last());
        assert(y == with_hours(b, m).last());
        let a2 = a.drop_last();
        let b2 = b.drop_last();
        assert forall|k: u32| #[trigger] with_hours(a2, k) == with_hours(b2, k) by {
            if k == m {
                assert(with_hours(a2, k) =~= with_hours(a, k).drop_last());
                assert(with_hours(b2, k) =~= with_hours(b, k).drop_last());
            } else {
                assert(with_hours(a, k) == with_hours(a2, k));
                assert(with_hours(b, k) == with_hours(b2, k));
            }
        }
        assert(sorted_by_hours_desc(a2)) by {
            assert forall|i: int, j: int| 0 <= i < j < a2.len() implies #[trigger] a2[i].hours_tenths
                >= #[trigger] a2[j].hours_tenths by {
                assert(a2[i] == a[i] && a2[j] == a[j]);
            }
        }
        assert(sorted_by_hours_desc(b2)) by {
            assert forall|i: int, j: int| 0 <= i < j < b2.len() implies #[trigger] b2[i].hours_tenths
                >= #[trigger] b2[j].hours_tenths by {
                assert(b2[i] == b[i] && b2[j] == b[j]);
            }
        }
        lemma_sorted_same_groups_equal(a2, b2);
        assert(a =~= a2.push(x));
        assert(b =~= b2.push(y));
    }
}

/// The order of the other games is fully determined: two orderings that
/// both sort the same entries by hours, most first, ties in input order,
/// are the same sequence.
pub proof fn law_stable_hours_sort_is_unique(
    a: Seq<GameHoursView>,
    b: Seq<GameHoursView>,
    input: Seq<GameHoursView>,
)
    requires
        is_stable_hours_sort(a, input),
        is_stable_hours_sort(b, input),
    ensures
        a == b,
{
    assert forall|k: u32| #[trigger] with_hours(a, k) == with_hours(b, k) by {
        assert(with_hours(a, k) == with_hours(input, k));
        assert(with_hours(b, k) == with_hours(input, k));
    }
    lemma_sorted_same_groups_equal(a, b);
}

/// The session-to-Steam ratio never exceeds one and has a positive whole;
/// the Steam-minus-session gap never exceeds the Steam hours.
pub proof fn law_session_ratio_at_most_one(steam: Option<u32>, session: Option<u128>)
    ensures
        session_ratio_spec(steam, session) matches Some(r) ==> r.part <= r.whole && r.whole > 0,
        gap_spec(steam, session) matches Some(g) ==> g <= steam->0,
{
}

proof fn lemma_other_games_counted(games: Seq<OwnedGame>, pred: spec_fn(OwnedGame) -> bool)
    requires
        forall|g: OwnedGame| #[trigger] pred(g) == (g.appid != 252490 && g.playtime_forever > 0),
    ensures
        other_games_in_order(games).len() == games.filter(pred).len(),
        forall|i: int|
            0 <= i < games.len() && games[i].appid != 252490 && games[i].playtime_forever > 0
                ==> other_games_in_order(games).contains(other_game_view(#[trigger] games[i])),
    decreases games.len(),
{
    if games.len() == 0 {
        reveal(Seq::filter);
    } else {
        let front = games.drop_last();
        lemma_other_games_counted(front, pred);
        let rest = other_games_in_order(front);
        assert(pred(games.last()) == is_other_game(games.last()));
        assert(front.push(games.last()) =~= games);
        front.lemma_filter_push(games.last(), pred);
        if pred(games.last()) {
            assert(games.filter(pred) == front.filter(pred).push(games.last()));
        } else {
            assert(games.filter(pred) == front.filter(pred));
        }
        assert forall|i: int|
            0 <= i < games.len() && games[i].appid != 252490 && games[i].playtime_forever > 0
                implies other_games_in_order(games).contains(other_game_view(#[trigger] games[i])) by {
            if i < front.len() {
                assert(front[i] == games[i]);
                let j = choose|j: int| 0 <= j < rest.len() && rest[j] == other_game_view(front[i]);
                if is_other_game(games.last()) {
                    assert(other_games_in_order(games)[j] == rest[j]);
                }
            } else {
                assert(games[i] == games.last());
                let out = other_games_in_order(games);
                assert(out[out.len() - 1] == other_game_view(games[i]));
            }
        }
    }
}

proof fn lemma_with_hours_contains(s: Seq<GameHoursView>, k: u32, x: GameHoursView)
    ensures
        with_hours(s, k).to_multiset().count(x) == if x.hours_tenths == k {
            s.to_multiset().count(x)
        } else {
            0
        },
    decreases s.len(),
{
    broadcast use vstd::seq_lib::group_seq_properties;
    if s.len() == 0 {
        assert(with_hours(s, k) =~= Seq::<GameHoursView>::empty());
    } else {
        let front = s.drop_last();
        lemma_with_hours_contains(front, k, x);
        assert(front.push(s.last()) =~= s);
        let w = with_hours(front, k);
        front.to_multiset_ensures();
        w.to_multiset_ensures();
    }
}

/// Every played game other than Rust is listed, each once: a stable sort
/// by hours of the library's other games has one entry per game whose id is
/// not Rust's and whose playtime is positive, and each such game's entry
/// occurs in it.
pub proof fn law_every_played_other_game_listed(games: Seq<OwnedGame>, out: Seq<GameHoursView>)
    requires
        is_stable_hours_sort(out, other_games_in_order(games)),
    ensures
        out.len() == games.filter(|g: OwnedGame| g.appid != 252490 && g.playtime_forever > 0).len(),
        forall|i: int|
            0 <= i < games.len() && games[i].appid != 252490 && games[i].playtime_forever > 0
                ==> out.contains(other_game_view(#[trigger] games[i])),
{
    broadcast use vstd::seq_lib::group_seq_properties;
    let input = other_games_in_order(games);
    lemma_other_games_counted(games, |g: OwnedGame| g.appid != 252490 && g.playtime_forever > 0);
    assert forall|x: GameHoursView| out.to_multiset().count(x) == input.to_multiset().count(x) by {
        lemma_with_hours_contains(out, x.hours_tenths, x);
        lemma_with_hours_contains(input, x.hours_tenths, x);
        assert(with_hours(out, x.hours_tenths) == with_hours(input, x.hours_tenths));
    }
    assert(out.to_multiset() =~= input.to_multiset());
    out.to_multiset_ensures();
    input.to_multiset_ensures();
    assert forall|i: int|
        0 <= i < games.len() && games[i].appid != 252490 && games[i].playtime_forever > 0
            implies out.contains(other_game_view(#[trigger] games[i])) by {
        assert(input.contains(other_game_view(games[i])));
        assert(input.to_multiset().count(other_game_view(games[i])) > 0);
    }
}

/// The VAC bans shown are the count Steam reports; the VAC-banned flag only
/// raises a count of zero to one.
pub proof fn law_vac_flag_raises_only_zero(
    r: SteamLookupResult,
    bm: BattleMetricsLookup,
    player: SteamPlayer,
    rec: PlayerBanRecord,
    owned: OwnedGamesBody,
)
    requires
        lookup_matches(r, bm, player, rec, owned),
    ensures
        rec.number_of_vac_bans >= 1 ==> r.profile.ban_context.vac_bans == rec.number_of_vac_bans,
        rec.number_of_vac_bans == 0 && rec.vac_banned ==> r.profile.ban_context.vac_bans == 1,
        rec.number_of_vac_bans == 0 && !rec.vac_banned ==> r.profile.ban_context.vac_bans == 0,
{
}

fn game_hours_of(g: &OwnedGame) -> (h: GameHours)
    ensures
        h@ == other_game_view(*g),
{
    let name = if g.name.as_str().is_empty() {
        let mut label = String::from_str("App ");
        push_decimal(&mut label, g.appid as u128);
        label
    } else {
        g.name.clone()
    };
    GameHours { app_id: g.appid, name, hours_tenths: minutes_to_tenth_hours(g.playtime_forever) }
}

/// The played games other than Rust, most hours first, ties kept in
/// library order.
pub fn top_other_games(games: &Vec<OwnedGame>) -> (out: Vec<GameHours>)
    ensures
        is_stable_hours_sort(games_view(out@), other_games_in_order(games@)),
{
    let mut out: Vec<GameHours> = Vec::new();
    let n = games.len();
    let mut i: usize = 0;
    assert(games@.take(0) =~= Seq::<OwnedGame>::empty());
    assert(games_view(out@) =~= Seq::<GameHoursView>::empty());
    while i < n
        invariant
            n == games@.len(),
            i <= n,
            is_stable_hours_sort(games_view(out@), other_games_in_order(games@.take(i as int))),
        decreases n - i,
    {
        let g = &games[i];
        assert(games@.take(i + 1).drop_last() =~= games@.take(i as int));
        if g.appid != RUST_APP_ID && g.playtime_forever > 0 {
            let h = game_hours_of(g);
            let ghost before = games_view(out@);
            let mut p: usize = 0;
            while p < out.len() && out[p].hours_tenths >= h.hours_tenths
                invariant
                    before == games_view(out@),
                    sorted_by_hours_desc(before),
                    p <= out@.len(),
                    forall|j: int| 0 <= j < p ==> #[trigger] before[j].hours_tenths >= h.hours_tenths,
                decreases out@.len() - p,
            {
                p = p + 1;
            }
            assert forall|j: int| p <= j < before.len() implies #[trigger] before[j].hours_tenths
                < h.hours_tenths by {
                assert(before[p as int].hours_tenths < h.hours_tenths);
                if j > p {
                    assert(before[p as int].hours_tenths >= before[j].hours_tenths);
                }
            }
            proof {
                lemma_insert_keeps_stable_sort(
                    before,
                    other_games_in_order(games@.take(i as int)),
                    h@,
                    p as int,
                );
            }
            out.insert(p, h);
            assert(games_view(out@) =~= before.insert(p as int, h@));
        }
        i = i + 1;
    }
    assert(games@.take(n as int) =~= games@);
    out
}

// ---------------------------------------------------------------------
// Library totals

proof fn lemma_total_minutes_prefix(games: Seq<OwnedGame>, i: int)
    requires
        0 <= i <= games.len(),
    ensures
        0 <= total_minutes(games.take(i)) <= total_minutes(games),
    decreases games.len() - i,
{
    if i < games.len() {
        lemma_total_minutes_prefix(games, i + 1);
        assert(games.take(i + 1).drop_last() =~= games.take(i));
    } else {
        assert(games.take(i) =~= games);
    }
    lemma_total_minutes_nonneg(games.take(i));
}

proof fn lemma_total_minutes_nonneg(games: Seq<OwnedGame>)
    ensures
        total_minutes(games) >= 0,
    decreases games.len(),
{
    if games.len() > 0 {
        lemma_total_minutes_nonneg(games.drop_last());
    }
}

/// The playtime of all games, in minutes.
fn sum_minutes(games: &Vec<OwnedGame>) -> (total: u32)
    requires
        total_minutes(games@) <= u32::MAX,
    ensures
        total == total_minutes(games@),
{
    let n = games.len();
    let mut total: u32 = 0;
    let mut i: usize = 0;
    assert(games@.take(0) =~= Seq::<OwnedGame>::empty());
    while i < n
        invariant
            n == games@.len(),
            i <= n,
            total_minutes(games@) <= u32::MAX,
            total == total_minutes(games@.take(i as int)),
        decreases n - i,
    {
        assert(games@.take(i + 1).drop_last() =~= games@.take(i as int));
        proof {
            lemma_total_minutes_prefix(games@, i + 1);
        }
        total = total + games[i].playtime_forever;
        i = i + 1;
    }
    assert(games@.take(n as int) =~= games@);
    total
}

/// The playtime of the first game with id `app`.
fn find_app_minutes(games: &Vec<OwnedGame>, app: u32) -> (m: Option<u32>)
    ensures
        m == app_minutes(games@, app),
{
    let n = games.len();
    let mut i: usize = 0;
    assert(games@.skip(0) =~= games@);
    while i < n
        invariant
            n == games@.len(),
            i <= n,
            app_minutes(games@, app) == app_minutes(games@.skip(i as int), app),
        decreases n - i,
    {
        assert(games@.skip(i as int)[0] == games@[i as int]);
        if games[i].appid == app {
            return Some(games[i].playtime_forever);
        }
        assert(games@.skip(i as int).drop_first() =~= games@.skip(i + 1));
        i = i + 1;
    }
    assert(games@.skip(n as int) =~= Seq::<OwnedGame>::empty());
    None
}

// ---------------------------------------------------------------------
// The lookup result

/// The outcome of a lookup: the account snapshot and its decision tree.
#[derive(Clone, Debug)]
pub struct SteamLookupResult {
    pub profile: ProfileSnapshot,
    pub decision: DecisionTree,
}

/// The number of VAC bans shown: the count Steam reports, and at least one
/// where the account is flagged VAC-banned.
pub open spec fn vac_ban_count(rec: PlayerBanRecord) -> int {
    let flagged: int = if rec.vac_banned { 1 } else { 0 };
    if rec.number_of_vac_bans >= flagged {
        rec.number_of_vac_bans as int
    } else {
        flagged
    }
}

/// What a ban record must satisfy for its totals and weights to be computed.
pub open spec fn ban_record_in_range(rec: PlayerBanRecord) -> bool {
    vac_ban_count(rec) + rec.number_of_game_bans <= u32::MAX
}

/// The ban context shown for a ban record.
pub open spec fn ban_context_matches(bc: BanContext, rec: PlayerBanRecord) -> bool {
    let total = vac_ban_count(rec) + rec.number_of_game_bans;
    &&& bc.vac_bans == vac_ban_count(rec)
    &&& bc.game_bans == rec.number_of_game_bans
    &&& bc.days_since_last_ban == (if total > 0 {
        Some(rec.days_since_last_ban)
    } else {
        None
    })
    &&& bc.economy_ban@ == rec.economy_ban@
    &&& bc.community_banned == rec.community_banned
}

/// Minutes of the first game with id `app`, as tenths of an hour.
pub open spec fn app_tenths(games: Seq<OwnedGame>, app: u32) -> Option<u32> {
    match app_minutes(games, app) {
        Some(m) => Some(tenths_of_minutes(m as int) as u32),
        None => None,
    }
}

/// Shown only where the library is visible.
pub open spec fn when_visible<T>(visible: bool, value: T) -> Option<T> {
    if visible {
        Some(value)
    } else {
        None
    }
}

/// The notes on missing playtime evidence.
pub open spec fn notes_spec(visible: bool, bm: BattleMetricsLookup) -> Seq<Seq<char>> {
    if !visible {
        seq![
            "Owned games are not visible from this profile or your key lacks access to that data."@,
            "Steam-recorded Rust hours cannot be compared because the owned-games response is unavailable."@,
        ]
    } else if bm.session_hours_tenths is None {
        seq![
            "No tracked BattleMetrics session hours were returned for this lookup ("@ + bm.status@
                + ")."@,
        ]
    } else {
        Seq::empty()
    }
}

/// Steam hours minus session hours, not below zero.
pub open spec fn gap_spec(steam: Option<u32>, session: Option<u128>) -> Option<u32> {
    match (steam, session) {
        (Some(s), Some(t)) => Some(if s as int > t as int { (s - t) as u32 } else { 0u32 }),
        _ => None,
    }
}

/// Session hours over Steam hours, clamped to at most one.
pub open spec fn session_ratio_spec(steam: Option<u32>, session: Option<u128>) -> Option<Ratio> {
    match (steam, session) {
        (Some(s), Some(t)) => if s > 0 {
            Some(Ratio { part: if t as int <= s as int { t as u32 } else { s }, whole: s })
        } else {
            None
        },
        _ => None,
    }
}

/// The playtime context of a library and BattleMetrics lookup.
pub open spec fn playtime_matches(
    pc: PlaytimeContext,
    bm: BattleMetricsLookup,
    owned: OwnedGamesBody,
) -> bool {
    let games = owned.games@;
    let visible = games.len() > 0;
    let total = total_minutes(games);
    let rust_minutes = app_minutes(games, RUST_APP_ID);
    let rust = app_tenths(games, RUST_APP_ID);
    let rust_played: int = match rust_minutes {
        Some(m) => m as int,
        None => 0,
    };
    &&& pc.owned_games_visible == visible
    &&& pc.total_games == when_visible(visible, owned.game_count)
    &&& pc.rust_hours_tenths == rust
    &&& pc.crosshair_x_hours_tenths == app_tenths(games, CROSSHAIR_X_APP_ID)
    &&& pc.total_hours_tenths == when_visible(visible, tenths_of_minutes(total) as u32)
    &&& pc.non_rust_hours_tenths == when_visible(
        visible,
        tenths_of_minutes(if total > rust_played { total - rust_played } else { 0 }) as u32,
    )
    &&& pc.concentration_ratio == (if visible && total > 0 {
        match rust_minutes {
            Some(m) => Some(Ratio { part: m, whole: total as u32 }),
            None => None,
        }
    } else {
        None
    })
    &&& pc.battlemetrics_session_hours_tenths == bm.session_hours_tenths
    &&& pc.battlemetrics_status@ == bm.status@
    &&& pc.battlemetrics_post_ban_hours_tenths == bm.post_ban_hours_tenths
    &&& pc.battlemetrics_session_history_status@ == bm.session_history_status@
    &&& pc.battlemetrics_recent_session_count == bm.recent_session_count
    &&& pc.steam_minus_session_hours_tenths == gap_spec(rust, bm.session_hours_tenths)
    &&& pc.session_to_steam_ratio == session_ratio_spec(rust, bm.session_hours_tenths)
    &&& strings_view(pc.notes@) == notes_spec(visible, bm)
    &&& is_stable_hours_sort(games_view(pc.top_other_games@), other_games_in_order(games))
}

/// The lookup result of a BattleMetrics lookup, player, ban record and library.
pub open spec fn lookup_matches(
    r: SteamLookupResult,
    bm: BattleMetricsLookup,
    player: SteamPlayer,
    rec: PlayerBanRecord,
    owned: OwnedGamesBody,
) -> bool {
    &&& r.profile.steam_id@ == player.steamid@
    &&& r.profile.persona_name@ == player.personaname@
    &&& r.profile.profile_url@ == player.profileurl@
    &&& r.profile.avatar_url@ == player.avatarfull@
    &&& r.profile.community_visibility_state == player.communityvisibilitystate
    &&& ban_context_matches(r.profile.ban_context, rec)
    &&& playtime_matches(r.profile.playtime_context, bm, owned)
    &&& r.decision@ == decision_tree_spec(r.profile.ban_context, r.profile.playtime_context)
}

fn notes_for(visible: bool, bm: &BattleMetricsLookup) -> (notes: Vec<String>)
    ensures
        strings_view(notes@) == notes_spec(visible, *bm),
{
    let mut notes: Vec<String> = Vec::new();
    if !visible {
        notes.push(
            String::from_str(
                "Owned games are not visible from this profile or your key lacks access to that data.",
            ),
        );
        notes.push(
            String::from_str(
                "Steam-recorded Rust hours cannot be compared because the owned-games response is unavailable.",
            ),
        );
    } else if bm.session_hours_tenths.is_none() {
        let mut note = String::from_str(
            "No tracked BattleMetrics session hours were returned for this lookup (",
        );
        note.append(bm.status.as_str());
        note.append(").");
        notes.push(note);
    }
    assert(strings_view(notes@) =~= notes_spec(visible, *bm));
    notes
}

/// Summarises the visible library, the ban record and the BattleMetrics
/// lookup into a profile snapshot, and decides on it.
pub fn build_lookup_result(
    battlemetrics_lookup: BattleMetricsLookup,
    player: SteamPlayer,
    ban_record: PlayerBanRecord,
    owned_games: OwnedGamesBody,
) -> (r: SteamLookupResult)
    requires
        total_minutes(owned_games.games@) <= u32::MAX,
        ban_record_in_range(ban_record),
    ensures
        lookup_matches(r, battlemetrics_lookup, player, ban_record, owned_games),
{
    let owned_games_visible = !owned_games.games.is_empty();
    let rust_minutes = find_app_minutes(&owned_games.games, RUST_APP_ID);
    let rust_hours: Option<u32> = match rust_minutes {
        Some(m) => Some(minutes_to_tenth_hours(m)),
        None => None,
    };
    let crosshair_x_hours: Option<u32> = match find_app_minutes(
        &owned_games.games,
        CROSSHAIR_X_APP_ID,
    ) {
        Some(m) => Some(minutes_to_tenth_hours(m)),
        None => None,
    };
    let total_minutes = sum_minutes(&owned_games.games);
    let total_hours = if owned_games_visible {
        Some(minutes_to_tenth_hours(total_minutes))
    } else {
        None
    };
    let top_other_games = top_other_games(&owned_games.games);
    let rust_played: u32 = match rust_minutes {
        Some(m) => m,
        None => 0,
    };
    let non_rust_minutes: u32 = if total_minutes > rust_played {
        total_minutes - rust_played
    } else {
        0
    };
    let non_rust_hours = if owned_games_visible {
        Some(minutes_to_tenth_hours(non_rust_minutes))
    } else {
        None
    };
    let concentration_ratio = if owned_games_visible && total_minutes > 0 {
        match rust_minutes {
            Some(m) => Some(Ratio { part: m, whole: total_minutes }),
            None => None,
        }
    } else {
        None
    };
    let session_hours = battlemetrics_lookup.session_hours_tenths;
    let steam_minus_session_hours: Option<u32> = match (rust_hours, session_hours) {
        (Some(steam), Some(session)) => Some(
            if steam as u128 > session {
                (steam as u128 - session) as u32
            } else {
                0
            },
        ),
        _ => None,
    };
    let session_to_steam_ratio: Option<Ratio> = match (rust_hours, session_hours) {
        (Some(steam), Some(session)) => if steam > 0 {
            Some(
                Ratio {
                    part: if session <= steam as u128 {
                        session as u32
                    } else {
                        steam
                    },
                    whole: steam,
                },
            )
        } else {
            None
        },
        _ => None,
    };
    let notes = notes_for(owned_games_visible, &battlemetrics_lookup);

    let vac_bans: u32 = if ban_record.number_of_vac_bans >= (if ban_record.vac_banned {
        1
    } else {
        0
    }) {
        ban_record.number_of_vac_bans
    } else {
        1
    };
    let game_bans = ban_record.number_of_game_bans;
    let total_bans: u32 = vac_bans + game_bans;

    let profile = ProfileSnapshot {
        steam_id: player.steamid,
        persona_name: player.personaname,
        profile_url: player.profileurl,
        avatar_url: player.avatarfull,
        community_visibility_state: player.communityvisibilitystate,
        ban_context: BanContext {
            vac_bans,
            game_bans,
            days_since_last_ban: if total_bans > 0 {
                Some(ban_record.days_since_last_ban)
            } else {
                None
            },
            economy_ban: ban_record.economy_ban,
            community_banned: ban_record.community_banned,
        },
        playtime_context: PlaytimeContext {
            owned_games_visible,
            total_games: if owned_games_visible {
                Some(owned_games.game_count)
            } else {
                None
            },
            rust_hours_tenths: rust_hours,
            crosshair_x_hours_tenths: crosshair_x_hours,
            total_hours_tenths: total_hours,
            non_rust_hours_tenths: non_rust_hours,
            concentration_ratio,
            battlemetrics_session_hours_tenths: session_hours,
            battlemetrics_status: battlemetrics_lookup.status,
            battlemetrics_post_ban_hours_tenths: battlemetrics_lookup.post_ban_hours_tenths,
            battlemetrics_session_history_status: battlemetrics_lookup.session_history_status,
            battlemetrics_recent_session_count: battlemetrics_lookup.recent_session_count,
            steam_minus_session_hours_tenths: steam_minus_session_hours,
            session_to_steam_ratio,
            notes,
            top_other_games,
        },
    };
    let decision = build_decision_tree(&profile);
    SteamLookupResult { profile, decision }
}

} // verus!
