//! The rules of the SQLite-backed cache and recommendation ledger.
//!
//! The database itself is opened and queried by the caller; these functions
//! decide freshness, eviction, query shape, and how ledger rows read back.
use vstd::prelude::*;

use crate::text::{decimal, owned, push_decimal};
use crate::types::LeagueId;

verus! {

/// A recommendation stored in the ledger.
#[derive(Debug)]
pub struct Recommendation {
    pub id: i64,
    pub agent_id: String,
    pub league_id: LeagueId,
    pub recommendation_type: String,
    pub players: String,
    pub reasoning: String,
    pub created_at: String,
    pub outcome: Option<String>,
    pub outcome_date: Option<String>,
}

/// The ledger query for a league, with or without an agent filter; the
/// newest entries come first.
pub open spec fn ledger_query_text(by_agent: bool) -> Seq<char> {
    if by_agent {
        "SELECT id, agent_id, league_id, recommendation_type, players, reasoning, created_at, outcome, outcome_date FROM recommendation_ledger WHERE league_id = ?1 AND agent_id = ?2 ORDER BY created_at DESC"@
    } else {
        "SELECT id, agent_id, league_id, recommendation_type, players, reasoning, created_at, outcome, outcome_date FROM recommendation_ledger WHERE league_id = ?1 ORDER BY created_at DESC"@
    }
}

/// The SQL that reads a league's ledger, filtered by agent when one is given.
pub fn ledger_query(by_agent: bool) -> (r: &'static str)
    ensures
        r@ == ledger_query_text(by_agent),
{
    if by_agent {
        "SELECT id, agent_id, league_id, recommendation_type, players, reasoning, created_at, outcome, outcome_date FROM recommendation_ledger WHERE league_id = ?1 AND agent_id = ?2 ORDER BY created_at DESC"
    } else {
        "SELECT id, agent_id, league_id, recommendation_type, players, reasoning, created_at, outcome, outcome_date FROM recommendation_ledger WHERE league_id = ?1 ORDER BY created_at DESC"
    }
}

/// A cache entry fetched `age_seconds` ago with a TTL of `ttl_seconds` is
/// still served: its age is not negative (clock skew counts as stale) and
/// does not exceed the TTL.
pub fn cache_entry_fresh(age_seconds: i64, ttl_seconds: i64) -> (r: bool)
    ensures
        r == (0 <= age_seconds && age_seconds <= ttl_seconds),
{
    if age_seconds < 0 {
        return false;
    }
    if age_seconds > ttl_seconds {
        return false;
    }
    true
}

/// Expired entries are swept on every hundredth cache write: when the write
/// counter's value before the increment is a multiple of 100.
pub fn should_evict(write_count: u64) -> (r: bool)
    ensures
        r == (write_count % 100 == 0),
{
    write_count % 100 == 0
}

/// An outcome update succeeded exactly when it touched a row; otherwise the
/// recommendation ID does not exist.
pub fn outcome_recorded(rows_affected: usize) -> (r: bool)
    ensures
        r == (rows_affected > 0),
{
    rows_affected > 0
}

/// The outcome text of a ledger entry, "pending" while none is recorded.
pub open spec fn outcome_text(o: Option<String>) -> Seq<char> {
    match o {
        Some(s) => s@,
        None => "pending"@,
    }
}

/// "[type] players by agent — reasoning (outcome)".
pub open spec fn hot_take_line(r: Recommendation) -> Seq<char> {
    "["@ + r.recommendation_type@ + "] "@ + r.players@ + " by "@ + r.agent_id@ + " — "@
        + r.reasoning@ + " ("@ + outcome_text(r.outcome) + ")"@
}

/// One line per entry, for the ten most recent entries (the ledger lists
/// newest first), or a single note when the ledger is empty.
pub open spec fn hot_take_lines(recs: Seq<Recommendation>) -> Seq<Seq<char>> {
    if recs.len() == 0 {
        seq!["No recent recommendations in the ledger."@]
    } else {
        let recent = if recs.len() > 10 {
            recs.take(10)
        } else {
            recs
        };
        recent.map_values(|r: Recommendation| hot_take_line(r))
    }
}

/// Surface recent recommendation ledger entries and their outcomes.
///
/// `recs` is the league's ledger, newest first.
pub fn hot_takes(recs: &Vec<Recommendation>) -> (r: Vec<String>)
    ensures
        r.deep_view() == hot_take_lines(recs@),
{
    let n: usize = if recs.len() > 10 {
        10
    } else {
        recs.len()
    };
    let mut takes: Vec<String> = Vec::new();
    let mut i: usize = 0;
    while i < n
        invariant
            i <= n,
            n <= recs@.len(),
            n == (if recs@.len() > 10 {
                10
            } else {
                recs@.len()
            }),
            takes.deep_view() == recs@.take(i as int).map_values(
                |r: Recommendation| hot_take_line(r),
            ),
        decreases n - i,
    {
        let rec = &recs[i];
        let mut s = owned("[");
        s.append(rec.recommendation_type.as_str());
        s.append("] ");
        s.append(rec.players.as_str());
        s.append(" by ");
        s.append(rec.agent_id.as_str());
        s.append(" — ");
        s.append(rec.reasoning.as_str());
        s.append(" (");
        match &rec.outcome {
            Some(o) => s.append(o.as_str()),
            None => s.append("pending"),
        }
        s.append(")");
        assert(s@ =~= hot_take_line(recs@[i as int]));
        let ghost before = takes.deep_view();
        takes.push(s);
        assert(takes.deep_view() =~= before.push(hot_take_line(recs@[i as int])));
        assert(recs@.take(i + 1) =~= recs@.take(i as int).push(recs@[i as int]));
        assert(takes.deep_view() =~= recs@.take(i + 1).map_values(
            |r: Recommendation| hot_take_line(r),
        ));
        i = i + 1;
    }
    if takes.len() == 0 {
        takes.push(owned("No recent recommendations in the ledger."));
        assert(takes.deep_view() =~= hot_take_lines(recs@));
        return takes;
    }
    assert(recs@.len() <= 10 ==> recs@.take(n as int) =~= recs@);
    assert(takes.deep_view() =~= hot_take_lines(recs@));
    takes
}

// ─── Cache keys and lifetimes ──────────────────────────────────────────────

/// Schedules are cached for 6 hours.
pub const SCHEDULE_TTL: i64 = 21600;

/// Player records are cached for 7 days.
pub const PLAYER_TTL: i64 = 604800;

/// Final box scores are cached for a year (they no longer change).
pub const BOXSCORE_FINAL_TTL: i64 = 31536000;

/// Box scores of games in progress are cached for 5 minutes.
pub const BOXSCORE_LIVE_TTL: i64 = 300;

/// Projections are cached for 24 hours unless configured otherwise.
pub const PROJECTIONS_TTL: i64 = 86400;

/// How long a box score stays cached: a year once the game is final, five
/// minutes while it is live or not started.
pub fn boxscore_ttl(is_final: bool) -> (r: i64)
    ensures
        r == (if is_final {
            BOXSCORE_FINAL_TTL
        } else {
            BOXSCORE_LIVE_TTL
        }),
{
    if is_final {
        BOXSCORE_FINAL_TTL
    } else {
        BOXSCORE_LIVE_TTL
    }
}

/// The cache key of a day's schedule ("YYYY-MM-DD").
pub fn schedule_cache_key(date: &str) -> (r: String)
    ensures
        r@ == "mlb:schedule:"@ + date@,
{
    let mut s = owned("mlb:schedule:");
    s.append(date);
    s
}

/// The cache key of a player record.
pub fn player_cache_key(player_id: u64) -> (r: String)
    ensures
        r@ == "mlb:player:"@ + decimal(player_id as nat),
{
    let mut s = owned("mlb:player:");
    push_decimal(&mut s, player_id);
    s
}

/// The cache key of a game's box score.
pub fn boxscore_cache_key(game_pk: u64) -> (r: String)
    ensures
        r@ == "mlb:boxscore:"@ + decimal(game_pk as nat),
{
    let mut s = owned("mlb:boxscore:");
    push_decimal(&mut s, game_pk);
    s
}

/// The cache key of a projection list for a source.
pub fn projections_cache_key(batters: bool, source: &str) -> (r: String)
    ensures
        r@ == (if batters {
            "mlb:proj:bat:"@
        } else {
            "mlb:proj:pit:"@
        }) + source@,
{
    let mut s = if batters {
        owned("mlb:proj:bat:")
    } else {
        owned("mlb:proj:pit:")
    };
    s.append(source);
    s
}

// ─── Laws ──────────────────────────────────────────────────────────────────

/// Expired entries are swept on one write in a hundred: among any hundred
/// consecutive values of the write counter, exactly one triggers a sweep.
pub proof fn law_one_sweep_per_hundred_writes(start: u64)
    requires
        start + 100 <= u64::MAX,
    ensures
        exists|k: u64| start <= k < start + 100 && #[trigger] (k % 100) == 0,
        forall|a: u64, b: u64|
            start <= a < start + 100 && start <= b < start + 100 && #[trigger] (a % 100) == 0
                && #[trigger] (b % 100) == 0 ==> a == b,
{
    let k: u64 = (start + (100 - start % 100) % 100) as u64;
    assert(start <= k < start + 100 && k % 100 == 0);
}

/// The hot-takes layer always says something and never more than ten
/// things.
pub proof fn law_hot_takes_bounded(recs: Seq<Recommendation>)
    ensures
        1 <= hot_take_lines(recs).len() <= 10,
{
}

} // verus!
