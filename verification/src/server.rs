//! MCP tool arguments and the decisions the tool handlers make.
//!
//! The handlers themselves (network calls, JSON responses) run in the
//! server binary; the choices they make between those calls are here.
use vstd::prelude::*;

use crate::analysis::{lineup, optimize_lineup, StartSitRecommendation};
use crate::briefing::{
    find_batter_line, find_pitcher_line, first_batter, first_pitcher, batters_of_box, mlb_id_of,
    pitchers_of_box, resolve_mlb_id,
};
use crate::fantrax::RosterPlayer;
use crate::config::LeagueConfig;
use crate::mlb::{BatterLine, Boxscore, PitcherLine};
use crate::text::{
    ascii_lower_text, contains, has_infix, is_ascii_text, join_with, owned, text_eq, to_lower,
    unicode_lower,
};
use crate::types::{LeagueId, PlayerId, TeamId};

verus! {

// ─── Tool argument structs ──────────────────────────────────────────────────

/// Arguments of a tool that takes none.
#[derive(Debug)]
pub struct NoArgs {}

#[derive(Debug)]
pub struct LeagueIdArgs {
    /// The Fantrax league ID.
    pub league_id: LeagueId,
}

#[derive(Debug)]
pub struct RosterArgs {
    /// The Fantrax league ID.
    pub league_id: LeagueId,
    /// The scoring period (e.g. "1", "2", or "current").
    pub period: String,
}

#[derive(Debug)]
pub struct PlayerIdsArgs {
    /// The sport code (e.g. "MLB", "NFL", "NBA"); "MLB" when omitted.
    pub sport: String,
}

/// Valid recommendation types for the ledger.
#[derive(Debug, Clone, Copy, PartialEq, Eq, Structural)]
pub enum RecommendationType {
    Pickup,
    Drop,
    Start,
    Sit,
    Waiver,
}

/// Valid outcome values for a recommendation.
#[derive(Debug, Clone, Copy, PartialEq, Eq, Structural)]
pub enum Outcome {
    Win,
    Loss,
    Neutral,
}

#[derive(Debug)]
pub struct LogRecommendationArgs {
    /// The agent making the recommendation (e.g. "ariadne", "vesper").
    pub agent_id: String,
    /// The Fantrax league ID.
    pub league_id: LeagueId,
    /// Type of recommendation: pickup, drop, start, sit, waiver.
    pub recommendation_type: RecommendationType,
    /// Player IDs involved in this recommendation.
    pub players: Vec<PlayerId>,
    /// The agent's rationale for this recommendation.
    pub reasoning: String,
}

#[derive(Debug)]
pub struct QueryLedgerArgs {
    /// The Fantrax league ID.
    pub league_id: LeagueId,
    /// Optional: filter by agent ID.
    pub agent_id: Option<String>,
}

#[derive(Debug)]
pub struct RecordOutcomeArgs {
    /// The recommendation ID to update.
    pub id: i64,
    /// The outcome: win, loss, or neutral.
    pub outcome: Outcome,
}

#[derive(Debug)]
pub struct ProbableStartersArgs {
    /// Date in YYYY-MM-DD format. Defaults to today if omitted.
    pub date: Option<String>,
}

#[derive(Debug)]
pub struct PlayerSnippetArgs {
    /// The MLB Stats API player ID.
    pub player_id: u64,
    /// Date of the game to pull stats from (YYYY-MM-DD). Defaults to yesterday.
    pub date: Option<String>,
}

#[derive(Debug)]
pub struct OptimizeLineupArgs {
    /// The Fantrax league ID.
    pub league_id: LeagueId,
    /// The scoring period (e.g. "1", "2", or "current").
    pub period: String,
    /// Your team ID within the league.
    pub team_id: TeamId,
    /// Date for the schedule (YYYY-MM-DD). Defaults to today.
    pub date: Option<String>,
    /// Number of lineup slots to fill. If omitted, returns all recommendations.
    pub slots: Option<usize>,
}

#[derive(Debug)]
pub struct BriefingArgs {
    /// The Fantrax league ID. If omitted, briefs all configured leagues.
    pub league_id: Option<LeagueId>,
    /// Your team ID within the league. When omitted with multiple leagues, only
    /// league-level information is included (roster-specific layers are skipped).
    pub team_id: Option<TeamId>,
    /// The scoring period (e.g. "1", "2", or "current"); "current" when omitted.
    pub period: String,
    /// Date for the briefing (YYYY-MM-DD). Defaults to today.
    pub date: Option<String>,
}

/// Player type for projection queries.
#[derive(Debug, Clone, Copy, PartialEq, Eq, Structural)]
pub enum PlayerType {
    Batter,
    Pitcher,
}

#[derive(Debug)]
pub struct GetProjectionsArgs {
    /// Player type: "batter" or "pitcher".
    pub player_type: PlayerType,
    /// Optional player name filter (case-insensitive substring match).
    pub player_name: Option<String>,
}

pub open spec fn recommendation_type_name(t: RecommendationType) -> Seq<char> {
    match t {
        RecommendationType::Pickup => "pickup"@,
        RecommendationType::Drop => "drop"@,
        RecommendationType::Start => "start"@,
        RecommendationType::Sit => "sit"@,
        RecommendationType::Waiver => "waiver"@,
    }
}

pub open spec fn outcome_name(o: Outcome) -> Seq<char> {
    match o {
        Outcome::Win => "win"@,
        Outcome::Loss => "loss"@,
        Outcome::Neutral => "neutral"@,
    }
}

pub open spec fn player_type_name(t: PlayerType) -> Seq<char> {
    match t {
        PlayerType::Batter => "batter"@,
        PlayerType::Pitcher => "pitcher"@,
    }
}

impl RecommendationType {
    /// The lowercase name stored in the ledger.
    pub fn as_str(&self) -> (r: &'static str)
        ensures
            r@ == recommendation_type_name(*self),
    {
        match self {
            RecommendationType::Pickup => "pickup",
            RecommendationType::Drop => "drop",
            RecommendationType::Start => "start",
            RecommendationType::Sit => "sit",
            RecommendationType::Waiver => "waiver",
        }
    }

    /// The display form (same text as `as_str`).
    pub fn to_string(&self) -> (r: String)
        ensures
            r@ == recommendation_type_name(*self),
    {
        owned(self.as_str())
    }
}

impl Outcome {
    /// The lowercase name stored in the ledger.
    pub fn as_str(&self) -> (r: &'static str)
        ensures
            r@ == outcome_name(*self),
    {
        match self {
            Outcome::Win => "win",
            Outcome::Loss => "loss",
            Outcome::Neutral => "neutral",
        }
    }

    /// The display form (same text as `as_str`).
    pub fn to_string(&self) -> (r: String)
        ensures
            r@ == outcome_name(*self),
    {
        owned(self.as_str())
    }
}

impl PlayerType {
    /// Is this the batter type?
    pub fn is_batter(self) -> (r: bool)
        ensures
            r == (self == PlayerType::Batter),
    {
        match self {
            PlayerType::Batter => true,
            PlayerType::Pitcher => false,
        }
    }

    /// The lowercase name used in responses.
    pub fn as_str(&self) -> (r: &'static str)
        ensures
            r@ == player_type_name(*self),
    {
        match self {
            PlayerType::Batter => "batter",
            PlayerType::Pitcher => "pitcher",
        }
    }

    /// The display form (same text as `as_str`).
    pub fn to_string(&self) -> (r: String)
        ensures
            r@ == player_type_name(*self),
    {
        owned(self.as_str())
    }
}

/// The sport used when a player-ID request names none.
pub fn default_sport() -> (r: String)
    ensures
        r@ == "MLB"@,
{
    owned("MLB")
}

/// The scoring period used when a briefing request names none.
pub fn default_period() -> (r: String)
    ensures
        r@ == "current"@,
{
    owned("current")
}

// ─── Cache keys ─────────────────────────────────────────────────────────────

/// League lists, standings, rosters and league info are cached 15 minutes.
pub const LEAGUE_DATA_TTL: i64 = 900;

/// Player ID lists are cached 7 days.
pub const PLAYER_IDS_TTL: i64 = 604800;

/// The cache key of a tool response: `prefix:a` or `prefix:a:b`.
pub fn tool_cache_key(prefix: &str, a: &str, b: Option<&str>) -> (r: String)
    ensures
        r@ == prefix@ + ":"@ + a@ + match b {
            Some(x) => ":"@ + x@,
            None => Seq::empty(),
        },
{
    let mut s = owned(prefix);
    s.append(":");
    s.append(a);
    match b {
        Some(x) => {
            s.append(":");
            s.append(x);
        },
        None => {},
    }
    s
}

// ─── get_briefing ───────────────────────────────────────────────────────────

/// The configured leagues a briefing covers, in configuration order: the one
/// with the requested ID, or all of them when none is requested.
pub open spec fn briefed_leagues(leagues: Seq<LeagueConfig>, wanted: Option<Seq<char>>) -> Seq<
    int,
>
    decreases leagues.len(),
{
    if leagues.len() == 0 {
        Seq::empty()
    } else {
        let rest = briefed_leagues(leagues.drop_last(), wanted);
        let keep = match wanted {
            Some(w) => leagues.last().id@ == w,
            None => true,
        };
        if keep {
            rest.push(leagues.len() - 1)
        } else {
            rest
        }
    }
}

/// The indices of the configured leagues to brief.
pub fn select_leagues(leagues: &Vec<LeagueConfig>, league_id: Option<&LeagueId>) -> (r: Vec<usize>)
    ensures
        r@.map_values(|i: usize| i as int) == briefed_leagues(
            leagues@,
            match league_id {
                Some(id) => Some(id@),
                None => None,
            },
        ),
{
    let ghost wanted = match league_id {
        Some(id) => Some(id@),
        None => None,
    };
    let mut out: Vec<usize> = Vec::new();
    let mut k: usize = 0;
    while k < leagues.len()
        invariant
            k <= leagues@.len(),
            wanted == match league_id {
                Some(id) => Some(id@),
                None => None,
            },
            out@.map_values(|i: usize| i as int) == briefed_leagues(leagues@.take(k as int), wanted),
        decreases leagues@.len() - k,
    {
        assert(leagues@.take(k + 1).drop_last() =~= leagues@.take(k as int));
        assert(leagues@.take(k + 1).last() == leagues@[k as int]);
        let keep = match league_id {
            Some(id) => crate::text::text_eq(leagues[k].id.as_str(), id.as_str()),
            None => true,
        };
        let ghost before = out@;
        if keep {
            out.push(k);
            assert(out@.map_values(|i: usize| i as int) =~= before.map_values(|i: usize| i as int).push(
                k as int,
            ));
        }
        k = k + 1;
    }
    assert(leagues@.take(k as int) =~= leagues@);
    out
}

/// The error for a briefing request that matches no configured league.
pub open spec fn no_league_message(leagues: Seq<LeagueConfig>) -> Seq<char> {
    "no matching league found (configured: "@ + join_with(
        leagues.map_values(|l: LeagueConfig| l.id@),
        ", "@,
    ) + ")"@
}

/// The error for a briefing request that matches no configured league,
/// listing the configured league IDs.
pub fn no_matching_league_message(leagues: &Vec<LeagueConfig>) -> (r: String)
    ensures
        r@ == no_league_message(leagues@),
{
    let mut ids: Vec<String> = Vec::new();
    let mut k: usize = 0;
    while k < leagues.len()
        invariant
            k <= leagues@.len(),
            ids.deep_view() == leagues@.take(k as int).map_values(|l: LeagueConfig| l.id@),
        decreases leagues@.len() - k,
    {
        let ghost before = ids.deep_view();
        ids.push(leagues[k].id.clone());
        assert(ids.deep_view() =~= before.push(leagues@[k as int].id@));
        assert(leagues@.take(k + 1) =~= leagues@.take(k as int).push(leagues@[k as int]));
        assert(ids.deep_view() =~= leagues@.take(k + 1).map_values(|l: LeagueConfig| l.id@));
        k = k + 1;
    }
    assert(leagues@.take(k as int) =~= leagues@);
    let mut s = owned("no matching league found (configured: ");
    let joined = crate::text::join_strings(&ids, ", ");
    s.append(joined.as_str());
    s.append(")");
    s
}

// ─── get_player_snippet ─────────────────────────────────────────────────────

/// A player's line in one game.
#[derive(Debug)]
pub enum GameLine {
    Batting(BatterLine),
    Pitching(PitcherLine),
}

/// The player's batting line in the box score if there is one, else the
/// pitching line.
pub open spec fn game_line_of(b: Boxscore, pid: u64) -> Option<GameLine> {
    match first_batter(batters_of_box(b), pid) {
        Some(l) => Some(GameLine::Batting(l)),
        None => match first_pitcher(pitchers_of_box(b), pid) {
            Some(l) => Some(GameLine::Pitching(l)),
            None => None,
        },
    }
}

/// The player's line in a box score: batting lines are searched first.
pub fn find_game_line(boxscore: &Boxscore, player_id: u64) -> (r: Option<GameLine>)
    ensures
        r == game_line_of(*boxscore, player_id),
{
    match find_batter_line(boxscore, player_id) {
        Some(l) => Some(GameLine::Batting(l)),
        None => match find_pitcher_line(boxscore, player_id) {
            Some(l) => Some(GameLine::Pitching(l)),
            None => None,
        },
    }
}

/// "Away @ Home".
pub fn game_label(boxscore: &Boxscore) -> (r: String)
    ensures
        r@ == boxscore.away_team_name@ + " @ "@ + boxscore.home_team_name@,
{
    let mut s = boxscore.away_team_name.clone();
    s.append(" @ ");
    s.append(boxscore.home_team_name.as_str());
    s
}

/// Is this the schedule status of a completed game?
pub fn is_final_status(status: &str) -> (r: bool)
    ensures
        r == (status@ == "Final"@),
{
    text_eq(status, "Final")
}

/// The reply note for a player who appeared in no game on the date.
pub fn no_game_message(player_name: &str, date: &str) -> (r: String)
    ensures
        r@ == player_name@ + " did not appear in any game on "@ + date@,
{
    let mut s = owned(player_name);
    s.append(" did not appear in any game on ");
    s.append(date);
    s
}

// ─── get_probable_starters ──────────────────────────────────────────────────

/// The throwing hand reported for a probable starter: the hand the schedule
/// gives, else the one a player lookup returned (`None` when the lookup
/// failed or was not made), else "Unknown".
pub fn starter_throws(known: &Option<String>, looked_up: Option<String>) -> (r: String)
    ensures
        r@ == match known {
            Some(h) => h@,
            None => match looked_up {
                Some(h) => h@,
                None => "Unknown"@,
            },
        },
{
    match known {
        Some(h) => h.clone(),
        None => match looked_up {
            Some(h) => h,
            None => owned("Unknown"),
        },
    }
}

// ─── optimize_lineup ────────────────────────────────────────────────────────

/// The roster players that resolve to an MLB person ID, in roster order.
pub open spec fn lineup_resolved(players: Seq<RosterPlayer>) -> Seq<RosterPlayer>
    decreases players.len(),
{
    if players.len() == 0 {
        players
    } else {
        let rest = lineup_resolved(players.drop_last());
        if mlb_id_of(players.last()) is Some {
            rest.push(players.last())
        } else {
            rest
        }
    }
}

/// The roster players that do not resolve to an MLB person ID, in roster
/// order.
pub open spec fn lineup_unresolved(players: Seq<RosterPlayer>) -> Seq<RosterPlayer>
    decreases players.len(),
{
    if players.len() == 0 {
        players
    } else {
        let rest = lineup_unresolved(players.drop_last());
        if mlb_id_of(players.last()) is None {
            rest.push(players.last())
        } else {
            rest
        }
    }
}

/// Splits a roster for the lineup tool the way the briefing resolves
/// players (`resolve_mlb_id`): the players that resolve, each with its MLB
/// person ID, and those that do not, which the tool reports as failed
/// lookups. A Fantrax player ID is never read as an MLB person ID, even when
/// it is all digits: the two are different ID spaces.
pub fn resolve_lineup_players(players: &[RosterPlayer]) -> (r: (Vec<(&RosterPlayer, u64)>, Vec<
    &RosterPlayer,
>))
    ensures
        r.0@.len() == lineup_resolved(players@).len(),
        forall|i: int|
            0 <= i < r.0@.len() ==> *(#[trigger] r.0@[i]).0 == lineup_resolved(players@)[i]
                && mlb_id_of(*r.0@[i].0) == Some(r.0@[i].1),
        r.1@.len() == lineup_unresolved(players@).len(),
        forall|i: int| 0 <= i < r.1@.len() ==> *(#[trigger] r.1@[i]) == lineup_unresolved(players@)[i],
{
    let mut resolved: Vec<(&RosterPlayer, u64)> = Vec::new();
    let mut unresolved: Vec<&RosterPlayer> = Vec::new();
    let mut k: usize = 0;
    while k < players.len()
        invariant
            k <= players@.len(),
            resolved@.len() == lineup_resolved(players@.take(k as int)).len(),
            forall|i: int|
                0 <= i < resolved@.len() ==> *(#[trigger] resolved@[i]).0 == lineup_resolved(
                    players@.take(k as int),
                )[i] && mlb_id_of(*resolved@[i].0) == Some(resolved@[i].1),
            unresolved@.len() == lineup_unresolved(players@.take(k as int)).len(),
            forall|i: int|
                0 <= i < unresolved@.len() ==> *(#[trigger] unresolved@[i]) == lineup_unresolved(
                    players@.take(k as int),
                )[i],
        decreases players@.len() - k,
    {
        assert(players@.take(k + 1).drop_last() =~= players@.take(k as int));
        assert(players@.take(k + 1).last() == players@[k as int]);
        let rp = &players[k];
        match resolve_mlb_id(rp) {
            Some(mlb_id) => resolved.push((rp, mlb_id)),
            None => unresolved.push(rp),
        }
        k = k + 1;
    }
    assert(players@.take(k as int) =~= players@);
    (resolved, unresolved)
}

/// The lineup tool builds no recommendation from a Fantrax player ID: while
/// there is no Fantrax→MLB crosswalk, no roster player resolves, so every
/// player is reported as a failed lookup.
pub proof fn law_lineup_reads_no_fantrax_id(players: Seq<RosterPlayer>)
    ensures
        lineup_resolved(players).len() == 0,
        lineup_unresolved(players) == players,
    decreases players.len(),
{
    if players.len() > 0 {
        law_lineup_reads_no_fantrax_id(players.drop_last());
        assert(players.drop_last().push(players.last()) =~= players);
    }
}

/// The lookup-failure note for a roster player with no MLB person ID. It
/// covers every unresolved player, all-digit Fantrax IDs included, so it
/// does not speak of the ID's form.
pub fn unresolved_id_error() -> (r: &'static str)
    ensures
        r@ == "no MLB ID for this Fantrax player ID (Fantrax→MLB crosswalk pending, see #11)"@,
{
    "no MLB ID for this Fantrax player ID (Fantrax→MLB crosswalk pending, see #11)"
}

/// The lookup-failure note for a failed MLB player lookup.
pub fn lookup_failed_error(err: &str) -> (r: String)
    ensures
        r@ == "MLB lookup failed: "@ + err@,
{
    let mut s = owned("MLB lookup failed: ");
    s.append(err);
    s
}

/// The error for a team missing from the league's rosters in the period.
pub fn team_not_in_period_message(team_id: &TeamId, league_id: &LeagueId, period: &str) -> (r:
    String)
    ensures
        r@ == "team '"@ + team_id@ + "' not found in league '"@ + league_id@ + "' for period '"@
            + period@ + "'"@,
{
    let mut s = owned("team '");
    s.append(team_id.as_str());
    s.append("' not found in league '");
    s.append(league_id.as_str());
    s.append("' for period '");
    s.append(period);
    s.append("'");
    s
}

/// The recommendations the lineup tool reports: ranked and cut to `slots`
/// when a slot count is given, all of them in input order otherwise.
pub fn recommendations_for_slots(recs: Vec<StartSitRecommendation>, slots: Option<usize>) -> (r:
    Vec<StartSitRecommendation>)
    ensures
        r@ == match slots {
            Some(n) => lineup(recs@, n as nat),
            None => recs@,
        },
{
    match slots {
        Some(n) => optimize_lineup(&recs, n),
        None => recs,
    }
}

// ─── get_projections ────────────────────────────────────────────────────────

/// The lowercased name filter, when one is given.
pub fn name_filter(player_name: Option<&str>) -> (r: Option<String>)
    ensures
        match player_name {
            Some(n) => r matches Some(f) && f@ == unicode_lower(n@) && (is_ascii_text(n@) ==> f@
                == ascii_lower_text(n@)),
            None => r is None,
        },
{
    match player_name {
        Some(n) => Some(to_lower(n)),
        None => None,
    }
}

/// Does a projection's player name pass the filter: the lowercased name
/// contains the (already lowercased) filter text?
pub fn name_matches(name: &str, filter: &str) -> (r: bool)
    ensures
        r == has_infix(unicode_lower(name@), filter@),
        is_ascii_text(name@) ==> r == has_infix(ascii_lower_text(name@), filter@),
{
    let lower = to_lower(name);
    contains(lower.as_str(), filter)
}

} // verus!
