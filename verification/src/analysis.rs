//! Platoon analysis and lineup ranking.
use vstd::prelude::*;

use crate::fantrax::RosterPlayer;
use crate::mlb::{Game, PitcherInfo, Player};
use crate::text::{ascii_upper_text, is_ascii_text, owned, text_eq, to_upper, unicode_upper};
use crate::types::PlayerId;

verus! {

// ─── Types ─────────────────────────────────────────────────────────────────

/// Start/sit recommendation for a single batter.
#[derive(Debug)]
pub struct StartSitRecommendation {
    pub player_name: String,
    pub player_id: PlayerId,
    pub recommendation: Recommendation,
    pub reason: String,
    pub opposing_pitcher: Option<String>,
    pub matchup_advantage: Option<MatchupAdvantage>,
}

/// Start, sit, or monitor.
#[derive(Debug, Clone, Copy, PartialEq, Eq, Structural)]
pub enum Recommendation {
    Start,
    Sit,
    Monitor,
}

/// How the batter-pitcher matchup breaks down.
#[derive(Debug, Clone, Copy, PartialEq, Eq, Structural)]
pub enum MatchupAdvantage {
    /// Batter has the platoon edge (e.g. RHB vs LHP).
    Platoon,
    /// Same-side matchup (e.g. RHB vs RHP).
    Disadvantage,
    /// Switch hitter or no handedness data available.
    Neutral,
}

/// Result of roster gap analysis (currently a single placeholder entry).
#[derive(Debug)]
pub struct CategoryGap {
    pub category: String,
    pub severity: String,
    pub description: String,
}

impl Recommendation {
    /// The lowercase name used on the wire and in display.
    pub fn as_str(&self) -> (r: &'static str)
        ensures
            r@ == recommendation_name(*self),
    {
        match self {
            Recommendation::Start => "start",
            Recommendation::Sit => "sit",
            Recommendation::Monitor => "monitor",
        }
    }

    /// The display form (same text as `as_str`).
    pub fn to_string(&self) -> (r: String)
        ensures
            r@ == recommendation_name(*self),
    {
        owned(self.as_str())
    }
}

impl MatchupAdvantage {
    /// The lowercase name used on the wire and in display.
    pub fn as_str(&self) -> (r: &'static str)
        ensures
            r@ == advantage_name(*self),
    {
        match self {
            MatchupAdvantage::Platoon => "platoon",
            MatchupAdvantage::Disadvantage => "disadvantage",
            MatchupAdvantage::Neutral => "neutral",
        }
    }

    /// The display form (same text as `as_str`).
    pub fn to_string(&self) -> (r: String)
        ensures
            r@ == advantage_name(*self),
    {
        owned(self.as_str())
    }
}

impl Clone for StartSitRecommendation {
    fn clone(&self) -> (r: Self)
        ensures
            r == *self,
    {
        StartSitRecommendation {
            player_name: self.player_name.clone(),
            player_id: self.player_id.clone(),
            recommendation: self.recommendation,
            reason: self.reason.clone(),
            opposing_pitcher: crate::mlb::clone_opt_string(&self.opposing_pitcher),
            matchup_advantage: self.matchup_advantage,
        }
    }
}

// ─── Specs ─────────────────────────────────────────────────────────────────

pub open spec fn recommendation_name(r: Recommendation) -> Seq<char> {
    match r {
        Recommendation::Start => "start"@,
        Recommendation::Sit => "sit"@,
        Recommendation::Monitor => "monitor"@,
    }
}

pub open spec fn advantage_name(a: MatchupAdvantage) -> Seq<char> {
    match a {
        MatchupAdvantage::Platoon => "platoon"@,
        MatchupAdvantage::Disadvantage => "disadvantage"@,
        MatchupAdvantage::Neutral => "neutral"@,
    }
}

/// The matchup rules: switch hitters (or switch pitchers) are neutral,
/// opposite hands give the batter the platoon edge, same hands are a
/// disadvantage, and anything else (unknown handedness) is neutral.
pub open spec fn matchup_of(bat_side: Seq<char>, pitch_hand: Seq<char>) -> MatchupAdvantage {
    if bat_side == "S"@ || pitch_hand == "S"@ {
        MatchupAdvantage::Neutral
    } else if (bat_side == "R"@ && pitch_hand == "L"@) || (bat_side == "L"@ && pitch_hand
        == "R"@) {
        MatchupAdvantage::Platoon
    } else if (bat_side == "R"@ && pitch_hand == "R"@) || (bat_side == "L"@ && pitch_hand
        == "L"@) {
        MatchupAdvantage::Disadvantage
    } else {
        MatchupAdvantage::Neutral
    }
}

/// An uppercased position code that is a pitching position: "SP", "RP" or "P".
pub open spec fn pitcher_code(u: Seq<char>) -> bool {
    u == "SP"@ || u == "RP"@ || u == "P"@
}

/// A pitching position: the uppercased position is a pitching code.
pub open spec fn is_pitcher_pos(pos: Seq<char>) -> bool {
    pitcher_code(unicode_upper(pos))
}

/// Does the team take part in the game?
pub open spec fn plays_in(g: Game, team_id: u64) -> bool {
    g.away_team.id == team_id || g.home_team.id == team_id
}

/// The first game (in schedule order) that the team takes part in.
pub open spec fn game_for_team(games: Seq<Game>, team_id: u64) -> Option<Game>
    decreases games.len(),
{
    if games.len() == 0 {
        None
    } else if plays_in(games[0], team_id) {
        Some(games[0])
    } else {
        game_for_team(games.drop_first(), team_id)
    }
}

/// The probable pitcher the team faces in the game: the home starter when
/// the team is away, the away starter otherwise.
pub open spec fn opposing_starter(g: Game, team_id: u64) -> Option<PitcherInfo> {
    if g.away_team.id == team_id {
        g.home_probable_pitcher
    } else {
        g.away_probable_pitcher
    }
}

/// The opposing pitcher's hand, "Unknown" when the pitcher or the hand is missing.
pub open spec fn pitcher_hand_of(p: Option<PitcherInfo>) -> Seq<char> {
    match p {
        Some(pi) => match pi.pitch_hand {
            Some(h) => h@,
            None => "Unknown"@,
        },
        None => "Unknown"@,
    }
}

/// The opposing pitcher's name, "TBD" when no starter is announced.
pub open spec fn pitcher_name_of(p: Option<PitcherInfo>) -> Seq<char> {
    match p {
        Some(pi) => pi.full_name@,
        None => "TBD"@,
    }
}

pub open spec fn bat_label(bat_side: Seq<char>) -> Seq<char> {
    if bat_side == "R"@ {
        "RHB"@
    } else if bat_side == "L"@ {
        "LHB"@
    } else if bat_side == "S"@ {
        "switch-hitter"@
    } else {
        "unknown bat side"@
    }
}

pub open spec fn pitch_label(pitch_hand: Seq<char>) -> Seq<char> {
    if pitch_hand == "R"@ {
        "RHP"@
    } else if pitch_hand == "L"@ {
        "LHP"@
    } else {
        "unknown hand"@
    }
}

pub open spec fn advantage_tail(a: MatchupAdvantage) -> Seq<char> {
    match a {
        MatchupAdvantage::Platoon => " — platoon advantage, start with confidence"@,
        MatchupAdvantage::Disadvantage =>
            " — same-side matchup, consider sitting if you have alternatives"@,
        MatchupAdvantage::Neutral => " — switch hitter, no platoon concern"@,
    }
}

/// "{batter} ({bat label}) vs {pitcher} ({pitch label}) — {advice}".
pub open spec fn platoon_reason(
    batter: Seq<char>,
    bat_side: Seq<char>,
    pitch_hand: Seq<char>,
    pitcher_name: Seq<char>,
    a: MatchupAdvantage,
) -> Seq<char> {
    batter + " ("@ + bat_label(bat_side) + ") vs "@ + pitcher_name + " ("@ + pitch_label(
        pitch_hand,
    ) + ")"@ + advantage_tail(a)
}

/// Platoon edge and neutral matchups start, same-side matchups sit, and a
/// batter with no game is monitored.
pub open spec fn verdict_of(m: Option<MatchupAdvantage>) -> Recommendation {
    match m {
        Some(MatchupAdvantage::Platoon) => Recommendation::Start,
        Some(MatchupAdvantage::Disadvantage) => Recommendation::Sit,
        Some(MatchupAdvantage::Neutral) => Recommendation::Start,
        None => Recommendation::Monitor,
    }
}

/// The game the player's current team plays, if it has an ID and a game.
pub open spec fn player_game(p: Player, games: Seq<Game>) -> Option<Game> {
    match p.current_team_id {
        Some(t) => game_for_team(games, t),
        None => None,
    }
}

/// `r` is the recommendation the platoon rules give for this batter.
pub open spec fn is_recommendation_for(
    r: StartSitRecommendation,
    rp: RosterPlayer,
    p: Player,
    games: Seq<Game>,
) -> bool {
    &&& r.player_name@ == p.full_name@
    &&& r.player_id == rp.player_id
    &&& r.recommendation == verdict_of(r.matchup_advantage)
    &&& match player_game(p, games) {
        Some(g) => {
            let opp = opposing_starter(g, p.current_team_id->0);
            let hand = pitcher_hand_of(opp);
            let name = pitcher_name_of(opp);
            let adv = matchup_of(p.bat_side@, hand);
            &&& r.matchup_advantage == Some(adv)
            &&& r.opposing_pitcher is Some
            &&& r.opposing_pitcher->0@ == name
            &&& r.reason@ == platoon_reason(p.full_name@, p.bat_side@, hand, name, adv)
        },
        None => {
            &&& r.matchup_advantage is None
            &&& r.opposing_pitcher is None
            &&& r.reason@ == p.full_name@
                + ": no game found for team today — check if they have a day off"@
        },
    }
}

/// The (roster entry, MLB player) pairs whose roster position is not a
/// pitching position, in input order.
pub open spec fn batters_of(info: Seq<(RosterPlayer, Player)>) -> Seq<(RosterPlayer, Player)>
    decreases info.len(),
{
    if info.len() == 0 {
        info
    } else {
        let rest = batters_of(info.drop_last());
        if is_pitcher_pos(info.last().0.position@) {
            rest
        } else {
            rest.push(info.last())
        }
    }
}

/// Sort key for lineup ranking: platoon 3, neutral 2, disadvantage 1, none 0.
pub open spec fn score_of(m: Option<MatchupAdvantage>) -> nat {
    match m {
        Some(MatchupAdvantage::Platoon) => 3,
        Some(MatchupAdvantage::Neutral) => 2,
        Some(MatchupAdvantage::Disadvantage) => 1,
        None => 0,
    }
}

/// The recommendations whose matchup scores `k`, in input order.
pub open spec fn with_score(recs: Seq<StartSitRecommendation>, k: nat) -> Seq<
    StartSitRecommendation,
>
    decreases recs.len(),
{
    if recs.len() == 0 {
        recs
    } else {
        let rest = with_score(recs.drop_last(), k);
        if score_of(recs.last().matchup_advantage) == k {
            rest.push(recs.last())
        } else {
            rest
        }
    }
}

/// A stable ranking by matchup score, best first: all score-3 entries in
/// input order, then score 2, then 1, then 0.
pub open spec fn ranked(recs: Seq<StartSitRecommendation>) -> Seq<StartSitRecommendation> {
    with_score(recs, 3) + with_score(recs, 2) + with_score(recs, 1) + with_score(recs, 0)
}

/// The first `slots` entries of the ranking (all of them when there are fewer).
pub open spec fn lineup(recs: Seq<StartSitRecommendation>, slots: nat) -> Seq<
    StartSitRecommendation,
> {
    let r = ranked(recs);
    if slots < r.len() {
        r.take(slots as int)
    } else {
        r
    }
}

// ─── Platoon logic ─────────────────────────────────────────────────────────

/// Determine the matchup advantage for a batter against a pitcher.
///
/// - Switch hitters (`bat_side == "S"`) are always `Neutral`.
/// - A batter facing same-side pitching (R vs R, L vs L) is `Disadvantage`.
/// - Opposite-side matchup (R vs L, L vs R) is `Platoon`.
/// - Unknown handedness results in `Neutral`.
pub fn matchup_advantage(bat_side: &str, pitch_hand: &str) -> (r: MatchupAdvantage)
    ensures
        r == matchup_of(bat_side@, pitch_hand@),
        (r == MatchupAdvantage::Disadvantage) <==> ((bat_side@ == "R"@ && pitch_hand@ == "R"@) || (
        bat_side@ == "L"@ && pitch_hand@ == "L"@)),
        (pitch_hand@ != "L"@ && pitch_hand@ != "R"@ && pitch_hand@ != "S"@) ==> r
            == MatchupAdvantage::Neutral,
{
    proof {
        law_matchup_table(bat_side@, pitch_hand@);
    }
    let bs = text_eq(bat_side, "S");
    let ps = text_eq(pitch_hand, "S");
    let br = text_eq(bat_side, "R");
    let bl = text_eq(bat_side, "L");
    let pr = text_eq(pitch_hand, "R");
    let pl = text_eq(pitch_hand, "L");
    if bs || ps {
        MatchupAdvantage::Neutral
    } else if (br && pl) || (bl && pr) {
        MatchupAdvantage::Platoon
    } else if (br && pr) || (bl && pl) {
        MatchupAdvantage::Disadvantage
    } else {
        MatchupAdvantage::Neutral
    }
}

/// Determine whether a position is a pitching position (not a batter).
pub fn is_pitcher_position(pos: &str) -> (r: bool)
    ensures
        r == is_pitcher_pos(pos@),
        is_ascii_text(pos@) ==> r == pitcher_code(ascii_upper_text(pos@)),
{
    let u = to_upper(pos);
    is_pitcher_code(u.as_str())
}

/// Is an (already uppercased) position code a pitching position?
pub fn is_pitcher_code(upper: &str) -> (r: bool)
    ensures
        r == pitcher_code(upper@),
{
    text_eq(upper, "SP") || text_eq(upper, "RP") || text_eq(upper, "P")
}

/// Find the first game the team plays in, returning it together with the
/// opposing pitcher's hand and name.
pub fn find_game_for_team<'a>(games: &'a [Game], team_id: Option<u64>) -> (r: Option<
    (&'a Game, String, String),
>)
    ensures
        match team_id {
            None => r is None,
            Some(t) => match game_for_team(games@, t) {
                None => r is None,
                Some(g) => r matches Some((game, hand, name)) && *game == g && hand@ == pitcher_hand_of(
                    opposing_starter(g, t),
                ) && name@ == pitcher_name_of(opposing_starter(g, t)),
            },
        },
{
    let tid = match team_id {
        Some(t) => t,
        None => return None,
    };
    let mut i: usize = 0;
    assert(games@.skip(0) =~= games@);
    while i < games.len()
        invariant
            i <= games@.len(),
            team_id == Some(tid),
            game_for_team(games@, tid) == game_for_team(games@.skip(i as int), tid),
        decreases games@.len() - i,
    {
        assert(games@.skip(i as int)[0] == games@[i as int]);
        assert(games@.skip(i as int).drop_first() =~= games@.skip(i + 1));
        let game = &games[i];
        if game.away_team.id == tid {
            assert(game_for_team(games@.skip(i as int), tid) == Some(games@[i as int]));
            let (hand, name) = pitcher_info(&game.home_probable_pitcher);
            return Some((game, hand, name));
        }
        if game.home_team.id == tid {
            assert(game_for_team(games@.skip(i as int), tid) == Some(games@[i as int]));
            let (hand, name) = pitcher_info(&game.away_probable_pitcher);
            return Some((game, hand, name));
        }
        i = i + 1;
    }
    assert(games@.skip(i as int).len() == 0);
    None
}

/// Extract opposing pitcher info given the opposing team's probable pitcher.
fn pitcher_info(pitcher: &Option<PitcherInfo>) -> (r: (String, String))
    ensures
        r.0@ == pitcher_hand_of(*pitcher),
        r.1@ == pitcher_name_of(*pitcher),
{
    match pitcher {
        Some(p) => {
            let hand = match &p.pitch_hand {
                Some(h) => h.clone(),
                None => owned("Unknown"),
            };
            (hand, p.full_name.clone())
        },
        None => (owned("Unknown"), owned("TBD")),
    }
}

/// Given resolved player info and today's games with probable starters, produce
/// start/sit recommendations based on platoon matchups.
///
/// Returns one recommendation per non-pitcher in `player_info`, in order.
pub fn platoon_recommendations(player_info: &[(RosterPlayer, Player)], games: &[Game]) -> (r:
    Vec<StartSitRecommendation>)
    ensures
        r@.len() == batters_of(player_info@).len(),
        forall|i: int|
            0 <= i < r@.len() ==> is_recommendation_for(
                #[trigger] r@[i],
                batters_of(player_info@)[i].0,
                batters_of(player_info@)[i].1,
                games@,
            ),
{
    let mut recs: Vec<StartSitRecommendation> = Vec::new();
    let mut k: usize = 0;
    while k < player_info.len()
        invariant
            k <= player_info@.len(),
            recs@.len() == batters_of(player_info@.take(k as int)).len(),
            forall|i: int|
                0 <= i < recs@.len() ==> is_recommendation_for(
                    #[trigger] recs@[i],
                    batters_of(player_info@.take(k as int))[i].0,
                    batters_of(player_info@.take(k as int))[i].1,
                    games@,
                ),
        decreases player_info@.len() - k,
    {
        let ghost prev = player_info@.take(k as int);
        assert(player_info@.take(k + 1).drop_last() =~= prev);
        assert(player_info@.take(k + 1).last() == player_info@[k as int]);
        let roster_player = &player_info[k].0;
        let mlb_player = &player_info[k].1;
        if !is_pitcher_position(roster_player.position.as_str()) {
            let rec = recommendation_for(roster_player, mlb_player, games);
            recs.push(rec);
        }
        k = k + 1;
    }
    assert(player_info@.take(k as int) =~= player_info@);
    recs
}

/// The platoon recommendation for one batter.
fn recommendation_for(roster_player: &RosterPlayer, mlb_player: &Player, games: &[Game]) -> (r:
    StartSitRecommendation)
    ensures
        is_recommendation_for(r, *roster_player, *mlb_player, games@),
{
    let game = find_game_for_team(games, mlb_player.current_team_id);
    let (opposing_pitcher, matchup, reason) = match game {
        Some((_g, pitcher_hand, pitcher_name)) => {
            let advantage = matchup_advantage(mlb_player.bat_side.as_str(), pitcher_hand.as_str());
            let reason = format_platoon_reason(
                mlb_player.full_name.as_str(),
                mlb_player.bat_side.as_str(),
                pitcher_hand.as_str(),
                pitcher_name.as_str(),
                advantage,
            );
            (Some(pitcher_name), Some(advantage), reason)
        },
        None => {
            let mut reason = mlb_player.full_name.clone();
            reason.append(": no game found for team today — check if they have a day off");
            (None, None, reason)
        },
    };
    let recommendation = match matchup {
        Some(MatchupAdvantage::Platoon) => Recommendation::Start,
        Some(MatchupAdvantage::Disadvantage) => Recommendation::Sit,
        Some(MatchupAdvantage::Neutral) => Recommendation::Start,
        None => Recommendation::Monitor,
    };
    StartSitRecommendation {
        player_name: mlb_player.full_name.clone(),
        player_id: roster_player.player_id.clone(),
        recommendation,
        reason,
        opposing_pitcher,
        matchup_advantage: matchup,
    }
}

/// The explanation attached to a platoon recommendation.
pub fn format_platoon_reason(
    batter: &str,
    bat_side: &str,
    pitch_hand: &str,
    pitcher_name: &str,
    advantage: MatchupAdvantage,
) -> (r: String)
    ensures
        r@ == platoon_reason(batter@, bat_side@, pitch_hand@, pitcher_name@, advantage),
{
    let bat = if text_eq(bat_side, "R") {
        "RHB"
    } else if text_eq(bat_side, "L") {
        "LHB"
    } else if text_eq(bat_side, "S") {
        "switch-hitter"
    } else {
        "unknown bat side"
    };
    let pitch = if text_eq(pitch_hand, "R") {
        "RHP"
    } else if text_eq(pitch_hand, "L") {
        "LHP"
    } else {
        "unknown hand"
    };
    let tail = match advantage {
        MatchupAdvantage::Platoon => " — platoon advantage, start with confidence",
        MatchupAdvantage::Disadvantage =>
            " — same-side matchup, consider sitting if you have alternatives",
        MatchupAdvantage::Neutral => " — switch hitter, no platoon concern",
    };
    let mut s = owned(batter);
    s.append(" (");
    s.append(bat);
    s.append(") vs ");
    s.append(pitcher_name);
    s.append(" (");
    s.append(pitch);
    s.append(")");
    s.append(tail);
    s
}

// ─── Lineup optimizer ──────────────────────────────────────────────────────

/// Assign a numeric score to a matchup advantage for sorting.
pub fn matchup_score(advantage: Option<MatchupAdvantage>) -> (r: u8)
    ensures
        r as nat == score_of(advantage),
{
    match advantage {
        Some(MatchupAdvantage::Platoon) => 3,
        Some(MatchupAdvantage::Neutral) => 2,
        Some(MatchupAdvantage::Disadvantage) => 1,
        None => 0,
    }
}

/// Appends, in order, the recommendations whose score is `k`.
fn push_with_score(recommendations: &[StartSitRecommendation], k: u8, out: &mut Vec<
    StartSitRecommendation,
>)
    ensures
        final(out)@ == old(out)@ + with_score(recommendations@, k as nat),
{
    let ghost start = out@;
    let mut i: usize = 0;
    while i < recommendations.len()
        invariant
            i <= recommendations@.len(),
            out@ == start + with_score(recommendations@.take(i as int), k as nat),
        decreases recommendations@.len() - i,
    {
        assert(recommendations@.take(i + 1).drop_last() =~= recommendations@.take(i as int));
        assert(recommendations@.take(i + 1).last() == recommendations@[i as int]);
        if matchup_score(recommendations[i].matchup_advantage) == k {
            out.push(recommendations[i].clone());
        }
        i = i + 1;
        assert(out@ =~= start + with_score(recommendations@.take(i as int), k as nat));
    }
    assert(recommendations@.take(i as int) =~= recommendations@);
}

/// Rank batters by platoon advantage for lineup optimization.
///
/// Sorts eligible batters by matchup quality (platoon advantage > neutral >
/// disadvantage > no game), keeping the input order among equals, and
/// recommends the top `slots`.
pub fn optimize_lineup(recommendations: &[StartSitRecommendation], slots: usize) -> (r: Vec<
    StartSitRecommendation,
>)
    ensures
        r@ == lineup(recommendations@, slots as nat),
{
    let mut sorted: Vec<StartSitRecommendation> = Vec::new();
    push_with_score(recommendations, 3, &mut sorted);
    push_with_score(recommendations, 2, &mut sorted);
    push_with_score(recommendations, 1, &mut sorted);
    push_with_score(recommendations, 0, &mut sorted);
    assert(sorted@ =~= ranked(recommendations@));
    if slots < sorted.len() {
        sorted.truncate(slots);
    }
    sorted
}

// ─── Roster gap analysis (placeholder) ─────────────────────────────────────

/// Placeholder for roster gap analysis.
///
/// Given standings and scoring rules, this will identify which categories the
/// team is weak in and return a ranked list of category gaps. Currently it
/// returns a single "stub" entry whatever the league and team.
pub fn analyze_roster_gaps(league_id: &str, team_id: &str) -> (r: Vec<CategoryGap>)
    ensures
        r@.len() == 1,
        r@[0].category@ == "stub"@,
        r@[0].severity@ == "info"@,
        r@[0].description@
            == "Roster gap analysis not yet implemented — will analyze category strengths/weaknesses vs standings."@,
{
    let mut v: Vec<CategoryGap> = Vec::new();
    v.push(
        CategoryGap {
            category: owned("stub"),
            severity: owned("info"),
            description: owned(
                "Roster gap analysis not yet implemented — will analyze category strengths/weaknesses vs standings.",
            ),
        },
    );
    v
}

// ─── Laws ──────────────────────────────────────────────────────────────────

/// A switch hitter is neutral against any pitcher, whatever hand the
/// pitcher throws with.
pub proof fn law_switch_hitter_is_neutral(pitch_hand: Seq<char>)
    ensures
        matchup_of("S"@, pitch_hand) == MatchupAdvantage::Neutral,
{
}

/// The matchup table: a same-side disadvantage exactly when batter and
/// pitcher both bat/throw right or both left; the platoon edge exactly when
/// they are opposite known hands; and neutral for every batter whenever the
/// pitcher's hand is not L, R or S (an unknown starter, say).
pub proof fn law_matchup_table(bat_side: Seq<char>, pitch_hand: Seq<char>)
    ensures
        (matchup_of(bat_side, pitch_hand) == MatchupAdvantage::Disadvantage) <==> ((bat_side
            == "R"@ && pitch_hand == "R"@) || (bat_side == "L"@ && pitch_hand == "L"@)),
        (matchup_of(bat_side, pitch_hand) == MatchupAdvantage::Platoon) <==> ((bat_side == "R"@
            && pitch_hand == "L"@) || (bat_side == "L"@ && pitch_hand == "R"@)),
        (pitch_hand != "L"@ && pitch_hand != "R"@ && pitch_hand != "S"@) ==> matchup_of(
            bat_side,
            pitch_hand,
        ) == MatchupAdvantage::Neutral,
{
    reveal_strlit("R");
    reveal_strlit("L");
    reveal_strlit("S");
    assert("R"@ != "L"@ && "R"@ != "S"@ && "L"@ != "S"@) by {
        assert("R"@[0] != "L"@[0]);
        assert("R"@[0] != "S"@[0]);
        assert("L"@[0] != "S"@[0]);
    }
}

/// A batter is told to sit exactly when the matchup is same-sided, and is
/// monitored exactly when there is no matchup (no game today); every other
/// batter starts.
pub proof fn law_verdict_follows_matchup(m: Option<MatchupAdvantage>)
    ensures
        (verdict_of(m) == Recommendation::Sit) <==> (m == Some(MatchupAdvantage::Disadvantage)),
        (verdict_of(m) == Recommendation::Monitor) <==> (m is None),
        (verdict_of(m) == Recommendation::Start) <==> (m == Some(MatchupAdvantage::Platoon) || m
            == Some(MatchupAdvantage::Neutral)),
{
}

proof fn lemma_with_score_scores(recs: Seq<StartSitRecommendation>, k: nat)
    ensures
        forall|i: int|
            0 <= i < with_score(recs, k).len() ==> score_of(
                (#[trigger] with_score(recs, k)[i]).matchup_advantage,
            ) == k,
    decreases recs.len(),
{
    if recs.len() > 0 {
        lemma_with_score_scores(recs.drop_last(), k);
        let rest = with_score(recs.drop_last(), k);
        assert forall|i: int| 0 <= i < with_score(recs, k).len() implies score_of(
            (#[trigger] with_score(recs, k)[i]).matchup_advantage,
        ) == k by {
            if i < rest.len() {
                assert(with_score(recs, k)[i] == rest[i]);
            }
        }
    }
}

proof fn lemma_ranked_multiset(recs: Seq<StartSitRecommendation>)
    ensures
        ranked(recs).to_multiset() =~= recs.to_multiset(),
    decreases recs.len(),
{
    broadcast use vstd::seq_lib::group_to_multiset_ensures;
    broadcast use vstd::multiset::group_multiset_axioms;

    if recs.len() == 0 {
        assert(ranked(recs) =~= Seq::<StartSitRecommendation>::empty());
    } else {
        let init = recs.drop_last();
        let x = recs.last();
        lemma_ranked_multiset(init);
        assert(init.push(x) =~= recs);
        let (a3, a2, a1, a0) = (
            with_score(init, 3),
            with_score(init, 2),
            with_score(init, 1),
            with_score(init, 0),
        );
        let (b3, b2, b1, b0) = (
            with_score(recs, 3),
            with_score(recs, 2),
            with_score(recs, 1),
            with_score(recs, 0),
        );
        vstd::seq_lib::lemma_multiset_commutative(a3, a2);
        vstd::seq_lib::lemma_multiset_commutative(a3 + a2, a1);
        vstd::seq_lib::lemma_multiset_commutative(a3 + a2 + a1, a0);
        vstd::seq_lib::lemma_multiset_commutative(b3, b2);
        vstd::seq_lib::lemma_multiset_commutative(b3 + b2, b1);
        vstd::seq_lib::lemma_multiset_commutative(b3 + b2 + b1, b0);
        assert(b3.to_multiset().add(b2.to_multiset()).add(b1.to_multiset()).add(b0.to_multiset())
            =~= a3.to_multiset().add(a2.to_multiset()).add(a1.to_multiset()).add(
            a0.to_multiset(),
        ).insert(x));
    }
}

/// Ranking reorders the recommendations without adding, losing or
/// duplicating any: the ranking is a permutation of its input.
pub proof fn law_ranking_is_permutation(recs: Seq<StartSitRecommendation>)
    ensures
        ranked(recs).to_multiset() =~= recs.to_multiset(),
        ranked(recs).len() == recs.len(),
{
    broadcast use vstd::seq_lib::group_to_multiset_ensures;

    lemma_ranked_multiset(recs);
    assert(ranked(recs).to_multiset().len() == recs.to_multiset().len());
}

/// The lineup holds `slots` recommendations, or all of them when there are
/// fewer.
pub proof fn law_lineup_limits_to_slots(recs: Seq<StartSitRecommendation>, slots: nat)
    ensures
        lineup(recs, slots).len() == if slots < recs.len() {
            slots
        } else {
            recs.len()
        },
{
    law_ranking_is_permutation(recs);
}

/// The lineup is ordered best matchup first: platoon edge, then neutral,
/// then same-sided, then no game.
pub proof fn law_lineup_best_first(recs: Seq<StartSitRecommendation>, slots: nat)
    ensures
        forall|i: int, j: int|
            0 <= i < j < lineup(recs, slots).len() ==> score_of(
                (#[trigger] lineup(recs, slots)[i]).matchup_advantage,
            ) >= score_of((#[trigger] lineup(recs, slots)[j]).matchup_advantage),
{
    lemma_with_score_scores(recs, 3);
    lemma_with_score_scores(recs, 2);
    lemma_with_score_scores(recs, 1);
    lemma_with_score_scores(recs, 0);
    let (w3, w2, w1, w0) = (
        with_score(recs, 3),
        with_score(recs, 2),
        with_score(recs, 1),
        with_score(recs, 0),
    );
    let r = ranked(recs);
    assert(r == w3 + w2 + w1 + w0);
    assert forall|i: int| 0 <= i < r.len() implies score_of((#[trigger] r[i]).matchup_advantage)
        == if i < w3.len() {
        3nat
    } else if i < w3.len() + w2.len() {
        2nat
    } else if i < w3.len() + w2.len() + w1.len() {
        1nat
    } else {
        0nat
    } by {
        if i < w3.len() {
            assert(r[i] == w3[i]);
        } else if i < w3.len() + w2.len() {
            assert(r[i] == w2[i - w3.len()]);
        } else if i < w3.len() + w2.len() + w1.len() {
            assert(r[i] == w1[i - w3.len() - w2.len()]);
        } else {
            assert(r[i] == w0[i - w3.len() - w2.len() - w1.len()]);
        }
    }
    let l = lineup(recs, slots);
    assert forall|i: int, j: int| 0 <= i < j < l.len() implies score_of(
        (#[trigger] l[i]).matchup_advantage,
    ) >= score_of((#[trigger] l[j]).matchup_advantage) by {
        assert(l[i] == r[i]);
        assert(l[j] == r[j]);
    }
}

/// More slots only extend the lineup: the lineup for fewer slots is a prefix
/// of the lineup for more.
pub proof fn law_lineup_prefix(recs: Seq<StartSitRecommendation>, fewer: nat, more: nat)
    requires
        fewer <= more,
    ensures
        lineup(recs, fewer) =~= lineup(recs, more).take(lineup(recs, fewer).len() as int),
{
}

/// Ordered best matchup first: no entry scores above an earlier one.
pub open spec fn best_first(recs: Seq<StartSitRecommendation>) -> bool {
    forall|i: int, j: int|
        0 <= i < j < recs.len() ==> score_of((#[trigger] recs[i]).matchup_advantage) >= score_of(
            (#[trigger] recs[j]).matchup_advantage,
        )
}

proof fn lemma_with_score_absent(recs: Seq<StartSitRecommendation>, k: nat)
    requires
        forall|i: int| 0 <= i < recs.len() ==> score_of((#[trigger] recs[i]).matchup_advantage) != k,
    ensures
        with_score(recs, k) =~= Seq::<StartSitRecommendation>::empty(),
    decreases recs.len(),
{
    if recs.len() > 0 {
        let init = recs.drop_last();
        assert forall|i: int| 0 <= i < init.len() implies score_of(
            (#[trigger] init[i]).matchup_advantage,
        ) != k by {
            assert(init[i] == recs[i]);
        }
        lemma_with_score_absent(init, k);
        assert(score_of(recs[recs.len() - 1].matchup_advantage) != k);
    }
}

proof fn lemma_ranked_best_first_is_identity(recs: Seq<StartSitRecommendation>)
    requires
        best_first(recs),
    ensures
        ranked(recs) =~= recs,
    decreases recs.len(),
{
    if recs.len() == 0 {
        assert(ranked(recs) =~= recs);
    } else {
        let init = recs.drop_last();
        let x = recs.last();
        let kx = score_of(x.matchup_advantage);
        assert forall|i: int, j: int| 0 <= i < j < init.len() implies score_of(
            (#[trigger] init[i]).matchup_advantage,
        ) >= score_of((#[trigger] init[j]).matchup_advantage) by {
            assert(init[i] == recs[i]);
            assert(init[j] == recs[j]);
        }
        lemma_ranked_best_first_is_identity(init);
        assert forall|i: int| 0 <= i < init.len() implies score_of(
            (#[trigger] init[i]).matchup_advantage,
        ) >= kx by {
            assert(init[i] == recs[i]);
            assert(recs[recs.len() - 1] == x);
        }
        assert(init.push(x) =~= recs);
        let (a3, a2, a1, a0) = (
            with_score(init, 3),
            with_score(init, 2),
            with_score(init, 1),
            with_score(init, 0),
        );
        assert(ranked(init) == a3 + a2 + a1 + a0);
        if kx == 3 {
            lemma_with_score_absent(init, 2);
            lemma_with_score_absent(init, 1);
            lemma_with_score_absent(init, 0);
            assert(ranked(recs) =~= (a3 + a2 + a1 + a0).push(x));
        } else if kx == 2 {
            lemma_with_score_absent(init, 1);
            lemma_with_score_absent(init, 0);
            assert(ranked(recs) =~= (a3 + a2 + a1 + a0).push(x));
        } else if kx == 1 {
            lemma_with_score_absent(init, 0);
            assert(ranked(recs) =~= (a3 + a2 + a1 + a0).push(x));
        } else {
            assert(ranked(recs) =~= (a3 + a2 + a1 + a0).push(x));
        }
    }
}

/// Re-optimizing a lineup changes nothing: ranking the lineup for `more`
/// slots again and keeping `fewer <= more` of them gives the lineup for
/// `fewer` slots, and with `fewer == more` the lineup itself.
pub proof fn law_reoptimizing_changes_nothing(
    recs: Seq<StartSitRecommendation>,
    fewer: nat,
    more: nat,
)
    requires
        fewer <= more,
    ensures
        lineup(lineup(recs, more), fewer) =~= lineup(recs, fewer),
{
    let l = lineup(recs, more);
    law_lineup_best_first(recs, more);
    assert forall|i: int, j: int| 0 <= i < j < l.len() implies score_of(
        (#[trigger] l[i]).matchup_advantage,
    ) >= score_of((#[trigger] l[j]).matchup_advantage) by {}
    lemma_ranked_best_first_is_identity(l);
}

/// The platoon analysis skips pitchers and only pitchers: every entry it
/// recommends on is a batter, and a roster with no pitcher is analysed whole.
pub proof fn law_platoon_skips_only_pitchers(info: Seq<(RosterPlayer, Player)>)
    ensures
        forall|i: int|
            0 <= i < batters_of(info).len() ==> !is_pitcher_pos(
                (#[trigger] batters_of(info)[i]).0.position@,
            ),
        (forall|j: int| 0 <= j < info.len() ==> !is_pitcher_pos(#[trigger] info[j].0.position@))
            ==> batters_of(info) == info,
    decreases info.len(),
{
    if info.len() > 0 {
        let init = info.drop_last();
        law_platoon_skips_only_pitchers(init);
        let b = batters_of(info);
        let rest = batters_of(init);
        assert forall|i: int| 0 <= i < b.len() implies !is_pitcher_pos(
            (#[trigger] b[i]).0.position@,
        ) by {
            if i < rest.len() {
                assert(b[i] == rest[i]);
            }
        }
        if forall|j: int| 0 <= j < info.len() ==> !is_pitcher_pos(#[trigger] info[j].0.position@) {
            assert forall|j: int| 0 <= j < init.len() implies !is_pitcher_pos(
                #[trigger] init[j].0.position@,
            ) by {
                assert(init[j] == info[j]);
            }
            assert(!is_pitcher_pos(info[info.len() - 1].0.position@));
            assert(init.push(info.last()) =~= info);
        }
    }
}

} // verus!
