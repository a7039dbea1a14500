use fantrax_mcp::analysis::{
    analyze_roster_gaps, find_game_for_team, format_platoon_reason, is_pitcher_code, is_pitcher_position,
    matchup_advantage, matchup_score, optimize_lineup, platoon_recommendations, MatchupAdvantage,
    Recommendation, StartSitRecommendation,
};
use fantrax_mcp::fantrax::RosterPlayer;
use fantrax_mcp::mlb::{Game, PitcherInfo, Player, TeamInfo};
use fantrax_mcp::types::PlayerId;

#[test]
fn switch_hitter_is_neutral() {
    assert_eq!(matchup_advantage("S", "R"), MatchupAdvantage::Neutral);
    assert_eq!(matchup_advantage("S", "L"), MatchupAdvantage::Neutral);
}

#[test]
fn opposite_hand_is_platoon() {
    assert_eq!(matchup_advantage("R", "L"), MatchupAdvantage::Platoon);
    assert_eq!(matchup_advantage("L", "R"), MatchupAdvantage::Platoon);
}

#[test]
fn same_hand_is_disadvantage() {
    assert_eq!(matchup_advantage("R", "R"), MatchupAdvantage::Disadvantage);
    assert_eq!(matchup_advantage("L", "L"), MatchupAdvantage::Disadvantage);
}

#[test]
fn unknown_hand_is_neutral() {
    assert_eq!(matchup_advantage("R", "Unknown"), MatchupAdvantage::Neutral);
    assert_eq!(matchup_advantage("Unknown", "R"), MatchupAdvantage::Neutral);
}

#[test]
fn pitcher_position_detection() {
    assert!(is_pitcher_position("SP"));
    assert!(is_pitcher_position("RP"));
    assert!(is_pitcher_position("P"));
    assert!(!is_pitcher_position("SS"));
    assert!(!is_pitcher_position("OF"));
    assert!(!is_pitcher_position("1B"));
}

fn rec(name: &str, id: &str, verdict: Recommendation, adv: Option<MatchupAdvantage>) -> StartSitRecommendation {
    StartSitRecommendation {
        player_name: name.into(),
        player_id: id.into(),
        recommendation: verdict,
        reason: String::new(),
        opposing_pitcher: None,
        matchup_advantage: adv,
    }
}

#[test]
fn optimize_lineup_limits_to_slots() {
    let recs = vec![
        StartSitRecommendation {
            player_name: "A".into(),
            player_id: "1".into(),
            recommendation: Recommendation::Sit,
            reason: String::new(),
            opposing_pitcher: None,
            matchup_advantage: Some(MatchupAdvantage::Disadvantage),
        },
        StartSitRecommendation {
            player_name: "B".into(),
            player_id: "2".into(),
            recommendation: Recommendation::Start,
            reason: String::new(),
            opposing_pitcher: None,
            matchup_advantage: Some(MatchupAdvantage::Platoon),
        },
        StartSitRecommendation {
            player_name: "C".into(),
            player_id: "3".into(),
            recommendation: Recommendation::Start,
            reason: String::new(),
            opposing_pitcher: None,
            matchup_advantage: Some(MatchupAdvantage::Neutral),
        },
    ];

    let top2 = optimize_lineup(&recs, 2);
    assert_eq!(top2.len(), 2);
    // Platoon advantage should be first.
    assert_eq!(top2[0].player_name, "B");
    // Neutral should be second.
    assert_eq!(top2[1].player_name, "C");
}

#[test]
fn roster_gaps_stub_returns_something() {
    let gaps = analyze_roster_gaps("league1", "team1");
    assert_eq!(gaps.len(), 1);
    assert_eq!(gaps[0].category, "stub");
}

// ─── Own tests ──────────────────────────────────────────────────────────────

#[test]
fn lineup_ranking_is_stable_and_best_first() {
    let recs = vec![
        rec("none", "1", Recommendation::Monitor, None),
        rec("neutral1", "2", Recommendation::Start, Some(MatchupAdvantage::Neutral)),
        rec("same", "3", Recommendation::Sit, Some(MatchupAdvantage::Disadvantage)),
        rec("platoon1", "4", Recommendation::Start, Some(MatchupAdvantage::Platoon)),
        rec("neutral2", "5", Recommendation::Start, Some(MatchupAdvantage::Neutral)),
        rec("platoon2", "6", Recommendation::Start, Some(MatchupAdvantage::Platoon)),
    ];
    let all = optimize_lineup(&recs, 100);
    let names: Vec<&str> = all.iter().map(|r| r.player_name.as_str()).collect();
    assert_eq!(names, vec!["platoon1", "platoon2", "neutral1", "neutral2", "same", "none"]);
    // Fewer slots give a prefix of the same ranking.
    let three = optimize_lineup(&recs, 3);
    let names3: Vec<&str> = three.iter().map(|r| r.player_name.as_str()).collect();
    assert_eq!(names3, vec!["platoon1", "platoon2", "neutral1"]);
    assert!(optimize_lineup(&recs, 0).is_empty());
    assert!(optimize_lineup(&[], 5).is_empty());
}

#[test]
fn reoptimizing_a_lineup_changes_nothing() {
    let recs = vec![
        rec("none", "1", Recommendation::Monitor, None),
        rec("neutral1", "2", Recommendation::Start, Some(MatchupAdvantage::Neutral)),
        rec("same", "3", Recommendation::Sit, Some(MatchupAdvantage::Disadvantage)),
        rec("platoon1", "4", Recommendation::Start, Some(MatchupAdvantage::Platoon)),
        rec("neutral2", "5", Recommendation::Start, Some(MatchupAdvantage::Neutral)),
    ];
    let names = |v: &Vec<StartSitRecommendation>| -> Vec<String> {
        v.iter().map(|r| r.player_name.clone()).collect()
    };
    let four = optimize_lineup(&recs, 4);
    assert_eq!(names(&optimize_lineup(&four, 4)), names(&four));
    assert_eq!(names(&optimize_lineup(&four, 2)), names(&optimize_lineup(&recs, 2)));
    assert_eq!(names(&optimize_lineup(&four, 2)), vec!["platoon1", "neutral1"]);
    let all = optimize_lineup(&recs, 10);
    assert_eq!(names(&optimize_lineup(&all, 10)), names(&all));
}

#[test]
fn pitcher_codes_are_matched_on_uppercased_text() {
    assert!(is_pitcher_code("SP"));
    assert!(is_pitcher_code("RP"));
    assert!(is_pitcher_code("P"));
    assert!(!is_pitcher_code("sp"));
    assert!(!is_pitcher_code("SP,RP"));
    assert!(!is_pitcher_code(""));
}

#[test]
fn matchup_scores_order_the_advantages() {
    assert_eq!(matchup_score(Some(MatchupAdvantage::Platoon)), 3);
    assert_eq!(matchup_score(Some(MatchupAdvantage::Neutral)), 2);
    assert_eq!(matchup_score(Some(MatchupAdvantage::Disadvantage)), 1);
    assert_eq!(matchup_score(None), 0);
}

#[test]
fn switch_pitcher_is_neutral() {
    assert_eq!(matchup_advantage("R", "S"), MatchupAdvantage::Neutral);
    assert_eq!(matchup_advantage("", ""), MatchupAdvantage::Neutral);
}

#[test]
fn pitcher_position_is_case_insensitive() {
    assert!(is_pitcher_position("sp"));
    assert!(is_pitcher_position("p"));
    assert!(!is_pitcher_position("SP,RP"));
    assert!(!is_pitcher_position(""));
}

#[test]
fn display_names_of_verdicts_and_advantages() {
    assert_eq!(Recommendation::Start.to_string(), "start");
    assert_eq!(Recommendation::Sit.as_str(), "sit");
    assert_eq!(Recommendation::Monitor.to_string(), "monitor");
    assert_eq!(MatchupAdvantage::Platoon.to_string(), "platoon");
    assert_eq!(MatchupAdvantage::Disadvantage.as_str(), "disadvantage");
    assert_eq!(MatchupAdvantage::Neutral.to_string(), "neutral");
}

#[test]
fn platoon_reason_text() {
    let r = format_platoon_reason("Mookie Betts", "R", "L", "Blake Snell", MatchupAdvantage::Platoon);
    assert_eq!(r, "Mookie Betts (RHB) vs Blake Snell (LHP) — platoon advantage, start with confidence");
    let r = format_platoon_reason("Max Muncy", "L", "L", "Blake Snell", MatchupAdvantage::Disadvantage);
    assert_eq!(
        r,
        "Max Muncy (LHB) vs Blake Snell (LHP) — same-side matchup, consider sitting if you have alternatives"
    );
    let r = format_platoon_reason("Ozzie Albies", "S", "R", "TBD", MatchupAdvantage::Neutral);
    assert_eq!(r, "Ozzie Albies (switch-hitter) vs TBD (RHP) — switch hitter, no platoon concern");
    let r = format_platoon_reason("X", "?", "Unknown", "Y", MatchupAdvantage::Neutral);
    assert_eq!(r, "X (unknown bat side) vs Y (unknown hand) — switch hitter, no platoon concern");
}

fn team(id: u64, name: &str) -> TeamInfo {
    TeamInfo { id, name: name.into() }
}

fn pitcher(id: u64, name: &str, hand: Option<&str>) -> Option<PitcherInfo> {
    Some(PitcherInfo { id, full_name: name.into(), pitch_hand: hand.map(|h| h.to_string()) })
}

fn game(pk: u64, away: TeamInfo, home: TeamInfo, away_p: Option<PitcherInfo>, home_p: Option<PitcherInfo>) -> Game {
    Game {
        game_pk: pk,
        game_date: "2026-06-10".into(),
        status: "Preview".into(),
        detailed_state: "Scheduled".into(),
        away_team: away,
        home_team: home,
        away_probable_pitcher: away_p,
        home_probable_pitcher: home_p,
    }
}

fn mlb_player(name: &str, bats: &str, team_id: Option<u64>) -> Player {
    Player {
        id: 1,
        full_name: name.into(),
        primary_position: "OF".into(),
        bat_side: bats.into(),
        pitch_hand: "R".into(),
        current_team: None,
        current_team_id: team_id,
    }
}

fn roster(id: &str, name: &str, pos: &str) -> RosterPlayer {
    RosterPlayer {
        player_id: PlayerId::new(id),
        name: name.into(),
        position: pos.into(),
        roster_status: "Active".into(),
    }
}

#[test]
fn team_game_lookup_picks_the_opposing_starter() {
    let games = vec![
        game(1, team(10, "A"), team(11, "B"), pitcher(100, "Away Ace", Some("L")), pitcher(101, "Home Ace", None)),
        game(2, team(12, "C"), team(10, "A"), None, pitcher(102, "Other", Some("R"))),
    ];
    // Team 10 is away in the first game: faces the home starter, hand unknown.
    let (g, hand, name) = find_game_for_team(&games, Some(10)).unwrap();
    assert_eq!((g.game_pk, hand.as_str(), name.as_str()), (1, "Unknown", "Home Ace"));
    // Team 11 is home: faces the away starter.
    let (g, hand, name) = find_game_for_team(&games, Some(11)).unwrap();
    assert_eq!((g.game_pk, hand.as_str(), name.as_str()), (1, "L", "Away Ace"));
    // Team 12 faces home starter "Other".
    let (g, hand, name) = find_game_for_team(&games, Some(12)).unwrap();
    assert_eq!((g.game_pk, hand.as_str(), name.as_str()), (2, "R", "Other"));
    assert!(find_game_for_team(&games, Some(99)).is_none());
    assert!(find_game_for_team(&games, None).is_none());
    // No announced starter: "TBD".
    let games = vec![game(3, team(20, "D"), team(21, "E"), None, None)];
    let (_, hand, name) = find_game_for_team(&games, Some(20)).unwrap();
    assert_eq!((hand.as_str(), name.as_str()), ("Unknown", "TBD"));
}

#[test]
fn platoon_recommendations_skip_pitchers_and_monitor_idle_teams() {
    let games = vec![game(1, team(10, "A"), team(11, "B"), pitcher(100, "Lefty", Some("L")), pitcher(101, "Righty", Some("R")))];
    let info = vec![
        (roster("p1", "Batter One", "OF"), mlb_player("Batter One", "R", Some(10))),
        (roster("p2", "Pitcher", "SP"), mlb_player("Pitcher", "R", Some(10))),
        (roster("p3", "Batter Two", "1B"), mlb_player("Batter Two", "L", Some(11))),
        (roster("p4", "Idle", "2B"), mlb_player("Idle", "R", Some(99))),
    ];
    let recs = platoon_recommendations(&info, &games);
    assert_eq!(recs.len(), 3);
    // RHB on team 10 (away) faces the home starter, a RHP: same side, sit.
    assert_eq!(recs[0].player_name, "Batter One");
    assert_eq!(recs[0].player_id, PlayerId::new("p1"));
    assert_eq!(recs[0].recommendation, Recommendation::Sit);
    assert_eq!(recs[0].matchup_advantage, Some(MatchupAdvantage::Disadvantage));
    assert_eq!(recs[0].opposing_pitcher.as_deref(), Some("Righty"));
    // LHB on team 11 (home) faces the away starter, a LHP: same side.
    assert_eq!(recs[1].recommendation, Recommendation::Sit);
    assert_eq!(recs[1].opposing_pitcher.as_deref(), Some("Lefty"));
    // No game: monitor.
    assert_eq!(recs[2].recommendation, Recommendation::Monitor);
    assert_eq!(recs[2].matchup_advantage, None);
    assert_eq!(recs[2].opposing_pitcher, None);
    assert_eq!(recs[2].reason, "Idle: no game found for team today — check if they have a day off");
}
