use fantrax_mcp::analysis::{MatchupAdvantage, Recommendation, StartSitRecommendation};
use fantrax_mcp::config::{LeagueConfig, LeagueType, LineupType, ServerConfig};
use fantrax_mcp::dates::{parse_date_or_today, CalendarDate};
use fantrax_mcp::db::{
    boxscore_cache_key, boxscore_ttl, cache_entry_fresh, hot_takes, ledger_query, outcome_recorded,
    player_cache_key, projections_cache_key, schedule_cache_key, should_evict, Recommendation as LedgerEntry,
};
use fantrax_mcp::mlb::{BatterLine, Boxscore, PitcherLine};
use fantrax_mcp::server::{
    default_period, default_sport, find_game_line, game_label, is_final_status, lookup_failed_error,
    name_filter, name_matches, no_game_message, no_matching_league_message, recommendations_for_slots,
    resolve_lineup_players, select_leagues, starter_throws, team_not_in_period_message, tool_cache_key,
    unresolved_id_error, GameLine, Outcome, PlayerType, RecommendationType,
};
use fantrax_mcp::fantrax::RosterPlayer;
use fantrax_mcp::types::{LeagueId, PlayerId, TeamId};

fn league(id: &str) -> LeagueConfig {
    LeagueConfig {
        id: id.into(),
        name: format!("League {id}"),
        league_type: LeagueType::Roto,
        lineup: LineupType::Daily,
        keeper: false,
    }
}

#[test]
fn defaults_and_names() {
    assert_eq!(default_sport(), "MLB");
    assert_eq!(default_period(), "current");
    assert_eq!(RecommendationType::Pickup.to_string(), "pickup");
    assert_eq!(RecommendationType::Waiver.as_str(), "waiver");
    assert_eq!(Outcome::Neutral.to_string(), "neutral");
    assert_eq!(Outcome::Loss.as_str(), "loss");
    assert!(PlayerType::Batter.is_batter());
    assert!(!PlayerType::Pitcher.is_batter());
    assert_eq!(PlayerType::Pitcher.to_string(), "pitcher");
    assert_eq!(LeagueType::H2h.to_string(), "h2h");
    assert_eq!(LineupType::Bestball.as_str(), "bestball");
}

#[test]
fn cache_keys() {
    assert_eq!(tool_cache_key("standings", "abc", None), "standings:abc");
    assert_eq!(tool_cache_key("roster", "abc", Some("current")), "roster:abc:current");
    assert_eq!(schedule_cache_key("2026-06-10"), "mlb:schedule:2026-06-10");
    assert_eq!(player_cache_key(660271), "mlb:player:660271");
    assert_eq!(boxscore_cache_key(0), "mlb:boxscore:0");
    assert_eq!(projections_cache_key(true, "projected_ZipsRos"), "mlb:proj:bat:projected_ZipsRos");
    assert_eq!(projections_cache_key(false, "x"), "mlb:proj:pit:x");
    assert_eq!(boxscore_ttl(true), 31536000);
    assert_eq!(boxscore_ttl(false), 300);
}

#[test]
fn cache_freshness_and_eviction() {
    assert!(cache_entry_fresh(0, 300));
    assert!(cache_entry_fresh(300, 300));
    assert!(!cache_entry_fresh(301, 300));
    assert!(!cache_entry_fresh(-1, 300));
    assert!(should_evict(0));
    assert!(!should_evict(1));
    assert!(!should_evict(99));
    assert!(should_evict(100));
    assert!(outcome_recorded(1));
    assert!(!outcome_recorded(0));
    assert!(ledger_query(true).contains("AND agent_id = ?2"));
    assert!(!ledger_query(false).contains("agent_id = ?2"));
    assert!(ledger_query(false).ends_with("ORDER BY created_at DESC"));
}

fn entry(n: i64, outcome: Option<&str>) -> LedgerEntry {
    LedgerEntry {
        id: n,
        agent_id: "ariadne".into(),
        league_id: LeagueId::new("abc"),
        recommendation_type: "pickup".into(),
        players: "[\"03pit\"]".into(),
        reasoning: format!("reason {n}"),
        created_at: "2026-06-10T00:00:00Z".into(),
        outcome: outcome.map(|o| o.to_string()),
        outcome_date: None,
    }
}

#[test]
fn hot_takes_lines() {
    assert_eq!(hot_takes(&vec![]), vec!["No recent recommendations in the ledger."]);
    let takes = hot_takes(&vec![entry(1, Some("win")), entry(2, None)]);
    assert_eq!(
        takes,
        vec![
            "[pickup] [\"03pit\"] by ariadne — reason 1 (win)",
            "[pickup] [\"03pit\"] by ariadne — reason 2 (pending)",
        ]
    );
    let many: Vec<LedgerEntry> = (0..15).map(|n| entry(n, None)).collect();
    let takes = hot_takes(&many);
    assert_eq!(takes.len(), 10);
    assert!(takes[9].contains("reason 9"));
}

#[test]
fn league_selection_and_messages() {
    let leagues = vec![league("a"), league("b"), league("a")];
    assert_eq!(select_leagues(&leagues, None), vec![0, 1, 2]);
    assert_eq!(select_leagues(&leagues, Some(&LeagueId::new("a"))), vec![0, 2]);
    assert!(select_leagues(&leagues, Some(&LeagueId::new("z"))).is_empty());
    assert_eq!(no_matching_league_message(&leagues), "no matching league found (configured: a, b, a)");
    assert_eq!(no_matching_league_message(&vec![]), "no matching league found (configured: )");
}

fn batter_line(id: u64) -> BatterLine {
    BatterLine {
        player_id: id,
        name: "Bat".into(),
        position: "C".into(),
        at_bats: 3,
        runs: 0,
        hits: 1,
        doubles: 0,
        triples: 0,
        home_runs: 0,
        rbi: 0,
        walks: 0,
        strikeouts: 1,
        stolen_bases: 0,
        avg: ".250".into(),
    }
}

fn pitcher_line(id: u64) -> PitcherLine {
    PitcherLine {
        player_id: id,
        name: "Arm".into(),
        innings_pitched: "2.0".into(),
        hits: 1,
        runs: 0,
        earned_runs: 0,
        walks: 0,
        strikeouts: 3,
        home_runs: 0,
        pitches_thrown: 30,
        strikes: 20,
        era: "3.00".into(),
        decision: None,
    }
}

#[test]
fn snippet_lookup_prefers_batting() {
    let bs = Boxscore {
        game_pk: 1,
        away_team_name: "Dodgers".into(),
        home_team_name: "Padres".into(),
        away_batters: vec![],
        home_batters: vec![batter_line(7)],
        away_pitchers: vec![pitcher_line(7), pitcher_line(8)],
        home_pitchers: vec![],
    };
    assert!(matches!(find_game_line(&bs, 7), Some(GameLine::Batting(l)) if l.player_id == 7));
    assert!(matches!(find_game_line(&bs, 8), Some(GameLine::Pitching(l)) if l.player_id == 8));
    assert!(find_game_line(&bs, 9).is_none());
    assert_eq!(game_label(&bs), "Dodgers @ Padres");
    assert!(is_final_status("Final"));
    assert!(!is_final_status("Live"));
    assert_eq!(no_game_message("Shohei Ohtani", "2026-06-09"), "Shohei Ohtani did not appear in any game on 2026-06-09");
}

#[test]
fn starter_hands() {
    assert_eq!(starter_throws(&Some("L".into()), Some("R".into())), "L");
    assert_eq!(starter_throws(&None, Some("R".into())), "R");
    assert_eq!(starter_throws(&None, None), "Unknown");
}

#[test]
fn lineup_tool_helpers() {
    assert_eq!(
        unresolved_id_error(),
        "no MLB ID for this Fantrax player ID (Fantrax→MLB crosswalk pending, see #11)"
    );
    assert_eq!(lookup_failed_error("HTTP error: timeout"), "MLB lookup failed: HTTP error: timeout");
    assert_eq!(
        team_not_in_period_message(&TeamId::new("t1"), &LeagueId::new("abc"), "current"),
        "team 't1' not found in league 'abc' for period 'current'"
    );
    let recs = vec![
        StartSitRecommendation {
            player_name: "A".into(),
            player_id: PlayerId::new("1"),
            recommendation: Recommendation::Sit,
            reason: String::new(),
            opposing_pitcher: None,
            matchup_advantage: Some(MatchupAdvantage::Disadvantage),
        },
        StartSitRecommendation {
            player_name: "B".into(),
            player_id: PlayerId::new("2"),
            recommendation: Recommendation::Start,
            reason: String::new(),
            opposing_pitcher: None,
            matchup_advantage: Some(MatchupAdvantage::Platoon),
        },
    ];
    let all = recommendations_for_slots(recs.iter().map(|r| r.clone()).collect(), None);
    assert_eq!(all[0].player_name, "A");
    let one = recommendations_for_slots(recs, Some(1));
    assert_eq!(one.len(), 1);
    assert_eq!(one[0].player_name, "B");
}

#[test]
fn projection_name_filter() {
    assert_eq!(name_filter(Some("JUDGE")).as_deref(), Some("judge"));
    assert_eq!(name_filter(None), None);
    assert!(name_matches("Aaron Judge", "judge"));
    assert!(name_matches("Cristopher Sánchez", "sánchez"));
    assert!(!name_matches("Aaron Judge", "ohtani"));
    assert!(name_matches("Anyone", ""));
}

#[test]
fn dates_parse_or_default() {
    let today = CalendarDate { year: 2026, month: 6, day: 10 };
    assert_eq!(parse_date_or_today(None, today), Ok(today));
    assert_eq!(parse_date_or_today(Some("2024-02-29"), today), Ok(CalendarDate { year: 2024, month: 2, day: 29 }));
    let err = parse_date_or_today(Some("06/10/2026"), today).unwrap_err();
    assert!(err.starts_with("invalid date format (use YYYY-MM-DD): "), "{err}");
    assert!(parse_date_or_today(Some("2025-02-29"), today).is_err());
}

#[test]
fn previous_days_cross_boundaries() {
    let d = CalendarDate { year: 2026, month: 6, day: 10 };
    assert_eq!(d.previous_day(), CalendarDate { year: 2026, month: 6, day: 9 });
    let d = CalendarDate { year: 2024, month: 3, day: 1 };
    assert_eq!(d.previous_day(), CalendarDate { year: 2024, month: 2, day: 29 });
    let d = CalendarDate { year: 2026, month: 1, day: 1 };
    assert_eq!(d.previous_day(), CalendarDate { year: 2025, month: 12, day: 31 });
}

#[test]
fn database_path_expansion() {
    let cfg = ServerConfig { port: 3001, db_path: "~/data/fantrax.db".into() };
    assert_eq!(cfg.resolved_db_path(Some("/home/me")), "/home/me/data/fantrax.db");
    assert_eq!(cfg.resolved_db_path(Some("/home/me/")), "/home/me/data/fantrax.db");
    assert_eq!(cfg.resolved_db_path(None), "~/data/fantrax.db");
    let abs = ServerConfig { port: 3001, db_path: "/var/lib/fantrax.db".into() };
    assert_eq!(abs.resolved_db_path(Some("/home/me")), "/var/lib/fantrax.db");
    let odd = ServerConfig { port: 3001, db_path: "~//etc/x.db".into() };
    assert_eq!(odd.resolved_db_path(Some("/home/me")), "/etc/x.db");
}

fn roster_player(id: &str, name: &str) -> RosterPlayer {
    RosterPlayer {
        player_id: PlayerId::new(id),
        name: name.into(),
        position: "2B".into(),
        roster_status: "Active".into(),
    }
}

#[test]
fn lineup_never_reads_a_fantrax_id_as_an_mlb_id() {
    // An all-digit Fantrax ID names a Fantrax player, not MLB person 660271.
    let players = vec![
        roster_player("660271", "Luis Arraez"),
        roster_player("03pit", "Some Pitcher"),
        roster_player("", "No Id"),
    ];
    let (resolved, unresolved) = resolve_lineup_players(&players);
    assert!(resolved.is_empty());
    let names: Vec<&str> = unresolved.iter().map(|p| p.name.as_str()).collect();
    assert_eq!(names, vec!["Luis Arraez", "Some Pitcher", "No Id"]);
    assert_eq!(unresolved[0].player_id.as_str(), "660271");
}

#[test]
fn lineup_of_an_empty_roster_resolves_nothing() {
    let (resolved, unresolved) = resolve_lineup_players(&[]);
    assert!(resolved.is_empty());
    assert!(unresolved.is_empty());
}
