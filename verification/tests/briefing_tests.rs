use fantrax_mcp::analysis::{MatchupAdvantage, Recommendation, StartSitRecommendation};
use fantrax_mcp::briefing::{
    any_resolvable, boxscore_fetch, find_batter_line, find_pitcher_line, find_team,
    format_batter_snippet, format_injury_line, format_pitcher_snippet, injury_line_for,
    is_bench_code, is_bench_or_il_slot, is_injured_status, is_injury_code, merge_unresolved, partition_resolvable, resolve_mlb_id,
    snippets_from_boxscores, team_not_found_message, unresolved_note, what_to_do_items,
    BriefingError, InningsBand, Urgency,
};
use fantrax_mcp::config::LineupType;
use fantrax_mcp::fantrax::{FantraxError, RosterPlayer, TeamRoster};
use fantrax_mcp::mlb::{BatterLine, Boxscore, MlbError, PitcherLine};
use fantrax_mcp::types::{PlayerId, TeamId};

/// The innings band of an innings-pitched figure ("6.1" is 6⅓ innings).
fn band_of(ip: &str) -> InningsBand {
    let parts: Vec<&str> = ip.split('.').collect();
    let innings: f64 = if parts.len() == 2 {
        let whole: f64 = parts[0].parse().unwrap_or(0.0);
        let frac: f64 = parts[1].parse().unwrap_or(0.0);
        if frac > 2.0 {
            ip.parse().unwrap_or(whole)
        } else {
            whole + frac / 3.0
        }
    } else {
        ip.parse().unwrap_or(0.0)
    };
    if innings >= 8.0 {
        InningsBand::EightOrMore
    } else if innings >= 6.0 {
        InningsBand::SixToEight
    } else {
        InningsBand::BelowSix
    }
}

fn band_of_string(ip: &String) -> InningsBand {
    band_of(ip.as_str())
}

#[test]
fn batter_snippet_basic() {
    let line = BatterLine {
        player_id: 1,
        name: "Test Player".into(),
        position: "SS".into(),
        at_bats: 4,
        runs: 1,
        hits: 2,
        doubles: 1,
        triples: 0,
        home_runs: 0,
        rbi: 1,
        walks: 0,
        strikeouts: 1,
        stolen_bases: 0,
        avg: ".300".into(),
    };
    let (formatted, notable) = format_batter_snippet(&line);
    assert_eq!(formatted, "2-4, 2B, 1 RBI, 1 R");
    assert!(!notable);
}

#[test]
fn batter_snippet_notable_hr() {
    let line = BatterLine {
        player_id: 1,
        name: "Slugger".into(),
        position: "1B".into(),
        at_bats: 4,
        runs: 2,
        hits: 2,
        doubles: 0,
        triples: 0,
        home_runs: 1,
        rbi: 3,
        walks: 1,
        strikeouts: 1,
        stolen_bases: 0,
        avg: ".280".into(),
    };
    let (formatted, notable) = format_batter_snippet(&line);
    assert!(formatted.contains("HR"));
    assert!(formatted.contains("3 RBI"));
    assert!(notable);
}

#[test]
fn batter_snippet_notable_3hits() {
    let line = BatterLine {
        player_id: 1,
        name: "Contact".into(),
        position: "CF".into(),
        at_bats: 5,
        runs: 2,
        hits: 3,
        doubles: 1,
        triples: 0,
        home_runs: 0,
        rbi: 1,
        walks: 0,
        strikeouts: 0,
        stolen_bases: 1,
        avg: ".310".into(),
    };
    let (_, notable) = format_batter_snippet(&line);
    assert!(notable);
}

#[test]
fn pitcher_snippet_quality_start() {
    let line = PitcherLine {
        player_id: 1,
        name: "Ace".into(),
        innings_pitched: "7.0".into(),
        hits: 5,
        runs: 2,
        earned_runs: 2,
        walks: 1,
        strikeouts: 8,
        home_runs: 0,
        pitches_thrown: 98,
        strikes: 65,
        era: "2.50".into(),
        decision: Some("W".into()),
    };
    let (formatted, notable) = format_pitcher_snippet(&line, band_of(&line.innings_pitched));
    assert!(formatted.contains("7.0 IP"));
    assert!(formatted.contains("8 K"));
    assert!(notable); // QS: 7 IP, 2 ER
}

#[test]
fn pitcher_snippet_10k() {
    let line = PitcherLine {
        player_id: 1,
        name: "Strikeout King".into(),
        innings_pitched: "6.0".into(),
        hits: 4,
        runs: 3,
        earned_runs: 3,
        walks: 2,
        strikeouts: 11,
        home_runs: 1,
        pitches_thrown: 110,
        strikes: 72,
        era: "3.20".into(),
        decision: None,
    };
    let (_, notable) = format_pitcher_snippet(&line, band_of(&line.innings_pitched));
    assert!(notable); // 11 K
}

#[test]
fn injury_status_detection() {
    assert!(is_injured_status("IL10"));
    assert!(is_injured_status("IL60"));
    assert!(is_injured_status("DL"));
    assert!(is_injured_status("DTD"));
    assert!(is_injured_status("OUT"));
    assert!(!is_injured_status("Active"));
    assert!(!is_injured_status("Healthy"));
}

#[test]
fn bench_slot_detection() {
    assert!(is_bench_or_il_slot("BN"));
    assert!(is_bench_or_il_slot("Bench"));
    assert!(is_bench_or_il_slot("IL"));
    assert!(!is_bench_or_il_slot("SS"));
    assert!(!is_bench_or_il_slot("OF"));
}

fn fantrax_player(id: &str, name: &str, pos: &str, status: &str) -> RosterPlayer {
    RosterPlayer {
        player_id: PlayerId::new(id),
        name: name.to_string(),
        position: pos.to_string(),
        roster_status: status.to_string(),
    }
}

/// A boxscore containing one away batter with the given MLB person ID.
fn boxscore_with_batter(player_id: u64, name: &str) -> Boxscore {
    Boxscore {
        game_pk: 745804,
        away_team_name: "Los Angeles Dodgers".into(),
        home_team_name: "San Diego Padres".into(),
        away_batters: vec![BatterLine {
            player_id,
            name: name.into(),
            position: "DH".into(),
            at_bats: 4,
            runs: 1,
            hits: 2,
            doubles: 0,
            triples: 0,
            home_runs: 1,
            rbi: 2,
            walks: 0,
            strikeouts: 1,
            stolen_bases: 0,
            avg: ".310".into(),
        }],
        home_batters: vec![],
        away_pitchers: vec![],
        home_pitchers: vec![],
    }
}

#[test]
fn unresolvable_ids_are_skipped_not_reported_as_dnp() {
    let players = vec![
        fantrax_player("03pit", "Shohei Ohtani", "UT", "ACTIVE"),
        fantrax_player("04ru7", "Manny Machado", "3B", "ACTIVE"),
        fantrax_player("05y7s", "Zack Wheeler", "SP", "ACTIVE"),
    ];

    let (snippets, unresolved) = snippets_from_boxscores(&players, &[], &band_of_string);

    assert!(
        snippets.iter().all(|s| s.line != "DNP"),
        "unresolvable players must not be reported as DNP: {snippets:?}"
    );
    assert!(snippets.is_empty(), "no snippets expected: {snippets:?}");
    assert_eq!(unresolved, vec!["Shohei Ohtani", "Manny Machado", "Zack Wheeler"]);
}

#[test]
fn injured_players_get_status_lines_not_unresolved() {
    let players = vec![
        fantrax_player("06jk2", "Mike Trout", "OF", "IL10"),
        fantrax_player("03pit", "Shohei Ohtani", "UT", "ACTIVE"),
    ];

    let (snippets, unresolved) = snippets_from_boxscores(&players, &[], &band_of_string);

    assert_eq!(snippets.len(), 1);
    assert_eq!(snippets[0].player_name, "Mike Trout");
    assert_eq!(snippets[0].line, "IL10");
    assert_eq!(unresolved, vec!["Shohei Ohtani"]);
}

#[test]
fn all_digit_fantrax_id_is_not_parsed_as_mlb_id() {
    let players = vec![fantrax_player("660271", "Luis Arraez", "1B", "ACTIVE")];
    let boxscores = vec![boxscore_with_batter(660271, "Shohei Ohtani")];

    let (snippets, unresolved) = snippets_from_boxscores(&players, &boxscores, &band_of_string);

    assert!(
        snippets.is_empty(),
        "all-digit Fantrax ID must not match an MLB boxscore line: {snippets:?}"
    );
    assert_eq!(unresolved, vec!["Luis Arraez"]);
}

#[test]
fn partition_resolvable_reports_fantrax_ids_including_all_digit_ones() {
    let players = vec![
        fantrax_player("03pit", "Shohei Ohtani", "UT", "ACTIVE"),
        fantrax_player("660271", "Luis Arraez", "1B", "ACTIVE"),
        fantrax_player("06jk2", "Mike Trout", "OF", "IL10"),
    ];

    let (resolved, unresolved) = partition_resolvable(&players);

    assert!(resolved.is_empty(), "no Fantrax ID should resolve to an MLB ID without a crosswalk");
    assert_eq!(unresolved, vec!["Shohei Ohtani", "Luis Arraez"]);
}

#[test]
fn unresolved_note_counts_and_cites_crosswalk_issue() {
    assert_eq!(unresolved_note(&[]), None);

    let one = unresolved_note(&["Shohei Ohtani".to_string()]).unwrap();
    assert!(one.starts_with("1 roster player could not be resolved"), "{one}");
    assert!(one.contains("see #11"), "{one}");

    let names: Vec<String> = ["Shohei Ohtani", "Manny Machado", "Zack Wheeler"]
        .iter()
        .map(|s| s.to_string())
        .collect();
    let three = unresolved_note(&names).unwrap();
    assert!(three.starts_with("3 roster players could not be resolved to MLB IDs"), "{three}");
    assert!(three.contains("Fantrax→MLB crosswalk pending, see #11"), "{three}");
}

#[test]
fn merge_unresolved_dedups_preserving_order() {
    let merged = merge_unresolved(
        vec!["Shohei Ohtani".to_string(), "Manny Machado".to_string()],
        vec![
            "Manny Machado".to_string(),
            "Zack Wheeler".to_string(),
            "Shohei Ohtani".to_string(),
        ],
    );
    assert_eq!(merged, vec!["Shohei Ohtani", "Manny Machado", "Zack Wheeler"]);
}

// ─── Own tests ──────────────────────────────────────────────────────────────

#[test]
fn innings_band_rules_notable_pitching() {
    let mut line = PitcherLine {
        player_id: 7,
        name: "Starter".into(),
        innings_pitched: "5.2".into(),
        hits: 3,
        runs: 0,
        earned_runs: 0,
        walks: 0,
        strikeouts: 4,
        home_runs: 0,
        pitches_thrown: 80,
        strikes: 50,
        era: "1.00".into(),
        decision: None,
    };
    let (text, notable) = format_pitcher_snippet(&line, InningsBand::BelowSix);
    assert_eq!(text, "5.2 IP, 4 K, 3 H, 0 ER");
    assert!(!notable);
    // 6 innings with 4 earned runs is no quality start.
    line.earned_runs = 4;
    assert!(!format_pitcher_snippet(&line, InningsBand::SixToEight).1);
    // 8 innings is notable whatever the runs.
    assert!(format_pitcher_snippet(&line, InningsBand::EightOrMore).1);
    line.walks = 2;
    line.home_runs = 1;
    line.decision = Some("L".into());
    assert_eq!(
        format_pitcher_snippet(&line, InningsBand::BelowSix).0,
        "5.2 IP, (L), 4 K, 3 H, 4 ER, 2 BB, 1 HR"
    );
}

#[test]
fn batter_snippet_counts_and_singulars() {
    let line = BatterLine {
        player_id: 9,
        name: "Speedy".into(),
        position: "CF".into(),
        at_bats: 3,
        runs: 0,
        hits: 2,
        doubles: 2,
        triples: 1,
        home_runs: 2,
        rbi: 0,
        walks: 2,
        strikeouts: 0,
        stolen_bases: 2,
        avg: ".250".into(),
    };
    let (text, notable) = format_batter_snippet(&line);
    assert_eq!(text, "2-3, 2 HR, 2 2B, 3B, 2 BB, 2 SB");
    assert!(notable);
}

#[test]
fn injury_lines() {
    assert_eq!(format_injury_line("IL10"), "IL10");
    assert_eq!(format_injury_line("dtd"), "dtd");
    assert_eq!(format_injury_line("Out"), "Out");
    assert_eq!(format_injury_line("10-day IL"), "IL (10-day IL)");
    assert_eq!(format_injury_line("Day-To-Day (DTD)"), "DTD (Day-To-Day (DTD))");
    assert_eq!(format_injury_line("DL15"), "OUT (DL15)");
}

#[test]
fn line_lookups_search_away_then_home() {
    let mut bs = boxscore_with_batter(5, "Away Guy");
    assert_eq!(find_batter_line(&bs, 5).unwrap().name, "Away Guy");
    assert!(find_batter_line(&bs, 6).is_none());
    assert!(find_pitcher_line(&bs, 5).is_none());
    bs.home_pitchers.push(PitcherLine {
        player_id: 6,
        name: "Home Arm".into(),
        innings_pitched: "1.0".into(),
        hits: 0,
        runs: 0,
        earned_runs: 0,
        walks: 0,
        strikeouts: 2,
        home_runs: 0,
        pitches_thrown: 12,
        strikes: 9,
        era: "0.00".into(),
        decision: Some("S".into()),
    });
    assert_eq!(find_pitcher_line(&bs, 6).unwrap().name, "Home Arm");
}

#[test]
fn team_lookup_and_messages() {
    let teams = vec![
        TeamRoster { team_id: TeamId::new("t1"), team_name: "One".into(), players: vec![] },
        TeamRoster { team_id: TeamId::new("t2"), team_name: "Two".into(), players: vec![] },
    ];
    assert_eq!(find_team(&teams, &TeamId::new("t2")), Some(1));
    assert_eq!(find_team(&teams, &TeamId::new("t3")), None);
    assert_eq!(
        team_not_found_message(&TeamId::new("t3"), "L9"),
        "team 't3' not found in league 'L9'"
    );
}

#[test]
fn nobody_resolves_without_a_crosswalk() {
    let p = fantrax_player("660271", "Luis Arraez", "1B", "ACTIVE");
    assert_eq!(resolve_mlb_id(&p), None);
    assert!(!any_resolvable(&vec![p]));
    assert!(!any_resolvable(&vec![]));
}

#[test]
fn box_scores_fetched_for_final_and_live_games() {
    assert_eq!(boxscore_fetch("Final"), Some(true));
    assert_eq!(boxscore_fetch("Live"), Some(false));
    assert_eq!(boxscore_fetch("Preview"), None);
    assert_eq!(boxscore_fetch("final"), None);
}

fn sit_rec(name: &str, verdict: Recommendation, adv: Option<MatchupAdvantage>) -> StartSitRecommendation {
    StartSitRecommendation {
        player_name: name.into(),
        player_id: PlayerId::new("x"),
        recommendation: verdict,
        reason: format!("because {name}"),
        opposing_pitcher: None,
        matchup_advantage: adv,
    }
}

#[test]
fn what_to_do_depends_on_lineup_type() {
    let players = vec![
        fantrax_player("a", "Hurt Starter", "SS", "IL10"),
        fantrax_player("b", "Hurt Bench", "BN", "DTD"),
        fantrax_player("c", "Healthy", "OF", "Active"),
    ];
    let recs = vec![
        sit_rec("Sitter", Recommendation::Sit, Some(MatchupAdvantage::Disadvantage)),
        sit_rec("Idle", Recommendation::Monitor, None),
        sit_rec("Starter", Recommendation::Start, Some(MatchupAdvantage::Platoon)),
    ];
    let daily = what_to_do_items(&players, LineupType::Daily, &recs);
    assert_eq!(daily.len(), 3);
    assert_eq!(daily[0].urgency, Urgency::Now);
    assert_eq!(daily[0].action, "Move Hurt Starter to IL or bench");
    assert_eq!(daily[0].reason, "Hurt Starter has status 'IL10' but is in an active lineup slot (SS)");
    assert_eq!(daily[1].urgency, Urgency::Soon);
    assert_eq!(daily[1].action, "Consider sitting Sitter");
    assert_eq!(daily[1].reason, "because Sitter");
    assert_eq!(daily[2].urgency, Urgency::Monitor);
    assert_eq!(daily[2].action, "Check Idle — may not have a game today");

    let weekly = what_to_do_items(&players, LineupType::Weekly, &recs);
    assert_eq!(weekly.len(), 2);
    assert_eq!(weekly[1].action, "Review weekly matchup schedule");

    let best = what_to_do_items(&players, LineupType::Bestball, &recs);
    assert_eq!(best.len(), 3);
    assert_eq!(best[1].action, "Monitor Hurt Starter injury status");
    assert_eq!(best[2].reason, "Hurt Bench is DTD — may need to pick up a replacement");
    assert_eq!(what_to_do_items(&players, LineupType::Worstball, &recs).len(), 3);
    assert_eq!(Urgency::Soon.as_str(), "soon");
}

#[test]
fn every_player_accounted_once() {
    let players = vec![
        fantrax_player("1", "A", "C", "Active"),
        fantrax_player("2", "B", "1B", "OUT"),
        fantrax_player("3", "C", "SS", "DTD"),
        fantrax_player("4", "D", "2B", "Active"),
    ];
    let (snippets, unresolved) = snippets_from_boxscores(&players, &[], &band_of_string);
    assert_eq!(snippets.len() + unresolved.len(), players.len());
    assert_eq!(snippets[0].line, "OUT");
    assert_eq!(snippets[1].line, "DTD");
    assert!(snippets.iter().all(|s| !s.notable));
    // The partition reports the same unresolved players.
    assert_eq!(partition_resolvable(&players).1, unresolved);
}

#[test]
fn merge_keeps_first_list_and_adds_new_names() {
    let a = vec!["x".to_string(), "y".to_string()];
    let merged = merge_unresolved(a.clone(), vec!["y".into(), "z".into(), "z".into()]);
    assert_eq!(merged, vec!["x", "y", "z"]);
    assert_eq!(merge_unresolved(vec![], vec![]), Vec::<String>::new());
}

#[test]
fn briefing_error_messages() {
    assert_eq!(BriefingError::Other("boom".into()).to_string(), "briefing error: boom");
    assert_eq!(
        BriefingError::Fantrax(FantraxError::Api("bad".into())).to_string(),
        "Fantrax error: Fantrax API error: bad"
    );
    assert_eq!(
        BriefingError::Mlb(MlbError::Api("x".into())).to_string(),
        "MLB error: MLB Stats API error: x"
    );
    let e: BriefingError = MlbError::Api("y".into()).into();
    assert!(matches!(e, BriefingError::Mlb(MlbError::Api(_))));
}

#[test]
fn injury_codes_are_matched_on_uppercased_text() {
    assert!(is_injury_code("IL10"));
    assert!(is_injury_code("DAY-TO-DAY (DTD)"));
    assert!(is_injury_code("OUT"));
    assert!(is_injury_code("60-DAY DL"));
    assert!(!is_injury_code("il10"));
    assert!(!is_injury_code("ACTIVE"));
    assert!(is_injured_status("il10"));
    assert!(!is_injured_status("active"));
}

#[test]
fn injury_lines_are_chosen_from_the_uppercased_status() {
    assert_eq!(injury_line_for("il10", "IL10"), "il10");
    assert_eq!(injury_line_for("Dtd", "DTD"), "Dtd");
    assert_eq!(injury_line_for("10-day il", "10-DAY IL"), "IL (10-day il)");
    assert_eq!(injury_line_for("Day-to-day dtd", "DAY-TO-DAY DTD"), "DTD (Day-to-day dtd)");
    assert_eq!(injury_line_for("x", "X"), "OUT (x)");
    assert_eq!(format_injury_line("10-day il"), "IL (10-day il)");
}

#[test]
fn bench_codes_are_matched_on_uppercased_text() {
    assert!(is_bench_code("BN"));
    assert!(is_bench_code("BENCH"));
    assert!(is_bench_code("IL"));
    assert!(is_bench_code("DL"));
    assert!(!is_bench_code("bn"));
    assert!(!is_bench_code("SS"));
    assert!(is_bench_or_il_slot("bn"));
    assert!(!is_bench_or_il_slot("ss"));
}

#[test]
fn merge_drops_repeats_within_the_first_list_too() {
    let merged = merge_unresolved(vec!["x".into(), "x".into()], vec![]);
    assert_eq!(merged, vec!["x"]);
    let merged = merge_unresolved(
        vec!["a".into(), "b".into(), "a".into()],
        vec!["c".into(), "b".into(), "d".into(), "c".into()],
    );
    assert_eq!(merged, vec!["a", "b", "c", "d"]);
    assert_eq!(merge_unresolved(vec![], vec!["z".into(), "z".into()]), vec!["z"]);
}

/// An HTTP client error that carries no status and is neither a timeout, a
/// connection failure nor a decode failure: a request with a bad URL.
fn builder_error() -> reqwest::Error {
    reqwest::Client::new().get("not a url").build().unwrap_err()
}

#[test]
fn http_errors_are_sanitized_and_displayed() {
    let e = builder_error();
    assert!(e.status().is_none() && !e.is_timeout() && !e.is_connect() && !e.is_decode());
    match FantraxError::from(builder_error()) {
        FantraxError::Http(m) => assert_eq!(m, "request failed"),
        other => panic!("expected an HTTP error, got {other:?}"),
    }
    let shown = builder_error().to_string();
    assert!(!shown.is_empty());
    assert_eq!(MlbError::Http(builder_error()).to_string(), format!("HTTP error: {shown}"));
    assert_eq!(
        BriefingError::Mlb(MlbError::Http(builder_error())).to_string(),
        format!("MLB error: HTTP error: {shown}")
    );
}
