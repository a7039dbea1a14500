use fantrax_mcp::fantrax::{
    extract_roster_player, parse_league_name, parse_leagues, parse_player_ids, parse_standings,
    parse_team_rosters, sanitize_http_error, FantraxError,
};
use fantrax_mcp::json::{json_get, json_u32, Json, JsonNumber};
use fantrax_mcp::mlb::{
    order_keys_of, parse_batter_lines, parse_boxscore, parse_pitcher_lines, parse_player,
    parse_schedule, stable_by_group, val_str, val_u32, MlbError,
};
use fantrax_mcp::projections::{
    parse_projection_rows, projection_source, projection_ttl, ProjectionError,
};

fn num(n: u64) -> Json {
    Json::Number(JsonNumber { as_u64: Some(n), float_as_u32: n as u32, fixed3: format!("{:.3}", n as f64) })
}

fn float(x: f64) -> Json {
    Json::Number(JsonNumber { as_u64: None, float_as_u32: x as u32, fixed3: format!("{:.3}", x) })
}

fn s(t: &str) -> Json {
    Json::Str(t.to_string())
}

fn obj(fields: Vec<(&str, Json)>) -> Json {
    Json::Object(fields.into_iter().map(|(k, v)| (k.to_string(), v)).collect())
}

fn arr(items: Vec<Json>) -> Json {
    Json::Array(items)
}

fn api_message(r: Result<impl std::fmt::Debug, MlbError>) -> String {
    match r {
        Err(MlbError::Api(m)) => m,
        other => panic!("expected an API error, got {other:?}"),
    }
}

// ─── MLB Stats API ──────────────────────────────────────────────────────────

#[test]
fn schedule_reads_games_across_dates() {
    let resp = obj(vec![(
        "dates",
        arr(vec![
            obj(vec![
                ("date", s("2026-06-10")),
                (
                    "games",
                    arr(vec![obj(vec![
                        ("gamePk", num(745804)),
                        ("status", obj(vec![("abstractGameState", s("Final")), ("detailedState", s("Final"))])),
                        (
                            "teams",
                            obj(vec![
                                (
                                    "away",
                                    obj(vec![
                                        ("team", obj(vec![("id", num(119)), ("name", s("Los Angeles Dodgers"))])),
                                        (
                                            "probablePitcher",
                                            obj(vec![
                                                ("id", num(808967)),
                                                ("fullName", s("Yoshinobu Yamamoto")),
                                                ("pitchHand", obj(vec![("code", s("R"))])),
                                            ]),
                                        ),
                                    ]),
                                ),
                                ("home", obj(vec![("team", obj(vec![("id", num(135)), ("name", s("San Diego Padres"))]))])),
                            ]),
                        ),
                    ])]),
                ),
            ]),
            obj(vec![("date", s("2026-06-11"))]),
            obj(vec![("games", arr(vec![obj(vec![("teams", obj(vec![("away", obj(vec![("probablePitcher", obj(vec![("fullName", s("No Id"))]))]))]))])]))]),
        ]),
    )]);
    let games = parse_schedule(&resp).unwrap();
    assert_eq!(games.len(), 2);
    let g = &games[0];
    assert_eq!(g.game_pk, 745804);
    assert_eq!(g.game_date, "2026-06-10");
    assert_eq!(g.status, "Final");
    assert_eq!(g.detailed_state, "Final");
    assert_eq!(g.away_team.id, 119);
    assert_eq!(g.home_team.name, "San Diego Padres");
    let p = g.away_probable_pitcher.as_ref().unwrap();
    assert_eq!((p.id, p.full_name.as_str(), p.pitch_hand.as_deref()), (808967, "Yoshinobu Yamamoto", Some("R")));
    assert!(g.home_probable_pitcher.is_none());
    // Defaults for an entry with no date and a game with nothing in it.
    let d = &games[1];
    assert_eq!(d.game_date, "unknown");
    assert_eq!(d.game_pk, 0);
    assert_eq!(d.status, "Unknown");
    assert_eq!(d.detailed_state, "Unknown");
    assert_eq!((d.away_team.id, d.away_team.name.as_str()), (0, "Unknown"));
    // A probable pitcher without an ID is no probable pitcher.
    assert!(d.away_probable_pitcher.is_none());
}

#[test]
fn schedule_without_dates_is_an_error() {
    assert_eq!(api_message(parse_schedule(&obj(vec![]))), "missing 'dates' array in schedule response");
    assert_eq!(
        api_message(parse_schedule(&obj(vec![("dates", s("today"))]))),
        "missing 'dates' array in schedule response"
    );
    assert!(parse_schedule(&obj(vec![("dates", arr(vec![]))])).unwrap().is_empty());
}

#[test]
fn player_reads_first_person() {
    let resp = obj(vec![(
        "people",
        arr(vec![
            obj(vec![
                ("id", num(660271)),
                ("fullName", s("Shohei Ohtani")),
                ("primaryPosition", obj(vec![("abbreviation", s("TWP"))])),
                ("batSide", obj(vec![("code", s("L"))])),
                ("pitchHand", obj(vec![("code", s("R"))])),
                ("currentTeam", obj(vec![("id", num(119)), ("name", s("Los Angeles Dodgers"))])),
            ]),
            obj(vec![("id", num(1))]),
        ]),
    )]);
    let p = parse_player(&resp).unwrap();
    assert_eq!(p.id, 660271);
    assert_eq!(p.full_name, "Shohei Ohtani");
    assert_eq!(p.primary_position, "TWP");
    assert_eq!(p.bat_side, "L");
    assert_eq!(p.pitch_hand, "R");
    assert_eq!(p.current_team.as_deref(), Some("Los Angeles Dodgers"));
    assert_eq!(p.current_team_id, Some(119));

    let bare = parse_player(&obj(vec![("people", arr(vec![obj(vec![])]))])).unwrap();
    assert_eq!((bare.id, bare.full_name.as_str(), bare.bat_side.as_str()), (0, "Unknown", "Unknown"));
    assert_eq!(bare.current_team, None);
    assert_eq!(bare.current_team_id, None);
}

#[test]
fn player_errors() {
    assert_eq!(api_message(parse_player(&obj(vec![]))), "missing 'people' array in player response");
    assert_eq!(api_message(parse_player(&obj(vec![("people", arr(vec![]))]))), "empty 'people' array");
}

fn batter(id: u64, name: &str, ab: Json, bb: Json, h: Json) -> Json {
    obj(vec![
        ("person", obj(vec![("id", num(id)), ("fullName", s(name))])),
        ("position", obj(vec![("abbreviation", s("LF"))])),
        (
            "stats",
            obj(vec![(
                "batting",
                obj(vec![
                    ("atBats", ab),
                    ("baseOnBalls", bb),
                    ("hits", h),
                    ("homeRuns", s("2")),
                    ("rbi", float(3.9)),
                    ("avg", s(".333")),
                ]),
            )]),
        ),
    ])
}

fn pitcher(id: u64, name: &str, ip: Json) -> Json {
    obj(vec![
        ("person", obj(vec![("id", num(id)), ("fullName", s(name))])),
        (
            "stats",
            obj(vec![(
                "pitching",
                obj(vec![("inningsPitched", ip), ("strikeOuts", num(7)), ("era", float(2.5)), ("note", s("(W, 5-2)"))]),
            )]),
        ),
    ])
}

fn team_box() -> Json {
    obj(vec![
        ("team", obj(vec![("name", s("Los Angeles Dodgers"))])),
        ("battingOrder", arr(vec![num(2), s("ID1"), Json::Null])),
        ("pitchers", arr(vec![num(9), num(8)])),
        (
            "players",
            obj(vec![
                ("ID1", batter(1, "Starter One", num(4), num(0), num(1))),
                ("ID2", batter(2, "Starter Two", num(3), num(1), num(2))),
                ("ID3", batter(3, "Pinch Hitter", num(1), num(0), num(0))),
                ("ID4", batter(4, "Bench", num(0), num(0), num(0))),
                ("ID5", batter(5, "Walked", num(0), num(1), num(0))),
                ("ID7", pitcher(7, "Mop Up", s("1.0"))),
                ("ID8", pitcher(8, "Closer", s("1.0"))),
                ("ID9", pitcher(9, "Starter Arm", s("6.1"))),
                ("ID10", pitcher(10, "Unused", s("0"))),
                ("ID11", pitcher(11, "Blank", s(""))),
            ]),
        ),
    ])
}

#[test]
fn batting_lines_put_starters_first() {
    let lines = parse_batter_lines(&team_box());
    let names: Vec<&str> = lines.iter().map(|l| l.name.as_str()).collect();
    assert_eq!(names, vec!["Starter One", "Starter Two", "Pinch Hitter", "Walked"]);
    let one = &lines[0];
    assert_eq!((one.player_id, one.at_bats, one.hits, one.walks), (1, 4, 1, 0));
    assert_eq!(one.position, "LF");
    assert_eq!(one.home_runs, 2); // read from a string
    assert_eq!(one.rbi, 3); // read from a float, truncated
    assert_eq!(one.runs, 0); // absent
    assert_eq!(one.avg, ".333");
    assert!(parse_batter_lines(&obj(vec![])).is_empty());
}

#[test]
fn pitching_lines_follow_the_pitchers_list() {
    let lines = parse_pitcher_lines(&team_box());
    let names: Vec<&str> = lines.iter().map(|l| l.name.as_str()).collect();
    assert_eq!(names, vec!["Starter Arm", "Closer", "Mop Up"]);
    let first = &lines[0];
    assert_eq!(first.innings_pitched, "6.1");
    assert_eq!(first.strikeouts, 7);
    assert_eq!(first.era, "2.500");
    assert_eq!(first.decision.as_deref(), Some("(W, 5-2)"));
    assert_eq!(first.hits, 0);
}

#[test]
fn boxscore_reads_both_teams_and_errors() {
    let resp = obj(vec![("teams", obj(vec![("away", team_box()), ("home", obj(vec![]))]))]);
    let b = parse_boxscore(745804, &resp).unwrap();
    assert_eq!(b.game_pk, 745804);
    assert_eq!(b.away_team_name, "Los Angeles Dodgers");
    assert_eq!(b.home_team_name, "Home");
    assert_eq!(b.away_batters.len(), 4);
    assert_eq!(b.away_pitchers.len(), 3);
    assert!(b.home_batters.is_empty() && b.home_pitchers.is_empty());

    assert_eq!(api_message(parse_boxscore(1, &obj(vec![]))), "missing 'teams' in boxscore response");
    assert_eq!(
        api_message(parse_boxscore(1, &obj(vec![("teams", obj(vec![("home", obj(vec![]))]))]))),
        "missing 'away' in boxscore teams"
    );
    assert_eq!(
        api_message(parse_boxscore(1, &obj(vec![("teams", obj(vec![("away", obj(vec![]))]))]))),
        "missing 'home' in boxscore teams"
    );
}

#[test]
fn stat_readers() {
    let stats = obj(vec![
        ("a", num(12)),
        ("b", s("7")),
        ("c", s("x7")),
        ("d", float(9.99)),
        ("e", Json::Bool(true)),
        ("f", num(4294967298)),
    ]);
    assert_eq!(val_u32(&stats, "a"), 12);
    assert_eq!(val_u32(&stats, "b"), 7);
    assert_eq!(val_u32(&stats, "c"), 0);
    assert_eq!(val_u32(&stats, "d"), 9);
    assert_eq!(val_u32(&stats, "e"), 0);
    assert_eq!(val_u32(&stats, "f"), 2); // truncated to 32 bits
    assert_eq!(val_u32(&stats, "missing"), 0);
    assert_eq!(val_str(&stats, "b"), "7");
    assert_eq!(val_str(&stats, "d"), "9.990");
    assert_eq!(val_str(&stats, "e"), "");
    assert_eq!(val_str(&stats, "missing"), "");
}

#[test]
fn order_keys_and_grouping() {
    let team = obj(vec![("battingOrder", arr(vec![num(660271), s("ID5"), float(1.5), Json::Null]))]);
    assert_eq!(order_keys_of(&team, "battingOrder"), vec!["ID660271".to_string(), "ID5".to_string()]);
    assert!(order_keys_of(&team, "pitchers").is_empty());
    let rows = vec![(2, 10), (0, 11), (5, 12), (1, 13), (0, 14), (9, 15)];
    assert_eq!(stable_by_group(&rows, 2), vec![11, 14, 13, 10, 12, 15]);
    assert_eq!(stable_by_group(&rows, 0), vec![10, 11, 12, 13, 14, 15]);
}

#[test]
fn mlb_error_messages() {
    assert_eq!(MlbError::Api("bad shape".into()).to_string(), "MLB Stats API error: bad shape");
}

// ─── Fantrax ───────────────────────────────────────────────────────────────

#[test]
fn rosters_read_teams_and_players() {
    let resp = obj(vec![(
        "rosters",
        arr(vec![
            obj(vec![
                ("teamId", s("t1")),
                ("teamName", s("Sluggers")),
                (
                    "players",
                    arr(vec![
                        obj(vec![("playerId", s("03pit")), ("name", s("Shohei Ohtani")), ("position", s("UT")), ("rosterStatus", s("ACTIVE"))]),
                        obj(vec![("id", s("04ru7")), ("playerName", s("Manny Machado")), ("pos", s("3B"))]),
                        obj(vec![("playerId", num(5)), ("id", s("ignored"))]),
                        obj(vec![("name", s("No Id"))]),
                    ]),
                ),
            ]),
            obj(vec![("team_id", s("t2")), ("roster", arr(vec![]))]),
            obj(vec![("teamName", s("No Id"))]),
        ]),
    )]);
    let teams = parse_team_rosters(&resp);
    assert_eq!(teams.len(), 2);
    assert_eq!(teams[0].team_id.as_str(), "t1");
    assert_eq!(teams[0].team_name, "Sluggers");
    assert_eq!(teams[0].players.len(), 2);
    let p = &teams[0].players[1];
    assert_eq!(p.player_id.as_str(), "04ru7");
    assert_eq!(p.name, "Manny Machado");
    assert_eq!(p.position, "3B");
    assert_eq!(p.roster_status, "Active");
    assert_eq!(teams[1].team_name, "Unknown");
    assert!(teams[1].players.is_empty());

    let nested = obj(vec![("data", obj(vec![("rosters", arr(vec![obj(vec![("teamId", s("t9"))])]))]))]);
    assert_eq!(parse_team_rosters(&nested)[0].team_id.as_str(), "t9");
    assert!(parse_team_rosters(&obj(vec![("rosters", s("none"))])).is_empty());
    assert!(extract_roster_player(&obj(vec![("player_id", s(""))])).is_some());
}

#[test]
fn leagues_read_ids_and_names() {
    let resp = obj(vec![(
        "leagues",
        arr(vec![
            obj(vec![("leagueId", s("abc")), ("leagueName", s("Ho Ho Homers"))]),
            obj(vec![("leagueName", s("no id"))]),
            obj(vec![("league_id", s("def")), ("name", s("Second"))]),
            obj(vec![("leagueId", s("ghi"))]),
        ]),
    )]);
    let listing = parse_leagues(&resp, "{}").unwrap();
    assert!(!listing.path.under_data);
    assert_eq!(listing.path.key, "leagues");
    let got: Vec<(usize, &str, &str)> =
        listing.leagues.iter().map(|l| (l.index, l.id.as_str(), l.name.as_str())).collect();
    assert_eq!(got, vec![(0, "abc", "Ho Ho Homers"), (2, "def", "Second"), (3, "ghi", "Unknown")]);

    let nested = obj(vec![("data", obj(vec![("leagues", arr(vec![]))]))]);
    let listing = parse_leagues(&nested, "{}").unwrap();
    assert!(listing.path.under_data);
    assert!(listing.leagues.is_empty());

    match parse_leagues(&obj(vec![("oops", Json::Null)]), "{\"oops\":null}") {
        Err(FantraxError::Api(m)) => assert_eq!(m, "unexpected getLeagues response shape: {\"oops\":null}"),
        other => panic!("expected an API error, got {other:?}"),
    }
}

#[test]
fn league_name_fallbacks() {
    assert_eq!(parse_league_name(&obj(vec![("leagueName", s("A")), ("name", s("B"))])), "A");
    assert_eq!(parse_league_name(&obj(vec![("name", s("B"))])), "B");
    assert_eq!(parse_league_name(&obj(vec![("data", obj(vec![("name", s("C"))]))])), "C");
    assert_eq!(parse_league_name(&obj(vec![("leagueName", num(3)), ("name", s("B"))])), "Unknown");
    assert_eq!(parse_league_name(&obj(vec![])), "Unknown");
}

#[test]
fn standings_read_counts() {
    let resp = obj(vec![(
        "teams",
        arr(vec![
            obj(vec![
                ("teamId", s("t1")),
                ("name", s("First")),
                ("rk", num(1)),
                ("wins", s("10")),
                ("w", num(99)),
                ("losses", s("n/a")),
                ("l", float(4.8)),
                ("draws", num(2)),
            ]),
            obj(vec![("teamName", s("skipped"))]),
            obj(vec![("team_id", s("t2"))]),
        ]),
    )]);
    let listing = parse_standings(&resp);
    assert!(!listing.path.under_data);
    assert_eq!(listing.path.key, "teams");
    assert_eq!(listing.rows.len(), 2);
    let r = &listing.rows[0];
    assert_eq!((r.index, r.team_id.as_str(), r.team_name.as_str()), (0, "t1", "First"));
    assert_eq!((r.rank, r.wins, r.losses, r.ties), (1, 10, 4, 2));
    let r = &listing.rows[1];
    assert_eq!((r.index, r.team_name.as_str(), r.rank, r.wins), (2, "Unknown", 0, 0));

    let empty = parse_standings(&obj(vec![]));
    assert!(empty.path.under_data);
    assert_eq!(empty.path.key, "standings");
    assert!(empty.rows.is_empty());
}

#[test]
fn counts_try_each_key() {
    let e = obj(vec![("a", s("x")), ("b", num(5))]);
    assert_eq!(json_u32(&e, &vec!["a", "b"]), Some(5));
    assert_eq!(json_u32(&e, &vec!["c"]), None);
    assert!(json_get(&e, "b").is_some());
}

#[test]
fn player_ids_from_array_or_object() {
    let resp = obj(vec![(
        "playerIds",
        arr(vec![
            obj(vec![("playerId", s("03pit")), ("name", s("Shohei Ohtani"))]),
            obj(vec![("id", s("04ru7")), ("playerName", s("Manny Machado"))]),
            obj(vec![("name", s("no id"))]),
        ]),
    )]);
    let ids = parse_player_ids(&resp);
    let got: Vec<(&str, &str)> = ids.iter().map(|p| (p.id.as_str(), p.name.as_str())).collect();
    assert_eq!(got, vec![("03pit", "Shohei Ohtani"), ("04ru7", "Manny Machado")]);

    let map = obj(vec![("players", obj(vec![("03pit", s("Shohei Ohtani")), ("x", num(1))]))]);
    let ids = parse_player_ids(&map);
    let got: Vec<(&str, &str)> = ids.iter().map(|p| (p.id.as_str(), p.name.as_str())).collect();
    assert_eq!(got, vec![("03pit", "Shohei Ohtani"), ("x", "Unknown")]);

    assert!(parse_player_ids(&obj(vec![("playerIds", s("nope"))])).is_empty());
}

#[test]
fn http_errors_are_sanitized() {
    assert_eq!(sanitize_http_error(Some("404 Not Found"), true, true, true), "HTTP 404 Not Found");
    assert_eq!(sanitize_http_error(None, true, true, true), "request timed out");
    assert_eq!(sanitize_http_error(None, false, true, true), "connection failed");
    assert_eq!(sanitize_http_error(None, false, false, true), "response decode error");
    assert_eq!(sanitize_http_error(None, false, false, false), "request failed");
    assert_eq!(FantraxError::Http("request failed".into()).to_string(), "HTTP error: request failed");
    assert_eq!(FantraxError::Api("x".into()).to_string(), "Fantrax API error: x");
}

// ─── Projections ───────────────────────────────────────────────────────────

#[test]
fn parse_empty_splits_returns_empty_vec() {
    let resp = obj(vec![(
        "stats",
        arr(vec![obj(vec![("splits", arr(vec![])), ("type", obj(vec![])), ("group", obj(vec![]))])]),
    )]);
    let batters = parse_projection_rows(&resp, "{}").unwrap();
    assert!(batters.is_empty());

    let pitchers = parse_projection_rows(&resp, "{}").unwrap();
    assert!(pitchers.is_empty());
}

#[test]
fn parse_malformed_response_returns_error() {
    let resp = obj(vec![("unexpected", Json::Bool(true))]);
    assert!(parse_projection_rows(&resp, "{\"unexpected\":true}").is_err());
    assert!(parse_projection_rows(&resp, "{\"unexpected\":true}").is_err());
}

#[test]
fn projection_rows_pick_named_players() {
    let split = |name: Option<&str>, team: Option<Json>, stat: bool| {
        let mut fields = vec![];
        if let Some(n) = name {
            fields.push(("player", obj(vec![("fullName", s(n))])));
        }
        if let Some(t) = team {
            fields.push(("team", t));
        }
        if stat {
            fields.push(("stat", obj(vec![("war", float(4.49))])));
        }
        obj(fields)
    };
    let resp = obj(vec![(
        "stats",
        arr(vec![obj(vec![(
            "splits",
            arr(vec![
                split(Some("Aaron Judge"), None, true),
                split(None, None, true),
                split(Some("No Stat"), None, false),
                split(Some("Bobby Witt Jr."), Some(obj(vec![("abbreviation", s("KC"))])), true),
                split(Some("Shohei Ohtani"), Some(obj(vec![("name", s("Dodgers"))])), true),
            ]),
        )])]),
    )]);
    let rows = parse_projection_rows(&resp, "{}").unwrap();
    let got: Vec<(usize, &str, &str)> =
        rows.iter().map(|r| (r.index, r.player_name.as_str(), r.team.as_str())).collect();
    assert_eq!(got, vec![(0, "Aaron Judge", ""), (3, "Bobby Witt Jr.", "KC"), (4, "Shohei Ohtani", "Dodgers")]);
}

#[test]
fn projection_error_quotes_at_most_300_characters() {
    let shape = "x".repeat(400);
    match parse_projection_rows(&obj(vec![("stats", arr(vec![]))]), &shape) {
        Err(ProjectionError::Parse(m)) => {
            assert_eq!(m, format!("unexpected MLB API response structure: {}", "x".repeat(300)));
        }
        other => panic!("expected a parse error, got {other:?}"),
    }
    match parse_projection_rows(&obj(vec![]), "{}") {
        Err(e) => assert_eq!(e.to_string(), "MLB Stats API parse error: unexpected MLB API response structure: {}"),
        Ok(_) => panic!("expected an error"),
    }
}

#[test]
fn projection_settings() {
    assert_eq!(projection_source("projected_Zips".into()), "projected_Zips");
    assert_eq!(projection_source("projectedRos".into()), "projectedRos");
    for system in ["steamer", "zips", "atc", "thebat", "thebatx"] {
        assert_eq!(projection_source(system.into()), system);
    }
    assert_eq!(projection_source("foo".into()), "projected_ZipsRos");
    assert_eq!(projection_source("Steamer".into()), "projected_ZipsRos");
    assert_eq!(projection_source(String::new()), "projected_ZipsRos");
    assert_eq!(projection_ttl(0), 86400);
    assert_eq!(projection_ttl(6), 21600);
}
